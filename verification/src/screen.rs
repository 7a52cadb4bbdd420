//! The top-level coordinator: the single authoritative record of what is on
//! screen, and the router that takes every key event to the active
//! category's controller or to the main menu.
//!
//! The machine never performs an external call itself.  Where one is
//! needed it hands an [`Action`] back to its caller: enumerate a category's
//! entries, or start the selected operation on a worker.  The caller feeds
//! the results back through [`ScreenStateMachine::set_category_items`] and
//! the `worker_*` methods, and the machine is verified for every value they
//! hand it.

use vstd::prelude::*;
use crate::controller::CategoryController;
use crate::task::TaskState;
use crate::nav::moved_index;
use crate::amd_gpu::{default_gpu_list, gpu_names};
use crate::audio_test::{default_audio_devices, audio_device_names};
use crate::nvidia_drivers::{get_driver_list, driver_names};

verus! {

/// One diagnostic category.
#[derive(Clone, Copy, Debug, PartialEq, Eq, Structural)]
pub enum CategoryId {
    Disk,
    Gpu,
    DriverInstall,
    Keyboard,
    Gamepad,
    Audio,
    PhotoExport,
    Stress,
}

/// What the display shows.  Exactly one variant is active at any time.
#[derive(Clone, Copy, Debug, PartialEq, Eq, Structural)]
pub enum Screen {
    MainMenu,
    Selecting(CategoryId),
    Running(CategoryId),
    Viewing(CategoryId),
}

/// A key event, already mapped from the terminal's encoding to the few
/// keys the dashboard reacts to.
#[derive(Clone, Copy, Debug, PartialEq, Eq, Structural)]
pub enum Key {
    Up,
    Down,
    Enter,
    /// `q`: cancel the current screen, or quit from the main menu.
    Cancel,
    /// `j`: scroll the output pane down.
    ScrollDown,
    /// `k`: scroll the output pane up.
    ScrollUp,
    /// `s`: start the stress test.
    Stress,
    /// `t`: start the detached stability test.
    Stability,
    Other,
}

/// What the caller must do after a dispatch: nothing, quit, enumerate a
/// category's entries, start the selected operation on a worker, or run the
/// detached stability test.
#[derive(Debug)]
pub enum Action {
    Nothing,
    QuitApp,
    Refresh(CategoryId),
    Start(CategoryId, String),
    RunStability,
}

/// Number of main-menu entries; the last one quits.
pub const MENU_LEN: usize = 9;

/// The category a main-menu entry leads to; the quit entry leads nowhere.
pub open spec fn menu_category(i: int) -> Option<CategoryId> {
    if i == 0 {
        Some(CategoryId::Disk)
    } else if i == 1 || i == 2 {
        Some(CategoryId::Gpu)
    } else if i == 3 {
        Some(CategoryId::PhotoExport)
    } else if i == 4 {
        Some(CategoryId::DriverInstall)
    } else if i == 5 {
        Some(CategoryId::Keyboard)
    } else if i == 6 {
        Some(CategoryId::Gamepad)
    } else if i == 7 {
        Some(CategoryId::Audio)
    } else {
        None
    }
}

/// Whether entering from this menu entry needs an external enumeration.
/// The other categories carry a fixed list of their own.
pub open spec fn menu_refresh_needed(i: int) -> bool {
    i == 0 || i == 5 || i == 6
}

/// The entries a category's selection list starts with when entered from
/// the menu; empty where an external enumeration fills it afterwards.
pub open spec fn menu_initial_items(i: int) -> Seq<Seq<char>> {
    if i == 1 || i == 2 {
        gpu_names()
    } else if i == 4 {
        driver_names()
    } else if i == 7 {
        audio_device_names()
    } else {
        Seq::empty()
    }
}

/// The category that currently owns the display, if any.
pub open spec fn active_category(m: ScreenStateMachine) -> Option<CategoryId> {
    match m.screen {
        Screen::MainMenu => None,
        Screen::Selecting(c) => Some(c),
        Screen::Running(c) => Some(c),
        Screen::Viewing(c) => Some(c),
    }
}

/// A read-only copy of one category's state, taken for drawing one frame.
pub struct CategorySnapshot {
    pub entries: Vec<String>,
    pub selected: usize,
    pub task_state: TaskState,
    pub progress: u16,
    pub output: String,
    pub message: String,
    pub scroll: u16,
}

/// The top-level screen state machine: the main-menu highlight, one
/// controller per category, and the authoritative current screen.
pub struct ScreenStateMachine {
    pub screen: Screen,
    pub menu_index: usize,
    pub disk: CategoryController,
    pub gpu: CategoryController,
    pub drivers: CategoryController,
    pub keyboard: CategoryController,
    pub gamepad: CategoryController,
    pub audio: CategoryController,
    pub photo: CategoryController,
    pub stress: CategoryController,
}

impl ScreenStateMachine {
    /// The controller of a category.
    pub open spec fn cat(self, c: CategoryId) -> CategoryController {
        match c {
            CategoryId::Disk => self.disk,
            CategoryId::Gpu => self.gpu,
            CategoryId::DriverInstall => self.drivers,
            CategoryId::Keyboard => self.keyboard,
            CategoryId::Gamepad => self.gamepad,
            CategoryId::Audio => self.audio,
            CategoryId::PhotoExport => self.photo,
            CategoryId::Stress => self.stress,
        }
    }

    /// Every category but `c` is untouched between the two states.
    pub open spec fn same_cats_except(pre: Self, post: Self, c: CategoryId) -> bool {
        forall|d: CategoryId| d != c ==> #[trigger] post.cat(d) == pre.cat(d)
    }

    /// No category changed between the two states.
    pub open spec fn same_cats(pre: Self, post: Self) -> bool {
        forall|d: CategoryId| #[trigger] post.cat(d) == pre.cat(d)
    }

    /// Machine invariant: the menu highlight is in range, every controller
    /// is well formed, an inactive category holds no task state, and the
    /// stored screen names the one category that owns the display -- in the
    /// matching mode -- while every other category is inactive.
    pub open spec fn wf(self) -> bool {
        &&& self.menu_index < MENU_LEN
        &&& forall|c: CategoryId| (#[trigger] self.cat(c)).wf()
        &&& forall|c: CategoryId|
            !(#[trigger] self.cat(c)).spec_active() ==> self.cat(c).task.state is Idle
        &&& match self.screen {
            Screen::MainMenu => forall|c: CategoryId| !(#[trigger] self.cat(c)).spec_active(),
            Screen::Selecting(c) => {
                &&& self.cat(c).selecting
                &&& forall|d: CategoryId| d != c ==> !(#[trigger] self.cat(d)).spec_active()
            },
            Screen::Running(c) => {
                &&& self.cat(c).viewing
                &&& self.cat(c).task.state is Running
                &&& forall|d: CategoryId| d != c ==> !(#[trigger] self.cat(d)).spec_active()
            },
            Screen::Viewing(c) => {
                &&& self.cat(c).viewing
                &&& self.cat(c).task.is_terminal()
                &&& forall|d: CategoryId| d != c ==> !(#[trigger] self.cat(d)).spec_active()
            },
        }
    }

    /// A fresh machine: main menu showing, every category inactive.
    pub fn new() -> (r: Self)
        ensures
            r.wf(),
            r.screen is MainMenu,
            r.menu_index == 0,
            forall|c: CategoryId| !(#[trigger] r.cat(c)).spec_active(),
    {
        ScreenStateMachine {
            screen: Screen::MainMenu,
            menu_index: 0,
            disk: CategoryController::new(),
            gpu: CategoryController::new(),
            drivers: CategoryController::new(),
            keyboard: CategoryController::new(),
            gamepad: CategoryController::new(),
            audio: CategoryController::new(),
            photo: CategoryController::new(),
            stress: CategoryController::new(),
        }
    }

    /// Read-only view of a category's controller.
    pub fn cat_ref(&self, c: CategoryId) -> (r: &CategoryController)
        ensures
            *r == self.cat(c),
    {
        match c {
            CategoryId::Disk => &self.disk,
            CategoryId::Gpu => &self.gpu,
            CategoryId::DriverInstall => &self.drivers,
            CategoryId::Keyboard => &self.keyboard,
            CategoryId::Gamepad => &self.gamepad,
            CategoryId::Audio => &self.audio,
            CategoryId::PhotoExport => &self.photo,
            CategoryId::Stress => &self.stress,
        }
    }

    fn cat_enter_selection(&mut self, c: CategoryId, items: Vec<String>)
        ensures
            final(self).cat(c).wf(),
            final(self).cat(c).selecting,
            !final(self).cat(c).viewing,
            final(self).cat(c).list.items == items,
            final(self).cat(c).list.selected == 0,
            final(self).cat(c).task.state is Idle,
            final(self).cat(c).scroll == 0,
            Self::same_cats_except(*old(self), *final(self), c),
            final(self).screen == old(self).screen,
            final(self).menu_index == old(self).menu_index,
    {
        match c {
            CategoryId::Disk => self.disk.enter_selection(items),
            CategoryId::Gpu => self.gpu.enter_selection(items),
            CategoryId::DriverInstall => self.drivers.enter_selection(items),
            CategoryId::Keyboard => self.keyboard.enter_selection(items),
            CategoryId::Gamepad => self.gamepad.enter_selection(items),
            CategoryId::Audio => self.audio.enter_selection(items),
            CategoryId::PhotoExport => self.photo.enter_selection(items),
            CategoryId::Stress => self.stress.enter_selection(items),
        }
    }

    fn cat_exit(&mut self, c: CategoryId)
        ensures
            final(self).cat(c).wf(),
            !final(self).cat(c).selecting,
            !final(self).cat(c).viewing,
            final(self).cat(c).task.state is Idle,
            final(self).cat(c).task.output@.len() == 0,
            final(self).cat(c).list.items@.len() == 0,
            final(self).cat(c).scroll == 0,
            Self::same_cats_except(*old(self), *final(self), c),
            final(self).screen == old(self).screen,
            final(self).menu_index == old(self).menu_index,
    {
        match c {
            CategoryId::Disk => self.disk.exit(),
            CategoryId::Gpu => self.gpu.exit(),
            CategoryId::DriverInstall => self.drivers.exit(),
            CategoryId::Keyboard => self.keyboard.exit(),
            CategoryId::Gamepad => self.gamepad.exit(),
            CategoryId::Audio => self.audio.exit(),
            CategoryId::PhotoExport => self.photo.exit(),
            CategoryId::Stress => self.stress.exit(),
        }
    }

    fn cat_move(&mut self, c: CategoryId, down: bool)
        requires
            old(self).cat(c).wf(),
        ensures
            final(self).cat(c).wf(),
            final(self).cat(c).list.items == old(self).cat(c).list.items,
            final(self).cat(c).list.selected == moved_index(
                old(self).cat(c).list.items@.len() as nat,
                old(self).cat(c).list.selected as nat,
                down,
            ),
            final(self).cat(c).task == old(self).cat(c).task,
            final(self).cat(c).selecting == old(self).cat(c).selecting,
            final(self).cat(c).viewing == old(self).cat(c).viewing,
            final(self).cat(c).scroll == old(self).cat(c).scroll,
            Self::same_cats_except(*old(self), *final(self), c),
            final(self).screen == old(self).screen,
            final(self).menu_index == old(self).menu_index,
    {
        if down {
            match c {
                CategoryId::Disk => self.disk.move_down(),
                CategoryId::Gpu => self.gpu.move_down(),
                CategoryId::DriverInstall => self.drivers.move_down(),
                CategoryId::Keyboard => self.keyboard.move_down(),
                CategoryId::Gamepad => self.gamepad.move_down(),
                CategoryId::Audio => self.audio.move_down(),
                CategoryId::PhotoExport => self.photo.move_down(),
                CategoryId::Stress => self.stress.move_down(),
            }
        } else {
            match c {
                CategoryId::Disk => self.disk.move_up(),
                CategoryId::Gpu => self.gpu.move_up(),
                CategoryId::DriverInstall => self.drivers.move_up(),
                CategoryId::Keyboard => self.keyboard.move_up(),
                CategoryId::Gamepad => self.gamepad.move_up(),
                CategoryId::Audio => self.audio.move_up(),
                CategoryId::PhotoExport => self.photo.move_up(),
                CategoryId::Stress => self.stress.move_up(),
            }
        }
    }

    fn cat_run(&mut self, c: CategoryId, now: u64) -> (r: Option<String>)
        requires
            old(self).cat(c).wf(),
        ensures
            final(self).cat(c).wf(),
            old(self).cat(c).selecting && old(self).cat(c).list.items@.len() > 0 ==> {
                &&& r == Some(
                    old(self).cat(c).list.items@[old(self).cat(c).list.selected as int],
                )
                &&& final(self).cat(c).task.state is Running
                &&& final(self).cat(c).task.progress == 0
                &&& final(self).cat(c).task.started_at == Some(now)
                &&& !final(self).cat(c).selecting
                &&& final(self).cat(c).viewing
                &&& final(self).cat(c).scroll == 0
                &&& final(self).cat(c).list == old(self).cat(c).list
            },
            !(old(self).cat(c).selecting && old(self).cat(c).list.items@.len() > 0) ==> {
                &&& r is None
                &&& final(self).cat(c) == old(self).cat(c)
            },
            Self::same_cats_except(*old(self), *final(self), c),
            final(self).screen == old(self).screen,
            final(self).menu_index == old(self).menu_index,
    {
        match c {
            CategoryId::Disk => self.disk.run_selected(now),
            CategoryId::Gpu => self.gpu.run_selected(now),
            CategoryId::DriverInstall => self.drivers.run_selected(now),
            CategoryId::Keyboard => self.keyboard.run_selected(now),
            CategoryId::Gamepad => self.gamepad.run_selected(now),
            CategoryId::Audio => self.audio.run_selected(now),
            CategoryId::PhotoExport => self.photo.run_selected(now),
            CategoryId::Stress => self.stress.run_selected(now),
        }
    }

    fn cat_run_direct(&mut self, c: CategoryId, now: u64)
        requires
            old(self).cat(c).wf(),
            !old(self).cat(c).selecting,
            !old(self).cat(c).viewing,
            old(self).cat(c).task.state is Idle,
        ensures
            final(self).cat(c).wf(),
            final(self).cat(c).viewing,
            !final(self).cat(c).selecting,
            final(self).cat(c).task.state is Running,
            final(self).cat(c).task.progress == 0,
            final(self).cat(c).task.started_at == Some(now),
            final(self).cat(c).task.output@.len() == 0,
            final(self).cat(c).task.message@.len() == 0,
            final(self).cat(c).scroll == 0,
            final(self).cat(c).list == old(self).cat(c).list,
            Self::same_cats_except(*old(self), *final(self), c),
            final(self).screen == old(self).screen,
            final(self).menu_index == old(self).menu_index,
    {
        match c {
            CategoryId::Disk => self.disk.run_direct(now),
            CategoryId::Gpu => self.gpu.run_direct(now),
            CategoryId::DriverInstall => self.drivers.run_direct(now),
            CategoryId::Keyboard => self.keyboard.run_direct(now),
            CategoryId::Gamepad => self.gamepad.run_direct(now),
            CategoryId::Audio => self.audio.run_direct(now),
            CategoryId::PhotoExport => self.photo.run_direct(now),
            CategoryId::Stress => self.stress.run_direct(now),
        }
    }

    fn cat_scroll(&mut self, c: CategoryId, down: bool)
        requires
            old(self).cat(c).wf(),
        ensures
            final(self).cat(c).wf(),
            down ==> final(self).cat(c).scroll == (if old(self).cat(c).scroll < 0xffff {
                old(self).cat(c).scroll + 1
            } else {
                old(self).cat(c).scroll as int
            }),
            !down ==> final(self).cat(c).scroll == (if old(self).cat(c).scroll > 0 {
                old(self).cat(c).scroll - 1
            } else {
                0
            }),
            final(self).cat(c).list == old(self).cat(c).list,
            final(self).cat(c).task == old(self).cat(c).task,
            final(self).cat(c).selecting == old(self).cat(c).selecting,
            final(self).cat(c).viewing == old(self).cat(c).viewing,
            Self::same_cats_except(*old(self), *final(self), c),
            final(self).screen == old(self).screen,
            final(self).menu_index == old(self).menu_index,
    {
        if down {
            match c {
                CategoryId::Disk => self.disk.scroll_down(),
                CategoryId::Gpu => self.gpu.scroll_down(),
                CategoryId::DriverInstall => self.drivers.scroll_down(),
                CategoryId::Keyboard => self.keyboard.scroll_down(),
                CategoryId::Gamepad => self.gamepad.scroll_down(),
                CategoryId::Audio => self.audio.scroll_down(),
                CategoryId::PhotoExport => self.photo.scroll_down(),
                CategoryId::Stress => self.stress.scroll_down(),
            }
        } else {
            match c {
                CategoryId::Disk => self.disk.scroll_up(),
                CategoryId::Gpu => self.gpu.scroll_up(),
                CategoryId::DriverInstall => self.drivers.scroll_up(),
                CategoryId::Keyboard => self.keyboard.scroll_up(),
                CategoryId::Gamepad => self.gamepad.scroll_up(),
                CategoryId::Audio => self.audio.scroll_up(),
                CategoryId::PhotoExport => self.photo.scroll_up(),
                CategoryId::Stress => self.stress.scroll_up(),
            }
        }
    }

    fn cat_finish(&mut self, c: CategoryId, outcome: Result<String, String>)
        requires
            old(self).cat(c).wf(),
        ensures
            final(self).cat(c).wf(),
            old(self).cat(c).task.state is Running && outcome is Ok ==> {
                &&& final(self).cat(c).task.state is Succeeded
                &&& final(self).cat(c).task.progress == 100
                &&& final(self).cat(c).task.message == outcome->Ok_0
                &&& final(self).cat(c).task.output == old(self).cat(c).task.output
            },
            old(self).cat(c).task.state is Running && outcome is Err ==> {
                &&& final(self).cat(c).task.state is Failed
                &&& final(self).cat(c).task.progress == 100
                &&& final(self).cat(c).task.message == outcome->Err_0
                &&& final(self).cat(c).task.output@ == old(self).cat(c).task.output@
                    + outcome->Err_0@
            },
            !(old(self).cat(c).task.state is Running) ==> final(self).cat(c) == old(self).cat(c),
            final(self).cat(c).list == old(self).cat(c).list,
            final(self).cat(c).selecting == old(self).cat(c).selecting,
            final(self).cat(c).viewing == old(self).cat(c).viewing,
            final(self).cat(c).scroll == old(self).cat(c).scroll,
            Self::same_cats_except(*old(self), *final(self), c),
            final(self).screen == old(self).screen,
            final(self).menu_index == old(self).menu_index,
    {
        match c {
            CategoryId::Disk => self.disk.finish(outcome),
            CategoryId::Gpu => self.gpu.finish(outcome),
            CategoryId::DriverInstall => self.drivers.finish(outcome),
            CategoryId::Keyboard => self.keyboard.finish(outcome),
            CategoryId::Gamepad => self.gamepad.finish(outcome),
            CategoryId::Audio => self.audio.finish(outcome),
            CategoryId::PhotoExport => self.photo.finish(outcome),
            CategoryId::Stress => self.stress.finish(outcome),
        }
    }

    /// The display and menu highlight are unchanged between the two states.
    pub open spec fn same_frame(pre: Self, post: Self) -> bool {
        &&& post.screen == pre.screen
        &&& post.menu_index == pre.menu_index
    }

    /// What a one-step move of category `c`'s selection leaves behind.
    pub open spec fn list_moved_post(pre: Self, post: Self, c: CategoryId, down: bool) -> bool {
        &&& Self::same_frame(pre, post)
        &&& post.cat(c).list.items == pre.cat(c).list.items
        &&& post.cat(c).list.selected == moved_index(
            pre.cat(c).list.items@.len() as nat,
            pre.cat(c).list.selected as nat,
            down,
        )
        &&& post.cat(c).task == pre.cat(c).task
        &&& post.cat(c).selecting == pre.cat(c).selecting
        &&& post.cat(c).viewing == pre.cat(c).viewing
        &&& post.cat(c).scroll == pre.cat(c).scroll
        &&& Self::same_cats_except(pre, post, c)
    }

    /// What a one-line scroll of category `c`'s output pane leaves behind.
    pub open spec fn scrolled_post(pre: Self, post: Self, c: CategoryId, down: bool) -> bool {
        &&& Self::same_frame(pre, post)
        &&& down ==> post.cat(c).scroll == (if pre.cat(c).scroll < 0xffff {
            pre.cat(c).scroll + 1
        } else {
            pre.cat(c).scroll as int
        })
        &&& !down ==> post.cat(c).scroll == (if pre.cat(c).scroll > 0 {
            pre.cat(c).scroll - 1
        } else {
            0
        })
        &&& post.cat(c).list == pre.cat(c).list
        &&& post.cat(c).task == pre.cat(c).task
        &&& post.cat(c).selecting == pre.cat(c).selecting
        &&& post.cat(c).viewing == pre.cat(c).viewing
        &&& Self::same_cats_except(pre, post, c)
    }

    /// What cancelling out of category `c` leaves behind: the main menu is
    /// back, and the category keeps nothing -- its task is `Idle` again,
    /// its output, list and scroll offset are cleared.
    pub open spec fn exited_post(pre: Self, post: Self, c: CategoryId) -> bool {
        &&& post.screen is MainMenu
        &&& post.menu_index == pre.menu_index
        &&& !post.cat(c).selecting
        &&& !post.cat(c).viewing
        &&& post.cat(c).task.state is Idle
        &&& post.cat(c).task.output@.len() == 0
        &&& post.cat(c).list.items@.len() == 0
        &&& post.cat(c).scroll == 0
        &&& Self::same_cats_except(pre, post, c)
    }

    /// What starting category `c`'s operation directly (no selection step)
    /// leaves behind: its output screen shows a fresh running task.
    pub open spec fn direct_start_post(
        pre: Self,
        post: Self,
        c: CategoryId,
        now: u64,
        a: Action,
    ) -> bool {
        &&& post.screen == Screen::Running(c)
        &&& post.menu_index == pre.menu_index
        &&& post.cat(c).viewing
        &&& !post.cat(c).selecting
        &&& post.cat(c).task.state is Running
        &&& post.cat(c).task.progress == 0
        &&& post.cat(c).task.started_at == Some(now)
        &&& post.cat(c).task.output@.len() == 0
        &&& post.cat(c).task.message@.len() == 0
        &&& post.cat(c).scroll == 0
        &&& Self::same_cats_except(pre, post, c)
        &&& (a matches Action::Start(c2, sel) && (c2 == c && sel@.len() == 0))
    }

    /// What `Enter` on the main menu leaves behind: the quit entry quits;
    /// the photo-export entry starts its operation at once; every other
    /// entry opens its category's selection screen on a fresh list, asking
    /// the caller to enumerate where the category has no fixed list of its
    /// own.
    pub open spec fn menu_enter_post(pre: Self, post: Self, now: u64, a: Action) -> bool {
        let i = pre.menu_index as int;
        match menu_category(i) {
            None => post == pre && a is QuitApp,
            Some(c) => if c is PhotoExport {
                Self::direct_start_post(pre, post, c, now, a)
            } else {
                &&& post.screen == Screen::Selecting(c)
                &&& post.menu_index == pre.menu_index
                &&& post.cat(c).selecting
                &&& !post.cat(c).viewing
                &&& post.cat(c).list.items.deep_view() == menu_initial_items(i)
                &&& post.cat(c).list.selected == 0
                &&& post.cat(c).task.state is Idle
                &&& post.cat(c).scroll == 0
                &&& Self::same_cats_except(pre, post, c)
                &&& a == (if menu_refresh_needed(i) {
                    Action::Refresh(c)
                } else {
                    Action::Nothing
                })
            },
        }
    }

    /// The whole key-routing relation: what one `dispatch` call does for
    /// every screen and key, and which action it hands back.
    pub open spec fn dispatch_post(pre: Self, post: Self, key: Key, now: u64, a: Action) -> bool {
        match pre.screen {
            Screen::MainMenu => match key {
                Key::Up => {
                    &&& post.screen == pre.screen
                    &&& post.menu_index == moved_index(
                        MENU_LEN as nat,
                        pre.menu_index as nat,
                        false,
                    )
                    &&& Self::same_cats(pre, post)
                    &&& a is Nothing
                },
                Key::Down => {
                    &&& post.screen == pre.screen
                    &&& post.menu_index == moved_index(
                        MENU_LEN as nat,
                        pre.menu_index as nat,
                        true,
                    )
                    &&& Self::same_cats(pre, post)
                    &&& a is Nothing
                },
                Key::Enter => Self::menu_enter_post(pre, post, now, a),
                Key::Cancel => post == pre && a is QuitApp,
                Key::Stress => Self::direct_start_post(pre, post, CategoryId::Stress, now, a),
                Key::Stability => post == pre && a is RunStability,
                _ => post == pre && a is Nothing,
            },
            Screen::Selecting(c) => match key {
                Key::Up => Self::list_moved_post(pre, post, c, false) && a is Nothing,
                Key::Down => Self::list_moved_post(pre, post, c, true) && a is Nothing,
                Key::Enter => if pre.cat(c).list.items@.len() > 0 {
                    &&& post.screen == Screen::Running(c)
                    &&& post.menu_index == pre.menu_index
                    &&& post.cat(c).task.state is Running
                    &&& post.cat(c).task.progress == 0
                    &&& post.cat(c).task.started_at == Some(now)
                    &&& !post.cat(c).selecting
                    &&& post.cat(c).viewing
                    &&& post.cat(c).scroll == 0
                    &&& post.cat(c).list == pre.cat(c).list
                    &&& Self::same_cats_except(pre, post, c)
                    &&& a == Action::Start(
                        c,
                        pre.cat(c).list.items@[pre.cat(c).list.selected as int],
                    )
                } else {
                    // an empty list spawns nothing and changes nothing
                    post == pre && a is Nothing
                },
                Key::Cancel => Self::exited_post(pre, post, c) && a is Nothing,
                _ => post == pre && a is Nothing,
            },
            Screen::Running(c) => match key {
                Key::Cancel => Self::exited_post(pre, post, c) && a is Nothing,
                _ => post == pre && a is Nothing,
            },
            Screen::Viewing(c) => match key {
                Key::Cancel => Self::exited_post(pre, post, c) && a is Nothing,
                Key::ScrollDown => Self::scrolled_post(pre, post, c, true) && a is Nothing,
                Key::ScrollUp => Self::scrolled_post(pre, post, c, false) && a is Nothing,
                _ => post == pre && a is Nothing,
            },
        }
    }

    /// Route one key event.  This is the machine's only key-driven mutator;
    /// `now` is the caller's clock reading, recorded when a task starts.
    #[verifier::rlimit(60)]
    pub fn dispatch(&mut self, key: Key, now: u64) -> (a: Action)
        requires
            old(self).wf(),
        ensures
            final(self).wf(),
            Self::dispatch_post(*old(self), *final(self), key, now, a),
    {
        let sc = self.screen;
        match sc {
            Screen::MainMenu => match key {
                Key::Up => {
                    if self.menu_index > 0 {
                        self.menu_index = self.menu_index - 1;
                    }
                    proof {
                        assert forall|d: CategoryId| #![trigger self.cat(d)] self.cat(d)
                            == old(self).cat(d) by {}
                    }
                    Action::Nothing
                },
                Key::Down => {
                    if self.menu_index + 1 < MENU_LEN {
                        self.menu_index = self.menu_index + 1;
                    }
                    proof {
                        assert forall|d: CategoryId| #![trigger self.cat(d)] self.cat(d)
                            == old(self).cat(d) by {}
                    }
                    Action::Nothing
                },
                Key::Enter => {
                    let i = self.menu_index;
                    if i == 0 {
                        self.screen = Screen::Selecting(CategoryId::Disk);
                        self.cat_enter_selection(CategoryId::Disk, Vec::new());
                        proof {
                            assert(self.cat(CategoryId::Disk).list.items.deep_view()
                                =~= Seq::<Seq<char>>::empty());
                        }
                        proof {
                            assert forall|d: CategoryId|
                                #![trigger self.cat(d)]
                                d != CategoryId::Disk implies self.cat(d) == old(self).cat(d) by {}
                        }
                        Action::Refresh(CategoryId::Disk)
                    } else if i == 1 || i == 2 {
                        self.screen = Screen::Selecting(CategoryId::Gpu);
                        self.cat_enter_selection(CategoryId::Gpu, default_gpu_list());
                        proof {
                            assert forall|d: CategoryId|
                                #![trigger self.cat(d)]
                                d != CategoryId::Gpu implies self.cat(d) == old(self).cat(d) by {}
                        }
                        Action::Nothing
                    } else if i == 3 {
                        proof {
                            assert(!old(self).cat(CategoryId::PhotoExport).spec_active());
                        }
                        self.screen = Screen::Running(CategoryId::PhotoExport);
                        self.cat_run_direct(CategoryId::PhotoExport, now);
                        proof {
                            assert forall|d: CategoryId|
                                #![trigger self.cat(d)]
                                d != CategoryId::PhotoExport implies self.cat(d) == old(self).cat(d) by {}
                        }
                        Action::Start(CategoryId::PhotoExport, String::new())
                    } else if i == 4 {
                        self.screen = Screen::Selecting(CategoryId::DriverInstall);
                        self.cat_enter_selection(CategoryId::DriverInstall, get_driver_list());
                        proof {
                            assert forall|d: CategoryId|
                                #![trigger self.cat(d)]
                                d != CategoryId::DriverInstall implies self.cat(d) == old(self).cat(d) by {}
                        }
                        Action::Nothing
                    } else if i == 5 {
                        self.screen = Screen::Selecting(CategoryId::Keyboard);
                        self.cat_enter_selection(CategoryId::Keyboard, Vec::new());
                        proof {
                            assert(self.cat(CategoryId::Keyboard).list.items.deep_view()
                                =~= Seq::<Seq<char>>::empty());
                        }
                        proof {
                            assert forall|d: CategoryId|
                                #![trigger self.cat(d)]
                                d != CategoryId::Keyboard implies self.cat(d) == old(self).cat(d) by {}
                        }
                        Action::Refresh(CategoryId::Keyboard)
                    } else if i == 6 {
                        self.screen = Screen::Selecting(CategoryId::Gamepad);
                        self.cat_enter_selection(CategoryId::Gamepad, Vec::new());
                        proof {
                            assert(self.cat(CategoryId::Gamepad).list.items.deep_view()
                                =~= Seq::<Seq<char>>::empty());
                        }
                        proof {
                            assert forall|d: CategoryId|
                                #![trigger self.cat(d)]
                                d != CategoryId::Gamepad implies self.cat(d) == old(self).cat(d) by {}
                        }
                        Action::Refresh(CategoryId::Gamepad)
                    } else if i == 7 {
                        self.screen = Screen::Selecting(CategoryId::Audio);
                        self.cat_enter_selection(CategoryId::Audio, default_audio_devices());
                        proof {
                            assert forall|d: CategoryId|
                                #![trigger self.cat(d)]
                                d != CategoryId::Audio implies self.cat(d) == old(self).cat(d) by {}
                        }
                        Action::Nothing
                    } else {
                        Action::QuitApp
                    }
                },
                Key::Cancel => Action::QuitApp,
                Key::Stress => {
                    proof {
                        assert(!old(self).cat(CategoryId::Stress).spec_active());
                    }
                    self.screen = Screen::Running(CategoryId::Stress);
                    self.cat_run_direct(CategoryId::Stress, now);
                    proof {
                        assert forall|d: CategoryId|
                            #![trigger self.cat(d)]
                            d != CategoryId::Stress implies self.cat(d) == old(self).cat(d) by {}
                    }
                    Action::Start(CategoryId::Stress, String::new())
                },
                Key::Stability => Action::RunStability,
                _ => Action::Nothing,
            },
            Screen::Selecting(c) => match key {
                Key::Up => {
                    self.cat_move(c, false);
                    Action::Nothing
                },
                Key::Down => {
                    self.cat_move(c, true);
                    Action::Nothing
                },
                Key::Enter => {
                    let has_entries = self.cat_ref(c).list.len() > 0;
                    if has_entries {
                        self.screen = Screen::Running(c);
                        let picked = self.cat_run(c, now);
                        proof {
                            assert forall|d: CategoryId|
                                #![trigger self.cat(d)]
                                d != c implies self.cat(d) == old(self).cat(d) by {}
                        }
                        Action::Start(c, picked.unwrap())
                    } else {
                        Action::Nothing
                    }
                },
                Key::Cancel => {
                    self.screen = Screen::MainMenu;
                    self.cat_exit(c);
                    proof {
                        assert forall|d: CategoryId|
                            #![trigger self.cat(d)]
                            d != c implies self.cat(d) == old(self).cat(d) by {}
                    }
                    Action::Nothing
                },
                _ => Action::Nothing,
            },
            Screen::Running(c) => match key {
                Key::Cancel => {
                    self.screen = Screen::MainMenu;
                    self.cat_exit(c);
                    proof {
                        assert forall|d: CategoryId|
                            #![trigger self.cat(d)]
                            d != c implies self.cat(d) == old(self).cat(d) by {}
                    }
                    Action::Nothing
                },
                _ => Action::Nothing,
            },
            Screen::Viewing(c) => match key {
                Key::Cancel => {
                    self.screen = Screen::MainMenu;
                    self.cat_exit(c);
                    proof {
                        assert forall|d: CategoryId|
                            #![trigger self.cat(d)]
                            d != c implies self.cat(d) == old(self).cat(d) by {}
                    }
                    Action::Nothing
                },
                Key::ScrollDown => {
                    self.cat_scroll(c, true);
                    Action::Nothing
                },
                Key::ScrollUp => {
                    self.cat_scroll(c, false);
                    Action::Nothing
                },
                _ => Action::Nothing,
            },
        }
    }

    /// Hand the machine the freshly enumerated entries of a category (the
    /// answer to an [`Action::Refresh`]): they replace the list wholesale
    /// and the highlight returns to the top.
    #[verifier::rlimit(60)]
    pub fn set_category_items(&mut self, c: CategoryId, items: Vec<String>)
        requires
            old(self).wf(),
        ensures
            final(self).wf(),
            final(self).cat(c).list.items == items,
            final(self).cat(c).list.selected == 0,
            final(self).cat(c).task == old(self).cat(c).task,
            final(self).cat(c).selecting == old(self).cat(c).selecting,
            final(self).cat(c).viewing == old(self).cat(c).viewing,
            final(self).cat(c).scroll == old(self).cat(c).scroll,
            Self::same_cats_except(*old(self), *final(self), c),
            Self::same_frame(*old(self), *final(self)),
    {
        match c {
            CategoryId::Disk => self.disk.set_items(items),
            CategoryId::Gpu => self.gpu.set_items(items),
            CategoryId::DriverInstall => self.drivers.set_items(items),
            CategoryId::Keyboard => self.keyboard.set_items(items),
            CategoryId::Gamepad => self.gamepad.set_items(items),
            CategoryId::Audio => self.audio.set_items(items),
            CategoryId::PhotoExport => self.photo.set_items(items),
            CategoryId::Stress => self.stress.set_items(items),
        }
        proof {
            assert forall|d: CategoryId| #![trigger self.cat(d)] d != c implies self.cat(d)
                == old(self).cat(d) by {}
        }
    }

    /// Worker report: category `c`'s task progressed to `p` percent.
    /// Ignored unless that task is running and the report neither moves
    /// progress backward nor past 100 -- so a late report from a cancelled
    /// run is never observed.
    #[verifier::rlimit(60)]
    pub fn worker_progress(&mut self, c: CategoryId, p: u16)
        requires
            old(self).wf(),
        ensures
            final(self).wf(),
            old(self).cat(c).task.state is Running && old(self).cat(c).task.progress <= p && p
                <= 100 ==> {
                &&& final(self).cat(c).task.state is Running
                &&& final(self).cat(c).task.progress == p
                &&& final(self).cat(c).task.output == old(self).cat(c).task.output
                &&& final(self).cat(c).task.message == old(self).cat(c).task.message
            },
            !(old(self).cat(c).task.state is Running && old(self).cat(c).task.progress <= p && p
                <= 100) ==> final(self).cat(c) == old(self).cat(c),
            Self::same_cats_except(*old(self), *final(self), c),
            Self::same_frame(*old(self), *final(self)),
    {
        match c {
            CategoryId::Disk => self.disk.report_progress(p),
            CategoryId::Gpu => self.gpu.report_progress(p),
            CategoryId::DriverInstall => self.drivers.report_progress(p),
            CategoryId::Keyboard => self.keyboard.report_progress(p),
            CategoryId::Gamepad => self.gamepad.report_progress(p),
            CategoryId::Audio => self.audio.report_progress(p),
            CategoryId::PhotoExport => self.photo.report_progress(p),
            CategoryId::Stress => self.stress.report_progress(p),
        }
        proof {
            assert forall|d: CategoryId| #![trigger self.cat(d)] d != c implies self.cat(d)
                == old(self).cat(d) by {}
        }
    }

    /// Worker report: text captured from category `c`'s operation, appended
    /// verbatim to its output buffer.  Ignored unless that task is running.
    #[verifier::rlimit(60)]
    pub fn worker_output(&mut self, c: CategoryId, text: &str)
        requires
            old(self).wf(),
        ensures
            final(self).wf(),
            old(self).cat(c).task.state is Running ==> {
                &&& final(self).cat(c).task.output@ == old(self).cat(c).task.output@ + text@
                &&& final(self).cat(c).task.state is Running
                &&& final(self).cat(c).task.progress == old(self).cat(c).task.progress
                &&& final(self).cat(c).task.message == old(self).cat(c).task.message
            },
            !(old(self).cat(c).task.state is Running) ==> final(self).cat(c) == old(self).cat(c),
            Self::same_cats_except(*old(self), *final(self), c),
            Self::same_frame(*old(self), *final(self)),
    {
        match c {
            CategoryId::Disk => self.disk.append_output(text),
            CategoryId::Gpu => self.gpu.append_output(text),
            CategoryId::DriverInstall => self.drivers.append_output(text),
            CategoryId::Keyboard => self.keyboard.append_output(text),
            CategoryId::Gamepad => self.gamepad.append_output(text),
            CategoryId::Audio => self.audio.append_output(text),
            CategoryId::PhotoExport => self.photo.append_output(text),
            CategoryId::Stress => self.stress.append_output(text),
        }
        proof {
            assert forall|d: CategoryId| #![trigger self.cat(d)] d != c implies self.cat(d)
                == old(self).cat(d) by {}
        }
    }

    /// Worker report: category `c`'s operation ended.  If that category's
    /// run is still on screen the display moves from its running screen to
    /// its viewing screen: an `Ok` outcome succeeds with the given status
    /// line, an `Err` outcome fails with the error text as the status line,
    /// appended to the output so failures render through the same path as
    /// successes.  A report for a run no longer on screen (cancelled and
    /// discarded) changes nothing.
    #[verifier::rlimit(60)]
    pub fn worker_finished(&mut self, c: CategoryId, outcome: Result<String, String>)
        requires
            old(self).wf(),
        ensures
            final(self).wf(),
            old(self).screen == Screen::Running(c) && outcome is Ok ==> {
                &&& final(self).screen == Screen::Viewing(c)
                &&& final(self).cat(c).task.state is Succeeded
                &&& final(self).cat(c).task.progress == 100
                &&& final(self).cat(c).task.message == outcome->Ok_0
                &&& final(self).cat(c).task.output == old(self).cat(c).task.output
                &&& final(self).cat(c).list == old(self).cat(c).list
                &&& final(self).cat(c).scroll == old(self).cat(c).scroll
            },
            old(self).screen == Screen::Running(c) && outcome is Err ==> {
                &&& final(self).screen == Screen::Viewing(c)
                &&& final(self).cat(c).task.state is Failed
                &&& final(self).cat(c).task.progress == 100
                &&& final(self).cat(c).task.message == outcome->Err_0
                &&& final(self).cat(c).task.output@ == old(self).cat(c).task.output@
                    + outcome->Err_0@
                &&& final(self).cat(c).list == old(self).cat(c).list
                &&& final(self).cat(c).scroll == old(self).cat(c).scroll
            },
            old(self).screen != Screen::Running(c) ==> *final(self) == *old(self),
            Self::same_cats_except(*old(self), *final(self), c),
            final(self).menu_index == old(self).menu_index,
    {
        let on_screen = match self.screen {
            Screen::Running(d) => d == c,
            _ => false,
        };
        if on_screen {
            self.screen = Screen::Viewing(c);
            self.cat_finish(c, outcome);
            proof {
                assert forall|d: CategoryId|
                    #![trigger self.cat(d)]
                    d != c implies self.cat(d) == old(self).cat(d) by {}
            }
        }
    }

    /// Take every category back to its inactive resting state (used when a
    /// new category is about to take the screen).  The stored screen is the
    /// caller's to update.
    pub(crate) fn deactivate_all(&mut self)
        requires
            old(self).wf(),
        ensures
            forall|d: CategoryId| (#[trigger] final(self).cat(d)).wf(),
            forall|d: CategoryId| !(#[trigger] final(self).cat(d)).spec_active(),
            forall|d: CategoryId| (#[trigger] final(self).cat(d)).task.state is Idle,
            forall|d: CategoryId|
                Some(d) != active_category(*old(self)) ==> #[trigger] final(self).cat(d) == old(
                    self,
                ).cat(d),
            final(self).screen == old(self).screen,
            final(self).menu_index == old(self).menu_index,
    {
        let sc = self.screen;
        match sc {
            Screen::MainMenu => {
            },
            Screen::Selecting(d) | Screen::Running(d) | Screen::Viewing(d) => {
                match d {
                    CategoryId::Disk => self.disk.exit(),
                    CategoryId::Gpu => self.gpu.exit(),
                    CategoryId::DriverInstall => self.drivers.exit(),
                    CategoryId::Keyboard => self.keyboard.exit(),
                    CategoryId::Gamepad => self.gamepad.exit(),
                    CategoryId::Audio => self.audio.exit(),
                    CategoryId::PhotoExport => self.photo.exit(),
                    CategoryId::Stress => self.stress.exit(),
                }
                proof {
                    assert forall|e: CategoryId| #![trigger self.cat(e)] e != d implies self.cat(
                        e,
                    ) == old(self).cat(e) by {}
                }
            },
        }
    }

    /// Scroll the output pane of whichever category's report screen owns
    /// the display one line down (saturating); a no-op when no report is
    /// showing.
    pub fn scroll_output_down(&mut self)
        requires
            old(self).wf(),
        ensures
            final(self).wf(),
            old(self).screen matches Screen::Running(c) ==> Self::scrolled_post(
                *old(self),
                *final(self),
                c,
                true,
            ),
            old(self).screen matches Screen::Viewing(c) ==> Self::scrolled_post(
                *old(self),
                *final(self),
                c,
                true,
            ),
            !(old(self).screen is Running || old(self).screen is Viewing) ==> *final(self) == *old(
                self,
            ),
    {
        let sc = self.screen;
        match sc {
            Screen::Running(d) | Screen::Viewing(d) => {
                proof {
                    assert(old(self).cat(d).wf());
                }
                self.cat_scroll(d, true);
            },
            _ => {
            },
        }
    }

    /// Scroll the output pane of whichever category's report screen owns
    /// the display one line up (saturating at zero); a no-op when no report
    /// is showing.
    pub fn scroll_output_up(&mut self)
        requires
            old(self).wf(),
        ensures
            final(self).wf(),
            old(self).screen matches Screen::Running(c) ==> Self::scrolled_post(
                *old(self),
                *final(self),
                c,
                false,
            ),
            old(self).screen matches Screen::Viewing(c) ==> Self::scrolled_post(
                *old(self),
                *final(self),
                c,
                false,
            ),
            !(old(self).screen is Running || old(self).screen is Viewing) ==> *final(self) == *old(
                self,
            ),
    {
        let sc = self.screen;
        match sc {
            Screen::Running(d) | Screen::Viewing(d) => {
                proof {
                    assert(old(self).cat(d).wf());
                }
                self.cat_scroll(d, false);
            },
            _ => {
            },
        }
    }

    /// Scroll the showing report one line down (saturating).
    pub fn scroll_down(&mut self)
        requires
            old(self).wf(),
        ensures
            final(self).wf(),
            old(self).screen matches Screen::Running(c) ==> Self::scrolled_post(
                *old(self),
                *final(self),
                c,
                true,
            ),
            old(self).screen matches Screen::Viewing(c) ==> Self::scrolled_post(
                *old(self),
                *final(self),
                c,
                true,
            ),
            !(old(self).screen is Running || old(self).screen is Viewing) ==> *final(self) == *old(
                self,
            ),
    {
        self.scroll_output_down();
    }

    /// Scroll the showing report one line up (saturating at zero).
    pub fn scroll_up(&mut self)
        requires
            old(self).wf(),
        ensures
            final(self).wf(),
            old(self).screen matches Screen::Running(c) ==> Self::scrolled_post(
                *old(self),
                *final(self),
                c,
                false,
            ),
            old(self).screen matches Screen::Viewing(c) ==> Self::scrolled_post(
                *old(self),
                *final(self),
                c,
                false,
            ),
            !(old(self).screen is Running || old(self).screen is Viewing) ==> *final(self) == *old(
                self,
            ),
    {
        self.scroll_output_up();
    }

    /// The current screen, as a read-only snapshot.
    pub fn current_screen(&self) -> (s: Screen)
        ensures
            s == self.screen,
    {
        self.screen
    }

    /// The main-menu highlight.
    pub fn menu_selected(&self) -> (i: usize)
        ensures
            i == self.menu_index,
    {
        self.menu_index
    }

    /// Move the main-menu highlight one entry down, clamped at the last
    /// entry.
    pub fn increment_menu(&mut self)
        requires
            old(self).wf(),
        ensures
            final(self).wf(),
            final(self).menu_index == moved_index(MENU_LEN as nat, old(self).menu_index as nat, true),
            final(self).screen == old(self).screen,
            Self::same_cats(*old(self), *final(self)),
    {
        if self.menu_index + 1 < MENU_LEN {
            self.menu_index = self.menu_index + 1;
        }
        proof {
            assert forall|d: CategoryId| #![trigger self.cat(d)] self.cat(d) == old(self).cat(d)
            by {}
        }
    }

    /// Move the main-menu highlight one entry up, clamped at the first
    /// entry.
    pub fn decrement_menu(&mut self)
        requires
            old(self).wf(),
        ensures
            final(self).wf(),
            final(self).menu_index == moved_index(
                MENU_LEN as nat,
                old(self).menu_index as nat,
                false,
            ),
            final(self).screen == old(self).screen,
            Self::same_cats(*old(self), *final(self)),
    {
        if self.menu_index > 0 {
            self.menu_index = self.menu_index - 1;
        }
        proof {
            assert forall|d: CategoryId| #![trigger self.cat(d)] self.cat(d) == old(self).cat(d)
            by {}
        }
    }

    /// A read-only copy of one category's state for drawing one frame.
    pub fn snapshot(&self, c: CategoryId) -> (s: CategorySnapshot)
        ensures
            s.entries@ == self.cat(c).list.items@,
            s.selected == self.cat(c).list.selected,
            s.task_state == self.cat(c).task.state,
            s.progress == self.cat(c).task.progress,
            s.output == self.cat(c).task.output,
            s.message == self.cat(c).task.message,
            s.scroll == self.cat(c).scroll,
    {
        let cc = self.cat_ref(c);
        CategorySnapshot {
            entries: clone_string_vec(&cc.list.items),
            selected: cc.list.selected,
            task_state: cc.task.state,
            progress: cc.task.progress,
            output: cc.task.output.clone(),
            message: cc.task.message.clone(),
            scroll: cc.scroll,
        }
    }
}

/// An element-for-element copy of a list of strings.
pub(crate) fn clone_string_vec(v: &Vec<String>) -> (r: Vec<String>)
    ensures
        r@ == v@,
{
    let mut r: Vec<String> = Vec::new();
    let mut k: usize = 0;
    while k < v.len()
        invariant
            k <= v@.len(),
            r@ == v@.subrange(0, k as int),
        decreases v@.len() - k,
    {
        r.push(v[k].clone());
        proof {
            assert(v@.subrange(0, k + 1 as int) =~= v@.subrange(0, k as int).push(v@[k as int]));
        }
        k = k + 1;
    }
    proof {
        assert(v@.subrange(0, v@.len() as int) =~= v@);
    }
    r
}

/// Cancelling from a running or viewing screen always returns to the main
/// menu and resets the category's task to `Idle`, whatever state the run
/// was in.
pub proof fn lemma_cancel_always_returns_to_menu(
    pre: ScreenStateMachine,
    post: ScreenStateMachine,
    c: CategoryId,
    key: Key,
    now: u64,
    a: Action,
)
    requires
        pre.wf(),
        ScreenStateMachine::dispatch_post(pre, post, key, now, a),
        key is Cancel,
        pre.screen == Screen::Running(c) || pre.screen == Screen::Viewing(c),
    ensures
        post.screen is MainMenu,
        post.cat(c).task.state is Idle,
        post.cat(c).task.output@.len() == 0,
        post.cat(c).scroll == 0,
{
}

/// Entering a category's selection screen always shows a fresh list --
/// the category's own fixed entries, or an empty list about to be filled
/// by the requested enumeration -- never entries held over from an
/// earlier visit, whatever the machine held before.
pub proof fn lemma_entry_list_is_fresh(
    pre: ScreenStateMachine,
    post: ScreenStateMachine,
    c: CategoryId,
    now: u64,
    a: Action,
)
    requires
        pre.wf(),
        ScreenStateMachine::dispatch_post(pre, post, Key::Enter, now, a),
        pre.screen is MainMenu,
        menu_category(pre.menu_index as int) == Some(c),
        !(c is PhotoExport),
    ensures
        post.screen == Screen::Selecting(c),
        post.cat(c).list.items.deep_view() == menu_initial_items(pre.menu_index as int),
        post.cat(c).list.selected == 0,
        post.cat(c).task.state is Idle,
        menu_refresh_needed(pre.menu_index as int) ==> a == Action::Refresh(c),
{
}

/// With an empty selection list, `Enter` spawns no task and changes no
/// screen: the whole machine is exactly as it was.
pub proof fn lemma_enter_on_empty_list_is_noop(
    pre: ScreenStateMachine,
    post: ScreenStateMachine,
    c: CategoryId,
    now: u64,
    a: Action,
)
    requires
        pre.wf(),
        ScreenStateMachine::dispatch_post(pre, post, Key::Enter, now, a),
        pre.screen == Screen::Selecting(c),
        pre.cat(c).list.items@.len() == 0,
    ensures
        post == pre,
        a is Nothing,
{
}

} // verus!
