//! The driver-installation category: its fixed package list and the
//! progress bookkeeping of the three-step installation its worker performs.

use vstd::prelude::*;
use vstd::string::StringExecFns;
use crate::screen::{ScreenStateMachine, Screen, CategoryId};

verus! {

/// The installable driver packages, in display order.
pub open spec fn driver_names() -> Seq<Seq<char>> {
    seq![
        "nvidia"@,
        "nvidia-dkms"@,
        "nvidia-open-dkms"@,
        "nvidia-lts"@,
        "nvidia-470xx-dkms"@,
    ]
}

/// The selectable driver packages.  This list is fixed: the category needs
/// no external enumeration.
pub fn get_driver_list() -> (r: Vec<String>)
    ensures
        r.deep_view() == driver_names(),
{
    let mut r: Vec<String> = Vec::new();
    r.push("nvidia".to_owned());
    r.push("nvidia-dkms".to_owned());
    r.push("nvidia-open-dkms".to_owned());
    r.push("nvidia-lts".to_owned());
    r.push("nvidia-470xx-dkms".to_owned());
    proof {
        assert(r.deep_view() =~= driver_names());
    }
    r
}

/// The number of sequential external steps one installation runs.
pub open spec fn spec_install_step_count() -> nat {
    3
}

pub fn install_step_count() -> (n: usize)
    ensures
        n == spec_install_step_count(),
{
    3
}

/// Progress after finishing step `i` (zero-based) of `n`, in percent:
/// each step contributes its equal share, and the last step lands exactly
/// on 100.
pub open spec fn spec_step_progress(i: nat, n: nat) -> nat
    recommends
        i < n,
        n > 0,
{
    let p = ((i + 1) * 100) / n;
    if p > 100 {
        100
    } else {
        p
    }
}

/// Percentage of the installation done once step `i` (zero-based) of `n`
/// has completed.
pub fn step_progress(i: usize, n: usize) -> (p: u16)
    requires
        0 < n <= 100,
        i < n,
    ensures
        p == spec_step_progress(i as nat, n as nat),
        p <= 100,
        i + 1 == n ==> p == 100,
{
    let raw: usize = ((i + 1) * 100) / n;
    proof {
        let ii = i as int;
        let nn = n as int;
        assert((ii + 1) * 100 <= nn * 100) by (nonlinear_arith)
            requires
                ii + 1 <= nn,
        ;
        assert(nn * 100 / nn == 100) by (nonlinear_arith)
            requires
                nn > 0,
        ;
        assert((ii + 1) * 100 / nn <= nn * 100 / nn) by (nonlinear_arith)
            requires
                (ii + 1) * 100 <= nn * 100,
                nn > 0,
        ;
    }
    if raw > 100 {
        100
    } else {
        raw as u16
    }
}

/// The line the installation log opens with: the chosen package framed by
/// the fixed announcement.
pub fn install_banner(selected: &str) -> (r: String)
    ensures
        r@ == "Installing NVIDIA driver: "@ + selected@ + "\n"@,
{
    let mut r: String = "Installing NVIDIA driver: ".to_owned();
    r.append(selected);
    r.append("\n");
    r
}

/// One log entry for a finished installation step: the command that ran,
/// marked as succeeded or failed, followed by its captured output.
pub fn step_log_entry(ok: bool, command: &str, captured: &str) -> (r: String)
    ensures
        ok ==> r@ == "[ok] "@ + command@ + "\n"@ + captured@,
        !ok ==> r@ == "[failed] "@ + command@ + "\nError: "@ + captured@ + "\n"@,
{
    let mut r: String = if ok {
        "[ok] ".to_owned()
    } else {
        "[failed] ".to_owned()
    };
    r.append(command);
    if ok {
        r.append("\n");
        r.append(captured);
    } else {
        r.append("\nError: ");
        r.append(captured);
        r.append("\n");
    }
    r
}

impl ScreenStateMachine {
    /// The index of the highlighted driver package.
    pub fn get_driver_index(&self) -> (i: usize)
        ensures
            i == self.drivers.list.selected,
    {
        self.drivers.list.selected
    }

    /// Whether the driver-selection screen owns the display.
    pub fn check_driver_selection(&self) -> (r: bool)
        ensures
            r == self.drivers.selecting,
    {
        self.drivers.selecting
    }

    /// Whether the driver-selection screen owns the display.
    pub fn check_driver_select(&self) -> (r: bool)
        ensures
            r == self.drivers.selecting,
    {
        self.drivers.selecting
    }

    /// Whether the installation's output screen owns the display.
    pub fn check_driver_installing(&self) -> (r: bool)
        ensures
            r == self.drivers.viewing,
    {
        self.drivers.viewing
    }

    /// Open the driver-selection screen on the fixed package list, leaving
    /// whatever category was active.
    pub fn enter_driver_selection(&mut self)
        requires
            old(self).wf(),
        ensures
            final(self).wf(),
            final(self).screen == Screen::Selecting(CategoryId::DriverInstall),
            final(self).drivers.selecting,
            !final(self).drivers.viewing,
            final(self).drivers.list.items.deep_view() == driver_names(),
            final(self).drivers.list.selected == 0,
            final(self).drivers.task.state is Idle,
            final(self).drivers.scroll == 0,
            final(self).menu_index == old(self).menu_index,
    {
        self.deactivate_all();
        proof {
            assert(self.cat(CategoryId::Disk) == self.disk);
            assert(self.cat(CategoryId::Gpu) == self.gpu);
            assert(self.cat(CategoryId::DriverInstall) == self.drivers);
            assert(self.cat(CategoryId::Keyboard) == self.keyboard);
            assert(self.cat(CategoryId::Gamepad) == self.gamepad);
            assert(self.cat(CategoryId::Audio) == self.audio);
            assert(self.cat(CategoryId::PhotoExport) == self.photo);
            assert(self.cat(CategoryId::Stress) == self.stress);
        }
        self.screen = Screen::Selecting(CategoryId::DriverInstall);
        self.drivers.enter_selection(get_driver_list());
    }

    /// Move the driver highlight one entry down, clamped at the last one.
    pub fn increment_driver_selection(&mut self)
        requires
            old(self).wf(),
        ensures
            final(self).wf(),
            final(self).drivers.list.items == old(self).drivers.list.items,
            final(self).drivers.list.selected == crate::nav::moved_index(
                old(self).drivers.list.items@.len() as nat,
                old(self).drivers.list.selected as nat,
                true,
            ),
            final(self).drivers.task == old(self).drivers.task,
            final(self).screen == old(self).screen,
            final(self).menu_index == old(self).menu_index,
    {
        proof {
            assert(old(self).cat(CategoryId::DriverInstall).wf());
        }
        self.drivers.move_down();
        proof {
            assert forall|d: CategoryId| #![trigger self.cat(d)] d != CategoryId::DriverInstall
                implies self.cat(d) == old(self).cat(d) by {}
        }
    }

    /// Move the driver highlight one entry up, clamped at the first one.
    pub fn decrement_driver_selection(&mut self)
        requires
            old(self).wf(),
        ensures
            final(self).wf(),
            final(self).drivers.list.items == old(self).drivers.list.items,
            final(self).drivers.list.selected == crate::nav::moved_index(
                old(self).drivers.list.items@.len() as nat,
                old(self).drivers.list.selected as nat,
                false,
            ),
            final(self).drivers.task == old(self).drivers.task,
            final(self).screen == old(self).screen,
            final(self).menu_index == old(self).menu_index,
    {
        proof {
            assert(old(self).cat(CategoryId::DriverInstall).wf());
        }
        self.drivers.move_up();
        proof {
            assert forall|d: CategoryId| #![trigger self.cat(d)] d != CategoryId::DriverInstall
                implies self.cat(d) == old(self).cat(d) by {}
        }
    }

    /// Move the driver highlight one entry down (clamped).
    pub fn increment_driver_selection_menu(&mut self)
        requires
            old(self).wf(),
        ensures
            final(self).wf(),
            final(self).drivers.list.items == old(self).drivers.list.items,
            final(self).drivers.list.selected == crate::nav::moved_index(
                old(self).drivers.list.items@.len() as nat,
                old(self).drivers.list.selected as nat,
                true,
            ),
            final(self).screen == old(self).screen,
    {
        self.increment_driver_selection();
    }

    /// Move the driver highlight one entry up (clamped).
    pub fn decrement_driver_selection_menu(&mut self)
        requires
            old(self).wf(),
        ensures
            final(self).wf(),
            final(self).drivers.list.items == old(self).drivers.list.items,
            final(self).drivers.list.selected == crate::nav::moved_index(
                old(self).drivers.list.items@.len() as nat,
                old(self).drivers.list.selected as nat,
                false,
            ),
            final(self).screen == old(self).screen,
    {
        self.decrement_driver_selection();
    }

    /// Launch the installation of the highlighted driver package.  On the selection screen with at least one
    /// entry listed this starts the task, moves to the running output
    /// screen, and hands back the selected entry for the worker; otherwise
    /// it is a no-op and hands back nothing.
    pub fn install_selected_driver(&mut self, now: u64) -> (r: Option<String>)
        requires
            old(self).wf(),
        ensures
            final(self).wf(),
            old(self).screen == Screen::Selecting(CategoryId::DriverInstall) && old(
                self,
            ).drivers.list.items@.len() > 0 ==> {
                &&& r == Some(old(self).drivers.list.items@[old(self).drivers.list.selected as int])
                &&& final(self).screen == Screen::Running(CategoryId::DriverInstall)
                &&& final(self).drivers.task.state is Running
                &&& final(self).drivers.task.progress == 0
                &&& final(self).drivers.viewing
                &&& final(self).drivers.list == old(self).drivers.list
            },
            !(old(self).screen == Screen::Selecting(CategoryId::DriverInstall) && old(
                self,
            ).drivers.list.items@.len() > 0) ==> {
                &&& r is None
                &&& *final(self) == *old(self)
            },
    {
        if matches!(self.screen, Screen::Selecting(CategoryId::DriverInstall)) {
            if self.drivers.list.len() > 0 {
                self.screen = Screen::Running(CategoryId::DriverInstall);
                proof {
                    assert(old(self).cat(CategoryId::DriverInstall).wf());
                }
                let picked = self.drivers.run_selected(now);
                proof {
                    assert forall|d: CategoryId| #![trigger self.cat(d)] d != CategoryId::DriverInstall
                        implies self.cat(d) == old(self).cat(d) by {}
                }
                picked
            } else {
                None
            }
        } else {
            None
        }
    }

    /// Launch the installation of the highlighted driver package (the
    /// selection-screen entry point shares the implementation).
    pub fn install_selected_driver_menu(&mut self, now: u64) -> (r: Option<String>)
        requires
            old(self).wf(),
        ensures
            final(self).wf(),
            old(self).screen == Screen::Selecting(CategoryId::DriverInstall) && old(
                self,
            ).drivers.list.items@.len() > 0 ==> {
                &&& r == Some(
                    old(self).drivers.list.items@[old(self).drivers.list.selected as int],
                )
                &&& final(self).screen == Screen::Running(CategoryId::DriverInstall)
                &&& final(self).drivers.task.state is Running
            },
            !(old(self).screen == Screen::Selecting(CategoryId::DriverInstall) && old(
                self,
            ).drivers.list.items@.len() > 0) ==> {
                &&& r is None
                &&& *final(self) == *old(self)
            },
    {
        self.install_selected_driver(now)
    }

    /// Leave the driver screens for the main menu, discarding all installation state; a no-op when the category is not showing.
    pub fn exit_driver_selection_menu(&mut self)
        requires
            old(self).wf(),
        ensures
            final(self).wf(),
            crate::screen::active_category(*old(self)) == Some(CategoryId::DriverInstall) ==> {
                &&& final(self).screen is MainMenu
                &&& !final(self).drivers.selecting
                &&& !final(self).drivers.viewing
                &&& final(self).drivers.task.state is Idle
                &&& final(self).drivers.task.output@.len() == 0
                &&& final(self).drivers.list.items@.len() == 0
                &&& final(self).drivers.scroll == 0
            },
            crate::screen::active_category(*old(self)) != Some(CategoryId::DriverInstall) ==> *final(self)
                == *old(self),
            final(self).menu_index == old(self).menu_index,
    {
        if matches!(
            self.screen,
            Screen::Selecting(CategoryId::DriverInstall)
                | Screen::Running(CategoryId::DriverInstall)
                | Screen::Viewing(CategoryId::DriverInstall),
        ) {
            self.screen = Screen::MainMenu;
            self.drivers.exit();
            proof {
                assert forall|d: CategoryId| #![trigger self.cat(d)] d != CategoryId::DriverInstall
                    implies self.cat(d) == old(self).cat(d) by {}
            }
        }
    }

    /// Reset the driver category entirely: back to the main menu with no list, no log and an idle task; a no-op when the category is not showing.
    pub fn reset_driver_state(&mut self)
        requires
            old(self).wf(),
        ensures
            final(self).wf(),
            crate::screen::active_category(*old(self)) == Some(CategoryId::DriverInstall) ==> {
                &&& final(self).screen is MainMenu
                &&& !final(self).drivers.selecting
                &&& !final(self).drivers.viewing
                &&& final(self).drivers.task.state is Idle
                &&& final(self).drivers.task.output@.len() == 0
                &&& final(self).drivers.list.items@.len() == 0
                &&& final(self).drivers.scroll == 0
            },
            crate::screen::active_category(*old(self)) != Some(CategoryId::DriverInstall) ==> *final(self)
                == *old(self),
            final(self).menu_index == old(self).menu_index,
    {
        if matches!(
            self.screen,
            Screen::Selecting(CategoryId::DriverInstall)
                | Screen::Running(CategoryId::DriverInstall)
                | Screen::Viewing(CategoryId::DriverInstall),
        ) {
            self.screen = Screen::MainMenu;
            self.drivers.exit();
            proof {
                assert forall|d: CategoryId| #![trigger self.cat(d)] d != CategoryId::DriverInstall
                    implies self.cat(d) == old(self).cat(d) by {}
            }
        }
    }
}

} // verus!

