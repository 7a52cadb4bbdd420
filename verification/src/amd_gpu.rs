//! The GPU category: its fixed card list and the formatting of its check's
//! output header.

use vstd::prelude::*;
use vstd::string::StringExecFns;
use crate::screen::{ScreenStateMachine, Screen, CategoryId};

verus! {

/// The selectable graphics cards, in display order.  This list is fixed:
/// the category needs no external enumeration.
pub open spec fn gpu_names() -> Seq<Seq<char>> {
    seq!["MSI AMD Radeon RX 7700 XT"@]
}

pub fn default_gpu_list() -> (r: Vec<String>)
    ensures
        r.deep_view() == gpu_names(),
{
    let mut r: Vec<String> = Vec::new();
    r.push("MSI AMD Radeon RX 7700 XT".to_owned());
    proof {
        assert(r.deep_view() =~= gpu_names());
    }
    r
}

/// The header line the GPU check's output opens with, naming the card under
/// test, followed by the tool's captured output.
pub fn gpu_output_header(selected: &str, captured: &str) -> (r: String)
    ensures
        r@ == "Testing GPU: "@ + selected@ + "\n"@ + captured@,
{
    let mut r: String = "Testing GPU: ".to_owned();
    r.append(selected);
    r.append("\n");
    r.append(captured);
    r
}

/// The status line reported when the GPU check tool could not run on the
/// chosen card.
pub fn gpu_failure_message(selected: &str, error: &str) -> (r: String)
    ensures
        r@ == "Failed to run radeontop on "@ + selected@ + ": "@ + error@,
{
    let mut r: String = "Failed to run radeontop on ".to_owned();
    r.append(selected);
    r.append(": ");
    r.append(error);
    r
}

impl ScreenStateMachine {
    /// Whether the GPU check's output screen owns the display.
    pub fn check_amd_active(&self) -> (r: bool)
        ensures
            r == self.gpu.viewing,
    {
        self.gpu.viewing
    }

    /// Whether the card-selection screen owns the display.
    pub fn check_gpu_select(&self) -> (r: bool)
        ensures
            r == self.gpu.selecting,
    {
        self.gpu.selecting
    }

    /// Open the card-selection screen on the fixed card list, leaving
    /// whatever category was active.
    pub fn enter_gpu_selection(&mut self)
        requires
            old(self).wf(),
        ensures
            final(self).wf(),
            final(self).screen == Screen::Selecting(CategoryId::Gpu),
            final(self).gpu.selecting,
            !final(self).gpu.viewing,
            final(self).gpu.list.items.deep_view() == gpu_names(),
            final(self).gpu.list.selected == 0,
            final(self).gpu.task.state is Idle,
            final(self).gpu.scroll == 0,
            final(self).menu_index == old(self).menu_index,
    {
        self.deactivate_all();
        proof {
            assert(self.cat(CategoryId::Disk) == self.disk);
            assert(self.cat(CategoryId::Gpu) == self.gpu);
            assert(self.cat(CategoryId::DriverInstall) == self.drivers);
            assert(self.cat(CategoryId::Keyboard) == self.keyboard);
            assert(self.cat(CategoryId::Gamepad) == self.gamepad);
            assert(self.cat(CategoryId::Audio) == self.audio);
            assert(self.cat(CategoryId::PhotoExport) == self.photo);
            assert(self.cat(CategoryId::Stress) == self.stress);
        }
        self.screen = Screen::Selecting(CategoryId::Gpu);
        self.gpu.enter_selection(default_gpu_list());
    }

    /// Leave the card-selection screen for the main menu; a no-op when it
    /// is not showing.
    pub fn exit_gpu_selection(&mut self)
        requires
            old(self).wf(),
        ensures
            final(self).wf(),
            old(self).screen == Screen::Selecting(CategoryId::Gpu) ==> {
                &&& final(self).screen is MainMenu
                &&& !final(self).gpu.selecting
                &&& final(self).gpu.list.items@.len() == 0
            },
            old(self).screen != Screen::Selecting(CategoryId::Gpu) ==> *final(self) == *old(self),
            final(self).menu_index == old(self).menu_index,
    {
        if matches!(self.screen, Screen::Selecting(CategoryId::Gpu)) {
            self.screen = Screen::MainMenu;
            self.gpu.exit();
            proof {
                assert forall|d: CategoryId| #![trigger self.cat(d)] d != CategoryId::Gpu
                    implies self.cat(d) == old(self).cat(d) by {}
            }
        }
    }

    /// Leave the GPU check's output screen for the main menu, discarding
    /// the output and resetting the task and scroll offset; a no-op when it
    /// is not showing.
    pub fn exit_amd_output(&mut self)
        requires
            old(self).wf(),
        ensures
            final(self).wf(),
            old(self).screen == Screen::Running(CategoryId::Gpu) || old(self).screen
                == Screen::Viewing(CategoryId::Gpu) ==> {
                &&& final(self).screen is MainMenu
                &&& !final(self).gpu.viewing
                &&& final(self).gpu.task.state is Idle
                &&& final(self).gpu.task.output@.len() == 0
                &&& final(self).gpu.scroll == 0
            },
            !(old(self).screen == Screen::Running(CategoryId::Gpu) || old(self).screen
                == Screen::Viewing(CategoryId::Gpu)) ==> *final(self) == *old(self),
            final(self).menu_index == old(self).menu_index,
    {
        if matches!(
            self.screen,
            Screen::Running(CategoryId::Gpu) | Screen::Viewing(CategoryId::Gpu),
        ) {
            self.screen = Screen::MainMenu;
            self.gpu.exit();
            proof {
                assert forall|d: CategoryId| #![trigger self.cat(d)] d != CategoryId::Gpu
                    implies self.cat(d) == old(self).cat(d) by {}
            }
        }
    }

    /// Move the card highlight one entry down, clamped at the last card.
    pub fn increment_gpu_selection(&mut self)
        requires
            old(self).wf(),
        ensures
            final(self).wf(),
            final(self).gpu.list.items == old(self).gpu.list.items,
            final(self).gpu.list.selected == crate::nav::moved_index(
                old(self).gpu.list.items@.len() as nat,
                old(self).gpu.list.selected as nat,
                true,
            ),
            final(self).gpu.task == old(self).gpu.task,
            final(self).screen == old(self).screen,
            final(self).menu_index == old(self).menu_index,
    {
        proof {
            assert(old(self).cat(CategoryId::Gpu).wf());
        }
        self.gpu.move_down();
        proof {
            assert forall|d: CategoryId| #![trigger self.cat(d)] d != CategoryId::Gpu
                implies self.cat(d) == old(self).cat(d) by {}
        }
    }

    /// Move the card highlight one entry up, clamped at the first card.
    pub fn decrement_gpu_selection(&mut self)
        requires
            old(self).wf(),
        ensures
            final(self).wf(),
            final(self).gpu.list.items == old(self).gpu.list.items,
            final(self).gpu.list.selected == crate::nav::moved_index(
                old(self).gpu.list.items@.len() as nat,
                old(self).gpu.list.selected as nat,
                false,
            ),
            final(self).gpu.task == old(self).gpu.task,
            final(self).screen == old(self).screen,
            final(self).menu_index == old(self).menu_index,
    {
        proof {
            assert(old(self).cat(CategoryId::Gpu).wf());
        }
        self.gpu.move_up();
        proof {
            assert forall|d: CategoryId| #![trigger self.cat(d)] d != CategoryId::Gpu
                implies self.cat(d) == old(self).cat(d) by {}
        }
    }

    /// Launch the GPU check on the highlighted card.  On the selection
    /// screen with at least one card listed this starts the task, moves to
    /// the running output screen, and hands back the selected card for the
    /// worker; otherwise it is a no-op and hands back nothing.
    pub fn run_selected_gpu_check(&mut self, now: u64) -> (r: Option<String>)
        requires
            old(self).wf(),
        ensures
            final(self).wf(),
            old(self).screen == Screen::Selecting(CategoryId::Gpu) && old(
                self,
            ).gpu.list.items@.len() > 0 ==> {
                &&& r == Some(old(self).gpu.list.items@[old(self).gpu.list.selected as int])
                &&& final(self).screen == Screen::Running(CategoryId::Gpu)
                &&& final(self).gpu.task.state is Running
                &&& final(self).gpu.task.progress == 0
                &&& final(self).gpu.viewing
                &&& final(self).gpu.list == old(self).gpu.list
            },
            !(old(self).screen == Screen::Selecting(CategoryId::Gpu) && old(
                self,
            ).gpu.list.items@.len() > 0) ==> {
                &&& r is None
                &&& *final(self) == *old(self)
            },
    {
        if matches!(self.screen, Screen::Selecting(CategoryId::Gpu)) {
            if self.gpu.list.len() > 0 {
                self.screen = Screen::Running(CategoryId::Gpu);
                proof {
                    assert(old(self).cat(CategoryId::Gpu).wf());
                }
                let picked = self.gpu.run_selected(now);
                proof {
                    assert forall|d: CategoryId| #![trigger self.cat(d)] d != CategoryId::Gpu
                        implies self.cat(d) == old(self).cat(d) by {}
                }
                picked
            } else {
                None
            }
        } else {
            None
        }
    }
}

} // verus!

