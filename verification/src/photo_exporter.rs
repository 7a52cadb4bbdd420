//! The photo-export category: starting the export directly from the menu
//! and the status lines its worker reports.

use vstd::prelude::*;
use vstd::string::StringExecFns;
use crate::screen::{ScreenStateMachine, Screen, CategoryId};

verus! {

/// The status line a finished export reports, carrying the transfer tool's
/// captured output.
pub fn export_complete_message(captured: &str) -> (r: String)
    ensures
        r@ == "Photo export complete.\n"@ + captured@,
{
    let mut r: String = "Photo export complete.\n".to_owned();
    r.append(captured);
    r
}

/// The status line a failed export reports.
pub fn export_failure_message(error: &str) -> (r: String)
    ensures
        r@ == "Photo export failed: "@ + error@,
{
    let mut r: String = "Photo export failed: ".to_owned();
    r.append(error);
    r
}

impl ScreenStateMachine {
    /// Whether the export's progress screen owns the display.
    pub fn check_export_active(&self) -> (r: bool)
        ensures
            r == self.photo.viewing,
    {
        self.photo.viewing
    }

    /// Start the photo export from the main menu: the progress screen takes
    /// the display with a fresh running task, and the caller launches the
    /// worker.  A no-op anywhere but the main menu.
    pub fn run_photo_exporter(&mut self, now: u64)
        requires
            old(self).wf(),
        ensures
            final(self).wf(),
            old(self).screen is MainMenu ==> {
                &&& final(self).screen == Screen::Running(CategoryId::PhotoExport)
                &&& final(self).photo.viewing
                &&& final(self).photo.task.state is Running
                &&& final(self).photo.task.progress == 0
                &&& final(self).photo.task.started_at == Some(now)
                &&& final(self).photo.scroll == 0
            },
            !(old(self).screen is MainMenu) ==> *final(self) == *old(self),
            final(self).menu_index == old(self).menu_index,
    {
        if matches!(self.screen, Screen::MainMenu) {
            proof {
                assert(!old(self).cat(CategoryId::PhotoExport).spec_active());
            }
            self.screen = Screen::Running(CategoryId::PhotoExport);
            self.photo.run_direct(now);
            proof {
                assert forall|d: CategoryId| #![trigger self.cat(d)] d != CategoryId::PhotoExport
                    implies self.cat(d) == old(self).cat(d) by {}
            }
        }
    }

    /// Leave the export's progress screen for the main menu, clearing progress and message; a no-op when it is not showing.
    pub fn exit_export(&mut self)
        requires
            old(self).wf(),
        ensures
            final(self).wf(),
            crate::screen::active_category(*old(self)) == Some(CategoryId::PhotoExport) ==> {
                &&& final(self).screen is MainMenu
                &&& !final(self).photo.selecting
                &&& !final(self).photo.viewing
                &&& final(self).photo.task.state is Idle
                &&& final(self).photo.task.output@.len() == 0
                &&& final(self).photo.list.items@.len() == 0
                &&& final(self).photo.scroll == 0
            },
            crate::screen::active_category(*old(self)) != Some(CategoryId::PhotoExport) ==> *final(self)
                == *old(self),
            final(self).menu_index == old(self).menu_index,
    {
        if matches!(
            self.screen,
            Screen::Selecting(CategoryId::PhotoExport)
                | Screen::Running(CategoryId::PhotoExport)
                | Screen::Viewing(CategoryId::PhotoExport),
        ) {
            self.screen = Screen::MainMenu;
            self.photo.exit();
            proof {
                assert forall|d: CategoryId| #![trigger self.cat(d)] d != CategoryId::PhotoExport
                    implies self.cat(d) == old(self).cat(d) by {}
            }
        }
    }
}

} // verus!
