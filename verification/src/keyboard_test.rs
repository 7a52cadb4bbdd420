//! The keyboard category: entering and leaving its device-selection
//! screen.  The device list comes from an external enumeration, handed in
//! by the caller.

use vstd::prelude::*;
use crate::screen::{ScreenStateMachine, Screen, CategoryId};

verus! {

impl ScreenStateMachine {
    /// Whether any keyboard-test screen owns the display.
    pub fn check_keyboard_test_active(&self) -> (r: bool)
        ensures
            r == self.keyboard.spec_active(),
    {
        self.keyboard.active()
    }

    /// Open the keyboard device-selection screen on a freshly enumerated
    /// device list, leaving whatever category was active.
    pub fn enter_keyboard_test(&mut self, devices: Vec<String>)
        requires
            old(self).wf(),
        ensures
            final(self).wf(),
            final(self).screen == Screen::Selecting(CategoryId::Keyboard),
            final(self).keyboard.selecting,
            !final(self).keyboard.viewing,
            final(self).keyboard.list.items == devices,
            final(self).keyboard.list.selected == 0,
            final(self).keyboard.task.state is Idle,
            final(self).keyboard.scroll == 0,
            final(self).menu_index == old(self).menu_index,
    {
        self.deactivate_all();
        proof {
            assert(self.cat(CategoryId::Disk) == self.disk);
            assert(self.cat(CategoryId::Gpu) == self.gpu);
            assert(self.cat(CategoryId::DriverInstall) == self.drivers);
            assert(self.cat(CategoryId::Keyboard) == self.keyboard);
            assert(self.cat(CategoryId::Gamepad) == self.gamepad);
            assert(self.cat(CategoryId::Audio) == self.audio);
            assert(self.cat(CategoryId::PhotoExport) == self.photo);
            assert(self.cat(CategoryId::Stress) == self.stress);
        }
        self.screen = Screen::Selecting(CategoryId::Keyboard);
        self.keyboard.enter_selection(devices);
    }

    /// Leave the keyboard-test screens for the main menu; a no-op when the category is not showing.
    pub fn exit_keyboard_test(&mut self)
        requires
            old(self).wf(),
        ensures
            final(self).wf(),
            crate::screen::active_category(*old(self)) == Some(CategoryId::Keyboard) ==> {
                &&& final(self).screen is MainMenu
                &&& !final(self).keyboard.selecting
                &&& !final(self).keyboard.viewing
                &&& final(self).keyboard.task.state is Idle
                &&& final(self).keyboard.task.output@.len() == 0
                &&& final(self).keyboard.list.items@.len() == 0
                &&& final(self).keyboard.scroll == 0
            },
            crate::screen::active_category(*old(self)) != Some(CategoryId::Keyboard) ==> *final(self)
                == *old(self),
            final(self).menu_index == old(self).menu_index,
    {
        if matches!(
            self.screen,
            Screen::Selecting(CategoryId::Keyboard)
                | Screen::Running(CategoryId::Keyboard)
                | Screen::Viewing(CategoryId::Keyboard),
        ) {
            self.screen = Screen::MainMenu;
            self.keyboard.exit();
            proof {
                assert forall|d: CategoryId| #![trigger self.cat(d)] d != CategoryId::Keyboard
                    implies self.cat(d) == old(self).cat(d) by {}
            }
        }
    }
}

/// Whether a device-listing line names a keyboard (case-insensitively).
pub fn is_keyboard_line(line: &[u8]) -> (r: bool)
    ensures
        r == crate::text::bytes_contain(
            crate::text::lower_bytes(line@),
            "keyboard"@.map_values(|c: char| c as u8),
        ),
{
    proof {
        reveal_strlit("keyboard");
        assert("keyboard".is_ascii());
    }
    let low = crate::text::to_lower_bytes(line);
    crate::text::contains_bytes(low.as_slice(), crate::text::ascii_bytes("keyboard"))
}

} // verus!

