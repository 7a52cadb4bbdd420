//! The gamepad category: entering and leaving its device-selection screen
//! and launching the button test on the selected device.

use vstd::prelude::*;
use vstd::string::StringExecFns;
use crate::screen::{ScreenStateMachine, Screen, CategoryId};

verus! {

/// The status line shown while the gamepad test runs on the chosen device.
pub fn gamepad_run_message(selected: &str) -> (r: String)
    ensures
        r@ == "Running test on: "@ + selected@ + "\n(Gamepad button test in development)"@,
{
    let mut r: String = "Running test on: ".to_owned();
    r.append(selected);
    r.append("\n(Gamepad button test in development)");
    r
}

impl ScreenStateMachine {
    /// Whether any gamepad-test screen owns the display.
    pub fn check_gamepad_test_active(&self) -> (r: bool)
        ensures
            r == self.gamepad.spec_active(),
    {
        self.gamepad.active()
    }

    /// Open the gamepad device-selection screen on a freshly enumerated
    /// device list, leaving whatever category was active.
    pub fn enter_gamepad_test(&mut self, devices: Vec<String>)
        requires
            old(self).wf(),
        ensures
            final(self).wf(),
            final(self).screen == Screen::Selecting(CategoryId::Gamepad),
            final(self).gamepad.selecting,
            !final(self).gamepad.viewing,
            final(self).gamepad.list.items == devices,
            final(self).gamepad.list.selected == 0,
            final(self).gamepad.task.state is Idle,
            final(self).gamepad.scroll == 0,
            final(self).menu_index == old(self).menu_index,
    {
        self.deactivate_all();
        proof {
            assert(self.cat(CategoryId::Disk) == self.disk);
            assert(self.cat(CategoryId::Gpu) == self.gpu);
            assert(self.cat(CategoryId::DriverInstall) == self.drivers);
            assert(self.cat(CategoryId::Keyboard) == self.keyboard);
            assert(self.cat(CategoryId::Gamepad) == self.gamepad);
            assert(self.cat(CategoryId::Audio) == self.audio);
            assert(self.cat(CategoryId::PhotoExport) == self.photo);
            assert(self.cat(CategoryId::Stress) == self.stress);
        }
        self.screen = Screen::Selecting(CategoryId::Gamepad);
        self.gamepad.enter_selection(devices);
    }

    /// Leave the gamepad-test screens for the main menu; a no-op when the category is not showing.
    pub fn exit_gamepad_test(&mut self)
        requires
            old(self).wf(),
        ensures
            final(self).wf(),
            crate::screen::active_category(*old(self)) == Some(CategoryId::Gamepad) ==> {
                &&& final(self).screen is MainMenu
                &&& !final(self).gamepad.selecting
                &&& !final(self).gamepad.viewing
                &&& final(self).gamepad.task.state is Idle
                &&& final(self).gamepad.task.output@.len() == 0
                &&& final(self).gamepad.list.items@.len() == 0
                &&& final(self).gamepad.scroll == 0
            },
            crate::screen::active_category(*old(self)) != Some(CategoryId::Gamepad) ==> *final(self)
                == *old(self),
            final(self).menu_index == old(self).menu_index,
    {
        if matches!(
            self.screen,
            Screen::Selecting(CategoryId::Gamepad)
                | Screen::Running(CategoryId::Gamepad)
                | Screen::Viewing(CategoryId::Gamepad),
        ) {
            self.screen = Screen::MainMenu;
            self.gamepad.exit();
            proof {
                assert forall|d: CategoryId| #![trigger self.cat(d)] d != CategoryId::Gamepad
                    implies self.cat(d) == old(self).cat(d) by {}
            }
        }
    }

    /// Launch the gamepad test on the highlighted device.  On the selection screen with at least one
    /// entry listed this starts the task, moves to the running output
    /// screen, and hands back the selected entry for the worker; otherwise
    /// it is a no-op and hands back nothing.
    pub fn run_gamepad_test(&mut self, now: u64) -> (r: Option<String>)
        requires
            old(self).wf(),
        ensures
            final(self).wf(),
            old(self).screen == Screen::Selecting(CategoryId::Gamepad) && old(
                self,
            ).gamepad.list.items@.len() > 0 ==> {
                &&& r == Some(old(self).gamepad.list.items@[old(self).gamepad.list.selected as int])
                &&& final(self).screen == Screen::Running(CategoryId::Gamepad)
                &&& final(self).gamepad.task.state is Running
                &&& final(self).gamepad.task.progress == 0
                &&& final(self).gamepad.viewing
                &&& final(self).gamepad.list == old(self).gamepad.list
            },
            !(old(self).screen == Screen::Selecting(CategoryId::Gamepad) && old(
                self,
            ).gamepad.list.items@.len() > 0) ==> {
                &&& r is None
                &&& *final(self) == *old(self)
            },
    {
        if matches!(self.screen, Screen::Selecting(CategoryId::Gamepad)) {
            if self.gamepad.list.len() > 0 {
                self.screen = Screen::Running(CategoryId::Gamepad);
                proof {
                    assert(old(self).cat(CategoryId::Gamepad).wf());
                }
                let picked = self.gamepad.run_selected(now);
                proof {
                    assert forall|d: CategoryId| #![trigger self.cat(d)] d != CategoryId::Gamepad
                        implies self.cat(d) == old(self).cat(d) by {}
                }
                picked
            } else {
                None
            }
        } else {
            None
        }
    }
}

/// Whether a device-listing line names a game controller, gamepad or
/// joystick (case-insensitively).
pub fn is_gamepad_line(line: &[u8]) -> (r: bool)
    ensures
        r == {
            let low = crate::text::lower_bytes(line@);
            crate::text::bytes_contain(low, "controller"@.map_values(|c: char| c as u8))
                || crate::text::bytes_contain(low, "gamepad"@.map_values(|c: char| c as u8))
                || crate::text::bytes_contain(low, "joystick"@.map_values(|c: char| c as u8))
        },
{
    proof {
        reveal_strlit("controller");
        reveal_strlit("gamepad");
        reveal_strlit("joystick");
        assert("controller".is_ascii());
        assert("gamepad".is_ascii());
        assert("joystick".is_ascii());
    }
    let low = crate::text::to_lower_bytes(line);
    crate::text::contains_bytes(low.as_slice(), crate::text::ascii_bytes("controller"))
        || crate::text::contains_bytes(low.as_slice(), crate::text::ascii_bytes("gamepad"))
        || crate::text::contains_bytes(low.as_slice(), crate::text::ascii_bytes("joystick"))
}

} // verus!

