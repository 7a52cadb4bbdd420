//! The main menu's entries, and the routing of selection keys to whichever
//! input-device category (keyboard, gamepad or audio) owns the display.

use vstd::prelude::*;
use crate::screen::{ScreenStateMachine, Screen, CategoryId, Action, Key};

verus! {

/// The main-menu entries, in display order; the last one quits.
pub open spec fn menu_label_names() -> Seq<Seq<char>> {
    seq![
        "Run SMART Test"@,
        "AMD GPU Test"@,
        "NVIDIA GPU Test"@,
        "Photo Exporter"@,
        "NVIDIA Driver Installer"@,
        "Keyboard Test"@,
        "Gamepad Test"@,
        "Audio Test"@,
        "Exit"@,
    ]
}

/// The labels of the main menu, one per entry.
pub fn main_menu_labels() -> (r: Vec<String>)
    ensures
        r.deep_view() == menu_label_names(),
        r@.len() == crate::screen::MENU_LEN,
{
    let mut r: Vec<String> = Vec::new();
    r.push("Run SMART Test".to_owned());
    r.push("AMD GPU Test".to_owned());
    r.push("NVIDIA GPU Test".to_owned());
    r.push("Photo Exporter".to_owned());
    r.push("NVIDIA Driver Installer".to_owned());
    r.push("Keyboard Test".to_owned());
    r.push("Gamepad Test".to_owned());
    r.push("Audio Test".to_owned());
    r.push("Exit".to_owned());
    proof {
        assert(r.deep_view() =~= menu_label_names());
    }
    r
}

/// Whether a category is one of the input-device tests the input router
/// handles.
pub open spec fn is_input_category(c: CategoryId) -> bool {
    c is Keyboard || c is Gamepad || c is Audio
}

impl ScreenStateMachine {
    /// Act on the highlighted main-menu entry, as `Enter` there would; a
    /// no-op anywhere but the main menu.
    pub fn handle_main_menu_enter(&mut self, now: u64) -> (a: Action)
        requires
            old(self).wf(),
        ensures
            final(self).wf(),
            old(self).screen is MainMenu ==> Self::menu_enter_post(
                *old(self),
                *final(self),
                now,
                a,
            ),
            !(old(self).screen is MainMenu) ==> *final(self) == *old(self) && a is Nothing,
    {
        if matches!(self.screen, Screen::MainMenu) {
            self.dispatch(Key::Enter, now)
        } else {
            Action::Nothing
        }
    }

    /// Whether any input-device test (keyboard, gamepad or audio) owns the
    /// display.
    pub fn check_input_select(&self) -> (r: bool)
        ensures
            r == (self.keyboard.spec_active() || self.gamepad.spec_active()
                || self.audio.spec_active()),
    {
        self.keyboard.active() || self.gamepad.active() || self.audio.active()
    }

    /// Leave whichever input-device test owns the display for the main
    /// menu; a no-op when none does.
    pub fn exit_input_selection(&mut self)
        requires
            old(self).wf(),
        ensures
            final(self).wf(),
            crate::screen::active_category(*old(self)) matches Some(c) ==> (is_input_category(c)
                ==> {
                &&& final(self).screen is MainMenu
                &&& !final(self).cat(c).selecting
                &&& !final(self).cat(c).viewing
                &&& final(self).cat(c).task.state is Idle
                &&& final(self).cat(c).list.items@.len() == 0
            }),
            (match crate::screen::active_category(*old(self)) {
                Some(c) => !is_input_category(c),
                None => true,
            }) ==> *final(self) == *old(self),
            final(self).menu_index == old(self).menu_index,
    {
        if matches!(
            self.screen,
            Screen::Selecting(CategoryId::Keyboard)
                | Screen::Running(CategoryId::Keyboard)
                | Screen::Viewing(CategoryId::Keyboard),
        ) {
            self.exit_keyboard_test();
        } else if matches!(
            self.screen,
            Screen::Selecting(CategoryId::Gamepad)
                | Screen::Running(CategoryId::Gamepad)
                | Screen::Viewing(CategoryId::Gamepad),
        ) {
            self.exit_gamepad_test();
        } else if matches!(
            self.screen,
            Screen::Selecting(CategoryId::Audio)
                | Screen::Running(CategoryId::Audio)
                | Screen::Viewing(CategoryId::Audio),
        ) {
            self.exit_audio_test();
        }
    }

    /// Move the selection of whichever input-device test is on its
    /// selection screen one entry down (clamped); a no-op when none is.
    pub fn increment_input_selection(&mut self)
        requires
            old(self).wf(),
        ensures
            final(self).wf(),
            old(self).screen matches Screen::Selecting(c) ==> (is_input_category(c)
                ==> Self::list_moved_post(*old(self), *final(self), c, true)),
            (match old(self).screen {
                Screen::Selecting(c) => !is_input_category(c),
                _ => true,
            }) ==> *final(self) == *old(self),
    {
        match self.screen {
            Screen::Selecting(CategoryId::Keyboard) => {
                proof {
                    assert(old(self).cat(CategoryId::Keyboard).wf());
                }
                self.keyboard.move_down();
                proof {
                    assert forall|d: CategoryId| #![trigger self.cat(d)] d != CategoryId::Keyboard
                        implies self.cat(d) == old(self).cat(d) by {}
                }
            },
            Screen::Selecting(CategoryId::Gamepad) => {
                proof {
                    assert(old(self).cat(CategoryId::Gamepad).wf());
                }
                self.gamepad.move_down();
                proof {
                    assert forall|d: CategoryId| #![trigger self.cat(d)] d != CategoryId::Gamepad
                        implies self.cat(d) == old(self).cat(d) by {}
                }
            },
            Screen::Selecting(CategoryId::Audio) => {
                proof {
                    assert(old(self).cat(CategoryId::Audio).wf());
                }
                self.audio.move_down();
                proof {
                    assert forall|d: CategoryId| #![trigger self.cat(d)] d != CategoryId::Audio
                        implies self.cat(d) == old(self).cat(d) by {}
                }
            },
            _ => {
            },
        }
    }

    /// Move the selection of whichever input-device test is on its
    /// selection screen one entry up (clamped); a no-op when none is.
    pub fn decrement_input_selection(&mut self)
        requires
            old(self).wf(),
        ensures
            final(self).wf(),
            old(self).screen matches Screen::Selecting(c) ==> (is_input_category(c)
                ==> Self::list_moved_post(*old(self), *final(self), c, false)),
            (match old(self).screen {
                Screen::Selecting(c) => !is_input_category(c),
                _ => true,
            }) ==> *final(self) == *old(self),
    {
        match self.screen {
            Screen::Selecting(CategoryId::Keyboard) => {
                proof {
                    assert(old(self).cat(CategoryId::Keyboard).wf());
                }
                self.keyboard.move_up();
                proof {
                    assert forall|d: CategoryId| #![trigger self.cat(d)] d != CategoryId::Keyboard
                        implies self.cat(d) == old(self).cat(d) by {}
                }
            },
            Screen::Selecting(CategoryId::Gamepad) => {
                proof {
                    assert(old(self).cat(CategoryId::Gamepad).wf());
                }
                self.gamepad.move_up();
                proof {
                    assert forall|d: CategoryId| #![trigger self.cat(d)] d != CategoryId::Gamepad
                        implies self.cat(d) == old(self).cat(d) by {}
                }
            },
            Screen::Selecting(CategoryId::Audio) => {
                proof {
                    assert(old(self).cat(CategoryId::Audio).wf());
                }
                self.audio.move_up();
                proof {
                    assert forall|d: CategoryId| #![trigger self.cat(d)] d != CategoryId::Audio
                        implies self.cat(d) == old(self).cat(d) by {}
                }
            },
            _ => {
            },
        }
    }

    /// Move the selection of whichever input-device test is on its
    /// selection screen one entry down (clamped); a no-op when none is.
    pub fn increment_device_selection(&mut self)
        requires
            old(self).wf(),
        ensures
            final(self).wf(),
            old(self).screen matches Screen::Selecting(c) ==> (is_input_category(c)
                ==> Self::list_moved_post(*old(self), *final(self), c, true)),
            (match old(self).screen {
                Screen::Selecting(c) => !is_input_category(c),
                _ => true,
            }) ==> *final(self) == *old(self),
    {
        self.increment_input_selection();
    }

    /// Move the selection of whichever input-device test is on its
    /// selection screen one entry up (clamped); a no-op when none is.
    pub fn decrement_device_selection(&mut self)
        requires
            old(self).wf(),
        ensures
            final(self).wf(),
            old(self).screen matches Screen::Selecting(c) ==> (is_input_category(c)
                ==> Self::list_moved_post(*old(self), *final(self), c, false)),
            (match old(self).screen {
                Screen::Selecting(c) => !is_input_category(c),
                _ => true,
            }) ==> *final(self) == *old(self),
    {
        self.decrement_input_selection();
    }
}

} // verus!
