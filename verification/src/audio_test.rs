//! The audio category: its fixed output-device list and its status lines.

use vstd::prelude::*;
use vstd::string::StringExecFns;
use crate::screen::{ScreenStateMachine, Screen, CategoryId};

verus! {

/// The selectable audio outputs, in display order.  This list is fixed:
/// the category needs no external enumeration.
pub open spec fn audio_device_names() -> Seq<Seq<char>> {
    seq!["Speakers"@, "Headphones"@]
}

pub fn default_audio_devices() -> (r: Vec<String>)
    ensures
        r.deep_view() == audio_device_names(),
{
    let mut r: Vec<String> = Vec::new();
    r.push("Speakers".to_owned());
    r.push("Headphones".to_owned());
    proof {
        assert(r.deep_view() =~= audio_device_names());
    }
    r
}

/// The status line shown while the audio check plays on the chosen device.
pub fn audio_start_message(selected: &str) -> (r: String)
    ensures
        r@ == "Starting test on: "@ + selected@ + "\n(Audio response test in development)"@,
{
    let mut r: String = "Starting test on: ".to_owned();
    r.append(selected);
    r.append("\n(Audio response test in development)");
    r
}

impl ScreenStateMachine {
    /// Whether any audio-test screen owns the display.
    pub fn check_audio_test_active(&self) -> (r: bool)
        ensures
            r == self.audio.spec_active(),
    {
        self.audio.active()
    }

    /// Open the audio output-selection screen on the fixed device list,
    /// leaving whatever category was active.  The caller starts the
    /// playback worker.
    pub fn enter_audio_test(&mut self)
        requires
            old(self).wf(),
        ensures
            final(self).wf(),
            final(self).screen == Screen::Selecting(CategoryId::Audio),
            final(self).audio.selecting,
            !final(self).audio.viewing,
            final(self).audio.list.items.deep_view() == audio_device_names(),
            final(self).audio.list.selected == 0,
            final(self).audio.task.state is Idle,
            final(self).audio.scroll == 0,
            final(self).menu_index == old(self).menu_index,
    {
        self.deactivate_all();
        proof {
            assert(self.cat(CategoryId::Disk) == self.disk);
            assert(self.cat(CategoryId::Gpu) == self.gpu);
            assert(self.cat(CategoryId::DriverInstall) == self.drivers);
            assert(self.cat(CategoryId::Keyboard) == self.keyboard);
            assert(self.cat(CategoryId::Gamepad) == self.gamepad);
            assert(self.cat(CategoryId::Audio) == self.audio);
            assert(self.cat(CategoryId::PhotoExport) == self.photo);
            assert(self.cat(CategoryId::Stress) == self.stress);
        }
        self.screen = Screen::Selecting(CategoryId::Audio);
        self.audio.enter_selection(default_audio_devices());
    }

    /// Leave the audio-test screens for the main menu; a no-op when the category is not showing.
    pub fn exit_audio_test(&mut self)
        requires
            old(self).wf(),
        ensures
            final(self).wf(),
            crate::screen::active_category(*old(self)) == Some(CategoryId::Audio) ==> {
                &&& final(self).screen is MainMenu
                &&& !final(self).audio.selecting
                &&& !final(self).audio.viewing
                &&& final(self).audio.task.state is Idle
                &&& final(self).audio.task.output@.len() == 0
                &&& final(self).audio.list.items@.len() == 0
                &&& final(self).audio.scroll == 0
            },
            crate::screen::active_category(*old(self)) != Some(CategoryId::Audio) ==> *final(self)
                == *old(self),
            final(self).menu_index == old(self).menu_index,
    {
        if matches!(
            self.screen,
            Screen::Selecting(CategoryId::Audio)
                | Screen::Running(CategoryId::Audio)
                | Screen::Viewing(CategoryId::Audio),
        ) {
            self.screen = Screen::MainMenu;
            self.audio.exit();
            proof {
                assert forall|d: CategoryId| #![trigger self.cat(d)] d != CategoryId::Audio
                    implies self.cat(d) == old(self).cat(d) by {}
            }
        }
    }

    /// Launch the audio test on the highlighted output device.  On the selection screen with at least one
    /// entry listed this starts the task, moves to the running output
    /// screen, and hands back the selected entry for the worker; otherwise
    /// it is a no-op and hands back nothing.
    pub fn run_audio_test(&mut self, now: u64) -> (r: Option<String>)
        requires
            old(self).wf(),
        ensures
            final(self).wf(),
            old(self).screen == Screen::Selecting(CategoryId::Audio) && old(
                self,
            ).audio.list.items@.len() > 0 ==> {
                &&& r == Some(old(self).audio.list.items@[old(self).audio.list.selected as int])
                &&& final(self).screen == Screen::Running(CategoryId::Audio)
                &&& final(self).audio.task.state is Running
                &&& final(self).audio.task.progress == 0
                &&& final(self).audio.viewing
                &&& final(self).audio.list == old(self).audio.list
            },
            !(old(self).screen == Screen::Selecting(CategoryId::Audio) && old(
                self,
            ).audio.list.items@.len() > 0) ==> {
                &&& r is None
                &&& *final(self) == *old(self)
            },
    {
        if matches!(self.screen, Screen::Selecting(CategoryId::Audio)) {
            if self.audio.list.len() > 0 {
                self.screen = Screen::Running(CategoryId::Audio);
                proof {
                    assert(old(self).cat(CategoryId::Audio).wf());
                }
                let picked = self.audio.run_selected(now);
                proof {
                    assert forall|d: CategoryId| #![trigger self.cat(d)] d != CategoryId::Audio
                        implies self.cat(d) == old(self).cat(d) by {}
                }
                picked
            } else {
                None
            }
        } else {
            None
        }
    }
}

} // verus!

