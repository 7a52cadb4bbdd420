//! The disk-health category: entering and leaving its drive-selection and
//! report screens, navigating the drive list, and launching the check on
//! the selected drive.

use vstd::prelude::*;
use vstd::string::StringExecFns;
use crate::screen::{ScreenStateMachine, Screen, CategoryId};
use crate::text::{bytes_contain, byte_lines, second_field, last_token, first_sub, entry_sep, dec_digits};

verus! {

impl ScreenStateMachine {
    /// Whether the disk report screen (running or finished) owns the display.
    pub fn check_smart_active(&self) -> (r: bool)
        ensures
            r == self.disk.viewing,
    {
        self.disk.viewing
    }

    /// Whether the drive-selection screen owns the display.
    pub fn check_smart_disk_select(&self) -> (r: bool)
        ensures
            r == self.disk.selecting,
    {
        self.disk.selecting
    }

    /// Whether the drive-selection screen owns the display.
    pub fn check_disk_selection_active(&self) -> (r: bool)
        ensures
            r == self.disk.selecting,
    {
        self.disk.selecting
    }

    /// Whether the drive-selection screen owns the display.
    pub fn check_disk_select(&self) -> (r: bool)
        ensures
            r == self.disk.selecting,
    {
        self.disk.selecting
    }

    /// Open the drive-selection screen on a freshly enumerated drive list,
    /// leaving whatever category was active.  Entries from an earlier visit
    /// never survive: the list shown is exactly `items`.
    pub fn enter_disk_selection(&mut self, items: Vec<String>)
        requires
            old(self).wf(),
        ensures
            final(self).wf(),
            final(self).screen == Screen::Selecting(CategoryId::Disk),
            final(self).disk.selecting,
            !final(self).disk.viewing,
            final(self).disk.list.items == items,
            final(self).disk.list.selected == 0,
            final(self).disk.task.state is Idle,
            final(self).disk.scroll == 0,
            final(self).menu_index == old(self).menu_index,
    {
        self.deactivate_all();
        proof {
            assert(self.cat(CategoryId::Disk) == self.disk);
            assert(self.cat(CategoryId::Gpu) == self.gpu);
            assert(self.cat(CategoryId::DriverInstall) == self.drivers);
            assert(self.cat(CategoryId::Keyboard) == self.keyboard);
            assert(self.cat(CategoryId::Gamepad) == self.gamepad);
            assert(self.cat(CategoryId::Audio) == self.audio);
            assert(self.cat(CategoryId::PhotoExport) == self.photo);
            assert(self.cat(CategoryId::Stress) == self.stress);
        }
        self.screen = Screen::Selecting(CategoryId::Disk);
        self.disk.enter_selection(items);
    }

    /// Leave the drive-selection screen for the main menu; a no-op when it
    /// is not showing.
    pub fn exit_disk_selection(&mut self)
        requires
            old(self).wf(),
        ensures
            final(self).wf(),
            old(self).screen == Screen::Selecting(CategoryId::Disk) ==> {
                &&& final(self).screen is MainMenu
                &&& !final(self).disk.selecting
                &&& final(self).disk.list.items@.len() == 0
            },
            old(self).screen != Screen::Selecting(CategoryId::Disk) ==> *final(self) == *old(self),
            final(self).menu_index == old(self).menu_index,
    {
        if matches!(self.screen, Screen::Selecting(CategoryId::Disk)) {
            self.screen = Screen::MainMenu;
            self.disk.exit();
            proof {
                assert forall|d: CategoryId| #![trigger self.cat(d)] d != CategoryId::Disk
                    implies self.cat(d) == old(self).cat(d) by {}
            }
        }
    }

    /// Leave the disk report screen for the main menu, discarding the
    /// report and resetting the task to `Idle`; a no-op when it is not
    /// showing.
    pub fn exit_smart_output(&mut self)
        requires
            old(self).wf(),
        ensures
            final(self).wf(),
            old(self).screen == Screen::Running(CategoryId::Disk) || old(self).screen
                == Screen::Viewing(CategoryId::Disk) ==> {
                &&& final(self).screen is MainMenu
                &&& !final(self).disk.viewing
                &&& final(self).disk.task.state is Idle
                &&& final(self).disk.task.output@.len() == 0
                &&& final(self).disk.scroll == 0
            },
            !(old(self).screen == Screen::Running(CategoryId::Disk) || old(self).screen
                == Screen::Viewing(CategoryId::Disk)) ==> *final(self) == *old(self),
            final(self).menu_index == old(self).menu_index,
    {
        if matches!(
            self.screen,
            Screen::Running(CategoryId::Disk) | Screen::Viewing(CategoryId::Disk),
        ) {
            self.screen = Screen::MainMenu;
            self.disk.exit();
            proof {
                assert forall|d: CategoryId| #![trigger self.cat(d)] d != CategoryId::Disk
                    implies self.cat(d) == old(self).cat(d) by {}
            }
        }
    }

    /// Move the drive highlight one entry down, clamped at the last drive.
    pub fn increment_disk_selection(&mut self)
        requires
            old(self).wf(),
        ensures
            final(self).wf(),
            final(self).disk.list.items == old(self).disk.list.items,
            final(self).disk.list.selected == crate::nav::moved_index(
                old(self).disk.list.items@.len() as nat,
                old(self).disk.list.selected as nat,
                true,
            ),
            final(self).disk.task == old(self).disk.task,
            final(self).disk.selecting == old(self).disk.selecting,
            final(self).disk.viewing == old(self).disk.viewing,
            final(self).screen == old(self).screen,
            final(self).menu_index == old(self).menu_index,
    {
        proof {
            assert(old(self).cat(CategoryId::Disk).wf());
        }
        self.disk.move_down();
        proof {
            assert forall|d: CategoryId| #![trigger self.cat(d)] d != CategoryId::Disk
                implies self.cat(d) == old(self).cat(d) by {}
        }
    }

    /// Move the drive highlight one entry up, clamped at the first drive.
    pub fn decrement_disk_selection(&mut self)
        requires
            old(self).wf(),
        ensures
            final(self).wf(),
            final(self).disk.list.items == old(self).disk.list.items,
            final(self).disk.list.selected == crate::nav::moved_index(
                old(self).disk.list.items@.len() as nat,
                old(self).disk.list.selected as nat,
                false,
            ),
            final(self).disk.task == old(self).disk.task,
            final(self).disk.selecting == old(self).disk.selecting,
            final(self).disk.viewing == old(self).disk.viewing,
            final(self).screen == old(self).screen,
            final(self).menu_index == old(self).menu_index,
    {
        proof {
            assert(old(self).cat(CategoryId::Disk).wf());
        }
        self.disk.move_up();
        proof {
            assert forall|d: CategoryId| #![trigger self.cat(d)] d != CategoryId::Disk
                implies self.cat(d) == old(self).cat(d) by {}
        }
    }

    /// Move the drive highlight one entry down (clamped).
    pub fn next_drive(&mut self)
        requires
            old(self).wf(),
        ensures
            final(self).wf(),
            final(self).disk.list.items == old(self).disk.list.items,
            final(self).disk.list.selected == crate::nav::moved_index(
                old(self).disk.list.items@.len() as nat,
                old(self).disk.list.selected as nat,
                true,
            ),
            final(self).screen == old(self).screen,
    {
        self.increment_disk_selection();
    }

    /// Move the drive highlight one entry up (clamped).
    pub fn previous_drive(&mut self)
        requires
            old(self).wf(),
        ensures
            final(self).wf(),
            final(self).disk.list.items == old(self).disk.list.items,
            final(self).disk.list.selected == crate::nav::moved_index(
                old(self).disk.list.items@.len() as nat,
                old(self).disk.list.selected as nat,
                false,
            ),
            final(self).screen == old(self).screen,
    {
        self.decrement_disk_selection();
    }

    /// The drives currently listed.
    pub fn get_drive_list(&self) -> (r: Vec<String>)
        ensures
            r@ == self.disk.list.items@,
    {
        crate::screen::clone_string_vec(&self.disk.list.items)
    }

    /// The index of the highlighted drive.
    pub fn get_selected_drive_index(&self) -> (i: usize)
        ensures
            i == self.disk.list.selected,
    {
        self.disk.list.selected
    }

    /// Launch the disk check on the highlighted drive.  On the selection
    /// screen with at least one drive listed this starts the task, moves to
    /// the running report screen, and hands back the selected drive for the
    /// worker; otherwise it is a no-op and hands back nothing.
    pub fn run_selected_smart(&mut self, now: u64) -> (r: Option<String>)
        requires
            old(self).wf(),
        ensures
            final(self).wf(),
            old(self).screen == Screen::Selecting(CategoryId::Disk) && old(
                self,
            ).disk.list.items@.len() > 0 ==> {
                &&& r == Some(old(self).disk.list.items@[old(self).disk.list.selected as int])
                &&& final(self).screen == Screen::Running(CategoryId::Disk)
                &&& final(self).disk.task.state is Running
                &&& final(self).disk.task.progress == 0
                &&& final(self).disk.task.started_at == Some(now)
                &&& final(self).disk.viewing
                &&& final(self).disk.list == old(self).disk.list
            },
            !(old(self).screen == Screen::Selecting(CategoryId::Disk) && old(
                self,
            ).disk.list.items@.len() > 0) ==> {
                &&& r is None
                &&& *final(self) == *old(self)
            },
    {
        if matches!(self.screen, Screen::Selecting(CategoryId::Disk)) {
            if self.disk.list.len() > 0 {
                self.screen = Screen::Running(CategoryId::Disk);
                proof {
                    assert(old(self).cat(CategoryId::Disk).wf());
                }
                let picked = self.disk.run_selected(now);
                proof {
                    assert forall|d: CategoryId| #![trigger self.cat(d)] d != CategoryId::Disk
                        implies self.cat(d) == old(self).cat(d) by {}
                }
                picked
            } else {
                None
            }
        } else {
            None
        }
    }

    /// Launch the disk check on the highlighted drive (the drive-screen
    /// entry point shares the implementation).
    pub fn run_smart_test_on_selected_drive(&mut self, now: u64) -> (r: Option<String>)
        requires
            old(self).wf(),
        ensures
            final(self).wf(),
            old(self).screen == Screen::Selecting(CategoryId::Disk) && old(
                self,
            ).disk.list.items@.len() > 0 ==> {
                &&& r == Some(old(self).disk.list.items@[old(self).disk.list.selected as int])
                &&& final(self).screen == Screen::Running(CategoryId::Disk)
                &&& final(self).disk.task.state is Running
            },
            !(old(self).screen == Screen::Selecting(CategoryId::Disk) && old(
                self,
            ).disk.list.items@.len() > 0) ==> {
                &&& r is None
                &&& *final(self) == *old(self)
            },
    {
        self.run_selected_smart(now)
    }

    /// Launch the disk check on the highlighted drive (the selection-screen
    /// entry point shares the implementation).
    pub fn run_selected_disk_smart(&mut self, now: u64) -> (r: Option<String>)
        requires
            old(self).wf(),
        ensures
            final(self).wf(),
            old(self).screen == Screen::Selecting(CategoryId::Disk) && old(
                self,
            ).disk.list.items@.len() > 0 ==> {
                &&& r == Some(old(self).disk.list.items@[old(self).disk.list.selected as int])
                &&& final(self).screen == Screen::Running(CategoryId::Disk)
                &&& final(self).disk.task.state is Running
            },
            !(old(self).screen == Screen::Selecting(CategoryId::Disk) && old(
                self,
            ).disk.list.items@.len() > 0) ==> {
                &&& r is None
                &&& *final(self) == *old(self)
            },
    {
        self.run_selected_smart(now)
    }
}

/// The drive's overall health as the report states it.
#[derive(Clone, Copy, Debug, PartialEq, Eq, Structural)]
pub enum HealthLevel {
    Great,
    Good,
    Bad,
    Unknown,
}

/// The key fields scraped from a drive's health report, as byte text.
pub struct SmartSummary {
    pub model_family: Vec<u8>,
    pub device_model: Vec<u8>,
    pub capacity: Vec<u8>,
    pub power_on_hours: Vec<u8>,
    pub temperature: Vec<u8>,
    pub drive_health: Vec<u8>,
    pub health: HealthLevel,
}

/// The mathematical shadow of a [`SmartSummary`].
pub struct SummaryView {
    pub model_family: Seq<u8>,
    pub device_model: Seq<u8>,
    pub capacity: Seq<u8>,
    pub power_on_hours: Seq<u8>,
    pub temperature: Seq<u8>,
    pub drive_health: Seq<u8>,
    pub health: HealthLevel,
}

impl View for SmartSummary {
    type V = SummaryView;

    open spec fn view(&self) -> SummaryView {
        SummaryView {
            model_family: self.model_family@,
            device_model: self.device_model@,
            capacity: self.capacity@,
            power_on_hours: self.power_on_hours@,
            temperature: self.temperature@,
            drive_health: self.drive_health@,
            health: self.health,
        }
    }
}

pub open spec fn empty_summary() -> SummaryView {
    SummaryView {
        model_family: Seq::empty(),
        device_model: Seq::empty(),
        capacity: Seq::empty(),
        power_on_hours: Seq::empty(),
        temperature: Seq::empty(),
        drive_health: Seq::empty(),
        health: HealthLevel::Unknown,
    }
}

pub open spec fn ascii_seq(s: Seq<char>) -> Seq<u8> {
    s.map_values(|c: char| c as u8)
}

/// The last whitespace-separated token of a line, or `?` when the line
/// has none.
pub open spec fn token_or_query(l: Seq<u8>) -> Seq<u8> {
    if last_token(l).len() == 0 {
        seq![63u8]
    } else {
        last_token(l)
    }
}

/// How one report line updates the summary: the first label the line
/// carries (in this fixed order) decides which field it feeds; any other
/// line changes nothing.
pub open spec fn apply_line(acc: SummaryView, l: Seq<u8>) -> SummaryView {
    if bytes_contain(l, ascii_seq("Model Family"@)) {
        SummaryView { model_family: second_field(l), ..acc }
    } else if bytes_contain(l, ascii_seq("Device Model"@)) {
        SummaryView { device_model: second_field(l), ..acc }
    } else if bytes_contain(l, ascii_seq("User Capacity"@)) {
        SummaryView { capacity: second_field(l), ..acc }
    } else if bytes_contain(l, ascii_seq("Power_On_Hours"@)) {
        SummaryView { power_on_hours: token_or_query(l), ..acc }
    } else if bytes_contain(l, ascii_seq("Temperature_Celsius"@)) {
        SummaryView { temperature: token_or_query(l), ..acc }
    } else if bytes_contain(l, ascii_seq("SMART overall-health self-assessment test result"@)) {
        if bytes_contain(l, ascii_seq("PASSED"@)) {
            SummaryView { drive_health: ascii_seq("GREAT"@), health: HealthLevel::Great, ..acc }
        } else if bytes_contain(l, ascii_seq("OK"@)) {
            SummaryView { drive_health: ascii_seq("GOOD"@), health: HealthLevel::Good, ..acc }
        } else {
            SummaryView { drive_health: ascii_seq("BAD"@), health: HealthLevel::Bad, ..acc }
        }
    } else {
        acc
    }
}

/// The summary the whole report yields: every line applied in order to the
/// empty summary.
pub open spec fn summary_of_lines(lines: Seq<Seq<u8>>) -> SummaryView
    decreases lines.len(),
{
    if lines.len() == 0 {
        empty_summary()
    } else {
        apply_line(summary_of_lines(lines.drop_last()), lines.last())
    }
}

/// The summary a raw report yields.
pub open spec fn summary_of(report: Seq<u8>) -> SummaryView {
    summary_of_lines(byte_lines(report))
}

impl SmartSummary {
    /// An empty summary: nothing scraped yet.
    pub fn new() -> (r: Self)
        ensures
            r@ == empty_summary(),
    {
        let r = SmartSummary {
            model_family: Vec::new(),
            device_model: Vec::new(),
            capacity: Vec::new(),
            power_on_hours: Vec::new(),
            temperature: Vec::new(),
            drive_health: Vec::new(),
            health: HealthLevel::Unknown,
        };
        proof {
            assert(r@ =~~= empty_summary());
        }
        r
    }
}

/// Scrape the key fields out of a drive-health report, line by line; a
/// later line carrying the same label wins.
#[verifier::rlimit(60)]
pub fn extract_summary_info(report: &[u8]) -> (r: SmartSummary)
    ensures
        r@ == summary_of(report@),
{
    let lines = crate::text::split_lines(report);
    let mut sum = SmartSummary::new();
    let mut k: usize = 0;
    proof {
        assert(lines.deep_view().subrange(0, 0) =~= Seq::<Seq<u8>>::empty());
    }
    while k < lines.len()
        invariant
            k <= lines@.len(),
            lines.deep_view() == byte_lines(report@),
            sum@ == summary_of_lines(lines.deep_view().subrange(0, k as int)),
        decreases lines@.len() - k,
    {
        let line = lines[k].as_slice();
        proof {
            reveal_strlit("Model Family");
            reveal_strlit("Device Model");
            reveal_strlit("User Capacity");
            reveal_strlit("Power_On_Hours");
            reveal_strlit("Temperature_Celsius");
            reveal_strlit("SMART overall-health self-assessment test result");
            reveal_strlit("PASSED");
            reveal_strlit("OK");
            reveal_strlit("GREAT");
            reveal_strlit("GOOD");
            reveal_strlit("BAD");
            assert("Model Family".is_ascii());
            assert("Device Model".is_ascii());
            assert("User Capacity".is_ascii());
            assert("Power_On_Hours".is_ascii());
            assert("Temperature_Celsius".is_ascii());
            assert("SMART overall-health self-assessment test result".is_ascii());
            assert("PASSED".is_ascii());
            assert("OK".is_ascii());
            assert("GREAT".is_ascii());
            assert("GOOD".is_ascii());
            assert("BAD".is_ascii());
            assert(line@ =~= lines.deep_view()[k as int]);
        }
        if crate::text::contains_bytes(line, crate::text::ascii_bytes("Model Family")) {
            sum.model_family = crate::text::read_second_field(line);
        } else if crate::text::contains_bytes(line, crate::text::ascii_bytes("Device Model")) {
            sum.device_model = crate::text::read_second_field(line);
        } else if crate::text::contains_bytes(line, crate::text::ascii_bytes("User Capacity")) {
            sum.capacity = crate::text::read_second_field(line);
        } else if crate::text::contains_bytes(line, crate::text::ascii_bytes("Power_On_Hours")) {
            let tok = crate::text::read_last_token(line);
            if tok.len() == 0 {
                let mut q: Vec<u8> = Vec::new();
                q.push(63);
                proof {
                    assert(q@ =~= seq![63u8]);
                }
                sum.power_on_hours = q;
            } else {
                sum.power_on_hours = tok;
            }
        } else if crate::text::contains_bytes(
            line,
            crate::text::ascii_bytes("Temperature_Celsius"),
        ) {
            let tok = crate::text::read_last_token(line);
            if tok.len() == 0 {
                let mut q: Vec<u8> = Vec::new();
                q.push(63);
                proof {
                    assert(q@ =~= seq![63u8]);
                }
                sum.temperature = q;
            } else {
                sum.temperature = tok;
            }
        } else if crate::text::contains_bytes(
            line,
            crate::text::ascii_bytes("SMART overall-health self-assessment test result"),
        ) {
            if crate::text::contains_bytes(line, crate::text::ascii_bytes("PASSED")) {
                sum.drive_health = vstd::slice::slice_to_vec(crate::text::ascii_bytes("GREAT"));
                sum.health = HealthLevel::Great;
            } else if crate::text::contains_bytes(line, crate::text::ascii_bytes("OK")) {
                sum.drive_health = vstd::slice::slice_to_vec(crate::text::ascii_bytes("GOOD"));
                sum.health = HealthLevel::Good;
            } else {
                sum.drive_health = vstd::slice::slice_to_vec(crate::text::ascii_bytes("BAD"));
                sum.health = HealthLevel::Bad;
            }
        }
        proof {
            let pref = lines.deep_view().subrange(0, k + 1 as int);
            assert(pref.drop_last() =~= lines.deep_view().subrange(0, k as int));
            assert(pref.last() == lines.deep_view()[k as int]);
            assert(sum@ == apply_line(
                summary_of_lines(lines.deep_view().subrange(0, k as int)),
                lines.deep_view()[k as int],
            ));
        }
        k = k + 1;
    }
    proof {
        assert(lines.deep_view().subrange(0, lines.deep_view().len() as int) =~= lines.deep_view());
    }
    sum
}

/// The status line reported when the disk check tool could not run on the
/// chosen drive.
pub fn smart_failure_message(device: &str, error: &str) -> (r: String)
    ensures
        r@ == "Failed to run smartctl on "@ + device@ + ": "@ + error@,
{
    let mut r: String = "Failed to run smartctl on ".to_owned();
    r.append(device);
    r.append(": ");
    r.append(error);
    r
}

pub open spec fn spec_sep_bytes() -> Seq<u8> {
    " - "@.map_values(|c: char| c as u8)
}

/// The device path at the front of a drive-list entry: the text before the
/// first ` - ` separator, or the whole entry when it has none.
pub fn device_of_entry(entry: &[u8]) -> (r: Vec<u8>)
    ensures
        r@ == entry@.subrange(0, first_sub(entry@, entry_sep()) as int),
{
    proof {
        reveal_strlit(" - ");
        assert(" - ".is_ascii());
        assert(crate::smart::spec_sep_bytes() =~= entry_sep());
    }
    crate::text::prefix_before_sub(entry, crate::text::ascii_bytes(" - "))
}

/// Hundredths of `b / unit`, rounded to nearest (half away from zero):
/// the whole part contributes its hundred, the remainder is scaled and
/// rounded against the unit.
pub open spec fn scaled_hundredths(b: nat, unit: nat) -> nat
    recommends
        unit >= 2,
{
    (b / unit) * 100 + ((b % unit) * 100 + unit / 2) / unit
}

/// A hundredths count rendered with two decimal places.
pub open spec fn two_decimals(h: nat) -> Seq<char> {
    dec_digits(h / 100) + seq!['.'] + (if h % 100 < 10 {
        seq!['0'] + dec_digits(h % 100)
    } else {
        dec_digits(h % 100)
    })
}

/// A byte count rendered for display: two decimals of the largest binary
/// unit (TB, GB or MB) it reaches, or the raw count below a megabyte.
pub open spec fn capacity_text(b: nat) -> Seq<char> {
    if b >= 0x10000000000 {
        two_decimals(scaled_hundredths(b, 0x10000000000)) + " TB"@
    } else if b >= 0x40000000 {
        two_decimals(scaled_hundredths(b, 0x40000000)) + " GB"@
    } else if b >= 0x100000 {
        two_decimals(scaled_hundredths(b, 0x100000)) + " MB"@
    } else {
        dec_digits(b) + " bytes"@
    }
}

/// Two decimals of `b / unit`, rounded to nearest.
fn format_two_decimals(b: u64, unit: u64) -> (r: String)
    requires
        0x100000 <= unit <= 0x10000000000,
    ensures
        r@ == two_decimals(scaled_hundredths(b as nat, unit as nat)),
{
    let whole: u64 = b / unit;
    let rem: u64 = b % unit;
    proof {
        assert(rem < unit);
        assert(whole <= b / 0x100000) by (nonlinear_arith)
            requires
                unit >= 0x100000,
                whole == b / unit,
                b <= 0xffff_ffff_ffff_ffff,
        ;
        assert((rem as int * 100 + unit as int / 2) / unit as int <= rem as int * 100 + unit as int
            / 2) by (nonlinear_arith)
            requires
                unit as int >= 1,
                rem as int >= 0,
        ;
    }
    let frac_num: u64 = rem * 100 + unit / 2;
    let frac: u64 = frac_num / unit;
    let h: u64 = whole * 100 + frac;
    let mut r = crate::text::format_u64(h / 100);
    proof {
        reveal_strlit(".");
        assert("."@ =~= seq!['.']);
        reveal_strlit("0");
        assert("0"@ =~= seq!['0']);
    }
    r.append(".");
    let f: u64 = h % 100;
    if f < 10 {
        r.append("0");
        r.append(crate::text::format_u64(f).as_str());
        proof {
            assert(r@ =~= two_decimals(scaled_hundredths(b as nat, unit as nat)));
        }
    } else {
        r.append(crate::text::format_u64(f).as_str());
        proof {
            assert(r@ =~= two_decimals(scaled_hundredths(b as nat, unit as nat)));
        }
    }
    r
}

/// Render a byte count for display, scaled to the largest binary unit it
/// reaches.
pub fn format_capacity(bytes: u64) -> (r: String)
    ensures
        r@ == capacity_text(bytes as nat),
{
    if bytes >= 0x10000000000 {
        let mut r = format_two_decimals(bytes, 0x10000000000);
        proof {
            reveal_strlit(" TB");
        }
        r.append(" TB");
        r
    } else if bytes >= 0x40000000 {
        let mut r = format_two_decimals(bytes, 0x40000000);
        proof {
            reveal_strlit(" GB");
        }
        r.append(" GB");
        r
    } else if bytes >= 0x100000 {
        let mut r = format_two_decimals(bytes, 0x100000);
        proof {
            reveal_strlit(" MB");
        }
        r.append(" MB");
        r
    } else {
        let mut r = crate::text::format_u64(bytes);
        proof {
            reveal_strlit(" bytes");
        }
        r.append(" bytes");
        r
    }
}

/// Whether a device file name names a whole disk: `sd` followed by one
/// more character.
pub fn is_disk_name(name: &[u8]) -> (r: bool)
    ensures
        r == (name@.len() == 3 && name@[0] == 115 && name@[1] == 100),
{
    name.len() == 3 && name[0] == 115 && name[1] == 100
}

#[verifier::external_type_specification]
#[verifier::external_body]
pub struct ExValue(serde_json::Value);

/// Relies on serde_json::from_slice: parse a JSON document from bytes, or
/// fail.  Nothing about the opaque document is assumed.
#[verifier::external_body]
fn parse_json(report: &[u8]) -> (r: Option<serde_json::Value>) {
    serde_json::from_slice::<serde_json::Value>(report).ok()
}

/// Relies on serde_json::Value::get: look a key up in a JSON object, empty
/// when the value is no object or has no such key.  Nothing about the
/// opaque result is assumed.
#[verifier::external_body]
fn json_get<'a>(v: &'a serde_json::Value, key: &str) -> (r: Option<&'a serde_json::Value>) {
    v.get(key)
}

/// Relies on serde_json::Value::as_str: the text a JSON string value
/// holds, empty when the value is no string.  Nothing about the opaque
/// input is assumed.
#[verifier::external_body]
fn json_as_str(v: &serde_json::Value) -> (r: Option<String>) {
    v.as_str().map(|s| s.to_owned())
}

/// The `device.type` field of a device-scan report in JSON form, when the
/// report parses and carries one.  The report is an opaque document, so
/// all that is promised is that the result came from it or is nothing.
pub fn extract_device_type(report: &[u8]) -> (r: Option<String>) {
    match parse_json(report) {
        Some(v) => match json_get(&v, "device") {
            Some(d) => match json_get(d, "type") {
                Some(t) => json_as_str(t),
                None => None,
            },
            None => None,
        },
        None => None,
    }
}

/// The device type to hand the disk tool: the one the scan found, or
/// `auto` when it found none.
pub fn device_type_or_auto(found: Option<String>) -> (r: String)
    ensures
        found is Some ==> r == found->0,
        found is None ==> r@ == "auto"@,
{
    match found {
        Some(t) => t,
        None => "auto".to_owned(),
    }
}

/// The device type a JSON device-scan report names, or `auto` when the
/// report parses to nothing usable.
pub fn detect_device_type(report: &[u8]) -> (r: String) {
    device_type_or_auto(extract_device_type(report))
}

} // verus!



