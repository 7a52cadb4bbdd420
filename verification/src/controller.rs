//! One diagnostic category's screen state: its selection list, its single
//! background task, whether it owns the screen, and its output scroll
//! offset.  Every category is an instance of this one controller.

use vstd::prelude::*;
use crate::nav::NavigableList;
use crate::task::{TaskHandle, TaskState};

verus! {

/// Scroll policy for the output pane: the offset is clamped to the last
/// position from which a full viewport of content is still visible.
pub open spec fn clamped_scroll(scroll: nat, content_lines: nat, viewport: nat) -> nat {
    let max_scroll = if content_lines > viewport {
        (content_lines - viewport) as nat
    } else {
        0
    };
    if scroll < max_scroll {
        scroll
    } else {
        max_scroll
    }
}

/// Clamp a stored scroll offset against the rendered content height and the
/// viewport height, so the pane never scrolls past its last page.
pub fn visible_scroll(scroll: u16, content_lines: usize, viewport: usize) -> (r: usize)
    ensures
        r == clamped_scroll(scroll as nat, content_lines as nat, viewport as nat),
{
    let max_scroll: usize = if content_lines > viewport {
        content_lines - viewport
    } else {
        0
    };
    if (scroll as usize) < max_scroll {
        scroll as usize
    } else {
        max_scroll
    }
}

/// State of one diagnostic category.
pub struct CategoryController {
    /// The entries the operator picks from, refreshed on every entry into
    /// selection mode.
    pub list: NavigableList,
    /// The category's single background operation.
    pub task: TaskHandle,
    /// Whether the category's selection screen owns the display.
    pub selecting: bool,
    /// Whether the category's output screen owns the display.
    pub viewing: bool,
    /// Scroll offset of the output pane.
    pub scroll: u16,
}

impl CategoryController {
    pub open spec fn wf(self) -> bool {
        &&& self.list.wf()
        &&& self.task.wf()
        &&& !(self.selecting && self.viewing)
        &&& self.selecting ==> self.task.state is Idle
        &&& self.task.state is Running ==> self.viewing
    }

    /// Whether the category currently owns the screen in any mode.
    pub open spec fn spec_active(self) -> bool {
        self.selecting || self.viewing
    }

    pub fn new() -> (r: Self)
        ensures
            r.wf(),
            !r.selecting,
            !r.viewing,
            r.scroll == 0,
            r.list.items@.len() == 0,
            r.task.state is Idle,
    {
        CategoryController {
            list: NavigableList::new(),
            task: TaskHandle::new(),
            selecting: false,
            viewing: false,
            scroll: 0,
        }
    }

    pub fn active(&self) -> (r: bool)
        ensures
            r == self.spec_active(),
    {
        self.selecting || self.viewing
    }

    /// Enter selection mode with a freshly enumerated list of entries.  Any
    /// earlier list and any stale task state are discarded, so entries never
    /// persist across exit and re-entry.  An enumeration failure degrades to
    /// an empty list; entry still succeeds.
    pub fn enter_selection(&mut self, items: Vec<String>)
        ensures
            final(self).wf(),
            final(self).selecting,
            !final(self).viewing,
            final(self).list.items == items,
            final(self).list.selected == 0,
            final(self).task.state is Idle,
            final(self).scroll == 0,
    {
        self.list.set_items(items);
        self.task.reset();
        self.selecting = true;
        self.viewing = false;
        self.scroll = 0;
    }

    /// Replace the selection entries in place (a refresh that keeps the
    /// category in whatever mode it already is).
    pub fn set_items(&mut self, items: Vec<String>)
        requires
            old(self).wf(),
        ensures
            final(self).wf(),
            final(self).list.items == items,
            final(self).list.selected == 0,
            final(self).task == old(self).task,
            final(self).selecting == old(self).selecting,
            final(self).viewing == old(self).viewing,
            final(self).scroll == old(self).scroll,
    {
        self.list.set_items(items);
    }

    /// Move the selection one entry towards the end, clamped at the last
    /// entry.
    pub fn move_down(&mut self)
        requires
            old(self).wf(),
        ensures
            final(self).wf(),
            final(self).list.items == old(self).list.items,
            final(self).list.selected == crate::nav::moved_index(
                old(self).list.items@.len() as nat,
                old(self).list.selected as nat,
                true,
            ),
            final(self).task == old(self).task,
            final(self).selecting == old(self).selecting,
            final(self).viewing == old(self).viewing,
            final(self).scroll == old(self).scroll,
    {
        self.list.move_down();
    }

    /// Move the selection one entry towards the start, clamped at zero.
    pub fn move_up(&mut self)
        requires
            old(self).wf(),
        ensures
            final(self).wf(),
            final(self).list.items == old(self).list.items,
            final(self).list.selected == crate::nav::moved_index(
                old(self).list.items@.len() as nat,
                old(self).list.selected as nat,
                false,
            ),
            final(self).task == old(self).task,
            final(self).selecting == old(self).selecting,
            final(self).viewing == old(self).viewing,
            final(self).scroll == old(self).scroll,
    {
        self.list.move_up();
    }

    /// Launch the selected entry's operation.  With a non-empty list in
    /// selection mode this starts the task and hands back the selected
    /// entry for the worker; with an empty list (or outside selection mode)
    /// it is a no-op and hands back nothing.
    pub fn run_selected(&mut self, now: u64) -> (r: Option<String>)
        requires
            old(self).wf(),
        ensures
            final(self).wf(),
            old(self).selecting && old(self).list.items@.len() > 0 ==> {
                &&& r == Some(old(self).list.items@[old(self).list.selected as int])
                &&& final(self).task.state is Running
                &&& final(self).task.progress == 0
                &&& final(self).task.started_at == Some(now)
                &&& !final(self).selecting
                &&& final(self).viewing
                &&& final(self).scroll == 0
                &&& final(self).list == old(self).list
            },
            !(old(self).selecting && old(self).list.items@.len() > 0) ==> {
                &&& r is None
                &&& *final(self) == *old(self)
            },
    {
        if self.selecting && self.list.len() > 0 {
            let item = self.list.selected_item();
            self.task.start(now);
            self.selecting = false;
            self.viewing = true;
            self.scroll = 0;
            item
        } else {
            None
        }
    }

    /// Launch a category's operation without a selection step (a category
    /// whose single action needs nothing picked first).
    pub fn run_direct(&mut self, now: u64)
        requires
            old(self).wf(),
            !old(self).selecting,
            !old(self).viewing,
            old(self).task.state is Idle,
        ensures
            final(self).wf(),
            final(self).viewing,
            !final(self).selecting,
            final(self).task.state is Running,
            final(self).task.progress == 0,
            final(self).task.started_at == Some(now),
            final(self).task.output@.len() == 0,
            final(self).task.message@.len() == 0,
            final(self).scroll == 0,
            final(self).list == old(self).list,
    {
        self.task.start(now);
        self.viewing = true;
        self.scroll = 0;
    }

    /// Worker report: progress moved to `p`.  Ignored unless the task is
    /// running and the report does not move progress backward or past 100.
    pub fn report_progress(&mut self, p: u16)
        requires
            old(self).wf(),
        ensures
            final(self).wf(),
            old(self).task.state is Running && old(self).task.progress <= p && p <= 100 ==> {
                &&& final(self).task.state is Running
                &&& final(self).task.progress == p
                &&& final(self).task.output == old(self).task.output
                &&& final(self).task.message == old(self).task.message
            },
            !(old(self).task.state is Running && old(self).task.progress <= p && p <= 100)
                ==> *final(self) == *old(self),
            final(self).list == old(self).list,
            final(self).selecting == old(self).selecting,
            final(self).viewing == old(self).viewing,
            final(self).scroll == old(self).scroll,
    {
        if matches!(self.task.state, TaskState::Running) && self.task.progress <= p && p <= 100 {
            self.task.set_progress(p);
        }
    }

    /// Worker report: captured text, appended verbatim to the output
    /// buffer.  Ignored unless the task is running.
    pub fn append_output(&mut self, text: &str)
        requires
            old(self).wf(),
        ensures
            final(self).wf(),
            old(self).task.state is Running ==> {
                &&& final(self).task.output@ == old(self).task.output@ + text@
                &&& final(self).task.state is Running
                &&& final(self).task.progress == old(self).task.progress
                &&& final(self).task.message == old(self).task.message
            },
            !(old(self).task.state is Running) ==> *final(self) == *old(self),
            final(self).list == old(self).list,
            final(self).selecting == old(self).selecting,
            final(self).viewing == old(self).viewing,
            final(self).scroll == old(self).scroll,
    {
        if matches!(self.task.state, TaskState::Running) {
            self.task.append_output(text);
        }
    }

    /// Worker report: the operation ended.  An `Ok` outcome succeeds with
    /// the given status line; an `Err` outcome fails with the error text as
    /// the status line, also appended to the output so failures render
    /// through the same path as successes.  Ignored unless the task is
    /// running.
    pub fn finish(&mut self, outcome: Result<String, String>)
        requires
            old(self).wf(),
        ensures
            final(self).wf(),
            old(self).task.state is Running && outcome is Ok ==> {
                &&& final(self).task.state is Succeeded
                &&& final(self).task.progress == 100
                &&& final(self).task.message == outcome->Ok_0
                &&& final(self).task.output == old(self).task.output
            },
            old(self).task.state is Running && outcome is Err ==> {
                &&& final(self).task.state is Failed
                &&& final(self).task.progress == 100
                &&& final(self).task.message == outcome->Err_0
                &&& final(self).task.output@ == old(self).task.output@ + outcome->Err_0@
            },
            !(old(self).task.state is Running) ==> *final(self) == *old(self),
            final(self).list == old(self).list,
            final(self).selecting == old(self).selecting,
            final(self).viewing == old(self).viewing,
            final(self).scroll == old(self).scroll,
    {
        if matches!(self.task.state, TaskState::Running) {
            match outcome {
                Result::Ok(message) => self.task.finish(true, message),
                Result::Err(error) => self.task.fail_with(error),
            }
        }
    }

    /// Leave the category entirely: idempotent; the list is discarded, the
    /// task returns to `Idle`, output and scroll are cleared.
    pub fn exit(&mut self)
        ensures
            final(self).wf(),
            !final(self).selecting,
            !final(self).viewing,
            final(self).task.state is Idle,
            final(self).task.output@.len() == 0,
            final(self).list.items@.len() == 0,
            final(self).scroll == 0,
    {
        self.list.clear();
        self.task.reset();
        self.selecting = false;
        self.viewing = false;
        self.scroll = 0;
    }

    /// Scroll the output pane one line further down, saturating.
    pub fn scroll_down(&mut self)
        requires
            old(self).wf(),
        ensures
            final(self).wf(),
            final(self).scroll == (if old(self).scroll < 0xffff {
                old(self).scroll + 1
            } else {
                old(self).scroll as int
            }),
            final(self).list == old(self).list,
            final(self).task == old(self).task,
            final(self).selecting == old(self).selecting,
            final(self).viewing == old(self).viewing,
    {
        self.scroll = if self.scroll < 0xffff {
            self.scroll + 1
        } else {
            self.scroll
        };
    }

    /// Scroll the output pane one line back up, saturating at zero.
    pub fn scroll_up(&mut self)
        requires
            old(self).wf(),
        ensures
            final(self).wf(),
            final(self).scroll == (if old(self).scroll > 0 {
                old(self).scroll - 1
            } else {
                0
            }),
            final(self).list == old(self).list,
            final(self).task == old(self).task,
            final(self).selecting == old(self).selecting,
            final(self).viewing == old(self).viewing,
    {
        self.scroll = if self.scroll > 0 {
            self.scroll - 1
        } else {
            self.scroll
        };
    }

    /// Whether the category's task reached a terminal state.
    pub fn is_finished(&self) -> (r: bool)
        ensures
            r == self.task.is_terminal(),
    {
        self.task.is_finished()
    }
}

} // verus!
