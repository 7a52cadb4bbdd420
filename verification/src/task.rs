//! One in-flight or completed background operation: its lifecycle state,
//! progress percentage, append-only output buffer and status message.
//!
//! The state only ever advances along `Idle -> Running -> {Succeeded,
//! Failed}`; progress never decreases while the task runs, and reaches
//! exactly 100 on any terminal transition.  A terminal handle can only be
//! reset back to a fresh `Idle` one.

use vstd::prelude::*;
use vstd::string::StringExecFns;

verus! {

/// Lifecycle state of a background operation.
#[derive(Clone, Copy, Debug, PartialEq, Eq, Structural)]
pub enum TaskState {
    Idle,
    Running,
    Succeeded,
    Failed,
}

/// Position of a state along the lifecycle chain.
pub open spec fn state_rank(s: TaskState) -> int {
    match s {
        TaskState::Idle => 0,
        TaskState::Running => 1,
        TaskState::Succeeded => 2,
        TaskState::Failed => 2,
    }
}

/// The transitions a single worker step may take: stay in place, start, or
/// finish.  `Idle` never jumps straight to a terminal state, and a terminal
/// state never changes into the other one.
pub open spec fn state_order_ok(pre: TaskState, post: TaskState) -> bool {
    ||| pre == post
    ||| (pre is Idle && post is Running)
    ||| (pre is Running && (post is Succeeded || post is Failed))
}

/// A handle on one background operation.
pub struct TaskHandle {
    pub state: TaskState,
    /// Percentage in `0 ..= 100`.
    pub progress: u16,
    /// Append-only text captured from the operation.
    pub output: String,
    /// Short human-readable status line.
    pub message: String,
    /// Clock reading (milliseconds) taken when the task started, if it did.
    pub started_at: Option<u64>,
}

impl TaskHandle {
    pub open spec fn wf(self) -> bool {
        &&& self.progress <= 100
        &&& self.state is Idle ==> {
            &&& self.progress == 0
            &&& self.output@.len() == 0
            &&& self.message@.len() == 0
            &&& self.started_at is None
        }
        &&& (self.state is Succeeded || self.state is Failed) ==> self.progress == 100
    }

    pub open spec fn is_terminal(self) -> bool {
        self.state is Succeeded || self.state is Failed
    }

    pub fn new() -> (r: Self)
        ensures
            r.wf(),
            r.state is Idle,
            r.progress == 0,
            r.output@.len() == 0,
            r.message@.len() == 0,
            r.started_at is None,
    {
        TaskHandle {
            state: TaskState::Idle,
            progress: 0,
            output: String::new(),
            message: String::new(),
            started_at: None,
        }
    }

    pub fn state(&self) -> (s: TaskState)
        ensures
            s == self.state,
    {
        self.state
    }

    pub fn is_running(&self) -> (r: bool)
        ensures
            r == (self.state is Running),
    {
        matches!(self.state, TaskState::Running)
    }

    pub fn is_idle(&self) -> (r: bool)
        ensures
            r == (self.state is Idle),
    {
        matches!(self.state, TaskState::Idle)
    }

    pub fn is_finished(&self) -> (r: bool)
        ensures
            r == self.is_terminal(),
    {
        matches!(self.state, TaskState::Succeeded | TaskState::Failed)
    }

    /// Mark the operation started at the given clock reading.
    pub fn start(&mut self, now: u64)
        requires
            old(self).wf(),
            old(self).state is Idle,
        ensures
            final(self).wf(),
            final(self).state is Running,
            final(self).progress == 0,
            final(self).output@.len() == 0,
            final(self).message@.len() == 0,
            final(self).started_at == Some(now),
    {
        self.state = TaskState::Running;
        self.progress = 0;
        self.started_at = Some(now);
    }

    /// Record a progress report from the worker; progress never moves
    /// backward while the task runs.
    pub fn set_progress(&mut self, p: u16)
        requires
            old(self).wf(),
            old(self).state is Running,
            old(self).progress <= p,
            p <= 100,
        ensures
            final(self).wf(),
            final(self).state is Running,
            final(self).progress == p,
            final(self).output == old(self).output,
            final(self).message == old(self).message,
            final(self).started_at == old(self).started_at,
    {
        self.progress = p;
    }

    /// Append captured text verbatim to the output buffer.
    pub fn append_output(&mut self, text: &str)
        requires
            old(self).wf(),
            old(self).state is Running,
        ensures
            final(self).wf(),
            final(self).state is Running,
            final(self).progress == old(self).progress,
            final(self).output@ == old(self).output@ + text@,
            final(self).message == old(self).message,
            final(self).started_at == old(self).started_at,
    {
        self.output.append(text);
    }

    /// Terminal transition: record the outcome and the final status line.
    /// Progress reaches exactly 100 whatever the outcome.
    pub fn finish(&mut self, success: bool, message: String)
        requires
            old(self).wf(),
            old(self).state is Running,
        ensures
            final(self).wf(),
            final(self).state == (if success {
                TaskState::Succeeded
            } else {
                TaskState::Failed
            }),
            final(self).progress == 100,
            final(self).output == old(self).output,
            final(self).message == message,
            final(self).started_at == old(self).started_at,
    {
        self.state = if success {
            TaskState::Succeeded
        } else {
            TaskState::Failed
        };
        self.progress = 100;
        self.message = message;
    }

    /// Terminal transition for an operation that could not run: the error
    /// text becomes the status line and is appended to the output, so a
    /// failure renders through the same path as a success.
    pub fn fail_with(&mut self, error: String)
        requires
            old(self).wf(),
            old(self).state is Running,
        ensures
            final(self).wf(),
            final(self).state is Failed,
            final(self).progress == 100,
            final(self).output@ == old(self).output@ + error@,
            final(self).message == error,
            final(self).started_at == old(self).started_at,
    {
        self.output.append(error.as_str());
        self.finish(false, error);
    }

    /// Discard the handle's history: back to a fresh `Idle` handle.
    pub fn reset(&mut self)
        ensures
            final(self).wf(),
            final(self).state is Idle,
            final(self).progress == 0,
            final(self).output@.len() == 0,
            final(self).message@.len() == 0,
            final(self).started_at is None,
    {
        self.state = TaskState::Idle;
        self.progress = 0;
        self.output = String::new();
        self.message = String::new();
        self.started_at = None;
    }
}

/// One step a single worker may take on a handle within one execution
/// (everything but `reset`, which begins a new lifecycle).
pub open spec fn task_step(pre: TaskHandle, post: TaskHandle) -> bool {
    ||| post == pre
    ||| (pre.state is Idle && post.state is Running && post.progress == 0 && post.output@
        == pre.output@ && post.message == pre.message)
    ||| (pre.state is Running && post.state is Running && pre.progress <= post.progress
        && post.progress <= 100 && post.output@.len() >= pre.output@.len() && post.output@.subrange(
        0,
        pre.output@.len() as int,
    ) == pre.output@ && post.message == pre.message)
    ||| (pre.state is Running && (post.state is Succeeded || post.state is Failed)
        && post.progress == 100)
}

/// Each worker step takes the state along the lifecycle chain
/// `Idle -> Running -> {Succeeded, Failed}` and never moves progress
/// backward while the task runs.
pub proof fn lemma_task_step_ordered(pre: TaskHandle, post: TaskHandle)
    requires
        task_step(pre, post),
    ensures
        state_order_ok(pre.state, post.state),
        state_rank(pre.state) <= state_rank(post.state),
        pre.state is Running && post.state is Running ==> pre.progress <= post.progress,
{
}

/// Over any execution trace (consecutive states related by worker steps),
/// the observed state sequence is a subsequence of
/// `Idle -> Running -> {Succeeded, Failed}`: its rank never decreases, and
/// progress never decreases between any two `Running` observations.
pub proof fn lemma_task_trace_ordered(tr: Seq<TaskHandle>, i: int, j: int)
    requires
        forall|k: int| 0 <= k < tr.len() - 1 ==> #[trigger] task_step(tr[k], tr[k + 1]),
        0 <= i <= j < tr.len(),
    ensures
        state_rank(tr[i].state) <= state_rank(tr[j].state),
        tr[i].state is Running && tr[j].state is Running ==> tr[i].progress <= tr[j].progress,
    decreases j - i,
{
    if i < j {
        lemma_task_trace_ordered(tr, i, j - 1);
        assert(task_step(tr[j - 1], tr[j - 1 + 1]));
        lemma_task_step_ordered(tr[j - 1], tr[j]);
        if tr[i].state is Running && tr[j].state is Running {
            // the step into j either stays in Running or enters it; entering
            // from Idle is ruled out because the rank already reached 1 at i
            assert(state_rank(tr[j - 1].state) >= 1);
            assert(state_rank(tr[j - 1].state) <= state_rank(tr[j].state));
            assert(tr[j - 1].state is Running);
        }
    }
}

} // verus!
