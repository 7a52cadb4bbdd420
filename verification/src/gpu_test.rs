//! The GPU stress/stability test mode: which kind of test the operator
//! asked for, and the once-only decision to launch it.

use vstd::prelude::*;

verus! {

/// The kind of GPU test the operator asked for.
#[derive(Clone, Copy, Debug, PartialEq, Eq, Structural)]
pub enum TestMode {
    Stress,
    Stability,
}

/// The GPU test screen's mode: armed with a kind of test, started at most
/// once, cleared on exit.
pub struct GpuTestState {
    pub active: bool,
    pub mode: Option<TestMode>,
    pub started: bool,
}

impl GpuTestState {
    pub open spec fn wf(self) -> bool {
        &&& self.mode is None ==> !self.active && !self.started
        &&& self.started ==> self.active
    }

    pub fn new() -> (r: Self)
        ensures
            r.wf(),
            !r.active,
            r.mode is None,
            !r.started,
    {
        GpuTestState { active: false, mode: None, started: false }
    }

    /// Arm the test screen with a kind of test; the launch flag resets so
    /// the test will run exactly once.
    pub fn set_test_mode(&mut self, mode: TestMode)
        ensures
            final(self).wf(),
            final(self).active,
            final(self).mode == Some(mode),
            !final(self).started,
    {
        self.active = true;
        self.mode = Some(mode);
        self.started = false;
    }

    /// Disarm the test screen entirely.
    pub fn clear_test_mode(&mut self)
        ensures
            final(self).wf(),
            !final(self).active,
            final(self).mode is None,
            !final(self).started,
    {
        self.active = false;
        self.mode = None;
        self.started = false;
    }

    pub fn check_test_active(&self) -> (r: bool)
        ensures
            r == self.active,
    {
        self.active
    }

    /// The once-only launch decision: the first call on an armed screen
    /// hands back the test to start and marks it started; every later call
    /// hands back nothing.
    pub fn take_pending_start(&mut self) -> (r: Option<TestMode>)
        requires
            old(self).wf(),
        ensures
            final(self).wf(),
            old(self).active && !old(self).started ==> {
                &&& r == old(self).mode
                &&& final(self).started
                &&& final(self).mode == old(self).mode
                &&& final(self).active
            },
            !(old(self).active && !old(self).started) ==> {
                &&& r is None
                &&& *final(self) == *old(self)
            },
    {
        if self.active && !self.started {
            self.started = true;
            self.mode
        } else {
            None
        }
    }
}

} // verus!
