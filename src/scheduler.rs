//! The single-flight guard that starts passes.
use vstd::prelude::*;

verus! {

/// How many pages a source fetches on a regular pass.
pub const PAGE_LIMIT: i32 = 1;

/// How many pages a source fetches on the first pass after startup.
pub const INIT_PAGE_LIMIT: i32 = 2;

/// What the driver of the scheduler is to do next.
#[derive(Clone, Copy, Debug, PartialEq, Eq, Structural)]
pub enum Action {
    /// Run one pass, with this page limit for every source.
    StartPass(i32),
    /// Nothing to do until the next event.
    Wait,
}

/// Starts passes on startup and on every trigger, never two at a time. A
/// trigger that comes while a pass runs is kept, and triggers kept together
/// make a single pass once the running one ends.
pub struct Scheduler {
    running: bool,
    queued: bool,
}

/// The abstract state: whether a pass runs, and whether another is owed.
pub struct SchedulerView {
    pub running: bool,
    pub queued: bool,
}

impl View for Scheduler {
    type V = SchedulerView;

    closed spec fn view(&self) -> SchedulerView {
        SchedulerView { running: self.running, queued: self.queued }
    }
}

impl Scheduler {
    /// A pass is owed only while another one runs.
    pub open spec fn wf(&self) -> bool {
        self@.queued ==> self@.running
    }

    /// The scheduler at startup, and the bootstrap pass it starts.
    pub fn start() -> (r: (Scheduler, Action))
        ensures
            r.0.wf(),
            r.0@ == (SchedulerView { running: true, queued: false }),
            r.1 == Action::StartPass(INIT_PAGE_LIMIT),
    {
        (Scheduler { running: true, queued: false }, Action::StartPass(INIT_PAGE_LIMIT))
    }

    /// Whether a pass runs now.
    pub fn is_running(&self) -> (r: bool)
        ensures
            r == self@.running,
    {
        self.running
    }

    /// The recurring trigger fired: start a regular pass if none runs,
    /// otherwise remember that one is owed.
    pub fn on_trigger(&mut self) -> (r: Action)
        requires
            old(self).wf(),
        ensures
            final(self).wf(),
            final(self)@.running,
            !old(self)@.running ==> r == Action::StartPass(PAGE_LIMIT) && !final(self)@.queued,
            old(self)@.running ==> r == Action::Wait && final(self)@.queued,
    {
        if self.running {
            self.queued = true;
            Action::Wait
        } else {
            self.running = true;
            Action::StartPass(PAGE_LIMIT)
        }
    }

    /// The running pass ended, whether it succeeded or failed: start the owed
    /// pass if there is one, otherwise go idle.
    pub fn on_pass_finished(&mut self) -> (r: Action)
        requires
            old(self).wf(),
            old(self)@.running,
        ensures
            final(self).wf(),
            !final(self)@.queued,
            old(self)@.queued ==> r == Action::StartPass(PAGE_LIMIT) && final(self)@.running,
            !old(self)@.queued ==> r == Action::Wait && !final(self)@.running,
    {
        if self.queued {
            self.queued = false;
            Action::StartPass(PAGE_LIMIT)
        } else {
            self.running = false;
            Action::Wait
        }
    }
}

} // verus!
