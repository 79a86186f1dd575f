//! The status counters of a run.
//!
//! `StatusTracker` is a plain value; sharing one between the feeder and the
//! dispatcher, and guarding it with a lock, is left to the caller.

use vstd::prelude::*;

verus! {

/// What happened to the counters: one event in the life of a task.
pub enum Step {
    /// The feeder created a task.
    Admitted,
    /// A dispatch of a task began.
    Began,
    /// A dispatch ended with the task sent back for another attempt.
    Retried,
    /// A dispatch ended with the task failed for good.
    Failed,
    /// A dispatch ended with the task succeeded.
    Succeeded,
}

/// The counters as mathematical integers.
pub struct Counts {
    pub started: int,
    pub in_progress: int,
    pub succeeded: int,
    pub failed: int,
    pub rate_limited: int,
    pub api_errors: int,
    pub other_errors: int,
}

impl Counts {
    /// All counters at zero.
    pub open spec fn zero() -> Counts {
        Counts {
            started: 0,
            in_progress: 0,
            succeeded: 0,
            failed: 0,
            rate_limited: 0,
            api_errors: 0,
            other_errors: 0,
        }
    }

    /// The counters after one step.
    ///
    /// `in_progress` counts the dispatches under way: it rises when one begins
    /// and falls when it ends, whatever the end is. `succeeded` and `failed`
    /// count final outcomes only, so a retry changes neither.
    pub open spec fn after(self, step: Step) -> Counts {
        match step {
            Step::Admitted => Counts { started: self.started + 1, ..self },
            Step::Began => Counts { in_progress: self.in_progress + 1, ..self },
            Step::Retried => Counts { in_progress: self.in_progress - 1, ..self },
            Step::Failed => Counts {
                in_progress: self.in_progress - 1,
                failed: self.failed + 1,
                ..self
            },
            Step::Succeeded => Counts {
                in_progress: self.in_progress - 1,
                succeeded: self.succeeded + 1,
                ..self
            },
        }
    }
}

/// Counters of task states.
#[derive(Debug)]
pub struct StatusTracker {
    pub num_tasks_started: usize,
    pub num_tasks_in_progress: usize,
    pub num_tasks_succeeded: usize,
    pub num_tasks_failed: usize,
    pub num_rate_limit_errors: usize,
    pub num_api_errors: usize,
    pub num_other_errors: usize,
}

impl View for StatusTracker {
    type V = Counts;

    open spec fn view(&self) -> Counts {
        Counts {
            started: self.num_tasks_started as int,
            in_progress: self.num_tasks_in_progress as int,
            succeeded: self.num_tasks_succeeded as int,
            failed: self.num_tasks_failed as int,
            rate_limited: self.num_rate_limit_errors as int,
            api_errors: self.num_api_errors as int,
            other_errors: self.num_other_errors as int,
        }
    }
}

impl Default for StatusTracker {
    fn default() -> (r: Self)
        ensures
            r@ == Counts::zero(),
    {
        StatusTracker::new()
    }
}

impl Clone for StatusTracker {
    fn clone(&self) -> (r: Self)
        ensures
            r == *self,
    {
        self.snapshot()
    }
}

impl StatusTracker {
    /// A tracker with every counter at zero.
    pub fn new() -> (r: StatusTracker)
        ensures
            r@ == Counts::zero(),
    {
        StatusTracker {
            num_tasks_started: 0,
            num_tasks_in_progress: 0,
            num_tasks_succeeded: 0,
            num_tasks_failed: 0,
            num_rate_limit_errors: 0,
            num_api_errors: 0,
            num_other_errors: 0,
        }
    }

    /// Whether the counters have room for `step`: no counter that it raises is
    /// at its maximum, and `in_progress` is not zero where it lowers it.
    pub open spec fn admits(&self, step: Step) -> bool {
        match step {
            Step::Admitted => self.num_tasks_started < usize::MAX,
            Step::Began => self.num_tasks_in_progress < usize::MAX,
            Step::Retried => self.num_tasks_in_progress > 0,
            Step::Failed => self.num_tasks_in_progress > 0 && self.num_tasks_failed < usize::MAX,
            Step::Succeeded => self.num_tasks_in_progress > 0 && self.num_tasks_succeeded
                < usize::MAX,
        }
    }

    /// Counts a task that the feeder created.
    pub fn task_started(&mut self)
        requires
            old(self).num_tasks_started < usize::MAX,
        ensures
            final(self)@ == (Counts { started: old(self)@.started + 1, ..old(self)@ }),
    {
        self.num_tasks_started = self.num_tasks_started + 1;
    }

    /// Counts a dispatch that begins.
    pub fn dispatch_began(&mut self)
        requires
            old(self).num_tasks_in_progress < usize::MAX,
        ensures
            final(self)@ == (Counts { in_progress: old(self)@.in_progress + 1, ..old(self)@ }),
    {
        self.num_tasks_in_progress = self.num_tasks_in_progress + 1;
    }

    /// Counts a dispatch that ends. This is the one counter that goes down.
    pub fn dispatch_ended(&mut self)
        requires
            old(self).num_tasks_in_progress > 0,
        ensures
            final(self)@ == (Counts { in_progress: old(self)@.in_progress - 1, ..old(self)@ }),
    {
        self.num_tasks_in_progress = self.num_tasks_in_progress - 1;
    }

    /// Counts a task that has succeeded.
    pub fn task_succeeded(&mut self)
        requires
            old(self).num_tasks_succeeded < usize::MAX,
        ensures
            final(self)@ == (Counts { succeeded: old(self)@.succeeded + 1, ..old(self)@ }),
    {
        self.num_tasks_succeeded = self.num_tasks_succeeded + 1;
    }

    /// Counts a task that has failed for good.
    pub fn task_failed(&mut self)
        requires
            old(self).num_tasks_failed < usize::MAX,
        ensures
            final(self)@ == (Counts { failed: old(self)@.failed + 1, ..old(self)@ }),
    {
        self.num_tasks_failed = self.num_tasks_failed + 1;
    }

    /// Takes one step in the life of a task.
    pub fn record(&mut self, step: Step)
        requires
            old(self).admits(step),
        ensures
            final(self)@ == old(self)@.after(step),
    {
        match step {
            Step::Admitted => self.task_started(),
            Step::Began => self.dispatch_began(),
            Step::Retried => self.dispatch_ended(),
            Step::Failed => {
                self.task_failed();
                self.dispatch_ended();
            },
            Step::Succeeded => {
                self.task_succeeded();
                self.dispatch_ended();
            },
        }
    }

    /// Counts a rate-limit error.
    pub fn rate_limit_error(&mut self)
        requires
            old(self).num_rate_limit_errors < usize::MAX,
        ensures
            final(self)@ == (Counts { rate_limited: old(self)@.rate_limited + 1, ..old(self)@ }),
    {
        self.num_rate_limit_errors = self.num_rate_limit_errors + 1;
    }

    /// Counts an error that the remote API reported.
    pub fn api_error(&mut self)
        requires
            old(self).num_api_errors < usize::MAX,
        ensures
            final(self)@ == (Counts { api_errors: old(self)@.api_errors + 1, ..old(self)@ }),
    {
        self.num_api_errors = self.num_api_errors + 1;
    }

    /// Counts an error of any other kind.
    pub fn other_error(&mut self)
        requires
            old(self).num_other_errors < usize::MAX,
        ensures
            final(self)@ == (Counts { other_errors: old(self)@.other_errors + 1, ..old(self)@ }),
    {
        self.num_other_errors = self.num_other_errors + 1;
    }

    /// The counters as they stand.
    pub fn snapshot(&self) -> (r: StatusTracker)
        ensures
            r == *self,
    {
        StatusTracker {
            num_tasks_started: self.num_tasks_started,
            num_tasks_in_progress: self.num_tasks_in_progress,
            num_tasks_succeeded: self.num_tasks_succeeded,
            num_tasks_failed: self.num_tasks_failed,
            num_rate_limit_errors: self.num_rate_limit_errors,
            num_api_errors: self.num_api_errors,
            num_other_errors: self.num_other_errors,
        }
    }
}

} // verus!
