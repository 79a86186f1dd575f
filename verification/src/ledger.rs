//! The books of a whole run: what holds of the counters and of the two logs
//! after any number of steps.

use crate::dispatcher::{carries_out, DispatchAction, Outcome};
use crate::status::{Counts, Step};
use crate::task::APIRequest;
use vstd::prelude::*;

verus! {

impl DispatchAction {
    /// The number of records that this action appends to the results log.
    pub open spec fn result_records(self) -> int {
        match self {
            DispatchAction::AppendResult(_) => 1,
            _ => 0,
        }
    }

    /// The number of records that this action appends to the error log.
    pub open spec fn error_records(self) -> int {
        match self {
            DispatchAction::AppendError(_) => 1,
            _ => 0,
        }
    }
}

/// The state of a run, as far as the counters and the logs show it.
pub struct Ledger {
    /// The counters.
    pub counts: Counts,
    /// The tasks that were created and have no final outcome yet: those on the
    /// channel, under dispatch, or waiting for a retry.
    pub unsettled: int,
    /// The records in the results log.
    pub result_records: int,
    /// The records in the error log.
    pub error_records: int,
}

impl Ledger {
    /// The state before the first step.
    pub open spec fn opening() -> Ledger {
        Ledger { counts: Counts::zero(), unsettled: 0, result_records: 0, error_records: 0 }
    }

    /// The state after one step. A final outcome settles one task and appends
    /// one record, to the results log for a success and to the error log for
    /// a failure; no other step appends anything.
    pub open spec fn after(self, step: Step) -> Ledger {
        match step {
            Step::Admitted => Ledger {
                counts: self.counts.after(step),
                unsettled: self.unsettled + 1,
                ..self
            },
            Step::Began | Step::Retried => Ledger { counts: self.counts.after(step), ..self },
            Step::Failed => Ledger {
                counts: self.counts.after(step),
                unsettled: self.unsettled - 1,
                error_records: self.error_records + 1,
                ..self
            },
            Step::Succeeded => Ledger {
                counts: self.counts.after(step),
                unsettled: self.unsettled - 1,
                result_records: self.result_records + 1,
                ..self
            },
        }
    }

    /// The state after a run of steps.
    pub open spec fn after_all(self, steps: Seq<Step>) -> Ledger
        decreases steps.len(),
    {
        if steps.len() == 0 {
            self
        } else {
            self.after_all(steps.drop_last()).after(steps.last())
        }
    }

    /// Every task that was started has succeeded, has failed or is unsettled,
    /// and each log holds one record for each final outcome of its kind.
    pub open spec fn balanced(self) -> bool {
        &&& self.counts.started == self.counts.succeeded + self.counts.failed + self.unsettled
        &&& self.result_records == self.counts.succeeded
        &&& self.error_records == self.counts.failed
    }
}

/// The end of an attempt appends exactly one record where the outcome is
/// final, to the results log for a success and to the error log for a
/// failure, and none where the task is retried.
pub proof fn lemma_one_record_per_final_outcome(
    action: DispatchAction,
    request: APIRequest,
    max_attempts: usize,
    outcome: Outcome,
)
    requires
        carries_out(action, request, max_attempts, outcome),
    ensures
        outcome is Retry ==> action.result_records() + action.error_records() == 0,
        !(outcome is Retry) ==> action.result_records() + action.error_records() == 1,
        action.result_records() == 1 <==> outcome is Success,
        action.error_records() == 1 <==> outcome is Failure,
        Ledger::opening().after(outcome.step()).result_records == action.result_records(),
        Ledger::opening().after(outcome.step()).error_records == action.error_records(),
{
}

/// Whatever the steps of a run, its books balance.
pub proof fn lemma_books_balance(steps: Seq<Step>)
    ensures
        Ledger::opening().after_all(steps).balanced(),
    decreases steps.len(),
{
    if steps.len() > 0 {
        lemma_books_balance(steps.drop_last());
    }
}

/// Once a run has drained, so that no task is left unsettled, every task that
/// was started has either succeeded or failed, and the two logs together hold
/// one record for each of them.
pub proof fn lemma_drained_run(steps: Seq<Step>)
    requires
        Ledger::opening().after_all(steps).unsettled == 0,
    ensures
        ({
            let end = Ledger::opening().after_all(steps);
            &&& end.counts.started == end.counts.succeeded + end.counts.failed
            &&& end.result_records + end.error_records == end.counts.started
        }),
{
    lemma_books_balance(steps);
}

} // verus!
