//! A delegate that counts lifecycle milestones. A run with it observes, at
//! run time, what the pool's contracts state: how many times each hook
//! fired and how each delivered item classified.

use vstd::prelude::*;

use crate::outcome::RawResult;
use crate::outcome::TaskOutcome;
use crate::pool::TaskDelegation;

verus! {

/// Counts every invocation the pool makes and never stops its worker, so a
/// pool driving it drains fully. Its `process` reports a plain non-empty
/// value, so every delivered item classifies as `Success`. Counters
/// saturate instead of overflowing.
pub struct CountingDelegate {
    pub started_calls: u64,
    pub process_calls: u64,
    pub completed_calls: u64,
    pub success_count: u64,
    pub error_count: u64,
    pub timed_out_count: u64,
    pub cancelled_count: u64,
    pub finished_calls: u64,
}

fn saturating_bump(counter: &mut u64)
    ensures
        *final(counter) == if *old(counter) < u64::MAX {
            *old(counter) + 1
        } else {
            *old(counter) as int
        },
{
    if *counter < u64::MAX {
        *counter = *counter + 1;
    }
}

impl CountingDelegate {
    /// A fresh delegate with every counter at zero.
    pub fn new() -> (d: CountingDelegate)
        ensures
            d.started_calls == 0,
            d.process_calls == 0,
            d.completed_calls == 0,
            d.success_count == 0,
            d.error_count == 0,
            d.timed_out_count == 0,
            d.cancelled_count == 0,
            d.finished_calls == 0,
    {
        CountingDelegate {
            started_calls: 0,
            process_calls: 0,
            completed_calls: 0,
            success_count: 0,
            error_count: 0,
            timed_out_count: 0,
            cancelled_count: 0,
            finished_calls: 0,
        }
    }
}

impl<T> TaskDelegation<T> for CountingDelegate {
    open spec fn always_resumes() -> bool {
        true
    }

    fn on_started(&mut self, worker_count: usize) {
        saturating_bump(&mut self.started_calls);
    }

    fn process(&mut self, item: &T) -> RawResult {
        saturating_bump(&mut self.process_calls);
        RawResult::Completed { value: String::from_str("ok") }
    }

    fn on_completed(&mut self, item: &T, outcome: &TaskOutcome) -> (keep_going: bool) {
        saturating_bump(&mut self.completed_calls);
        match outcome {
            TaskOutcome::Success => saturating_bump(&mut self.success_count),
            TaskOutcome::Error { .. } => saturating_bump(&mut self.error_count),
            TaskOutcome::TimedOut => saturating_bump(&mut self.timed_out_count),
            TaskOutcome::Cancelled => saturating_bump(&mut self.cancelled_count),
        }
        true
    }

    fn on_finished(&mut self) {
        saturating_bump(&mut self.finished_calls);
    }
}

} // verus!
