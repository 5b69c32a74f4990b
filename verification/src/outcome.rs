//! Result classification: the delegate's raw outcome is normalized into the
//! closed `TaskOutcome` variant set consumed by `on_completed`.

use vstd::prelude::*;

verus! {

/// The classified result of processing one item. Exactly one variant holds
/// per completed item; `Cancelled` is reserved for pool shutdown while an
/// item is mid-processing.
#[derive(Debug)]
pub enum TaskOutcome {
    Success,
    Error { message: String },
    TimedOut,
    Cancelled,
}

/// The raw result of a delegate's `process` call: either the value the
/// underlying operation produced (which may still fail validation), or a
/// failure that is either a timeout or some other transport/logic error.
#[derive(Debug)]
pub enum RawResult {
    Completed { value: String },
    Failed { timed_out: bool, message: String },
}

/// Normalizes a raw result into a `TaskOutcome`. The rules apply in order,
/// first match wins: a timeout failure yields `TimedOut`; any other failure
/// yields `Error` with a non-empty message; a structurally empty value
/// yields `Error { "empty response" }`; anything else yields `Success`.
pub fn classify(raw: &RawResult) -> (r: TaskOutcome)
    ensures
        raw matches RawResult::Failed { timed_out: true, .. } ==> r is TimedOut,
        raw matches RawResult::Failed { timed_out: false, message } ==> {
            &&& r matches TaskOutcome::Error { message: m }
            &&& m@.len() > 0
            &&& (message@.len() > 0 ==> m@ == message@)
            &&& (message@.len() == 0 ==> m@ == "unspecified error"@)
        },
        raw matches RawResult::Completed { value } && value@.len() == 0 ==> {
            &&& r matches TaskOutcome::Error { message: m }
            &&& m@ == "empty response"@
            &&& m@.len() > 0
        },
        raw matches RawResult::Completed { value } && value@.len() > 0 ==> r is Success,
{
    match raw {
        RawResult::Failed { timed_out, message } => {
            if *timed_out {
                TaskOutcome::TimedOut
            } else if !message.as_str().is_empty() {
                TaskOutcome::Error { message: message.clone() }
            } else {
                proof {
                    reveal_strlit("unspecified error");
                }
                TaskOutcome::Error { message: String::from_str("unspecified error") }
            }
        },
        RawResult::Completed { value } => {
            if value.as_str().is_empty() {
                proof {
                    reveal_strlit("empty response");
                }
                TaskOutcome::Error { message: String::from_str("empty response") }
            } else {
                TaskOutcome::Success
            }
        },
    }
}

} // verus!
