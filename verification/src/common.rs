//! Build-profile selectors for the surrounding program: whether diagnostics
//! are on, and how many workers a production run should configure.

use vstd::prelude::*;

verus! {

/// Whether the engine runs under a development profile. This build is the
/// production profile, so debug-only diagnostics stay off.
pub fn is_debug() -> (r: bool)
    ensures
        !r,
{
    false
}

/// Relies on num_cpus::get: the number of available logical CPUs of the
/// current system, which is always at least 1.
#[verifier::external_body]
fn cpu_count() -> (r: usize)
    ensures
        r >= 1,
{
    num_cpus::get()
}

/// The worker count a production run should configure: the detected logical
/// CPU count, always a positive number.
pub fn num_threads() -> (r: usize)
    ensures
        r >= 1,
{
    cpu_count()
}

/// Whether a delegate may persist per-item diagnostic artifacts: only under
/// a debug profile and with exactly one worker, so that artifact names
/// cannot collide across workers; a no-op everywhere else.
pub fn diagnostics_enabled(debug: bool, worker_count: usize) -> (r: bool)
    ensures
        r == (debug && worker_count == 1),
{
    debug && worker_count == 1
}

} // verus!
