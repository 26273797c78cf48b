//! Worker pool sizing and the events workers emit.
//!
//! Each of N workers pulls validated targets from the bounded work queue
//! and reports one status event per target. N is the available hardware
//! concurrency, at least 1, and the work queue's capacity equals N so the
//! scanner stalls instead of racing ahead.

use vstd::prelude::*;

use crate::errors::AppError;
use crate::events::StatusEvent;
use crate::sqlite_file::VacuumResult;

verus! {

/// Relies on num_cpus::get for the number of available logical CPUs; its
/// documentation promises the result is always at least 1.
#[verifier::external_body]
fn available_cpus() -> (n: usize)
    ensures
        n >= 1,
{
    num_cpus::get()
}

/// The worker pool's size: the available hardware concurrency, never less
/// than one worker. The bounded work queue's capacity equals this count.
pub fn worker_count() -> (n: usize)
    ensures
        n >= 1,
{
    available_cpus()
}

/// The event one worker emits for one target's outcome: on success a
/// progress event carrying the target's path and its measured delta, on
/// failure the error itself. The event is always well formed.
pub fn worker_event(outcome: Result<VacuumResult, AppError>) -> (ev: StatusEvent)
    ensures
        outcome matches Ok(r) ==> (ev matches StatusEvent::Progress { path, delta } && path@
            == r.spec_path() && delta == r.spec_delta()),
        outcome matches Err(e) ==> ev == StatusEvent::Error(e),
        ev.wf(),
{
    match outcome {
        Ok(r) => {
            let delta = r.delta();
            let path = r.into_db_file().into_path();
            StatusEvent::Progress { path, delta }
        },
        Err(e) => StatusEvent::Error(e),
    }
}

} // verus!

