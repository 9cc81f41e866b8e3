//! The decision a registration worker takes once its registration attempt
//! has come back.
//!
//! A worker owns exactly one advertisement. The registration call itself is
//! made by the unverified shell on the worker's own thread; its outcome is
//! handed back here as a plain value.

use vstd::prelude::*;

verus! {

/// Why a registration attempt failed, as reported by the discovery
/// collaborator and carried into the worker's log line.
pub struct RegistrationError {
    pub message: String,
}

/// What a worker does after its registration attempt.
pub enum WorkerAction {
    /// Registration succeeded: keep the advertisement alive by parking the
    /// worker's thread until the process exits.
    ParkUntilExit,
    /// Registration failed: report the failure and end this worker only;
    /// sibling workers are unaffected and there is no retry.
    ReportFailure(RegistrationError),
}

/// Decide the worker's next step from its registration outcome: park forever
/// on success, report and terminate on failure.
pub fn worker_decision(outcome: Result<(), RegistrationError>) -> (a: WorkerAction)
    ensures
        match outcome {
            Ok(_) => a is ParkUntilExit,
            Err(e) => a == WorkerAction::ReportFailure(e),
        },
{
    match outcome {
        Ok(_) => WorkerAction::ParkUntilExit,
        Err(e) => WorkerAction::ReportFailure(e),
    }
}

} // verus!
