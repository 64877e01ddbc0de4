use vstd::prelude::*;

verus! {

/// Every way in which a step, or the run as a whole, can fail.
#[derive(Clone, Debug, PartialEq, Eq)]
pub enum HarnessError {
    /// A start was requested for a service that already holds a process.
    AlreadyRunning(String),
    /// A stop was requested for a service that holds no process.
    NotRunning(String),
    /// The operating system refused to create the process: step name and cause.
    SpawnFailure(String, String),
    /// The operating system refused the termination request: step name and cause.
    StopFailure(String, String),
    /// The asynchronous task driver could not be constructed.
    AsyncTaskSetupFailure(String),
    /// An asynchronous step completed with a negative outcome.
    AsyncStepFailure(String),
    /// A service step names a position outside the service registry.
    InvalidServiceIndex(usize),
}

} // verus!
