use vstd::prelude::*;

verus! {

/// Errors of supervision. `InvalidConfig` and `SchedulingFailed` are
/// surfaced synchronously by `supervise`; `LaunchFailed` is recorded by the
/// background sequence and reported through the observation sink.
#[derive(Debug, Clone, PartialEq, Eq)]
pub enum SupervisionError {
    /// The configuration failed validation before any interaction with the
    /// operating system.
    InvalidConfig,
    /// The background worker that would launch and wait could not be
    /// created.
    SchedulingFailed,
    /// The operating system refused to create the process; the payload is
    /// the reason.
    LaunchFailed(String),
}

/// How the helper process terminated: with an exit code, or without one
/// (ended by a signal or another termination the platform reports no code
/// for).
#[derive(Debug, Clone, Copy, PartialEq, Eq)]
pub enum ExitOutcome {
    Code(i32),
    Terminated,
}

/// An event delivered through the observation sink to the host
/// application.
#[derive(Debug, Clone, PartialEq, Eq)]
pub enum Observation {
    /// Process creation failed; the payload is the reason.
    LaunchFailed(String),
    /// The process was created and later terminated with this outcome.
    Exited(ExitOutcome),
}

} // verus!
