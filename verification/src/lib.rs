//! Supervision of one external helper process launched from a host
//! application: validate the launch configuration before any process is
//! spawned, hand the launch and the wait for exit to a background worker,
//! and report the outcome through an observation sink, so that a failed or
//! dead helper never crashes or blocks the host.

pub mod config;
pub mod outcome;
pub mod supervisor;
