//! Supervision of a locally spawned backend server process.
//!
//! The crate holds the decisions of the supervisor: which command starts the
//! backend on which platform, how often a launch is tried, when a launched
//! process counts as reachable, and how a recorded process is terminated.
//! Spawning, connecting, sleeping and killing are left to the caller, which
//! performs each action the supervisor asks for and reports back what
//! happened.

pub mod error;
pub mod launch;
pub mod platform;
pub mod policy;
pub mod polling;
pub mod prober;
pub mod supervisor;
pub mod trace;
