//! Decision logic of a process launcher that runs a configured target program,
//! duplicates the target's standard output into a per-run log file, and exits
//! with the target's own status.
//!
//! The crate holds no I/O. A driver performs each [`launcher::Action`] and
//! hands the outcome back as an [`launcher::Event`].

pub mod status;
pub mod config;
pub mod log;
pub mod report;
pub mod launcher;
pub mod trace;
