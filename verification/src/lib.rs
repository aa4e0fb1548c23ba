//! Supervision core for one external process.
//!
//! The crate holds the decisions of a cancellable wait: when a guarded
//! process must be asked to terminate, what the polling loop does after each
//! observation, and which result a run ends with. Starting the process,
//! asking the operating system for its state, sleeping and sending the
//! termination request are left to the caller, who reports what happened as
//! plain values.

pub mod command;
pub mod error;
pub mod flag;
pub mod guard;
pub mod run;
pub mod status;
pub mod wait;
