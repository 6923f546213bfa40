//! A scale-to-zero supervisor for one workload process, written as a set of
//! state machines that perform no I/O themselves.
//!
//! The driver owns the process handle, the administrative connection, the
//! channels and the clock. It performs what the machines request and hands
//! back what happened; every decision is taken here.

pub mod clock;
pub mod attempt;
pub mod launcher;
pub mod control;
pub mod env;
pub mod endpoint_helpers;
pub mod guarantees;
