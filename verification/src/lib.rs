//! Supervision of untrusted child programs: resource limits, measurements and
//! the single verdict that a run ends with.
//!
//! The crate holds the rules of supervision as verified functions on plain
//! values. Whatever touches the kernel hands its observations in and carries
//! the decisions out.

pub mod listener;
pub mod process;
pub mod settings;
pub mod setup;
pub mod time;
pub mod util;
