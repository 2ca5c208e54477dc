//! The tracing probe. It ties the child's life to the supervisor's and keeps
//! the child going after each stop that tracing causes.

use vstd::prelude::*;

use crate::listener::WaitEvent;
use crate::process::data::ExecutionSettings;

verus! {

/// The options that the tracer sets on the child.
#[derive(Clone, Copy, Debug, PartialEq, Eq, Structural)]
pub struct TraceOptions {
    /// The child is killed when the tracer goes away.
    pub exit_kill: bool,
    /// The child stops once more before it exits.
    pub trace_exit: bool,
}

/// The tracing probe. It keeps no state of its own.
#[derive(Clone, Copy, Debug, PartialEq, Eq, Structural)]
pub struct PtraceListener {}

impl PtraceListener {
    /// A new probe.
    pub fn new() -> PtraceListener {
        PtraceListener {  }
    }

    /// The options to set once the child has stopped for the attach: kill
    /// on the tracer's exit, and a stop before the child's own exit.
    pub fn trace_options() -> (options: TraceOptions)
        ensures
            options == (TraceOptions { exit_kill: true, trace_exit: true }),
    {
        TraceOptions { exit_kill: true, trace_exit: true }
    }

    /// Whether the supervisor must wake on a cadence for this probe: never.
    pub fn requires_timeout(&self, settings: &ExecutionSettings) -> (needed: bool)
        ensures
            !needed,
    {
        false
    }

    /// Whether the child, if it is still alive, is to be continued after
    /// `event`: exactly after a stop that tracing caused.
    pub fn on_execute_event(&self, event: &WaitEvent) -> (resume: bool)
        ensures
            resume == (*event is PtraceEvent),
    {
        match event {
            WaitEvent::PtraceEvent { .. } => true,
            _ => false,
        }
    }
}

} // verus!
