//! The ways in which starting or supervising a child can fail.
//!
//! A broken limit is never an error: it is a verdict of the result.

use vstd::prelude::*;

verus! {

/// Why a child could not be started. Each variant carries the error number
/// that the failing call reported.
#[derive(Clone, Copy, Debug, PartialEq, Eq, Structural)]
pub enum SpawnError {
    /// The child process could not be created.
    CloneFailed(i32),
    /// A listener could not finish its setup on the parent's side.
    ListenerSetupFailed(i32),
    /// The rendezvous with the child failed.
    BarrierFailed(i32),
}

/// Why a run could not be supervised to its end.
#[derive(Clone, Copy, Debug, PartialEq, Eq, Structural)]
pub enum RunError {
    /// The child failed before it could start the target program; the error
    /// number is the one that the child recorded.
    ChildErrno(i32),
    /// An observation of the child failed, with this error number.
    IOError(i32),
}

} // verus!
