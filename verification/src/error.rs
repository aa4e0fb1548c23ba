//! Failures a supervised run can end with.

use vstd::prelude::*;

verus! {

/// Why the operating system refused a request.
#[derive(Clone, Copy, Debug, PartialEq, Eq, Structural)]
pub enum FailureKind {
    /// The executable (or the handle) does not exist.
    NotFound,
    /// The caller is not allowed to do this.
    PermissionDenied,
    /// Any other refusal.
    Other,
}

/// A failed operating-system request, as plain values.
#[derive(Clone, Copy, Debug, PartialEq, Eq, Structural)]
pub struct OsError {
    pub kind: FailureKind,
    /// The raw error number, where the system gave one.
    pub raw: Option<i32>,
}

/// The ways a run ends without an exit status.
#[derive(Clone, Copy, Debug, PartialEq, Eq, Structural)]
pub enum WaitError {
    /// The process could not be started. Never retried.
    Spawn(OsError),
    /// Asking for the state of a started process failed. Fatal for the wait.
    Poll(OsError),
    /// Cancellation was requested before the process was seen to finish.
    Interrupted,
}

impl WaitError {
    /// True for a cancelled run, false where starting or polling failed.
    pub fn is_interrupted(self) -> (yes: bool)
        ensures
            yes == (self == WaitError::Interrupted),
    {
        match self {
            WaitError::Interrupted => true,
            _ => false,
        }
    }
}

} // verus!
