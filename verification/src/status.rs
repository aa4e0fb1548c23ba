//! Exit statuses of a supervised process.

use vstd::prelude::*;

verus! {

/// Exit code reported to the caller's own parent when the child ended without
/// a code of its own.
pub const NO_CODE_EXIT: i32 = 2;

/// How a process ended.
#[derive(Clone, Copy, Debug, PartialEq, Eq, Structural)]
pub enum ExitStatus {
    /// The process returned this code.
    Exited(i32),
    /// The process was ended from outside (by a signal) and reports no code.
    Signaled,
}

impl ExitStatus {
    /// The code the process returned, if it returned one.
    pub open spec fn code_spec(self) -> Option<i32> {
        match self {
            ExitStatus::Exited(code) => Some(code),
            ExitStatus::Signaled => None,
        }
    }

    /// The code to pass on: the child's own code where it has one, the fixed
    /// sentinel otherwise.
    pub open spec fn exit_code_spec(self) -> i32 {
        match self {
            ExitStatus::Exited(code) => code,
            ExitStatus::Signaled => NO_CODE_EXIT,
        }
    }

    /// Rebuilds a status from an optional code.
    pub fn from_code(code: Option<i32>) -> (status: ExitStatus)
        ensures
            status.code_spec() == code,
    {
        match code {
            Some(c) => ExitStatus::Exited(c),
            None => ExitStatus::Signaled,
        }
    }

    #[verifier::when_used_as_spec(code_spec)]
    pub fn code(self) -> (code: Option<i32>)
        ensures
            code == self.code_spec(),
    {
        match self {
            ExitStatus::Exited(c) => Some(c),
            ExitStatus::Signaled => None,
        }
    }

    /// True exactly for a process that returned code zero.
    pub fn success(self) -> (ok: bool)
        ensures
            ok == (self == ExitStatus::Exited(0)),
    {
        match self {
            ExitStatus::Exited(c) => c == 0,
            ExitStatus::Signaled => false,
        }
    }

    #[verifier::when_used_as_spec(exit_code_spec)]
    pub fn exit_code(self) -> (code: i32)
        ensures
            code == self.exit_code_spec(),
    {
        match self {
            ExitStatus::Exited(c) => c,
            ExitStatus::Signaled => NO_CODE_EXIT,
        }
    }
}

} // verus!
