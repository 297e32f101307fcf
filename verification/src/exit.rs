//! The exit status of one execution context.

use vstd::prelude::*;

verus! {

/// Whether the execution has failed so far.
///
/// A status starts as `Success`; the only way to change it is
/// [`ExitStatus::set_failed`], and nothing changes it back.
#[derive(Clone, Copy, Debug, PartialEq, Eq, Structural)]
pub enum ExitStatus {
    Success,
    Failure,
}

impl ExitStatus {
    /// The process exit code that stands for a status.
    pub open spec fn spec_code(self) -> int {
        match self {
            ExitStatus::Success => 0,
            ExitStatus::Failure => 1,
        }
    }

    /// What marking a status as failed makes of it: `Failure`, whatever it
    /// was.
    pub open spec fn failed(self) -> ExitStatus {
        ExitStatus::Failure
    }

    /// The status of an execution in which nothing has failed yet.
    pub fn new() -> (status: ExitStatus)
        ensures
            status == ExitStatus::Success,
    {
        ExitStatus::Success
    }

    /// Ensure a failure exit code.
    pub fn set_failed(&mut self)
        ensures
            *final(self) == old(self).failed(),
    {
        *self = ExitStatus::Failure;
    }

    /// Whether the status is `Failure`.
    pub fn is_failure(&self) -> (failed: bool)
        ensures
            failed == (*self == ExitStatus::Failure),
    {
        match self {
            ExitStatus::Success => false,
            ExitStatus::Failure => true,
        }
    }

    /// The process exit code: `0` for `Success`, `1` for `Failure`.
    pub fn code(&self) -> (code: u8)
        ensures
            code == self.spec_code(),
    {
        match self {
            ExitStatus::Success => 0,
            ExitStatus::Failure => 1,
        }
    }
}

/// Marking a status as failed a second time changes nothing, and a failed
/// status has the exit code `1`.
pub proof fn law_set_failed_is_idempotent(status: ExitStatus)
    ensures
        status.failed().failed() == status.failed(),
        status.failed().spec_code() == 1,
{
}

impl Default for ExitStatus {
    fn default() -> (status: ExitStatus)
        ensures
            status == ExitStatus::Success,
    {
        ExitStatus::Success
    }
}

} // verus!
