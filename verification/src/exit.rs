//! The closed set of process exit statuses that a run can end with.

use vstd::prelude::*;

verus! {

pub const EXIT_CODE_INVALID_USAGE: i32 = 1;

pub const EXIT_CODE_NO_CWD: i32 = 2;

pub const EXIT_CODE_READ_DIR: i32 = 3;

pub const EXIT_CODE_UNKNOWN_ERR: i32 = 255;

/// Folds one operand's outcome into a run's accumulated status: a failed
/// operand sets the unknown-error status, a successful one leaves the
/// accumulation alone — so of several failures the last one's status
/// stands, which for this code is the same status.
pub fn fold_unknown_err(status: i32, ok: bool) -> (r: i32)
    ensures
        r == if ok {
            status
        } else {
            EXIT_CODE_UNKNOWN_ERR
        },
{
    if ok {
        status
    } else {
        EXIT_CODE_UNKNOWN_ERR
    }
}

/// Common exit codes across all commands. Exactly one of these is produced
/// per process invocation; when several operands fail, the status of the
/// last failure wins.
#[derive(Clone, Copy, Debug, PartialEq, Eq, Structural)]
pub enum ExitCode {
    Success,
    InvalidUsage,
    NoCwd,
    ReadDir,
    Stat,
    Time,
    UnknownErr,
}

impl ExitCode {
    /// The numeric process exit status that this code stands for.
    pub open spec fn code_spec(self) -> i32 {
        match self {
            ExitCode::Success => 0,
            ExitCode::InvalidUsage => 1,
            ExitCode::NoCwd => 2,
            ExitCode::ReadDir => 3,
            ExitCode::Stat => 4,
            ExitCode::Time => 5,
            ExitCode::UnknownErr => 255,
        }
    }

    pub fn code(self) -> (r: i32)
        ensures
            r == self.code_spec(),
    {
        match self {
            ExitCode::Success => 0,
            ExitCode::InvalidUsage => 1,
            ExitCode::NoCwd => 2,
            ExitCode::ReadDir => 3,
            ExitCode::Stat => 4,
            ExitCode::Time => 5,
            ExitCode::UnknownErr => 255,
        }
    }
}

} // verus!
