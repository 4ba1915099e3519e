//! The two ends of a subshell.
//!
//! A subshell runs its commands in a copy of the shell, so nothing that
//! they change reaches the shell itself. The copy ends with an exit code
//! made from what its commands reported; the shell waits for the copy and
//! makes a report of its own from how the wait ended.

use vstd::prelude::*;
use crate::status::{succeeded, ExecuteError, ExitStatus, Outcome};

verus! {

/// How waiting for a child process ended.
#[derive(Clone, Copy, Debug, PartialEq, Eq, Structural)]
pub enum WaitOutcome {
    /// The child exited with this code.
    Exited(i32),
    /// A signal ended the child.
    Signaled,
    /// The child was stopped.
    Stopped,
    /// The child changed its state in some other way.
    Other,
    /// Waiting itself failed.
    Failed,
}

/// The code with which the copy of the shell ends: the exit code of what
/// its commands reported, and 1 where they reported a status without an
/// exit code or ended in an error.
pub open spec fn exit_code_of(result: Outcome) -> int {
    match result {
        Ok(status) => match status.exit_code() {
            Some(code) => code as int,
            None => 1,
        },
        Err(_) => 1,
    }
}

/// What the shell reports for a subshell, given how waiting for the copy
/// ended: the exit code as a status where the copy exited, a `StaticError`
/// otherwise.
pub open spec fn subshell_report(waited: WaitOutcome) -> Outcome {
    match waited {
        WaitOutcome::Exited(code) => Ok(ExitStatus { raw: code }),
        _ => Err(ExecuteError::StaticError("Failed to execute subshell")),
    }
}

/// Inside the copy: the exit code for the result of the commands.
pub fn subshell_exit_code(result: &Outcome) -> (code: i32)
    ensures
        code == exit_code_of(*result),
{
    match result {
        Ok(status) => match status.code() {
            Some(code) => code,
            None => 1,
        },
        Err(_) => 1,
    }
}

/// Inside the shell: the report of the subshell.
pub fn execute_subshell(waited: WaitOutcome) -> (report: Outcome)
    ensures
        report == subshell_report(waited),
{
    match waited {
        WaitOutcome::Exited(code) => Ok(ExitStatus::from_raw(code)),
        _ => Err(ExecuteError::StaticError("Failed to execute subshell")),
    }
}

/// When the copy exits with the code made from `result`, the subshell
/// reports a success exactly if that code is 0; and it is 0 whenever the
/// commands of the subshell reported a success.
pub proof fn law_subshell_success(result: Outcome, code: i32)
    requires
        code == exit_code_of(result),
    ensures
        succeeded(subshell_report(WaitOutcome::Exited(code))) <==> exit_code_of(result) == 0,
        succeeded(result) ==> succeeded(subshell_report(WaitOutcome::Exited(code))),
{
}

} // verus!
