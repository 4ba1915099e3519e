//! Exit statuses of finished commands, and the errors a command can end in.

use vstd::prelude::*;

verus! {

/// The status a finished command leaves behind, kept as the raw integer
/// that the operating system's wait call hands out.
#[derive(Clone, Copy, Debug, PartialEq, Eq, Structural)]
pub struct ExitStatus {
    pub raw: i32,
}

impl ExitStatus {
    /// A status counts as success exactly when its raw value is zero.
    pub open spec fn succeeded(self) -> bool {
        self.raw == 0
    }

    /// The exit code that the status carries: there is one when the low
    /// seven bits of the raw value, which name the signal that ended the
    /// command, are zero, and it is then the next eight bits.
    pub open spec fn exit_code(self) -> Option<i32> {
        if self.raw as int % 128 == 0 {
            Some(((self.raw as int / 256) % 256) as i32)
        } else {
            None
        }
    }

    /// The status that negating a pipeline turns this one into: raw 1 for a
    /// success, raw 0 for anything else.
    pub open spec fn negated(self) -> ExitStatus {
        if self.succeeded() {
            ExitStatus { raw: 1 }
        } else {
            ExitStatus { raw: 0 }
        }
    }

    pub fn from_raw(raw: i32) -> (status: ExitStatus)
        ensures
            status == (ExitStatus { raw }),
    {
        ExitStatus { raw }
    }

    pub fn into_raw(&self) -> (raw: i32)
        ensures
            raw == self.raw,
    {
        self.raw
    }

    pub fn success(&self) -> (ok: bool)
        ensures
            ok == self.succeeded(),
    {
        self.raw == 0
    }

    /// The exit code, if the command ended by exiting rather than by a signal.
    pub fn code(&self) -> (code: Option<i32>)
        ensures
            code == self.exit_code(),
    {
        let raw: i32 = self.raw;
        let low: i32 = raw & 0x7f;
        let high: i32 = (raw >> 8) & 0xff;
        assert(low == 0 <==> (raw as int) % 128 == 0) by (bit_vector)
            requires
                low == raw & 0x7f,
        ;
        assert(high as int == ((raw as int) / 256) % 256) by (bit_vector)
            requires
                high == (raw >> 8) & 0xff,
        ;
        if low == 0 {
            Some(high)
        } else {
            None
        }
    }

    /// Swaps success and failure, as `!` in front of a pipeline asks.
    pub fn negate(&self) -> (status: ExitStatus)
        ensures
            status == self.negated(),
    {
        if self.success() {
            ExitStatus::from_raw(1)
        } else {
            ExitStatus::from_raw(0)
        }
    }
}

#[verifier::external_type_specification]
#[verifier::external_body]
pub struct ExIoError(std::io::Error);

/// Why a command did not yield an exit status.
#[derive(Debug)]
pub enum ExecuteError {
    /// A structural problem with a fixed message.
    StaticError(&'static str),
    /// A part of the shell grammar that is recognised and not carried out.
    Unsupported(&'static str),
    /// The operating system refused to open a file or start a process.
    IoError(std::io::Error),
    /// The name is not in the table of built-in commands.
    NotAnInner,
    /// There were no commands to run.
    Empty,
}

/// How running one command ends.
pub type Outcome = Result<ExitStatus, ExecuteError>;

pub open spec fn succeeded(outcome: Outcome) -> bool {
    outcome matches Ok(status) && status.succeeded()
}

} // verus!
