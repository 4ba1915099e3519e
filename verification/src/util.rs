//! The built-in commands, as far as they compute: what each prints and
//! which status it ends with. Printing, and every change to the process
//! itself, is left to the caller.

use vstd::prelude::*;
use crate::resolver::texts;
use crate::status::ExitStatus;

pub mod basename;
pub mod cd;
pub mod dirname;
pub mod exec;
pub mod exit;
pub mod pwd;

verus! {

/// What a built-in command leaves behind: the lines for standard output,
/// in order, the message for standard error if there is one, and the exit
/// status.
#[derive(Debug)]
pub struct Report {
    pub out: Vec<String>,
    pub err: Option<String>,
    pub status: ExitStatus,
}

pub struct ReportView {
    pub out: Seq<Seq<char>>,
    pub err: Option<Seq<char>>,
    pub status: ExitStatus,
}

impl View for Report {
    type V = ReportView;

    open spec fn view(&self) -> ReportView {
        ReportView {
            out: texts(self.out@),
            err: match self.err {
                Some(message) => Some(message@),
                None => None,
            },
            status: self.status,
        }
    }
}

/// A report that consists of one message and a raw status.
pub open spec fn refusal(message: Seq<char>, raw: i32) -> ReportView {
    ReportView { out: Seq::empty(), err: Some(message), status: ExitStatus { raw } }
}

/// A report with one message and a raw status.
pub fn refuse(message: String, raw: i32) -> (report: Report)
    ensures
        report@ == refusal(message@, raw),
{
    let report = Report { out: Vec::new(), err: Some(message), status: ExitStatus::from_raw(raw) };
    assert(report@.out =~= Seq::empty());
    report
}

/// The characters of each argument.
pub open spec fn arg_texts(args: Seq<&str>) -> Seq<Seq<char>> {
    args.map_values(|arg: &str| arg@)
}

/// The report of a command that turns each argument into one line, and
/// stops at the first argument for which there is none: the lines of the
/// arguments before it, then its message, and the raw status 1. Without
/// such an argument the raw status is 0.
pub open spec fn report_each(
    args: Seq<Seq<char>>,
    line: spec_fn(Seq<char>) -> Result<Seq<char>, Seq<char>>,
) -> ReportView
    decreases args.len(),
{
    if args.len() == 0 {
        ReportView { out: Seq::empty(), err: None, status: ExitStatus { raw: 0 } }
    } else {
        let before = report_each(args.drop_last(), line);
        if before.err is Some {
            before
        } else {
            match line(args.last()) {
                Ok(text) => ReportView {
                    out: before.out.push(text),
                    err: None,
                    status: ExitStatus { raw: 0 },
                },
                Err(message) => ReportView {
                    out: before.out,
                    err: Some(message),
                    status: ExitStatus { raw: 1 },
                },
            }
        }
    }
}

/// Once an argument has failed, the arguments behind it change nothing.
pub proof fn lemma_report_each_stops(
    args: Seq<Seq<char>>,
    line: spec_fn(Seq<char>) -> Result<Seq<char>, Seq<char>>,
    k: int,
)
    requires
        0 <= k <= args.len(),
        report_each(args.take(k), line).err is Some,
    ensures
        report_each(args, line) == report_each(args.take(k), line),
    decreases args.len() - k,
{
    if k == args.len() {
        assert(args.take(k) =~= args);
    } else {
        assert(args.take(k + 1).drop_last() =~= args.take(k));
        lemma_report_each_stops(args, line, k + 1);
    }
}

} // verus!
