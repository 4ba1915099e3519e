//! `pwd`: the directory that the shell is in.

use vstd::prelude::*;
use vstd::string::StringExecFns;
use crate::resolver::texts;
use crate::status::ExitStatus;
use crate::util::{arg_texts, refusal, refuse, Report, ReportView};

verus! {

/// The report of `pwd`, where `directory` is the directory that the shell
/// is in, or the message of the failure to find it. Any argument is
/// refused with the raw status 1. Otherwise the directory is the one line
/// of output; where it could not be found, `pwd` ends with the message and
/// the raw status 2.
pub open spec fn pwd_report(args: Seq<Seq<char>>, directory: Result<Seq<char>, Seq<char>>) -> ReportView {
    if args.len() > 0 {
        refusal("Too many arguments"@, 1)
    } else {
        match directory {
            Ok(path) => ReportView { out: seq![path], err: None, status: ExitStatus { raw: 0 } },
            Err(message) => refusal(message, 2),
        }
    }
}

/// `pwd`.
pub fn pwd(args: &[&str], directory: Result<String, String>) -> (report: Report)
    ensures
        report@ == pwd_report(
            arg_texts(args@),
            match directory {
                Ok(path) => Ok(path@),
                Err(message) => Err(message@),
            },
        ),
{
    if args.len() > 0 {
        return refuse(String::from_str("Too many arguments"), 1);
    }
    match directory {
        Ok(path) => {
            let mut out: Vec<String> = Vec::new();
            out.push(path);
            let report = Report { out, err: None, status: ExitStatus::from_raw(0) };
            assert(report@.out =~= seq![path@]);
            report
        },
        Err(message) => refuse(message, 2),
    }
}

} // verus!
