//! `exit`: whether the shell ends, and with which code.

use vstd::prelude::*;
use vstd::string::StringExecFns;
use crate::util::{arg_texts, refusal, refuse, Report, ReportView};

verus! {

/// The number that a text stands for, as `str::parse::<i32>` reads it:
/// `None` where the text is not a number that fits.
pub uninterp spec fn parsed_i32(text: Seq<char>) -> Option<i32>;

/// Calls `str::parse::<i32>`. The contract gives the result its name and
/// claims nothing else of it.
#[verifier::external_body]
fn parse_i32(text: &str) -> (number: Option<i32>)
    ensures
        number == parsed_i32(text@),
{
    match text.parse::<i32>() {
        Ok(number) => Some(number),
        Err(_) => None,
    }
}

/// What `exit` asks for.
#[derive(Debug)]
pub enum Exit {
    /// End the shell with this code.
    Leave(i32),
    /// Go on; the command has failed with this report.
    Stay(Report),
}

pub enum ExitView {
    Leave(i32),
    Stay(ReportView),
}

impl View for Exit {
    type V = ExitView;

    open spec fn view(&self) -> ExitView {
        match self {
            Exit::Leave(code) => ExitView::Leave(*code),
            Exit::Stay(report) => ExitView::Stay(report@),
        }
    }
}

/// What `exit` asks for, where `number` is what its only argument stands
/// for. Two arguments or more are refused with the raw status 1, an
/// argument that is no number with the raw status 2. Without an argument
/// the shell ends with the code 0.
pub open spec fn exit_with(args: Seq<Seq<char>>, number: Option<i32>) -> ExitView {
    if args.len() >= 2 {
        ExitView::Stay(refusal("Too many arguments"@, 1))
    } else if args.len() == 1 {
        match number {
            Some(code) => ExitView::Leave(code),
            None => ExitView::Stay(refusal("Expected argument to be an integer"@, 2)),
        }
    } else {
        ExitView::Leave(0)
    }
}

/// What `exit` asks for.
pub open spec fn exit_of(args: Seq<Seq<char>>) -> ExitView {
    exit_with(
        args,
        if args.len() == 1 {
            parsed_i32(args[0])
        } else {
            None
        },
    )
}

/// Decides for `exit`, given what its only argument stands for.
pub fn exit_from(args: &[&str], number: Option<i32>) -> (exit: Exit)
    ensures
        exit@ == exit_with(arg_texts(args@), number),
{
    if args.len() >= 2 {
        return Exit::Stay(refuse(String::from_str("Too many arguments"), 1));
    }
    if args.len() == 1 {
        return match number {
            Some(code) => Exit::Leave(code),
            None => Exit::Stay(refuse(String::from_str("Expected argument to be an integer"), 2)),
        };
    }
    Exit::Leave(0)
}

/// `exit [code]`.
pub fn exit(args: &[&str]) -> (exit: Exit)
    ensures
        exit@ == exit_of(arg_texts(args@)),
{
    let number = if args.len() == 1 {
        parse_i32(args[0])
    } else {
        None
    };
    exit_from(args, number)
}

} // verus!
