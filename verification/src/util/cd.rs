//! `cd`: where to go, and what to note down once the shell is there.
//!
//! Changing the directory takes three steps. [`cd_destination`] reads the
//! arguments. The caller looks up what the destination stands for, and
//! [`cd_directory`] names the directory. The caller then moves there, and
//! [`cd_finish`] says which variables to set and how the command ends.

use vstd::prelude::*;
use vstd::string::{StrSliceExecFns, StringExecFns};
use crate::status::ExitStatus;
use crate::text::{option_text, same_text};
use crate::util::{arg_texts, refusal, refuse, Report, ReportView};

verus! {

/// Where `cd` is asked to go.
#[derive(Debug)]
pub enum Destination {
    /// The directory that `HOME` names.
    Home,
    /// The directory that `OLDPWD` names.
    Previous,
    /// The home directory of the user of this name.
    UserHome(String),
    /// This directory.
    Path(String),
}

pub enum DestinationView {
    Home,
    Previous,
    UserHome(Seq<char>),
    Path(Seq<char>),
}

impl View for Destination {
    type V = DestinationView;

    open spec fn view(&self) -> DestinationView {
        match self {
            Destination::Home => DestinationView::Home,
            Destination::Previous => DestinationView::Previous,
            Destination::UserHome(name) => DestinationView::UserHome(name@),
            Destination::Path(path) => DestinationView::Path(path@),
        }
    }
}

/// The destination that the arguments name. No argument, or `~`, is the
/// home directory; `-` is the previous directory; `~name` is the home
/// directory of a user; anything else is a path. More than one argument
/// is refused with the raw status 1.
pub open spec fn destination_of(args: Seq<Seq<char>>) -> Result<DestinationView, ReportView> {
    if args.len() > 1 {
        Err(refusal("Too many arguments"@, 1))
    } else if args.len() == 0 || args[0] == "~"@ {
        Ok(DestinationView::Home)
    } else if args[0] == "-"@ {
        Ok(DestinationView::Previous)
    } else if args[0].len() > 0 && args[0][0] == '~' {
        Ok(DestinationView::UserHome(args[0].skip(1)))
    } else {
        Ok(DestinationView::Path(args[0]))
    }
}

/// The directory of a destination, given what the caller found for it: the
/// value of `HOME`, the value of `OLDPWD`, or the home directory of the
/// user. A path is its own directory. Where nothing was found, `cd` ends
/// with the raw status 2, 3 or 4.
pub open spec fn directory_of(destination: DestinationView, found: Option<Seq<char>>) -> Result<
    Seq<char>,
    ReportView,
> {
    match destination {
        DestinationView::Path(path) => Ok(path),
        DestinationView::Home => match found {
            Some(directory) => Ok(directory),
            None => Err(refusal("Can't find HOME in ENV"@, 2)),
        },
        DestinationView::Previous => match found {
            Some(directory) => Ok(directory),
            None => Err(refusal("Can't find OLDPWD in ENV"@, 3)),
        },
        DestinationView::UserHome(name) => match found {
            Some(directory) => Ok(directory),
            None => Err(refusal("Couldn't find home dir for user "@ + name, 4)),
        },
    }
}

/// What is left to do once the move was tried.
#[derive(Debug)]
pub struct Finish {
    /// The new value of `OLDPWD`, if it is to be set.
    pub oldpwd: Option<String>,
    /// The new value of `PWD`, if it is to be set.
    pub pwd: Option<String>,
    pub report: Report,
}

pub struct FinishView {
    pub oldpwd: Option<Seq<char>>,
    pub pwd: Option<Seq<char>>,
    pub report: ReportView,
}

impl View for Finish {
    type V = FinishView;

    open spec fn view(&self) -> FinishView {
        FinishView {
            oldpwd: option_text(self.oldpwd),
            pwd: option_text(self.pwd),
            report: self.report@,
        }
    }
}

/// How `cd` ends. After a move from `previous` that led to the directory
/// `now`, `OLDPWD` becomes `previous`, `PWD` becomes `now`, and the status
/// is a success. After a move that failed with `message`, no variable is
/// set, and `cd` ends with that message, an empty line and the raw
/// status 5.
pub open spec fn finish_of(previous: Seq<char>, moved: Result<Seq<char>, Seq<char>>) -> FinishView {
    match moved {
        Ok(now) => FinishView {
            oldpwd: Some(previous),
            pwd: Some(now),
            report: ReportView { out: Seq::empty(), err: None, status: ExitStatus { raw: 0 } },
        },
        Err(message) => FinishView {
            oldpwd: None,
            pwd: None,
            report: refusal(message + "\n"@, 5),
        },
    }
}

/// Reads the arguments of `cd`.
pub fn cd_destination(args: &[&str]) -> (r: Result<Destination, Report>)
    ensures
        match r {
            Ok(destination) => destination_of(arg_texts(args@)) == Ok::<
                DestinationView,
                ReportView,
            >(destination@),
            Err(report) => destination_of(arg_texts(args@)) == Err::<DestinationView, ReportView>(
                report@,
            ),
        },
{
    if args.len() > 1 {
        return Err(refuse(String::from_str("Too many arguments"), 1));
    }
    if args.len() == 0 || same_text(args[0], "~") {
        return Ok(Destination::Home);
    }
    let arg = args[0];
    if same_text(arg, "-") {
        return Ok(Destination::Previous);
    }
    let n = arg.unicode_len();
    if n > 0 && arg.get_char(0) == '~' {
        let name = String::from_str(arg.substring_char(1, n));
        assert(name@ =~= arg@.skip(1));
        return Ok(Destination::UserHome(name));
    }
    Ok(Destination::Path(String::from_str(arg)))
}

/// Names the directory to move to.
pub fn cd_directory(destination: Destination, found: Option<String>) -> (r: Result<String, Report>)
    ensures
        match r {
            Ok(directory) => directory_of(destination@, option_text(found)) == Ok::<
                Seq<char>,
                ReportView,
            >(directory@),
            Err(report) => directory_of(destination@, option_text(found)) == Err::<
                Seq<char>,
                ReportView,
            >(report@),
        },
{
    match destination {
        Destination::Path(path) => Ok(path),
        Destination::Home => match found {
            Some(directory) => Ok(directory),
            None => Err(refuse(String::from_str("Can't find HOME in ENV"), 2)),
        },
        Destination::Previous => match found {
            Some(directory) => Ok(directory),
            None => Err(refuse(String::from_str("Can't find OLDPWD in ENV"), 3)),
        },
        Destination::UserHome(name) => match found {
            Some(directory) => Ok(directory),
            None => Err(
                refuse(
                    String::from_str("Couldn't find home dir for user ").concat(name.as_str()),
                    4,
                ),
            ),
        },
    }
}

/// Ends `cd` after the move from the directory `previous` was tried:
/// `moved` holds the directory that the shell is in now, or the message of
/// the failure.
pub fn cd_finish(previous: String, moved: Result<String, String>) -> (finish: Finish)
    ensures
        finish@ == finish_of(
            previous@,
            match moved {
                Ok(now) => Ok(now@),
                Err(message) => Err(message@),
            },
        ),
{
    match moved {
        Ok(now) => {
            let report = Report { out: Vec::new(), err: None, status: ExitStatus::from_raw(0) };
            assert(report@.out =~= Seq::empty());
            Finish { oldpwd: Some(previous), pwd: Some(now), report }
        },
        Err(message) => Finish { oldpwd: None, pwd: None, report: refuse(message.concat("\n"), 5) },
    }
}

/// `cd` without arguments goes to the directory that `HOME` names. After
/// any move from `previous` that succeeded, `OLDPWD` is `previous`, so
/// that `cd -` goes back to where that move started. A move that failed
/// sets no variable and ends with a status that is no success.
pub proof fn law_cd(home: Seq<char>, previous: Seq<char>, now: Seq<char>, message: Seq<char>)
    ensures
        destination_of(Seq::empty()) == Ok::<DestinationView, ReportView>(DestinationView::Home),
        directory_of(DestinationView::Home, Some(home)) == Ok::<Seq<char>, ReportView>(home),
        finish_of(previous, Ok(now)).oldpwd == Some(previous),
        finish_of(previous, Ok(now)).pwd == Some(now),
        finish_of(previous, Ok(now)).report.status.succeeded(),
        destination_of(seq!["-"@]) == Ok::<DestinationView, ReportView>(DestinationView::Previous),
        directory_of(DestinationView::Previous, finish_of(previous, Ok(now)).oldpwd) == Ok::<
            Seq<char>,
            ReportView,
        >(previous),
        finish_of(previous, Err(message)).oldpwd is None,
        finish_of(previous, Err(message)).pwd is None,
        !finish_of(previous, Err(message)).report.status.succeeded(),
{
    reveal_strlit("-");
    reveal_strlit("~");
    assert("-"@[0] != "~"@[0]);
}

} // verus!
