//! `dirname`: a path without its last part.

use vstd::prelude::*;
use vstd::string::StringExecFns;
use crate::resolver::texts;
use crate::status::ExitStatus;
use crate::text::{contains_char, option_text};
use crate::util::{arg_texts, lemma_report_each_stops, report_each, Report, ReportView};

verus! {

/// A path without its final component, as `std::path::Path::parent` finds
/// it on Unix: `None` where the path ends in the root or is empty.
pub uninterp spec fn path_parent(path: Seq<char>) -> Option<Seq<char>>;

/// Calls `std::path::Path::parent` on the path and hands back the parent
/// as a string. The contract gives that result its name and
/// claims nothing else of it.
#[verifier::external_body]
fn parent(path: &str) -> (parent: Option<String>)
    ensures
        match parent {
            Some(parent) => path_parent(path@) == Some(parent@),
            None => path_parent(path@) is None,
        },
{
    match std::path::Path::new(path).parent() {
        Some(parent) => Some(parent.to_string_lossy().into_owned()),
        None => None,
    }
}

/// The message for a path without a parent.
pub open spec fn no_dirname(path: Seq<char>) -> Seq<char> {
    path + " has no parent directory\n"@
}

/// The directory of a path whose parent is `parent`: a path without a
/// slash lies in `.`; any other path lies in its parent, or has none.
pub open spec fn dirname_with(path: Seq<char>, parent: Option<Seq<char>>) -> Result<
    Seq<char>,
    Seq<char>,
> {
    if !path.contains('/') {
        Ok("."@)
    } else {
        match parent {
            Some(parent) => Ok(parent),
            None => Err(no_dirname(path)),
        }
    }
}

/// The directory of a path.
pub open spec fn dirname_of(path: Seq<char>) -> Result<Seq<char>, Seq<char>> {
    dirname_with(path, path_parent(path))
}

/// Picks the directory of a path, given its parent.
pub fn dirname_from(path: &str, parent: Option<String>) -> (r: Result<String, String>)
    ensures
        match r {
            Ok(name) => dirname_with(path@, option_text(parent)) == Ok::<
                Seq<char>,
                Seq<char>,
            >(name@),
            Err(message) => dirname_with(path@, option_text(parent))
                == Err::<Seq<char>, Seq<char>>(message@),
        },
{
    if !contains_char(path, '/') {
        Ok(String::from_str("."))
    } else {
        match parent {
            Some(parent) => Ok(parent),
            None => Err(String::from_str(path).concat(" has no parent directory\n")),
        }
    }
}

/// The directory of one path.
pub fn dirname_one(path: &str) -> (r: Result<String, String>)
    ensures
        match r {
            Ok(name) => dirname_of(path@) == Ok::<Seq<char>, Seq<char>>(name@),
            Err(message) => dirname_of(path@) == Err::<Seq<char>, Seq<char>>(message@),
        },
{
    dirname_from(path, parent(path))
}

/// `dirname path...`: one line with the directory of each path, up to the
/// first path that has none.
pub fn dirname(args: &[&str]) -> (report: Report)
    ensures
        report@ == report_each(arg_texts(args@), |path: Seq<char>| dirname_of(path)),
{
    let ghost line = |path: Seq<char>| dirname_of(path);
    let ghost all = arg_texts(args@);
    let mut out: Vec<String> = Vec::new();
    let mut i: usize = 0;
    assert(all.take(0) =~= Seq::empty());
    assert(texts(out@) =~= Seq::empty());
    while i < args.len()
        invariant
            i <= args.len(),
            all == arg_texts(args@),
            line == (|path: Seq<char>| dirname_of(path)),
            report_each(all.take(i as int), line) == (ReportView {
                out: texts(out@),
                err: None,
                status: ExitStatus { raw: 0 },
            }),
        decreases args.len() - i,
    {
        assert(all.take(i + 1).drop_last() =~= all.take(i as int));
        assert(all.take(i + 1).last() == args@[i as int]@);
        let ghost before = texts(out@);
        match dirname_one(args[i]) {
            Ok(name) => {
                out.push(name);
                assert(texts(out@) =~= before.push(name@));
            },
            Err(message) => {
                proof {
                    lemma_report_each_stops(all, line, i + 1);
                }
                return Report { out, err: Some(message), status: ExitStatus::from_raw(1) };
            },
        }
        i += 1;
    }
    assert(all.take(i as int) =~= all);
    Report { out, err: None, status: ExitStatus::from_raw(0) }
}

} // verus!
