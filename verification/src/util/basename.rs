//! `basename`: the last part of a path.

use vstd::prelude::*;
use vstd::string::StringExecFns;
use crate::resolver::texts;
use crate::status::ExitStatus;
use crate::text::{contains_char, option_text};
use crate::util::{arg_texts, lemma_report_each_stops, report_each, Report, ReportView};

verus! {

/// The final component of a path, as `std::path::Path::file_name` finds it
/// on Unix: `None` where the path ends in the root or in `..`.
pub uninterp spec fn path_file_name(path: Seq<char>) -> Option<Seq<char>>;

/// Calls `std::path::Path::file_name` on the path and hands back the
/// component as a string. The contract gives that result its name and
/// claims nothing else of it.
#[verifier::external_body]
fn file_name(path: &str) -> (name: Option<String>)
    ensures
        match name {
            Some(name) => path_file_name(path@) == Some(name@),
            None => path_file_name(path@) is None,
        },
{
    match std::path::Path::new(path).file_name() {
        Some(name) => Some(name.to_string_lossy().into_owned()),
        None => None,
    }
}

/// The message for a path without a final component.
pub open spec fn no_basename(path: Seq<char>) -> Seq<char> {
    path + " has no basename\n"@
}

/// The base name of a path whose final component is `file_name`: a path
/// without a slash is its own base name; any other path has its final
/// component as base name, or none.
pub open spec fn basename_with(path: Seq<char>, file_name: Option<Seq<char>>) -> Result<
    Seq<char>,
    Seq<char>,
> {
    if !path.contains('/') {
        Ok(path)
    } else {
        match file_name {
            Some(name) => Ok(name),
            None => Err(no_basename(path)),
        }
    }
}

/// The base name of a path.
pub open spec fn basename_of(path: Seq<char>) -> Result<Seq<char>, Seq<char>> {
    basename_with(path, path_file_name(path))
}

/// Picks the base name of a path, given its final component.
pub fn basename_from(path: &str, file_name: Option<String>) -> (r: Result<String, String>)
    ensures
        match r {
            Ok(name) => basename_with(path@, option_text(file_name)) == Ok::<
                Seq<char>,
                Seq<char>,
            >(name@),
            Err(message) => basename_with(path@, option_text(file_name))
                == Err::<Seq<char>, Seq<char>>(message@),
        },
{
    if !contains_char(path, '/') {
        Ok(String::from_str(path))
    } else {
        match file_name {
            Some(name) => Ok(name),
            None => Err(String::from_str(path).concat(" has no basename\n")),
        }
    }
}

/// The base name of one path.
pub fn basename_one(path: &str) -> (r: Result<String, String>)
    ensures
        match r {
            Ok(name) => basename_of(path@) == Ok::<Seq<char>, Seq<char>>(name@),
            Err(message) => basename_of(path@) == Err::<Seq<char>, Seq<char>>(message@),
        },
{
    basename_from(path, file_name(path))
}

/// `basename path...`: one line with the base name for each path, up to
/// the first path that has none.
pub fn basename(args: &[&str]) -> (report: Report)
    ensures
        report@ == report_each(arg_texts(args@), |path: Seq<char>| basename_of(path)),
{
    let ghost line = |path: Seq<char>| basename_of(path);
    let ghost all = arg_texts(args@);
    let mut out: Vec<String> = Vec::new();
    let mut i: usize = 0;
    assert(all.take(0) =~= Seq::empty());
    assert(texts(out@) =~= Seq::empty());
    while i < args.len()
        invariant
            i <= args.len(),
            all == arg_texts(args@),
            line == (|path: Seq<char>| basename_of(path)),
            report_each(all.take(i as int), line) == (ReportView {
                out: texts(out@),
                err: None,
                status: ExitStatus { raw: 0 },
            }),
        decreases args.len() - i,
    {
        assert(all.take(i + 1).drop_last() =~= all.take(i as int));
        assert(all.take(i + 1).last() == args@[i as int]@);
        let ghost before = texts(out@);
        match basename_one(args[i]) {
            Ok(name) => {
                out.push(name);
                assert(texts(out@) =~= before.push(name@));
            },
            Err(message) => {
                proof {
                    lemma_report_each_stops(all, line, i + 1);
                }
                return Report { out, err: Some(message), status: ExitStatus::from_raw(1) };
            },
        }
        i += 1;
    }
    assert(all.take(i as int) =~= all);
    Report { out, err: None, status: ExitStatus::from_raw(0) }
}

} // verus!
