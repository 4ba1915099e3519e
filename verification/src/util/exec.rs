//! `exec`: the program that takes the place of the shell.

use vstd::prelude::*;
use vstd::string::StringExecFns;
use crate::resolver::texts;
use crate::status::ExitStatus;
use crate::util::arg_texts;

verus! {

/// What `exec` asks for.
#[derive(Debug)]
pub enum Replace {
    /// Put this program, with these arguments, in the place of the shell.
    /// Where that fails, the shell ends with the code 1.
    With(String, Vec<String>),
    /// Go on; the command has ended with this status.
    Stay(ExitStatus),
}

pub enum ReplaceView {
    With(Seq<char>, Seq<Seq<char>>),
    Stay(ExitStatus),
}

impl View for Replace {
    type V = ReplaceView;

    open spec fn view(&self) -> ReplaceView {
        match self {
            Replace::With(program, args) => ReplaceView::With(program@, texts(args@)),
            Replace::Stay(status) => ReplaceView::Stay(*status),
        }
    }
}

/// What `exec` asks for: without arguments it ends with the raw status 1;
/// otherwise the first argument is the program and the others are its
/// arguments.
pub open spec fn replace_of(args: Seq<Seq<char>>) -> ReplaceView {
    if args.len() == 0 {
        ReplaceView::Stay(ExitStatus { raw: 1 })
    } else {
        ReplaceView::With(args[0], args.skip(1))
    }
}

/// `exec program [argument...]`.
pub fn exec(args: &[&str]) -> (replace: Replace)
    ensures
        replace@ == replace_of(arg_texts(args@)),
{
    if args.len() == 0 {
        return Replace::Stay(ExitStatus::from_raw(1));
    }
    let mut rest: Vec<String> = Vec::new();
    let mut i: usize = 1;
    assert(texts(rest@) =~= arg_texts(args@).skip(1).take(0));
    while i < args.len()
        invariant
            1 <= i <= args.len(),
            texts(rest@) == arg_texts(args@).skip(1).take(i - 1),
        decreases args.len() - i,
    {
        let ghost before = texts(rest@);
        let arg = String::from_str(args[i]);
        rest.push(arg);
        assert(texts(rest@) =~= before.push(arg@));
        assert(arg_texts(args@).skip(1).take(i as int) =~= arg_texts(args@).skip(1).take(i - 1).push(
            args@[i as int]@,
        ));
        i += 1;
    }
    assert(arg_texts(args@).skip(1).take(i - 1) =~= arg_texts(args@).skip(1));
    Replace::With(String::from_str(args[0]), rest)
}

} // verus!
