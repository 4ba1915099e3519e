//! Turning words and redirections of the command tree into plain strings
//! and `(descriptor, path)` pairs.

use vstd::prelude::*;
use crate::ast::{ComplexWord, Redirect, RedirectOrCmdWord, SimpleCommand, SimpleWord, TopLevelWord, Word};
use crate::globals::{STDIN, STDOUT};
use crate::status::ExecuteError;

verus! {

/// The text of a word that stands for itself: a literal, an escaped literal
/// or a single-quoted string. Every other word has none.
pub open spec fn word_text(word: TopLevelWord) -> Option<Seq<char>> {
    match word.0 {
        ComplexWord::Single(Word::Simple(SimpleWord::Literal(text))) => Some(text@),
        ComplexWord::Single(Word::Simple(SimpleWord::Escaped(text))) => Some(text@),
        ComplexWord::Single(Word::SingleQuoted(text)) => Some(text@),
        _ => None,
    }
}

/// The name of the feature that a word without a text asks for.
pub open spec fn word_feature(word: TopLevelWord) -> &'static str {
    match word.0 {
        ComplexWord::Concat(_) => "Concat word",
        ComplexWord::Single(Word::DoubleQuoted(_)) => "DoubleQuoted",
        ComplexWord::Single(Word::SingleQuoted(_)) => "",
        ComplexWord::Single(Word::Simple(simple)) => match simple {
            SimpleWord::Literal(_) => "",
            SimpleWord::Escaped(_) => "",
            SimpleWord::Param => "Params",
            SimpleWord::Subst => "substring",
            SimpleWord::Star => "*",
            SimpleWord::Question => "?",
            SimpleWord::SquareOpen => "[",
            SimpleWord::SquareClose => "]",
            SimpleWord::Tilde => "~",
            SimpleWord::Colon => ":",
        },
    }
}

/// What resolving a word gives: its text, or `Unsupported` with the name of
/// the feature it asks for.
pub open spec fn resolve_word(word: TopLevelWord) -> Result<Seq<char>, ExecuteError> {
    match word_text(word) {
        Some(text) => Ok(text),
        None => Err(ExecuteError::Unsupported(word_feature(word))),
    }
}

/// Resolves one word to a string.
pub fn parse_toplevel_word(word: &TopLevelWord) -> (r: Result<String, ExecuteError>)
    ensures
        match r {
            Ok(text) => resolve_word(*word) == Ok::<Seq<char>, ExecuteError>(text@),
            Err(e) => resolve_word(*word) == Err::<Seq<char>, ExecuteError>(e),
        },
{
    match &word.0 {
        ComplexWord::Single(word) => match word {
            Word::Simple(word) => match word {
                SimpleWord::Literal(text) => Ok(text.clone()),
                SimpleWord::Escaped(text) => Ok(text.clone()),
                SimpleWord::Param => Err(ExecuteError::Unsupported("Params")),
                SimpleWord::Subst => Err(ExecuteError::Unsupported("substring")),
                SimpleWord::Star => Err(ExecuteError::Unsupported("*")),
                SimpleWord::Question => Err(ExecuteError::Unsupported("?")),
                SimpleWord::SquareOpen => Err(ExecuteError::Unsupported("[")),
                SimpleWord::SquareClose => Err(ExecuteError::Unsupported("]")),
                SimpleWord::Tilde => Err(ExecuteError::Unsupported("~")),
                SimpleWord::Colon => Err(ExecuteError::Unsupported(":")),
            },
            Word::SingleQuoted(text) => Ok(text.clone()),
            Word::DoubleQuoted(_) => Err(ExecuteError::Unsupported("DoubleQuoted")),
        },
        ComplexWord::Concat(_) => Err(ExecuteError::Unsupported("Concat word")),
    }
}

/// Which way a redirection moves data, seen from the command.
#[derive(Clone, Copy, Debug, PartialEq, Eq, Structural)]
pub enum Direction {
    Input,
    Output,
}

impl Direction {
    /// The descriptor that a redirection binds when it names none: standard
    /// input for input, standard output for output.
    pub open spec fn default_fd(self) -> u16 {
        match self {
            Direction::Input => STDIN,
            Direction::Output => STDOUT,
        }
    }
}

impl Redirect {
    /// The direction of the redirections that are carried out; `None` for
    /// those that are only recognised.
    pub open spec fn direction(self) -> Option<Direction> {
        match self {
            Redirect::Read(_, _) => Some(Direction::Input),
            Redirect::ReadWrite(_, _) => Some(Direction::Input),
            Redirect::Write(_, _) => Some(Direction::Output),
            Redirect::Append(_, _) => Some(Direction::Output),
            _ => None,
        }
    }

    /// The name under which a redirection that is not carried out is
    /// reported.
    pub open spec fn feature(self) -> &'static str {
        match self {
            Redirect::Clobber(_, _) => "Clobber",
            Redirect::Heredoc(_, _) => "Heredoc",
            Redirect::DupRead(_, _) => "DupRead",
            Redirect::DupWrite(_, _) => "DupWrite",
            _ => "",
        }
    }

    /// The descriptor that the redirection names, if it names one.
    pub open spec fn source(self) -> Option<u16> {
        match self {
            Redirect::Read(fd, _) => fd,
            Redirect::Write(fd, _) => fd,
            Redirect::ReadWrite(fd, _) => fd,
            Redirect::Append(fd, _) => fd,
            Redirect::Clobber(fd, _) => fd,
            Redirect::Heredoc(fd, _) => fd,
            Redirect::DupRead(fd, _) => fd,
            Redirect::DupWrite(fd, _) => fd,
        }
    }

    /// The word behind the operator.
    pub open spec fn target(self) -> TopLevelWord {
        match self {
            Redirect::Read(_, word) => word,
            Redirect::Write(_, word) => word,
            Redirect::ReadWrite(_, word) => word,
            Redirect::Append(_, word) => word,
            Redirect::Clobber(_, word) => word,
            Redirect::Heredoc(_, word) => word,
            Redirect::DupRead(_, word) => word,
            Redirect::DupWrite(_, word) => word,
        }
    }
}

/// The resolved redirections of one command, in the order in which they
/// were written: those that feed the command and those that take its output.
#[derive(Debug)]
pub struct Redirects {
    pub read: Vec<(u16, String)>,
    pub write: Vec<(u16, String)>,
}

/// The redirections of a command as sequences of `(descriptor, path)`.
pub struct RedirectsView {
    pub read: Seq<(u16, Seq<char>)>,
    pub write: Seq<(u16, Seq<char>)>,
}

/// The pairs of a bucket with each path as a sequence of characters.
pub open spec fn bucket_view(bucket: Seq<(u16, String)>) -> Seq<(u16, Seq<char>)> {
    bucket.map_values(|pair: (u16, String)| (pair.0, pair.1@))
}

impl View for Redirects {
    type V = RedirectsView;

    open spec fn view(&self) -> RedirectsView {
        RedirectsView { read: bucket_view(self.read@), write: bucket_view(self.write@) }
    }
}

impl RedirectsView {
    /// No redirection at all.
    pub open spec fn empty() -> RedirectsView {
        RedirectsView { read: Seq::empty(), write: Seq::empty() }
    }

    /// These redirections with one more at the end of its bucket.
    pub open spec fn bind(self, direction: Direction, fd: u16, path: Seq<char>) -> RedirectsView {
        match direction {
            Direction::Input => RedirectsView { read: self.read.push((fd, path)), write: self.write },
            Direction::Output => RedirectsView { read: self.read, write: self.write.push((fd, path)) },
        }
    }

    /// These redirections after one more node of the tree: a redirection
    /// that is only recognised is `Unsupported` under its name, one whose
    /// target does not resolve fails as that word does, and any other goes
    /// to the bucket of its direction, under the descriptor it names or else
    /// the default of that direction.
    pub open spec fn with(self, redirect: Redirect) -> Result<RedirectsView, ExecuteError> {
        match redirect.direction() {
            None => Err(ExecuteError::Unsupported(redirect.feature())),
            Some(direction) => match resolve_word(redirect.target()) {
                Err(e) => Err(e),
                Ok(path) => Ok(
                    self.bind(
                        direction,
                        match redirect.source() {
                            Some(fd) => fd,
                            None => direction.default_fd(),
                        },
                        path,
                    ),
                ),
            },
        }
    }
}

impl Redirects {
    pub fn new() -> (redirects: Redirects)
        ensures
            redirects@ == RedirectsView::empty(),
    {
        let redirects = Redirects { read: Vec::new(), write: Vec::new() };
        assert(redirects@.read =~= Seq::empty());
        assert(redirects@.write =~= Seq::empty());
        redirects
    }

    /// Puts one resolved redirection at the end of its bucket.
    fn bind(&mut self, direction: Direction, from: &Option<u16>, to: &TopLevelWord) -> (r: Result<
        (),
        ExecuteError,
    >)
        ensures
            match r {
                Ok(_) => resolve_word(*to) matches Ok(path) && final(self)@ == old(self)@.bind(
                    direction,
                    match *from {
                        Some(fd) => fd,
                        None => direction.default_fd(),
                    },
                    path,
                ),
                Err(e) => resolve_word(*to) == Err::<Seq<char>, ExecuteError>(e) && *final(self)
                    == *old(self),
            },
    {
        let path = parse_toplevel_word(to)?;
        match direction {
            Direction::Input => {
                let fd: u16 = match from {
                    Some(fd) => *fd,
                    None => STDIN,
                };
                self.read.push((fd, path));
                assert(final(self)@.read =~= old(self)@.read.push((fd, path@)));
            },
            Direction::Output => {
                let fd: u16 = match from {
                    Some(fd) => *fd,
                    None => STDOUT,
                };
                self.write.push((fd, path));
                assert(final(self)@.write =~= old(self)@.write.push((fd, path@)));
            },
        }
        Ok(())
    }

    /// Takes in one redirection of the tree. On an error nothing changes.
    pub fn parse(&mut self, redirect: &Redirect) -> (r: Result<(), ExecuteError>)
        ensures
            match r {
                Ok(_) => old(self)@.with(*redirect) == Ok::<RedirectsView, ExecuteError>(
                    final(self)@,
                ),
                Err(e) => old(self)@.with(*redirect) == Err::<RedirectsView, ExecuteError>(e)
                    && *final(self) == *old(self),
            },
    {
        match redirect {
            Redirect::Read(from, to) => self.bind(Direction::Input, from, to),
            Redirect::Write(from, to) => self.bind(Direction::Output, from, to),
            Redirect::ReadWrite(from, to) => self.bind(Direction::Input, from, to),
            Redirect::Append(from, to) => self.bind(Direction::Output, from, to),
            Redirect::Clobber(_, _) => Err(ExecuteError::Unsupported("Clobber")),
            Redirect::Heredoc(_, _) => Err(ExecuteError::Unsupported("Heredoc")),
            Redirect::DupRead(_, _) => Err(ExecuteError::Unsupported("DupRead")),
            Redirect::DupWrite(_, _) => Err(ExecuteError::Unsupported("DupWrite")),
        }
    }
}

/// The characters of each string of a sequence.
pub open spec fn texts(strings: Seq<String>) -> Seq<Seq<char>> {
    strings.map_values(|s: String| s@)
}

/// What the words and redirections of a command have resolved to so far.
pub struct Resolved {
    /// The command name and the arguments, in order.
    pub words: Seq<Seq<char>>,
    pub redirects: RedirectsView,
}

/// Resolves the words and redirections of a command from left to right.
/// The first one that fails decides the result: nothing is kept of a
/// command that does not resolve as a whole.
pub open spec fn resolve_items(items: Seq<RedirectOrCmdWord>) -> Result<Resolved, ExecuteError>
    decreases items.len(),
{
    if items.len() == 0 {
        Ok(Resolved { words: Seq::empty(), redirects: RedirectsView::empty() })
    } else {
        match resolve_items(items.drop_last()) {
            Err(e) => Err(e),
            Ok(before) => match items.last() {
                RedirectOrCmdWord::CmdWord(word) => match resolve_word(word) {
                    Err(e) => Err(e),
                    Ok(text) => Ok(
                        Resolved { words: before.words.push(text), redirects: before.redirects },
                    ),
                },
                RedirectOrCmdWord::Redirect(redirect) => match before.redirects.with(redirect) {
                    Err(e) => Err(e),
                    Ok(redirects) => Ok(Resolved { words: before.words, redirects }),
                },
            },
        }
    }
}

/// An error among the first `k` items is the error of the whole.
pub proof fn lemma_resolve_items_fails_early(items: Seq<RedirectOrCmdWord>, k: int)
    requires
        0 <= k <= items.len(),
        resolve_items(items.take(k)) is Err,
    ensures
        resolve_items(items) == resolve_items(items.take(k)),
    decreases items.len() - k,
{
    if k == items.len() {
        assert(items.take(k) =~= items);
    } else {
        assert(items.take(k + 1).drop_last() =~= items.take(k));
        lemma_resolve_items_fails_early(items, k + 1);
    }
}

/// A command that is ready to run: its name, its arguments and its
/// redirections, all as plain strings.
#[derive(Debug)]
pub struct Executable {
    pub command: String,
    pub args: Vec<String>,
    pub redirects: Redirects,
}

pub struct ExecutableView {
    pub command: Seq<char>,
    pub args: Seq<Seq<char>>,
    pub redirects: RedirectsView,
}

impl View for Executable {
    type V = ExecutableView;

    open spec fn view(&self) -> ExecutableView {
        ExecutableView { command: self.command@, args: texts(self.args@), redirects: self.redirects@ }
    }
}

/// The feature name under which a command with anything in front of its
/// name is refused.
pub open spec fn prefix_feature() -> &'static str {
    "environment variables or redirects"
}

/// The message for a command that resolves to no word at all.
pub open spec fn empty_command_message() -> &'static str {
    "Empty command"
}

/// What a simple command resolves to. A command with an assignment or a
/// redirection in front of its name is `Unsupported`; then the words and
/// redirections resolve from left to right; a command without any word is a
/// `StaticError`. Otherwise the first word is the name and the others are
/// the arguments.
pub open spec fn resolve_command(command: SimpleCommand) -> Result<ExecutableView, ExecuteError> {
    if command.redirects_or_env_vars@.len() > 0 {
        Err(ExecuteError::Unsupported(prefix_feature()))
    } else {
        match resolve_items(command.redirects_or_cmd_words@) {
            Err(e) => Err(e),
            Ok(resolved) => if resolved.words.len() == 0 {
                Err(ExecuteError::StaticError(empty_command_message()))
            } else {
                Ok(
                    ExecutableView {
                        command: resolved.words[0],
                        args: resolved.words.skip(1),
                        redirects: resolved.redirects,
                    },
                )
            },
        }
    }
}

impl Executable {
    /// Splits resolved words into the command name and its arguments.
    pub fn from(command: Vec<String>, redirects: Redirects) -> (executable: Executable)
        requires
            command@.len() > 0,
        ensures
            executable@ == (ExecutableView {
                command: command@[0]@,
                args: texts(command@).skip(1),
                redirects: redirects@,
            }),
    {
        let mut args = command;
        let name = args.remove(0);
        assert(texts(args@) =~= texts(command@).skip(1));
        Executable { command: name, args, redirects }
    }
}

} // verus!
