//! The command tree that the engine walks.
//!
//! Every node kind is a small closed sum type. The shapes that the engine
//! recognises without carrying them out (parameters, substitutions, loops,
//! conditionals) keep their tag and drop their contents.

use vstd::prelude::*;

verus! {

/// The smallest unit of a word.
#[derive(Debug)]
pub enum SimpleWord {
    /// Plain text.
    Literal(String),
    /// Text that stood behind a backslash.
    Escaped(String),
    /// A parameter such as `$HOME`.
    Param,
    /// A substitution such as `$(date)` or `${x:-y}`.
    Subst,
    /// `*`
    Star,
    /// `?`
    Question,
    /// `[`
    SquareOpen,
    /// `]`
    SquareClose,
    /// `~`
    Tilde,
    /// `:`
    Colon,
}

/// A word with its quoting.
#[derive(Debug)]
pub enum Word {
    Simple(SimpleWord),
    DoubleQuoted(Vec<SimpleWord>),
    SingleQuoted(String),
}

/// One word, or several written without a gap between them.
#[derive(Debug)]
pub enum ComplexWord {
    Concat(Vec<Word>),
    Single(Word),
}

/// A word as it stands in a command.
#[derive(Debug)]
pub struct TopLevelWord(pub ComplexWord);

/// A redirection: its direction, the descriptor it names (if it names one)
/// and its target.
#[derive(Debug)]
pub enum Redirect {
    /// `[n]< path`
    Read(Option<u16>, TopLevelWord),
    /// `[n]> path`
    Write(Option<u16>, TopLevelWord),
    /// `[n]<> path`
    ReadWrite(Option<u16>, TopLevelWord),
    /// `[n]>> path`
    Append(Option<u16>, TopLevelWord),
    /// `[n]>| path`
    Clobber(Option<u16>, TopLevelWord),
    /// `[n]<< marker`
    Heredoc(Option<u16>, TopLevelWord),
    /// `[n]<& m`
    DupRead(Option<u16>, TopLevelWord),
    /// `[n]>& m`
    DupWrite(Option<u16>, TopLevelWord),
}

/// What may stand in front of the command name.
#[derive(Debug)]
pub enum RedirectOrEnvVar {
    Redirect(Redirect),
    /// `NAME=value`
    EnvVar(String, Option<TopLevelWord>),
}

/// What may stand from the command name on.
#[derive(Debug)]
pub enum RedirectOrCmdWord {
    Redirect(Redirect),
    CmdWord(TopLevelWord),
}

/// A command name with its arguments and redirections.
#[derive(Debug)]
pub struct SimpleCommand {
    pub redirects_or_env_vars: Vec<RedirectOrEnvVar>,
    pub redirects_or_cmd_words: Vec<RedirectOrCmdWord>,
}

/// The kinds of compound command.
#[derive(Debug)]
pub enum CompoundCommandKind {
    /// `{ ...; }`
    Brace,
    /// `( ... )`, with the commands between the parentheses.
    Subshell(Vec<TopLevelCommand>),
    While,
    Until,
    If,
    For,
    Case,
}

/// A compound command with the redirections written behind it.
#[derive(Debug)]
pub struct CompoundCommand {
    pub kind: CompoundCommandKind,
    pub io: Vec<Redirect>,
}

/// One stage of a pipeline.
#[derive(Debug)]
pub enum PipeableCommand {
    Simple(SimpleCommand),
    Compound(CompoundCommand),
    /// A function definition, with the function's name.
    FunctionDef(String),
}

/// One operand of an AND-OR list.
#[derive(Debug)]
pub enum ListableCommand {
    /// A pipeline: whether `!` stands in front of it, and its stages.
    Pipe(bool, Vec<PipeableCommand>),
    Single(PipeableCommand),
}

/// An operand of an AND-OR list with the operator in front of it.
#[derive(Debug)]
pub enum AndOr {
    /// `&& command`
    And(ListableCommand),
    /// `|| command`
    Or(ListableCommand),
}

/// Commands joined by `&&` and `||`.
#[derive(Debug)]
pub struct AndOrList {
    pub first: ListableCommand,
    pub rest: Vec<AndOr>,
}

/// A complete command.
#[derive(Debug)]
pub enum Command {
    /// A list followed by `&`.
    Job(AndOrList),
    /// A list followed by `;` or a line end.
    List(AndOrList),
}

/// A command at the top level of the input, or of a subshell.
#[derive(Debug)]
pub struct TopLevelCommand(pub Command);

impl AndOr {
    /// The command behind the operator.
    pub open spec fn operand(self) -> ListableCommand {
        match self {
            AndOr::And(command) => command,
            AndOr::Or(command) => command,
        }
    }
}

impl AndOrList {
    /// How many commands the list joins.
    pub open spec fn items(self) -> nat {
        self.rest@.len() + 1
    }

    /// The command at a position: the first at 0, those behind operators
    /// from 1 on.
    pub open spec fn item(self, i: int) -> ListableCommand {
        if i == 0 {
            self.first
        } else {
            self.rest@[i - 1].operand()
        }
    }
}

impl TopLevelCommand {
    /// The AND-OR list of the command, whether it runs as a job or not.
    pub open spec fn list(self) -> AndOrList {
        match self.0 {
            Command::Job(list) => list,
            Command::List(list) => list,
        }
    }
}

} // verus!
