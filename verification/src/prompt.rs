//! The prompt strings, and how the lines of one command are gathered.

use vstd::prelude::*;
use vstd::string::{StrSliceExecFns, StringExecFns};
use crate::ast::TopLevelCommand;

verus! {

/// What asking the user for a command ends in.
#[derive(Debug)]
pub enum PromptResult {
    /// The commands that were read.
    Commands(Vec<TopLevelCommand>),
    /// The input has ended.
    Eof,
    /// The user interrupted the prompt.
    Interrupt,
    /// The input is no command, for the reason given.
    Error(String),
}

/// The strings that the shell shows when it waits for input.
#[derive(Debug, Clone, PartialEq)]
pub struct Prompt {
    pub ps1: String,
    pub ps2: String,
    pub ps3: String,
    pub ps4: String,
    pub ps_quote: String,
    pub ps_dquote: String,
    pub ps_pipe: String,
    pub ps_and: String,
    pub ps_or: String,
}

pub struct PromptView {
    pub ps1: Seq<char>,
    pub ps2: Seq<char>,
    pub ps3: Seq<char>,
    pub ps4: Seq<char>,
    pub ps_quote: Seq<char>,
    pub ps_dquote: Seq<char>,
    pub ps_pipe: Seq<char>,
    pub ps_and: Seq<char>,
    pub ps_or: Seq<char>,
}

impl View for Prompt {
    type V = PromptView;

    open spec fn view(&self) -> PromptView {
        PromptView {
            ps1: self.ps1@,
            ps2: self.ps2@,
            ps3: self.ps3@,
            ps4: self.ps4@,
            ps_quote: self.ps_quote@,
            ps_dquote: self.ps_dquote@,
            ps_pipe: self.ps_pipe@,
            ps_and: self.ps_and@,
            ps_or: self.ps_or@,
        }
    }
}

impl PromptView {
    /// The prompt strings of a shell that nobody has configured.
    pub open spec fn initial() -> PromptView {
        PromptView {
            ps1: "$ "@,
            ps2: "$ "@,
            ps3: "$ "@,
            ps4: "$ "@,
            ps_quote: "' $ "@,
            ps_dquote: "\" $ "@,
            ps_pipe: "| $ "@,
            ps_and: "&& $ "@,
            ps_or: "|| $ "@,
        }
    }
}

/// The text gathered for a command after one more line of input, and
/// whether the command goes on in the next line: it does where the text
/// has at least two characters and ends in a backslash, and the backslash
/// is then dropped.
pub open spec fn gathered(text: Seq<char>, input: Seq<char>) -> (Seq<char>, bool) {
    let joined = text + input;
    if joined.len() >= 2 && joined.last() == '\\' {
        (joined.drop_last(), true)
    } else {
        (joined, false)
    }
}

impl Prompt {
    pub fn new() -> (prompt: Prompt)
        ensures
            prompt@ == PromptView::initial(),
    {
        Prompt {
            ps1: String::from_str("$ "),
            ps2: String::from_str("$ "),
            ps3: String::from_str("$ "),
            ps4: String::from_str("$ "),
            ps_quote: String::from_str("' $ "),
            ps_dquote: String::from_str("\" $ "),
            ps_pipe: String::from_str("| $ "),
            ps_and: String::from_str("&& $ "),
            ps_or: String::from_str("|| $ "),
        }
    }
}

/// Adds one line of input to the text of a command. The result tells
/// whether the command goes on in the next line; if not, the text is ready
/// to be parsed.
pub fn gather(text: &mut String, input: &str) -> (more: bool)
    ensures
        (final(text)@, more) == gathered(old(text)@, input@),
{
    text.append(input);
    let n = text.as_str().unicode_len();
    if n >= 2 && text.as_str().get_char(n - 1) == '\\' {
        let kept = String::from_str(text.as_str().substring_char(0, n - 1));
        assert(kept@ =~= (old(text)@ + input@).drop_last());
        *text = kept;
        true
    } else {
        false
    }
}

impl Default for Prompt {
    fn default() -> (prompt: Prompt)
        ensures
            prompt@ == PromptView::initial(),
    {
        Prompt::new()
    }
}

} // verus!
