//! Splitting a line into tokens at white space, with double quotes and
//! backslashes.

use vstd::prelude::*;
use vstd::string::StrSliceExecFns;

verus! {

/// One token of a line.
#[derive(Debug, Clone)]
pub enum Token {
    /// Text that stood between double quotes.
    DoubleQuotes(String),
    /// Any other text.
    Simple(String),
}

pub enum TokenView {
    DoubleQuotes(Seq<char>),
    Simple(Seq<char>),
}

impl View for Token {
    type V = TokenView;

    open spec fn view(&self) -> TokenView {
        match self {
            Token::DoubleQuotes(text) => TokenView::DoubleQuotes(text@),
            Token::Simple(text) => TokenView::Simple(text@),
        }
    }
}

/// The views of the tokens of a sequence.
pub open spec fn token_views(tokens: Seq<Token>) -> Seq<TokenView> {
    tokens.map_values(|token: Token| token@)
}

/// Whether a character has the Unicode property `White_Space`, which is
/// what `char::is_whitespace` tells.
pub uninterp spec fn white_space(c: char) -> bool;

/// `char::is_whitespace` tells whether the character has the property
/// `White_Space`; the contract gives that answer its name.
pub assume_specification[ char::is_whitespace ](c: char) -> (b: bool)
    ensures
        b == white_space(c),
;

/// `String::push` appends the character to the end of the string.
pub assume_specification[ String::push ](s: &mut String, ch: char)
    ensures
        final(s)@ == old(s)@.push(ch),
;

/// Where the scanner stands after a part of the line.
pub struct Scan {
    /// The tokens that are complete.
    pub tokens: Seq<TokenView>,
    /// The text of the token that is being read.
    pub content: Seq<char>,
    /// Whether a double quote is open.
    pub in_double_quote: bool,
    /// Whether a single quote has been seen. Nothing closes it: a line with
    /// a single quote outside double quotes is refused at its end.
    pub in_single_quote: bool,
    /// Whether the character before was a backslash.
    pub escaped: bool,
}

impl Scan {
    /// The scanner in front of the line.
    pub open spec fn initial() -> Scan {
        Scan {
            tokens: Seq::empty(),
            content: Seq::empty(),
            in_double_quote: false,
            in_single_quote: false,
            escaped: false,
        }
    }

    /// The scanner one character later.
    ///
    /// White space outside quotes ends the token that is being read, be it
    /// empty. A double quote that is not escaped opens a quoted token, or
    /// ends the one that is open. A single quote that is not escaped is
    /// remembered; a second one ends the token that is being read. A
    /// backslash is dropped and marks the next character as escaped. Every
    /// other character goes to the token that is being read.
    pub open spec fn step(self, ch: char) -> Scan {
        let quoted = self.in_double_quote || self.in_single_quote;
        let next = if white_space(ch) && !quoted {
            Scan {
                tokens: self.tokens.push(TokenView::Simple(self.content)),
                content: Seq::empty(),
                ..self
            }
        } else if ch == '"' && self.in_double_quote && !self.in_single_quote && !self.escaped {
            Scan {
                tokens: self.tokens.push(TokenView::DoubleQuotes(self.content)),
                content: Seq::empty(),
                in_double_quote: false,
                ..self
            }
        } else if ch == '\'' && self.in_single_quote && !self.in_double_quote && !self.escaped {
            Scan {
                tokens: self.tokens.push(TokenView::Simple(self.content)),
                content: Seq::empty(),
                ..self
            }
        } else if ch == '"' && !quoted && !self.escaped {
            Scan { in_double_quote: true, ..self }
        } else if ch == '\'' && !quoted && !self.escaped {
            Scan { in_single_quote: true, ..self }
        } else if ch != '\\' {
            Scan { content: self.content.push(ch), ..self }
        } else {
            self
        };
        Scan { escaped: ch == '\\', ..next }
    }

    /// The scanner behind `line`.
    pub open spec fn after(line: Seq<char>) -> Scan
        decreases line.len(),
    {
        if line.len() == 0 {
            Scan::initial()
        } else {
            Scan::after(line.drop_last()).step(line.last())
        }
    }

    /// All tokens at the end of the line: the complete ones, and the one
    /// that was being read unless it is empty.
    pub open spec fn all_tokens(self) -> Seq<TokenView> {
        if self.content.len() > 0 {
            self.tokens.push(TokenView::Simple(self.content))
        } else {
            self.tokens
        }
    }
}

/// Whether a text ends in `|` or in `&&`, and so in an operator that still
/// waits for a command.
pub open spec fn ends_open(text: Seq<char>) -> bool {
    ||| text.len() >= 1 && text.last() == '|'
    ||| text.len() >= 2 && text[text.len() - 1] == '&' && text[text.len() - 2] == '&'
}

/// The tokens of a line, or `None` where the line is not complete: where a
/// quote is left open, or the last token is not quoted and ends in `|`,
/// `||` or `&&`.
pub open spec fn tokens_of(line: Seq<char>) -> Option<Seq<TokenView>> {
    let scan = Scan::after(line);
    let tokens = scan.all_tokens();
    if scan.in_double_quote || scan.in_single_quote {
        None
    } else if tokens.len() > 0 && (tokens.last() matches TokenView::Simple(inside) && ends_open(
        inside,
    )) {
        None
    } else {
        Some(tokens)
    }
}

/// Whether the text ends in an operator that still waits for a command.
fn waits_for_more(text: &str) -> (open: bool)
    ensures
        open == ends_open(text@),
{
    let n = text.unicode_len();
    if n >= 1 && text.get_char(n - 1) == '|' {
        true
    } else {
        n >= 2 && text.get_char(n - 1) == '&' && text.get_char(n - 2) == '&'
    }
}

/// Splits a line into tokens.
pub fn tokenize_line(line: &str) -> (r: Result<Vec<Token>, ()>)
    ensures
        match r {
            Ok(tokens) => tokens_of(line@) == Some(token_views(tokens@)),
            Err(_) => tokens_of(line@) is None,
        },
{
    let mut tokens: Vec<Token> = Vec::new();
    let mut in_double_quote = false;
    let mut in_single_quote = false;
    let mut escaped_character = false;
    let mut token_content = String::new();

    assert(line@.take(0) =~= Seq::empty());
    assert(token_views(tokens@) =~= Seq::empty());
    for ch in it: line.chars()
        invariant
            it.seq() == line@,
            Scan::after(line@.take(it.index())) == (Scan {
                tokens: token_views(tokens@),
                content: token_content@,
                in_double_quote,
                in_single_quote,
                escaped: escaped_character,
            }),
    {
        assert(line@.take(it.index() + 1).drop_last() =~= line@.take(it.index()));
        assert(line@.take(it.index() + 1).last() == ch);
        let ghost before = token_views(tokens@);
        if ch.is_whitespace() && !in_double_quote && !in_single_quote {
            let token = Token::Simple(token_content);
            tokens.push(token);
            assert(token_views(tokens@) =~= before.push(token@));
            token_content = String::new();
        } else if ch == '"' && in_double_quote && !in_single_quote && !escaped_character {
            let token = Token::DoubleQuotes(token_content);
            tokens.push(token);
            assert(token_views(tokens@) =~= before.push(token@));
            token_content = String::new();
            in_double_quote = false;
        } else if ch == '\'' && in_single_quote && !in_double_quote && !escaped_character {
            let token = Token::Simple(token_content);
            tokens.push(token);
            assert(token_views(tokens@) =~= before.push(token@));
            token_content = String::new();
            in_single_quote = true;
        } else if ch == '"' && !in_double_quote && !in_single_quote && !escaped_character {
            in_double_quote = true;
        } else if ch == '\'' && !in_single_quote && !in_double_quote && !escaped_character {
            in_single_quote = true;
        } else if ch != '\\' {
            token_content.push(ch);
        }
        escaped_character = ch == '\\';
    }
    assert(line@.take(line@.len() as int) =~= line@);

    if token_content.as_str().unicode_len() > 0 {
        let ghost before = token_views(tokens@);
        let token = Token::Simple(token_content);
        tokens.push(token);
        assert(token_views(tokens@) =~= before.push(token@));
    }
    if in_double_quote || in_single_quote {
        return Err(());
    }
    if tokens.len() > 0 {
        match &tokens[tokens.len() - 1] {
            Token::Simple(inside) => {
                if waits_for_more(inside.as_str()) {
                    return Err(());
                }
            },
            _ => {},
        }
    }
    Ok(tokens)
}

} // verus!
