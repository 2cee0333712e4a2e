//! What went wrong when a command was parsed.

use vstd::prelude::*;
use vstd::string::StringExecFns;
use crate::util::text::{decimal, push_decimal};

verus! {

/// The two ways in which a command fails to parse.
#[derive(Debug)]
pub enum ParseErrorKind {
    /// The command has another number of arguments than it takes.
    WrongNumArgs { expected_num: u8, actual_num: u8 },
    /// A token of the command is not understood.
    SyntaxError { bad_token: String },
}

impl ParseErrorKind {
    /// The text of the error.
    pub open spec fn display_text(&self) -> Seq<char> {
        match self {
            ParseErrorKind::WrongNumArgs { expected_num, actual_num } => "Expected "@ + decimal(
                *expected_num as nat,
            ) + " arguments, but received "@ + decimal(*actual_num as nat),
            ParseErrorKind::SyntaxError { bad_token } => "Syntax error on token "@ + bad_token@,
        }
    }

    /// The text of the error.
    pub fn to_string(&self) -> (text: String)
        ensures
            text@ == self.display_text(),
    {
        match self {
            ParseErrorKind::WrongNumArgs { expected_num, actual_num } => {
                let mut text: String = String::from_str("Expected ");
                push_decimal(&mut text, *expected_num as u128);
                text.append(" arguments, but received ");
                push_decimal(&mut text, *actual_num as u128);
                text
            },
            ParseErrorKind::SyntaxError { bad_token } => {
                let mut text: String = String::from_str("Syntax error on token ");
                text.append(bad_token.as_str());
                text
            },
        }
    }
}

/// The tokens, each followed by a comma and a space.
pub open spec fn tokens_text(tokens: Seq<String>) -> Seq<char>
    decreases tokens.len(),
{
    if tokens.len() == 0 {
        Seq::empty()
    } else {
        tokens_text(tokens.drop_last()) + tokens.last()@ + ", "@
    }
}

/// A command that failed to parse: all of its tokens, and what went wrong.
#[derive(Debug)]
pub struct ParseError {
    pub all_tokens: Vec<String>,
    pub error_kind: ParseErrorKind,
}

impl ParseError {
    /// The text of the error: what went wrong, then all tokens.
    pub open spec fn display_text(&self) -> Seq<char> {
        "Parse Error: "@ + self.error_kind.display_text() + " (all tokens: ["@ + tokens_text(
            self.all_tokens@,
        ) + "]"@
    }

    pub fn new(all_tokens: &[&str], error_kind: ParseErrorKind) -> (error: Self)
        ensures
            error.error_kind == error_kind,
            error.all_tokens@.len() == all_tokens@.len(),
            forall|i: int|
                0 <= i < all_tokens@.len() ==> (#[trigger] error.all_tokens@[i])@ == all_tokens@[i]@,
    {
        let mut tokens: Vec<String> = Vec::with_capacity(all_tokens.len());
        let mut i: usize = 0;
        while i < all_tokens.len()
            invariant
                i <= all_tokens@.len(),
                tokens@.len() == i,
                forall|j: int| 0 <= j < i ==> (#[trigger] tokens@[j])@ == all_tokens@[j]@,
            decreases all_tokens@.len() - i,
        {
            tokens.push(String::from_str(all_tokens[i]));
            i += 1;
        }
        Self { all_tokens: tokens, error_kind }
    }

    pub fn from_syntax_error(all_tokens: &[&str], bad_token: &str) -> (error: Self)
        ensures
            error.error_kind matches ParseErrorKind::SyntaxError { bad_token: token } && token@
                == bad_token@,
            error.all_tokens@.len() == all_tokens@.len(),
            forall|i: int|
                0 <= i < all_tokens@.len() ==> (#[trigger] error.all_tokens@[i])@ == all_tokens@[i]@,
    {
        Self::new(all_tokens, ParseErrorKind::SyntaxError { bad_token: String::from_str(bad_token) })
    }

    pub fn from_wrong_num_args(all_tokens: &[&str], expected_num: u8, actual_num: u8) -> (error:
        Self)
        ensures
            error.error_kind == (ParseErrorKind::WrongNumArgs { expected_num, actual_num }),
            error.all_tokens@.len() == all_tokens@.len(),
            forall|i: int|
                0 <= i < all_tokens@.len() ==> (#[trigger] error.all_tokens@[i])@ == all_tokens@[i]@,
    {
        Self::new(all_tokens, ParseErrorKind::WrongNumArgs { expected_num, actual_num })
    }

    /// The text of the error.
    pub fn to_string(&self) -> (text: String)
        ensures
            text@ == self.display_text(),
    {
        let mut text: String = String::from_str("Parse Error: ");
        let kind: String = self.error_kind.to_string();
        text.append(kind.as_str());
        text.append(" (all tokens: [");
        let ghost head = text@;
        let mut i: usize = 0;
        while i < self.all_tokens.len()
            invariant
                i <= self.all_tokens@.len(),
                text@ == head + tokens_text(self.all_tokens@.take(i as int)),
            decreases self.all_tokens@.len() - i,
        {
            proof {
                let upto = self.all_tokens@.take(i + 1);
                assert(upto.drop_last() =~= self.all_tokens@.take(i as int));
                assert(upto.last() == self.all_tokens@[i as int]);
            }
            text.append(self.all_tokens[i].as_str());
            text.append(", ");
            i += 1;
            assert(text@ =~= head + tokens_text(self.all_tokens@.take(i as int)));
        }
        assert(self.all_tokens@.take(i as int) =~= self.all_tokens@);
        text.append("]");
        text
    }
}

} // verus!
