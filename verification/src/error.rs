//! The error that compiling a pattern or resolving an input can end in.

use crate::text::{chars_of, found_at, occurs_at};
use vstd::prelude::*;

verus! {

/// What went wrong, in two classes.
#[derive(Clone, Copy, Debug, PartialEq, Eq, Structural)]
pub enum ErrorKind {
    /// The pattern text is malformed: a group is not closed, an escape or a
    /// name is cut short, a name occurs twice, a modifier stands where none
    /// may, or a regular expression does not compile.
    Syntax,
    /// The input cannot be resolved into URL components: a base URL is
    /// missing, unusable or given twice, or a component cannot be brought
    /// into canonical form.
    Type,
}

/// An error with its class and its message.
#[derive(Clone, Debug, PartialEq, Eq)]
pub struct PatternError {
    pub kind: ErrorKind,
    pub message: String,
}

/// The mathematical value of a [`PatternError`].
pub struct ErrorView {
    pub kind: ErrorKind,
    pub message: Seq<char>,
}

impl View for PatternError {
    type V = ErrorView;

    open spec fn view(&self) -> ErrorView {
        ErrorView { kind: self.kind, message: self.message@ }
    }
}

/// A message speaks of malformed pattern text when the engine's tokenizer,
/// its pattern parser or its regular-expression compiler raised it. The
/// engine begins the messages of the first two with their name and gives
/// the third one fixed message; no other message of the engine, and none
/// of its URL parser, begins like these.
pub open spec fn is_syntax_message(message: Seq<char>) -> bool {
    ||| "tokenizer error: "@.is_prefix_of(message)
    ||| "parser error: "@.is_prefix_of(message)
    ||| message == "regexp error"@
}

/// The class that a message falls in.
pub open spec fn kind_of_message(message: Seq<char>) -> ErrorKind {
    if is_syntax_message(message) {
        ErrorKind::Syntax
    } else {
        ErrorKind::Type
    }
}

/// The error that carries `message`.
pub open spec fn error_of(message: Seq<char>) -> ErrorView {
    ErrorView { kind: kind_of_message(message), message }
}

impl PatternError {
    /// Classifies an engine message and wraps it.
    pub fn from_message(message: String) -> (e: PatternError)
        ensures
            e@ == error_of(message@),
    {
        let text = chars_of(message.as_str());
        let tokenizer = chars_of("tokenizer error: ");
        let parser = chars_of("parser error: ");
        let regexp = chars_of("regexp error");
        let syntax = found_at(&text, 0, &tokenizer) || found_at(&text, 0, &parser) || (text.len()
            == regexp.len() && found_at(&text, 0, &regexp));
        proof {
            assert(occurs_at(text@, 0, tokenizer@) == tokenizer@.is_prefix_of(text@));
            assert(occurs_at(text@, 0, parser@) == parser@.is_prefix_of(text@));
            if text@.len() == regexp@.len() {
                assert(text@.subrange(0, text@.len() as int) == text@);
            }
        }
        let kind = if syntax {
            ErrorKind::Syntax
        } else {
            ErrorKind::Type
        };
        PatternError { kind, message }
    }

    /// The message, as the caller is to see it.
    pub fn to_string(&self) -> (s: String)
        ensures
            s@ == self.message@,
    {
        self.message.clone()
    }
}

} // verus!
