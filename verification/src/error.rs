//! Diagnostics: what the parser records when the input is not what the
//! grammar asks for. A diagnostic never stops the parse.

use vstd::prelude::*;

verus! {

/// The three ways in which an input can be wrong.
#[derive(Clone, Copy, Debug, PartialEq, Eq, Structural)]
pub enum ErrorKind {
    /// Bytes that are no token of the language.
    Lexical,
    /// A fault of structure: a token that cannot stand where it stands.
    Unexpected,
    /// A required part is not there.
    Missing,
}

/// What the grammar asked for where a diagnostic was recorded.
#[derive(Clone, Copy, Debug, PartialEq, Eq, Structural)]
pub enum Expected {
    Token,
    Definition,
    Name,
    Selection,
    SelectionSet,
    Value,
    Type,
    Variable,
    Colon,
    On,
    At,
    ClosingBrace,
    ClosingParen,
    ClosingBracket,
    OperationType,
    DirectiveLocation,
    Fields,
    TypeSystemDefinition,
}

/// A diagnostic: its kind, what was expected, and the bytes of the input
/// that it is about, from `start` up to `end`.
#[derive(Clone, Copy, Debug, PartialEq, Eq, Structural)]
pub struct Error {
    pub kind: ErrorKind,
    pub expected: Expected,
    pub start: usize,
    pub end: usize,
}

impl Expected {
    /// The words of the message for each expectation.
    pub open spec fn words(self) -> Seq<char> {
        match self {
            Expected::Token => "unexpected character"@,
            Expected::Definition => "expected a definition"@,
            Expected::Name => "expected a name"@,
            Expected::Selection => "expected a selection"@,
            Expected::SelectionSet => "expected a selection set"@,
            Expected::Value => "expected a value"@,
            Expected::Type => "expected a type"@,
            Expected::Variable => "expected a variable"@,
            Expected::Colon => "expected a colon"@,
            Expected::On => "expected the keyword on"@,
            Expected::At => "expected a directive"@,
            Expected::ClosingBrace => "expected a closing brace"@,
            Expected::ClosingParen => "expected a closing parenthesis"@,
            Expected::ClosingBracket => "expected a closing bracket"@,
            Expected::OperationType => "expected an operation type"@,
            Expected::DirectiveLocation => "expected a directive location"@,
            Expected::Fields => "expected a field definition"@,
            Expected::TypeSystemDefinition => "expected a type system definition"@,
        }
    }
}

impl Error {
    /// The message of the diagnostic.
    pub fn message(&self) -> (r: &'static str)
        ensures
            r@ == self.expected.words(),
    {
        match self.expected {
            Expected::Token => "unexpected character",
            Expected::Definition => "expected a definition",
            Expected::Name => "expected a name",
            Expected::Selection => "expected a selection",
            Expected::SelectionSet => "expected a selection set",
            Expected::Value => "expected a value",
            Expected::Type => "expected a type",
            Expected::Variable => "expected a variable",
            Expected::Colon => "expected a colon",
            Expected::On => "expected the keyword on",
            Expected::At => "expected a directive",
            Expected::ClosingBrace => "expected a closing brace",
            Expected::ClosingParen => "expected a closing parenthesis",
            Expected::ClosingBracket => "expected a closing bracket",
            Expected::OperationType => "expected an operation type",
            Expected::DirectiveLocation => "expected a directive location",
            Expected::Fields => "expected a field definition",
            Expected::TypeSystemDefinition => "expected a type system definition",
        }
    }

    pub fn kind(&self) -> (r: ErrorKind)
        ensures
            r == self.kind,
    {
        self.kind
    }

    /// The bytes of the input that the diagnostic is about.
    pub fn span(&self) -> (r: (usize, usize))
        ensures
            r == (self.start, self.end),
    {
        (self.start, self.end)
    }
}

} // verus!
