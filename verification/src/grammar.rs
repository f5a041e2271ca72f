//! The grammar: one procedure for each production. Each procedure looks at
//! the next significant token to decide what applies, wraps what it emits in
//! a node of its own kind, and records a diagnostic where the input is not
//! what it asks for. No procedure fails.
//!
//! Every production is stated twice: as a function on the state of a parse,
//! which says what the production is, and as a method of the parser, which
//! is proved to make exactly that step.
//!
//! Two things keep a parse from running on without end. A list goes on only
//! while its items consume tokens, and a production takes up a production
//! that contains it only behind a token that it has consumed: both are
//! written into the functions with `advanced`, and the methods prove that
//! the parse has advanced wherever they ask. And every method bounds what it
//! puts out by the tokens that it consumes: the two numbers in its contract
//! are the `extra` and the `first` of `Parser::step`.

pub mod argument;
pub mod directive;
pub mod document;
pub mod enums;
pub mod fragment;
pub mod input;
pub mod interface;
pub mod object;
pub mod operation;
pub mod scalar;
pub mod schema;
pub mod selection;
pub mod ty;
pub mod unions;
pub mod value;
pub mod variable;

use crate::error::{ErrorKind, Expected};
use crate::kind::{SyntaxKind, TokenKind};
use crate::parser::{at, at_end, bump, error, finish, start, Input, Parser, State};
use vstd::prelude::*;

verus! {

/// Where a list between delimiters stops: at a closing delimiter, or at
/// the end of the input.
pub open spec fn list_stop(inp: Input, s: State) -> bool {
    at_end(inp, s)
        || at(inp, s, TokenKind::RCurly)
        || at(inp, s, TokenKind::RParen)
        || at(inp, s, TokenKind::RBracket)
}

/// Name: a name token, whatever it spells.
#[verifier::opaque]
pub open spec fn name(inp: Input, s: State) -> State {
    if at(inp, s, TokenKind::Name) {
        let s = start(s, SyntaxKind::Name);
        let s = bump(inp, s, SyntaxKind::Ident);
        finish(s)
    } else {
        error(inp, s, ErrorKind::Missing, Expected::Name)
    }
}

/// Description: a string before a definition.
#[verifier::opaque]
pub open spec fn description(inp: Input, s: State) -> State {
    let s = start(s, SyntaxKind::Description);
    let s = bump(inp, s, SyntaxKind::String);
    finish(s)
}

impl<'a> Parser<'a> {
    /// Where a list between delimiters stops: at a closing delimiter, or at
    /// the end of the input.
    pub open spec fn list_stop(&self) -> bool {
        list_stop(self.input(), self.state())
    }

    pub fn is_list_stop(&self) -> (r: bool)
        requires
            self.wf(),
        ensures
            r == self.list_stop(),
    {
        self.is_at_end()
            || self.is_at(TokenKind::RCurly)
            || self.is_at(TokenKind::RParen)
            || self.is_at(TokenKind::RBracket)
    }

    /// Name: a name token, whatever it spells.
    pub fn name(&mut self)
        requires
            old(self).wf(),
        ensures
            old(self).step(final(self), name(old(self).input(), old(self).state()), 2, 2),
            old(self).at(TokenKind::Name) ==> old(self).moved(final(self)),
    {
        proof {
            reveal(name);
            self.lemma_wf();
        }
        if self.is_at(TokenKind::Name) {
            self.start(SyntaxKind::Name);
            self.bump(SyntaxKind::Ident);
            self.finish();
        } else {
            self.error(ErrorKind::Missing, Expected::Name);
        }
        proof {
            self.lemma_wf();
        }
    }

    /// Description: a string before a definition.
    pub fn description(&mut self)
        requires
            old(self).wf(),
            old(self).at(TokenKind::StringValue),
        ensures
            old(self).step(final(self), description(old(self).input(), old(self).state()), 2, 2),
            old(self).moved(final(self)),
    {
        proof {
            reveal(description);
            self.lemma_wf();
        }
        self.start(SyntaxKind::Description);
        self.bump(SyntaxKind::String);
        self.finish();
        proof {
            self.lemma_wf();
        }
    }
}

} // verus!
