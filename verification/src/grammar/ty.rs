//! References to types.

use crate::error::{ErrorKind, Expected};
use crate::grammar::name;
use crate::kind::{SyntaxKind, TokenKind};
use crate::parser::{
    advanced, at, bump, error, expect, finish, rest, second_at, start, Input, Parser, State,
};
use vstd::prelude::*;

verus! {

/// A type can start here.
pub open spec fn type_start(inp: Input, s: State) -> bool {
    at(inp, s, TokenKind::Name) || at(inp, s, TokenKind::LBracket)
}

/// NamedType: Name
#[verifier::opaque]
pub open spec fn named_type(inp: Input, s: State) -> State {
    if at(inp, s, TokenKind::Name) {
        let s = start(s, SyntaxKind::NamedType);
        let s = name(inp, s);
        finish(s)
    } else {
        error(inp, s, ErrorKind::Missing, Expected::Type)
    }
}

/// Type: NamedType, `[` Type `]`, and either with `!` behind it. A
/// non-null named type is a node around the named type; the `!` behind a
/// list stands in the list's node.
#[verifier::opaque]
pub open spec fn ty(inp: Input, s: State) -> State
    decreases rest(inp, s), 1int,
{
    let s0 = s;
    if at(inp, s, TokenKind::LBracket) {
        let s = start(s, SyntaxKind::ListType);
        let s = bump(inp, s, SyntaxKind::LBracket);
        let s = if type_start(inp, s) {
            if advanced(inp, s0, s) {
                ty(inp, s)
            } else {
                s
            }
        } else {
            error(inp, s, ErrorKind::Missing, Expected::Type)
        };
        let s = expect(inp, s, TokenKind::RBracket, SyntaxKind::RBracket, Expected::ClosingBracket);
        let s = if at(inp, s, TokenKind::Bang) {
            bump(inp, s, SyntaxKind::Bang)
        } else {
            s
        };
        finish(s)
    } else {
        if second_at(inp, s, TokenKind::Bang) {
            let s = start(s, SyntaxKind::NonNullType);
            let s = named_type(inp, s);
            let s = bump(inp, s, SyntaxKind::Bang);
            finish(s)
        } else {
            named_type(inp, s)
        }
    }
}

impl<'a> Parser<'a> {
    /// A type can start here.
    pub open spec fn type_start(&self) -> bool {
        type_start(self.input(), self.state())
    }

    pub fn is_type_start(&self) -> (r: bool)
        requires
            self.wf(),
        ensures
            r == self.type_start(),
    {
        self.is_at(TokenKind::Name) || self.is_at(TokenKind::LBracket)
    }

    /// NamedType: Name
    pub fn named_type(&mut self)
        requires
            old(self).wf(),
        ensures
            old(self).step(final(self), named_type(old(self).input(), old(self).state()), 4, 4),
            old(self).at(TokenKind::Name) ==> old(self).moved(final(self)),
    {
        proof {
            reveal(named_type);
            self.lemma_wf();
        }
        if self.is_at(TokenKind::Name) {
            self.start(SyntaxKind::NamedType);
            self.name();
            self.finish();
        } else {
            self.error(ErrorKind::Missing, Expected::Type);
        }
        proof {
            self.lemma_wf();
        }
    }

    /// Type: NamedType, `[` Type `]`, and either with `!` behind it. A
    /// non-null named type is a node around the named type; the `!` behind a
    /// list stands in the list's node.
    pub fn ty(&mut self)
        requires
            old(self).wf(),
            old(self).type_start(),
        ensures
            old(self).step(final(self), ty(old(self).input(), old(self).state()), 6, 6),
            old(self).moved(final(self)),
        decreases old(self).left(), 1int,
    {
        proof {
            reveal(ty);
            self.lemma_wf();
        }
        if self.is_at(TokenKind::LBracket) {
            self.start(SyntaxKind::ListType);
            self.bump(SyntaxKind::LBracket);
            if self.is_type_start() {
                self.ty();
            } else {
                self.error(ErrorKind::Missing, Expected::Type);
            }
            self.expect(TokenKind::RBracket, SyntaxKind::RBracket, Expected::ClosingBracket);
            if self.is_at(TokenKind::Bang) {
                self.bump(SyntaxKind::Bang);
            }
            self.finish();
        } else {
            if self.is_second_at(TokenKind::Bang) {
                self.start(SyntaxKind::NonNullType);
                self.named_type();
                self.bump(SyntaxKind::Bang);
                self.finish();
            } else {
                self.named_type();
            }
        }
        proof {
            self.lemma_wf();
        }
    }
}

} // verus!
