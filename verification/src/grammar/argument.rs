//! The arguments of a field or a directive.

use crate::error::{ErrorKind, Expected};
use crate::grammar::{list_stop, name};
use crate::grammar::value::{value, value_start};
use crate::kind::{SyntaxKind, TokenKind};
use crate::parser::{
    advanced, at, bump, error, expect, extends, finish, paid, rest, spent, start, unexpected, Input,
    Parser, State,
};
use vstd::prelude::*;

verus! {

/// Argument: Name `:` Value
#[verifier::opaque]
pub open spec fn argument(inp: Input, s: State) -> State {
    let s = start(s, SyntaxKind::Argument);
    let s = name(inp, s);
    let s = expect(inp, s, TokenKind::Colon, SyntaxKind::Colon, Expected::Colon);
    let s = if value_start(inp, s) {
        value(inp, s)
    } else {
        error(inp, s, ErrorKind::Missing, Expected::Value)
    };
    finish(s)
}

/// The arguments between the parentheses.
#[verifier::opaque]
pub open spec fn argument_list(inp: Input, s: State) -> State
    decreases rest(inp, s),
{
    if at(inp, s, TokenKind::Name) {
        let t = argument(inp, s);
        if advanced(inp, s, t) {
            argument_list(inp, t)
        } else {
            t
        }
    } else if list_stop(inp, s) {
        s
    } else {
        let t = unexpected(inp, s, Expected::Name);
        if advanced(inp, s, t) {
            argument_list(inp, t)
        } else {
            t
        }
    }
}

/// Arguments: `(` Argument* `)`
#[verifier::opaque]
pub open spec fn arguments(inp: Input, s: State) -> State {
    let s = start(s, SyntaxKind::Arguments);
    let s = bump(inp, s, SyntaxKind::LParen);
    let s = argument_list(inp, s);
    let s = expect(inp, s, TokenKind::RParen, SyntaxKind::RParen, Expected::ClosingParen);
    finish(s)
}

impl<'a> Parser<'a> {
    /// Argument: Name `:` Value
    pub fn argument(&mut self)
        requires
            old(self).wf(),
            old(self).at(TokenKind::Name),
        ensures
            old(self).step(final(self), argument(old(self).input(), old(self).state()), 6, 14),
            old(self).moved(final(self)),
    {
        proof {
            reveal(argument);
            self.lemma_wf();
        }
        self.start(SyntaxKind::Argument);
        self.name();
        self.expect(TokenKind::Colon, SyntaxKind::Colon, Expected::Colon);
        if self.is_value_start() {
            self.value();
        } else {
            self.error(ErrorKind::Missing, Expected::Value);
        }
        self.finish();
        proof {
            self.lemma_wf();
        }
    }

    /// The arguments between the parentheses.
    pub fn argument_list(&mut self)
        requires
            old(self).wf(),
        ensures
            old(self).step(final(self), argument_list(old(self).input(), old(self).state()), 0, 14),
            final(self).list_stop(),
    {
        proof {
            reveal(argument_list);
            self.lemma_wf();
        }
        let ghost inp = self.input();
        let ghost s0 = self.state();
        while !self.is_list_stop()
            invariant
                self.wf(),
                self.input() == inp,
                self.depth() == old(self).depth(),
                inp == old(self).input(),
                s0 == old(self).state(),
                0 <= s0.pos <= inp.tokens.len(),
                extends(s0, self.state()),
                spent(s0, self.state(), 0),
                paid(s0, self.state(), 14),
                self.state().pos > s0.pos || self.state() == s0,
                argument_list(inp, self.state()) == argument_list(inp, s0),
            decreases rest(inp, self.state()),
        {
            proof {
                reveal(argument_list);
                self.lemma_wf();
            }
            if self.is_at(TokenKind::Name) {
                self.argument();
            } else {
                self.unexpected(Expected::Name);
            }
            proof {
                self.lemma_wf();
            }
        }
        proof {
            self.lemma_wf();
        }
    }

    /// Arguments: `(` Argument* `)`
    pub fn arguments(&mut self)
        requires
            old(self).wf(),
            old(self).at(TokenKind::LParen),
        ensures
            old(self).step(final(self), arguments(old(self).input(), old(self).state()), 3, 17),
            old(self).moved(final(self)),
    {
        proof {
            reveal(arguments);
            self.lemma_wf();
        }
        self.start(SyntaxKind::Arguments);
        self.bump(SyntaxKind::LParen);
        self.argument_list();
        self.expect(TokenKind::RParen, SyntaxKind::RParen, Expected::ClosingParen);
        self.finish();
        proof {
            self.lemma_wf();
        }
    }
}

} // verus!
