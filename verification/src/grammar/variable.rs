//! The variable definitions of an operation.

use crate::error::{ErrorKind, Expected};
use crate::grammar::list_stop;
use crate::grammar::directive::directives;
use crate::grammar::ty::{ty, type_start};
use crate::grammar::value::{value, value_start, variable};
use crate::kind::{SyntaxKind, TokenKind};
use crate::parser::{
    advanced, at, bump, error, expect, extends, finish, paid, rest, spent, start, unexpected, Input,
    Parser, State,
};
use vstd::prelude::*;

verus! {

/// DefaultValue: `=` Value
#[verifier::opaque]
pub open spec fn default_value(inp: Input, s: State) -> State {
    let s = start(s, SyntaxKind::DefaultValue);
    let s = bump(inp, s, SyntaxKind::Eq);
    let s = if value_start(inp, s) {
        value(inp, s)
    } else {
        error(inp, s, ErrorKind::Missing, Expected::Value)
    };
    finish(s)
}

/// VariableDefinition: Variable `:` Type DefaultValue? Directives?
#[verifier::opaque]
pub open spec fn variable_definition(inp: Input, s: State) -> State {
    let s = start(s, SyntaxKind::VariableDefinition);
    let s = variable(inp, s);
    let s = expect(inp, s, TokenKind::Colon, SyntaxKind::Colon, Expected::Colon);
    let s = if type_start(inp, s) {
        ty(inp, s)
    } else {
        error(inp, s, ErrorKind::Missing, Expected::Type)
    };
    let s = if at(inp, s, TokenKind::Eq) {
        default_value(inp, s)
    } else {
        s
    };
    let s = if at(inp, s, TokenKind::At) {
        directives(inp, s)
    } else {
        s
    };
    finish(s)
}

/// The variable definitions between the parentheses.
#[verifier::opaque]
pub open spec fn variable_definition_list(inp: Input, s: State) -> State
    decreases rest(inp, s),
{
    if at(inp, s, TokenKind::Dollar) {
        let t = variable_definition(inp, s);
        if advanced(inp, s, t) {
            variable_definition_list(inp, t)
        } else {
            t
        }
    } else if list_stop(inp, s) {
        s
    } else {
        let t = unexpected(inp, s, Expected::Variable);
        if advanced(inp, s, t) {
            variable_definition_list(inp, t)
        } else {
            t
        }
    }
}

/// VariableDefinitions: `(` VariableDefinition* `)`
#[verifier::opaque]
pub open spec fn variable_definitions(inp: Input, s: State) -> State {
    let s = start(s, SyntaxKind::VariableDefinitions);
    let s = bump(inp, s, SyntaxKind::LParen);
    let s = variable_definition_list(inp, s);
    let s = expect(inp, s, TokenKind::RParen, SyntaxKind::RParen, Expected::ClosingParen);
    finish(s)
}

impl<'a> Parser<'a> {
    /// DefaultValue: `=` Value
    pub fn default_value(&mut self)
        requires
            old(self).wf(),
            old(self).at(TokenKind::Eq),
        ensures
            old(self).step(final(self), default_value(old(self).input(), old(self).state()), 3, 11),
            old(self).moved(final(self)),
    {
        proof {
            reveal(default_value);
            self.lemma_wf();
        }
        self.start(SyntaxKind::DefaultValue);
        self.bump(SyntaxKind::Eq);
        if self.is_value_start() {
            self.value();
        } else {
            self.error(ErrorKind::Missing, Expected::Value);
        }
        self.finish();
        proof {
            self.lemma_wf();
        }
    }

    /// VariableDefinition: Variable `:` Type DefaultValue? Directives?
    pub fn variable_definition(&mut self)
        requires
            old(self).wf(),
            old(self).at(TokenKind::Dollar),
        ensures
            old(self).step(
                final(self),
                variable_definition(old(self).input(), old(self).state()),
                4,
                27,
            ),
            old(self).moved(final(self)),
    {
        proof {
            reveal(variable_definition);
            self.lemma_wf();
        }
        self.start(SyntaxKind::VariableDefinition);
        self.variable();
        self.expect(TokenKind::Colon, SyntaxKind::Colon, Expected::Colon);
        if self.is_type_start() {
            self.ty();
        } else {
            self.error(ErrorKind::Missing, Expected::Type);
        }
        if self.is_at(TokenKind::Eq) {
            self.default_value();
        }
        if self.is_at(TokenKind::At) {
            self.directives();
        }
        self.finish();
        proof {
            self.lemma_wf();
        }
    }

    /// The variable definitions between the parentheses.
    pub fn variable_definition_list(&mut self)
        requires
            old(self).wf(),
        ensures
            old(self).step(
                final(self),
                variable_definition_list(old(self).input(), old(self).state()),
                0,
                27,
            ),
            final(self).list_stop(),
    {
        proof {
            reveal(variable_definition_list);
            self.lemma_wf();
        }
        let ghost inp = self.input();
        let ghost s0 = self.state();
        while !self.is_list_stop()
            invariant
                self.wf(),
                self.input() == inp,
                self.depth() == old(self).depth(),
                inp == old(self).input(),
                s0 == old(self).state(),
                0 <= s0.pos <= inp.tokens.len(),
                extends(s0, self.state()),
                spent(s0, self.state(), 0),
                paid(s0, self.state(), 27),
                self.state().pos > s0.pos || self.state() == s0,
                variable_definition_list(inp, self.state()) == variable_definition_list(inp, s0),
            decreases rest(inp, self.state()),
        {
            proof {
                reveal(variable_definition_list);
                self.lemma_wf();
            }
            if self.is_at(TokenKind::Dollar) {
                self.variable_definition();
            } else {
                self.unexpected(Expected::Variable);
            }
            proof {
                self.lemma_wf();
            }
        }
        proof {
            self.lemma_wf();
        }
    }

    /// VariableDefinitions: `(` VariableDefinition* `)`
    pub fn variable_definitions(&mut self)
        requires
            old(self).wf(),
            old(self).at(TokenKind::LParen),
        ensures
            old(self).step(
                final(self),
                variable_definitions(old(self).input(), old(self).state()),
                3,
                30,
            ),
            old(self).moved(final(self)),
    {
        proof {
            reveal(variable_definitions);
            self.lemma_wf();
        }
        self.start(SyntaxKind::VariableDefinitions);
        self.bump(SyntaxKind::LParen);
        self.variable_definition_list();
        self.expect(TokenKind::RParen, SyntaxKind::RParen, Expected::ClosingParen);
        self.finish();
        proof {
            self.lemma_wf();
        }
    }
}

} // verus!
