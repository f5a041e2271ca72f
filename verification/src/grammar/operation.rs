//! Operations: queries, mutations and subscriptions.

use crate::error::{ErrorKind, Expected};
use crate::grammar::name;
use crate::grammar::directive::directives;
use crate::grammar::selection::selection_set;
use crate::grammar::variable::variable_definitions;
use crate::kind::{SyntaxKind, TokenKind};
use crate::parser::{at, at_keyword, bump, error, finish, start, Input, Parser, State};
use vstd::prelude::*;

verus! {

/// The next token is `query`, `mutation` or `subscription`.
pub open spec fn operation_keyword(inp: Input, s: State) -> bool {
    at_keyword(inp, s, SyntaxKind::QueryKw)
        || at_keyword(inp, s, SyntaxKind::MutationKw)
        || at_keyword(inp, s, SyntaxKind::SubscriptionKw)
}

/// An operation can start here: with its keyword, or, in the short form
/// of a query, with its selection set.
pub open spec fn operation_start(inp: Input, s: State) -> bool {
    at(inp, s, TokenKind::LCurly) || operation_keyword(inp, s)
}

/// OperationType: `query`, `mutation` or `subscription`
#[verifier::opaque]
pub open spec fn operation_type(inp: Input, s: State) -> State {
    let s = start(s, SyntaxKind::OperationType);
    let s = if at_keyword(inp, s, SyntaxKind::QueryKw) {
        bump(inp, s, SyntaxKind::QueryKw)
    } else {
        if at_keyword(inp, s, SyntaxKind::MutationKw) {
            bump(inp, s, SyntaxKind::MutationKw)
        } else {
            bump(inp, s, SyntaxKind::SubscriptionKw)
        }
    };
    finish(s)
}

/// OperationDefinition: OperationType Name? VariableDefinitions?
/// Directives? SelectionSet, or a SelectionSet alone.
#[verifier::opaque]
pub open spec fn operation_definition(inp: Input, s: State) -> State {
    let s = start(s, SyntaxKind::OperationDefinition);
    let s = if at(inp, s, TokenKind::LCurly) {
        selection_set(inp, s)
    } else {
        let s = operation_type(inp, s);
        let s = if at(inp, s, TokenKind::Name) {
            name(inp, s)
        } else {
            s
        };
        let s = if at(inp, s, TokenKind::LParen) {
            variable_definitions(inp, s)
        } else {
            s
        };
        let s = if at(inp, s, TokenKind::At) {
            directives(inp, s)
        } else {
            s
        };
        if at(inp, s, TokenKind::LCurly) {
            selection_set(inp, s)
        } else {
            error(inp, s, ErrorKind::Missing, Expected::SelectionSet)
        }
    };
    finish(s)
}

impl<'a> Parser<'a> {
    /// The next token is `query`, `mutation` or `subscription`.
    pub open spec fn operation_keyword(&self) -> bool {
        operation_keyword(self.input(), self.state())
    }

    pub fn is_operation_keyword(&self) -> (r: bool)
        requires
            self.wf(),
        ensures
            r == self.operation_keyword(),
    {
        self.is_at_keyword(SyntaxKind::QueryKw)
            || self.is_at_keyword(SyntaxKind::MutationKw)
            || self.is_at_keyword(SyntaxKind::SubscriptionKw)
    }

    /// An operation can start here: with its keyword, or, in the short form
    /// of a query, with its selection set.
    pub open spec fn operation_start(&self) -> bool {
        operation_start(self.input(), self.state())
    }

    pub fn is_operation_start(&self) -> (r: bool)
        requires
            self.wf(),
        ensures
            r == self.operation_start(),
    {
        self.is_at(TokenKind::LCurly) || self.is_operation_keyword()
    }

    /// OperationType: `query`, `mutation` or `subscription`
    pub fn operation_type(&mut self)
        requires
            old(self).wf(),
            old(self).operation_keyword(),
        ensures
            old(self).step(final(self), operation_type(old(self).input(), old(self).state()), 2, 2),
            old(self).moved(final(self)),
    {
        proof {
            reveal(operation_type);
            self.lemma_wf();
        }
        self.start(SyntaxKind::OperationType);
        if self.is_at_keyword(SyntaxKind::QueryKw) {
            self.bump(SyntaxKind::QueryKw);
        } else {
            if self.is_at_keyword(SyntaxKind::MutationKw) {
                self.bump(SyntaxKind::MutationKw);
            } else {
                self.bump(SyntaxKind::SubscriptionKw);
            }
        }
        self.finish();
        proof {
            self.lemma_wf();
        }
    }

    /// OperationDefinition: OperationType Name? VariableDefinitions?
    /// Directives? SelectionSet, or a SelectionSet alone.
    #[verifier::rlimit(30)]
    pub fn operation_definition(&mut self)
        requires
            old(self).wf(),
            old(self).operation_start(),
        ensures
            old(self).step(
                final(self),
                operation_definition(old(self).input(), old(self).state()),
                5,
                35,
            ),
            old(self).moved(final(self)),
    {
        proof {
            reveal(operation_definition);
            self.lemma_wf();
        }
        self.start(SyntaxKind::OperationDefinition);
        if self.is_at(TokenKind::LCurly) {
            self.selection_set();
        } else {
            self.operation_type();
            if self.is_at(TokenKind::Name) {
                self.name();
            }
            if self.is_at(TokenKind::LParen) {
                self.variable_definitions();
            }
            if self.is_at(TokenKind::At) {
                self.directives();
            }
            if self.is_at(TokenKind::LCurly) {
                self.selection_set();
            } else {
                self.error(ErrorKind::Missing, Expected::SelectionSet);
            }
        }
        self.finish();
        proof {
            self.lemma_wf();
        }
    }
}

} // verus!
