//! Scalar types and their extensions.

use crate::grammar::{description, name};
use crate::grammar::directive::directives;
use crate::kind::{SyntaxKind, TokenKind};
use crate::parser::{at, bump, finish, start, Input, Parser, State};
use vstd::prelude::*;

verus! {

/// ScalarTypeDefinition: Description? `scalar` Name Directives?
#[verifier::opaque]
pub open spec fn scalar_type_definition(inp: Input, s: State) -> State {
    let s = start(s, SyntaxKind::ScalarTypeDefinition);
    let s = if at(inp, s, TokenKind::StringValue) {
        description(inp, s)
    } else {
        s
    };
    let s = bump(inp, s, SyntaxKind::ScalarKw);
    let s = name(inp, s);
    let s = if at(inp, s, TokenKind::At) {
        directives(inp, s)
    } else {
        s
    };
    finish(s)
}

/// ScalarTypeExtension: `extend` `scalar` Name Directives?
#[verifier::opaque]
pub open spec fn scalar_type_extension(inp: Input, s: State) -> State {
    let s = start(s, SyntaxKind::ScalarTypeExtension);
    let s = bump(inp, s, SyntaxKind::ExtendKw);
    let s = bump(inp, s, SyntaxKind::ScalarKw);
    let s = name(inp, s);
    let s = if at(inp, s, TokenKind::At) {
        directives(inp, s)
    } else {
        s
    };
    finish(s)
}

impl<'a> Parser<'a> {
    /// ScalarTypeDefinition: Description? `scalar` Name Directives?
    pub fn scalar_type_definition(&mut self)
        requires
            old(self).wf(),
            old(self).leads(SyntaxKind::ScalarKw),
        ensures
            old(self).step(
                final(self),
                scalar_type_definition(old(self).input(), old(self).state()),
                4,
                27,
            ),
            old(self).moved(final(self)),
    {
        proof {
            reveal(scalar_type_definition);
            self.lemma_wf();
        }
        self.start(SyntaxKind::ScalarTypeDefinition);
        if self.is_at(TokenKind::StringValue) {
            self.description();
        }
        self.bump(SyntaxKind::ScalarKw);
        self.name();
        if self.is_at(TokenKind::At) {
            self.directives();
        }
        self.finish();
        proof {
            self.lemma_wf();
        }
    }

    /// ScalarTypeExtension: `extend` `scalar` Name Directives?
    pub fn scalar_type_extension(&mut self)
        requires
            old(self).wf(),
            old(self).at_keyword(SyntaxKind::ExtendKw)
                && old(self).second_keyword(SyntaxKind::ScalarKw),
        ensures
            old(self).step(
                final(self),
                scalar_type_extension(old(self).input(), old(self).state()),
                4,
                27,
            ),
            old(self).moved(final(self)),
    {
        proof {
            reveal(scalar_type_extension);
            self.lemma_wf();
        }
        self.start(SyntaxKind::ScalarTypeExtension);
        self.bump(SyntaxKind::ExtendKw);
        self.bump(SyntaxKind::ScalarKw);
        self.name();
        if self.is_at(TokenKind::At) {
            self.directives();
        }
        self.finish();
        proof {
            self.lemma_wf();
        }
    }
}

} // verus!
