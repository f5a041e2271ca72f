//! The definitions of fragments.

use crate::error::{ErrorKind, Expected};
use crate::grammar::name;
use crate::grammar::directive::directives;
use crate::grammar::selection::{selection_set, type_condition};
use crate::kind::{SyntaxKind, TokenKind};
use crate::parser::{at, at_keyword, bump, error, finish, start, Input, Parser, State};
use vstd::prelude::*;

verus! {

/// FragmentDefinition: `fragment` FragmentName TypeCondition Directives?
/// SelectionSet
#[verifier::opaque]
pub open spec fn fragment_definition(inp: Input, s: State) -> State {
    let s = start(s, SyntaxKind::FragmentDefinition);
    let s = bump(inp, s, SyntaxKind::FragmentKw);
    let s = start(s, SyntaxKind::FragmentName);
    let s = name(inp, s);
    let s = finish(s);
    let s = if at_keyword(inp, s, SyntaxKind::OnKw) {
        type_condition(inp, s)
    } else {
        error(inp, s, ErrorKind::Missing, Expected::On)
    };
    let s = if at(inp, s, TokenKind::At) {
        directives(inp, s)
    } else {
        s
    };
    let s = if at(inp, s, TokenKind::LCurly) {
        selection_set(inp, s)
    } else {
        error(inp, s, ErrorKind::Missing, Expected::SelectionSet)
    };
    finish(s)
}

impl<'a> Parser<'a> {
    /// FragmentDefinition: `fragment` FragmentName TypeCondition Directives?
    /// SelectionSet
    pub fn fragment_definition(&mut self)
        requires
            old(self).wf(),
            old(self).at_keyword(SyntaxKind::FragmentKw),
        ensures
            old(self).step(
                final(self),
                fragment_definition(old(self).input(), old(self).state()),
                8,
                31,
            ),
            old(self).moved(final(self)),
    {
        proof {
            reveal(fragment_definition);
            self.lemma_wf();
        }
        self.start(SyntaxKind::FragmentDefinition);
        self.bump(SyntaxKind::FragmentKw);
        self.start(SyntaxKind::FragmentName);
        self.name();
        self.finish();
        if self.is_at_keyword(SyntaxKind::OnKw) {
            self.type_condition();
        } else {
            self.error(ErrorKind::Missing, Expected::On);
        }
        if self.is_at(TokenKind::At) {
            self.directives();
        }
        if self.is_at(TokenKind::LCurly) {
            self.selection_set();
        } else {
            self.error(ErrorKind::Missing, Expected::SelectionSet);
        }
        self.finish();
        proof {
            self.lemma_wf();
        }
    }
}

} // verus!
