//! Selection sets and what stands in them: fields, fragment spreads and
//! inline fragments.

use crate::error::{ErrorKind, Expected};
use crate::grammar::{list_stop, name};
use crate::grammar::argument::arguments;
use crate::grammar::directive::directives;
use crate::grammar::ty::named_type;
use crate::kind::{SyntaxKind, TokenKind};
use crate::parser::{
    advanced, at, at_keyword, bump, error, expect, extends, finish, paid, rest, second_at,
    second_keyword, spent, start, unexpected, Input, Parser, State,
};
use vstd::prelude::*;

verus! {

/// TypeCondition: `on` NamedType
#[verifier::opaque]
pub open spec fn type_condition(inp: Input, s: State) -> State {
    let s = start(s, SyntaxKind::TypeCondition);
    let s = bump(inp, s, SyntaxKind::OnKw);
    let s = named_type(inp, s);
    finish(s)
}

/// Alias: Name `:`
#[verifier::opaque]
pub open spec fn alias(inp: Input, s: State) -> State {
    let s = start(s, SyntaxKind::Alias);
    let s = name(inp, s);
    let s = bump(inp, s, SyntaxKind::Colon);
    finish(s)
}

/// FragmentSpread: `...` FragmentName Directives?
#[verifier::opaque]
pub open spec fn fragment_spread(inp: Input, s: State) -> State {
    let s = start(s, SyntaxKind::FragmentSpread);
    let s = bump(inp, s, SyntaxKind::Spread);
    let s = start(s, SyntaxKind::FragmentName);
    let s = name(inp, s);
    let s = finish(s);
    let s = if at(inp, s, TokenKind::At) {
        directives(inp, s)
    } else {
        s
    };
    finish(s)
}

/// SelectionSet: `{` Selection* `}`
#[verifier::opaque]
pub open spec fn selection_set(inp: Input, s: State) -> State
    decreases rest(inp, s), 3int,
{
    let s0 = s;
    let s = start(s, SyntaxKind::SelectionSet);
    let s = bump(inp, s, SyntaxKind::LCurly);
    let s = if advanced(inp, s0, s) {
        selections(inp, s)
    } else {
        s
    };
    let s = expect(inp, s, TokenKind::RCurly, SyntaxKind::RCurly, Expected::ClosingBrace);
    finish(s)
}

/// The selections of a selection set: fields, fragment spreads and inline
/// fragments. `...` with a name behind it that is not `on` is a spread. A
/// token that starts no selection and closes nothing is skipped as an error.
#[verifier::opaque]
pub open spec fn selections(inp: Input, s: State) -> State
    decreases rest(inp, s), 5int,
{
    if at(inp, s, TokenKind::Name) {
        let t = field(inp, s);
        if advanced(inp, s, t) {
            selections(inp, t)
        } else {
            t
        }
    } else if at(inp, s, TokenKind::Spread)
        && second_at(inp, s, TokenKind::Name)
        && !second_keyword(inp, s, SyntaxKind::OnKw) {
        let t = fragment_spread(inp, s);
        if advanced(inp, s, t) {
            selections(inp, t)
        } else {
            t
        }
    } else if at(inp, s, TokenKind::Spread) {
        let t = inline_fragment(inp, s);
        if advanced(inp, s, t) {
            selections(inp, t)
        } else {
            t
        }
    } else if list_stop(inp, s) {
        s
    } else {
        let t = unexpected(inp, s, Expected::Selection);
        if advanced(inp, s, t) {
            selections(inp, t)
        } else {
            t
        }
    }
}

/// Field: Alias? Name Arguments? Directives? SelectionSet?
#[verifier::opaque]
pub open spec fn field(inp: Input, s: State) -> State
    decreases rest(inp, s), 4int,
{
    let s0 = s;
    let s = start(s, SyntaxKind::Field);
    let s = if second_at(inp, s, TokenKind::Colon) {
        alias(inp, s)
    } else {
        s
    };
    let s = name(inp, s);
    let s = if at(inp, s, TokenKind::LParen) {
        arguments(inp, s)
    } else {
        s
    };
    let s = if at(inp, s, TokenKind::At) {
        directives(inp, s)
    } else {
        s
    };
    let s = if at(inp, s, TokenKind::LCurly) {
        if advanced(inp, s0, s) {
            selection_set(inp, s)
        } else {
            s
        }
    } else {
        s
    };
    finish(s)
}

/// InlineFragment: `...` TypeCondition? Directives? SelectionSet
#[verifier::opaque]
pub open spec fn inline_fragment(inp: Input, s: State) -> State
    decreases rest(inp, s), 4int,
{
    let s0 = s;
    let s = start(s, SyntaxKind::InlineFragment);
    let s = bump(inp, s, SyntaxKind::Spread);
    let s = if at_keyword(inp, s, SyntaxKind::OnKw) {
        type_condition(inp, s)
    } else {
        s
    };
    let s = if at(inp, s, TokenKind::At) {
        directives(inp, s)
    } else {
        s
    };
    let s = if at(inp, s, TokenKind::LCurly) {
        if advanced(inp, s0, s) {
            selection_set(inp, s)
        } else {
            s
        }
    } else {
        error(inp, s, ErrorKind::Missing, Expected::SelectionSet)
    };
    finish(s)
}

impl<'a> Parser<'a> {
    /// TypeCondition: `on` NamedType
    pub fn type_condition(&mut self)
        requires
            old(self).wf(),
            old(self).at_keyword(SyntaxKind::OnKw),
        ensures
            old(self).step(final(self), type_condition(old(self).input(), old(self).state()), 6, 6),
            old(self).moved(final(self)),
    {
        proof {
            reveal(type_condition);
            self.lemma_wf();
        }
        self.start(SyntaxKind::TypeCondition);
        self.bump(SyntaxKind::OnKw);
        self.named_type();
        self.finish();
        proof {
            self.lemma_wf();
        }
    }

    /// Alias: Name `:`
    pub fn alias(&mut self)
        requires
            old(self).wf(),
            old(self).at(TokenKind::Name),
        ensures
            old(self).step(final(self), alias(old(self).input(), old(self).state()), 4, 4),
            old(self).moved(final(self)),
    {
        proof {
            reveal(alias);
            self.lemma_wf();
        }
        self.start(SyntaxKind::Alias);
        self.name();
        self.bump(SyntaxKind::Colon);
        self.finish();
        proof {
            self.lemma_wf();
        }
    }

    /// FragmentSpread: `...` FragmentName Directives?
    pub fn fragment_spread(&mut self)
        requires
            old(self).wf(),
            old(self).at(TokenKind::Spread),
        ensures
            old(self).step(
                final(self),
                fragment_spread(old(self).input(), old(self).state()),
                6,
                29,
            ),
            old(self).moved(final(self)),
    {
        proof {
            reveal(fragment_spread);
            self.lemma_wf();
        }
        self.start(SyntaxKind::FragmentSpread);
        self.bump(SyntaxKind::Spread);
        self.start(SyntaxKind::FragmentName);
        self.name();
        self.finish();
        if self.is_at(TokenKind::At) {
            self.directives();
        }
        self.finish();
        proof {
            self.lemma_wf();
        }
    }

    /// SelectionSet: `{` Selection* `}`
    pub fn selection_set(&mut self)
        requires
            old(self).wf(),
            old(self).at(TokenKind::LCurly),
        ensures
            old(self).step(final(self), selection_set(old(self).input(), old(self).state()), 3, 3),
            old(self).moved(final(self)),
        decreases old(self).left(), 3int,
    {
        proof {
            reveal(selection_set);
            reveal(selections);
            reveal(field);
            reveal(inline_fragment);
            self.lemma_wf();
        }
        self.start(SyntaxKind::SelectionSet);
        self.bump(SyntaxKind::LCurly);
        self.selections();
        self.expect(TokenKind::RCurly, SyntaxKind::RCurly, Expected::ClosingBrace);
        self.finish();
        proof {
            self.lemma_wf();
        }
    }

    /// The selections of a selection set: fields, fragment spreads and inline
    /// fragments. `...` with a name behind it that is not `on` is a spread. A
    /// token that starts no selection and closes nothing is skipped as an error.
    pub fn selections(&mut self)
        requires
            old(self).wf(),
        ensures
            old(self).step(final(self), selections(old(self).input(), old(self).state()), 0, 29),
            final(self).list_stop(),
        decreases old(self).left(), 5int,
    {
        proof {
            reveal(selection_set);
            reveal(selections);
            reveal(field);
            reveal(inline_fragment);
            self.lemma_wf();
        }
        let ghost inp = self.input();
        let ghost s0 = self.state();
        while !self.is_list_stop()
            invariant
                self.wf(),
                self.input() == inp,
                self.depth() == old(self).depth(),
                inp == old(self).input(),
                s0 == old(self).state(),
                0 <= s0.pos <= inp.tokens.len(),
                extends(s0, self.state()),
                spent(s0, self.state(), 0),
                paid(s0, self.state(), 29),
                self.state().pos > s0.pos || self.state() == s0,
                selections(inp, self.state()) == selections(inp, s0),
            decreases rest(inp, self.state()),
        {
            proof {
                reveal(selection_set);
                reveal(selections);
                reveal(field);
                reveal(inline_fragment);
                self.lemma_wf();
            }
            if self.is_at(TokenKind::Name) {
                self.field();
            } else if self.is_at(TokenKind::Spread)
                && self.is_second_at(TokenKind::Name)
                && !self.is_second_keyword(SyntaxKind::OnKw) {
                self.fragment_spread();
            } else if self.is_at(TokenKind::Spread) {
                self.inline_fragment();
            } else {
                self.unexpected(Expected::Selection);
            }
            proof {
                self.lemma_wf();
            }
        }
        proof {
            self.lemma_wf();
        }
    }

    /// Field: Alias? Name Arguments? Directives? SelectionSet?
    pub fn field(&mut self)
        requires
            old(self).wf(),
            old(self).at(TokenKind::Name),
        ensures
            old(self).step(final(self), field(old(self).input(), old(self).state()), 4, 27),
            old(self).moved(final(self)),
        decreases old(self).left(), 4int,
    {
        proof {
            reveal(selection_set);
            reveal(selections);
            reveal(field);
            reveal(inline_fragment);
            self.lemma_wf();
        }
        self.start(SyntaxKind::Field);
        if self.is_second_at(TokenKind::Colon) {
            self.alias();
        }
        self.name();
        if self.is_at(TokenKind::LParen) {
            self.arguments();
        }
        if self.is_at(TokenKind::At) {
            self.directives();
        }
        if self.is_at(TokenKind::LCurly) {
            self.selection_set();
        }
        self.finish();
        proof {
            self.lemma_wf();
        }
    }

    /// InlineFragment: `...` TypeCondition? Directives? SelectionSet
    pub fn inline_fragment(&mut self)
        requires
            old(self).wf(),
            old(self).at(TokenKind::Spread),
        ensures
            old(self).step(
                final(self),
                inline_fragment(old(self).input(), old(self).state()),
                3,
                26,
            ),
            old(self).moved(final(self)),
        decreases old(self).left(), 4int,
    {
        proof {
            reveal(selection_set);
            reveal(selections);
            reveal(field);
            reveal(inline_fragment);
            self.lemma_wf();
        }
        self.start(SyntaxKind::InlineFragment);
        self.bump(SyntaxKind::Spread);
        if self.is_at_keyword(SyntaxKind::OnKw) {
            self.type_condition();
        }
        if self.is_at(TokenKind::At) {
            self.directives();
        }
        if self.is_at(TokenKind::LCurly) {
            self.selection_set();
        } else {
            self.error(ErrorKind::Missing, Expected::SelectionSet);
        }
        self.finish();
        proof {
            self.lemma_wf();
        }
    }
}

} // verus!
