//! Directives on a construct, and the definitions of directives.

use crate::error::{ErrorKind, Expected};
use crate::grammar::{description, name};
use crate::grammar::argument::arguments;
use crate::grammar::input::arguments_definition;
use crate::kind::{SyntaxKind, TokenKind};
use crate::parser::{
    advanced, at, at_keyword, bump, error, expect, extends, finish, paid, rest, spent, start, Input,
    Parser, State,
};
use vstd::prelude::*;

verus! {

/// Directive: `@` Name Arguments?
#[verifier::opaque]
pub open spec fn directive(inp: Input, s: State) -> State {
    let s = start(s, SyntaxKind::Directive);
    let s = bump(inp, s, SyntaxKind::At);
    let s = name(inp, s);
    let s = if at(inp, s, TokenKind::LParen) {
        arguments(inp, s)
    } else {
        s
    };
    finish(s)
}

/// One directive after the other.
#[verifier::opaque]
pub open spec fn directive_list(inp: Input, s: State) -> State
    decreases rest(inp, s),
{
    if at(inp, s, TokenKind::At) {
        let t = directive(inp, s);
        if advanced(inp, s, t) {
            directive_list(inp, t)
        } else {
            t
        }
    } else {
        s
    }
}

/// Directives: Directive+
#[verifier::opaque]
pub open spec fn directives(inp: Input, s: State) -> State {
    let s = start(s, SyntaxKind::Directives);
    let s = directive_list(inp, s);
    finish(s)
}

/// DirectiveLocation: a name. Whether it names a location of the language
/// is not a matter of syntax.
#[verifier::opaque]
pub open spec fn directive_location(inp: Input, s: State) -> State {
    if at(inp, s, TokenKind::Name) {
        let s = start(s, SyntaxKind::DirectiveLocation);
        let s = bump(inp, s, SyntaxKind::Ident);
        finish(s)
    } else {
        error(inp, s, ErrorKind::Missing, Expected::DirectiveLocation)
    }
}

/// The further locations, each behind `|`.
#[verifier::opaque]
pub open spec fn directive_location_list(inp: Input, s: State) -> State
    decreases rest(inp, s),
{
    if at(inp, s, TokenKind::Pipe) {
        let t = {
            let s = bump(inp, s, SyntaxKind::Pipe);
            directive_location(inp, s)
        };
        if advanced(inp, s, t) {
            directive_location_list(inp, t)
        } else {
            t
        }
    } else {
        s
    }
}

/// DirectiveLocations: `|`? DirectiveLocation (`|` DirectiveLocation)*
#[verifier::opaque]
pub open spec fn directive_locations(inp: Input, s: State) -> State {
    let s = start(s, SyntaxKind::DirectiveLocations);
    let s = if at(inp, s, TokenKind::Pipe) {
        bump(inp, s, SyntaxKind::Pipe)
    } else {
        s
    };
    let s = directive_location(inp, s);
    let s = directive_location_list(inp, s);
    finish(s)
}

/// Where a directive can stand: `repeatable`? `on` DirectiveLocations
#[verifier::opaque]
pub open spec fn directive_targets(inp: Input, s: State) -> State {
    let s = if at_keyword(inp, s, SyntaxKind::RepeatableKw) {
        bump(inp, s, SyntaxKind::RepeatableKw)
    } else {
        s
    };
    if at_keyword(inp, s, SyntaxKind::OnKw) {
        let s = bump(inp, s, SyntaxKind::OnKw);
        directive_locations(inp, s)
    } else {
        error(inp, s, ErrorKind::Missing, Expected::On)
    }
}

/// DirectiveDefinition: Description? `directive` `@` Name
/// ArgumentsDefinition? `repeatable`? `on` DirectiveLocations
#[verifier::opaque]
pub open spec fn directive_definition(inp: Input, s: State) -> State {
    let s = start(s, SyntaxKind::DirectiveDefinition);
    let s = if at(inp, s, TokenKind::StringValue) {
        description(inp, s)
    } else {
        s
    };
    let s = bump(inp, s, SyntaxKind::DirectiveKw);
    let s = expect(inp, s, TokenKind::At, SyntaxKind::At, Expected::At);
    let s = name(inp, s);
    let s = if at(inp, s, TokenKind::LParen) {
        arguments_definition(inp, s)
    } else {
        s
    };
    let s = directive_targets(inp, s);
    finish(s)
}

impl<'a> Parser<'a> {
    /// Directive: `@` Name Arguments?
    pub fn directive(&mut self)
        requires
            old(self).wf(),
            old(self).at(TokenKind::At),
        ensures
            old(self).step(final(self), directive(old(self).input(), old(self).state()), 4, 21),
            old(self).moved(final(self)),
    {
        proof {
            reveal(directive);
            self.lemma_wf();
        }
        self.start(SyntaxKind::Directive);
        self.bump(SyntaxKind::At);
        self.name();
        if self.is_at(TokenKind::LParen) {
            self.arguments();
        }
        self.finish();
        proof {
            self.lemma_wf();
        }
    }

    /// One directive after the other.
    pub fn directive_list(&mut self)
        requires
            old(self).wf(),
        ensures
            old(self).step(
                final(self),
                directive_list(old(self).input(), old(self).state()),
                0,
                21,
            ),
            !final(self).at(TokenKind::At),
            old(self).at(TokenKind::At) ==> old(self).moved(final(self)),
    {
        proof {
            reveal(directive_list);
            self.lemma_wf();
        }
        let ghost inp = self.input();
        let ghost s0 = self.state();
        while self.is_at(TokenKind::At)
            invariant
                self.wf(),
                self.input() == inp,
                self.depth() == old(self).depth(),
                inp == old(self).input(),
                s0 == old(self).state(),
                0 <= s0.pos <= inp.tokens.len(),
                extends(s0, self.state()),
                spent(s0, self.state(), 0),
                paid(s0, self.state(), 21),
                self.state().pos > s0.pos || self.state() == s0,
                directive_list(inp, self.state()) == directive_list(inp, s0),
            decreases rest(inp, self.state()),
        {
            proof {
                reveal(directive_list);
                self.lemma_wf();
            }
            self.directive();
            proof {
                self.lemma_wf();
            }
        }
        proof {
            self.lemma_wf();
        }
    }

    /// Directives: Directive+
    pub fn directives(&mut self)
        requires
            old(self).wf(),
            old(self).at(TokenKind::At),
        ensures
            old(self).step(final(self), directives(old(self).input(), old(self).state()), 2, 23),
            old(self).moved(final(self)),
    {
        proof {
            reveal(directives);
            self.lemma_wf();
        }
        self.start(SyntaxKind::Directives);
        self.directive_list();
        self.finish();
        proof {
            self.lemma_wf();
        }
    }

    /// DirectiveLocation: a name. Whether it names a location of the language
    /// is not a matter of syntax.
    pub fn directive_location(&mut self)
        requires
            old(self).wf(),
        ensures
            old(self).step(
                final(self),
                directive_location(old(self).input(), old(self).state()),
                2,
                2,
            ),
            old(self).at(TokenKind::Name) ==> old(self).moved(final(self)),
    {
        proof {
            reveal(directive_location);
            self.lemma_wf();
        }
        if self.is_at(TokenKind::Name) {
            self.start(SyntaxKind::DirectiveLocation);
            self.bump(SyntaxKind::Ident);
            self.finish();
        } else {
            self.error(ErrorKind::Missing, Expected::DirectiveLocation);
        }
        proof {
            self.lemma_wf();
        }
    }

    /// The further locations, each behind `|`.
    pub fn directive_location_list(&mut self)
        requires
            old(self).wf(),
        ensures
            old(self).step(
                final(self),
                directive_location_list(old(self).input(), old(self).state()),
                0,
                2,
            ),
            !final(self).at(TokenKind::Pipe),
    {
        proof {
            reveal(directive_location_list);
            self.lemma_wf();
        }
        let ghost inp = self.input();
        let ghost s0 = self.state();
        while self.is_at(TokenKind::Pipe)
            invariant
                self.wf(),
                self.input() == inp,
                self.depth() == old(self).depth(),
                inp == old(self).input(),
                s0 == old(self).state(),
                0 <= s0.pos <= inp.tokens.len(),
                extends(s0, self.state()),
                spent(s0, self.state(), 0),
                paid(s0, self.state(), 2),
                self.state().pos > s0.pos || self.state() == s0,
                directive_location_list(inp, self.state()) == directive_location_list(inp, s0),
            decreases rest(inp, self.state()),
        {
            proof {
                reveal(directive_location_list);
                self.lemma_wf();
            }
            self.bump(SyntaxKind::Pipe);
            self.directive_location();
            proof {
                self.lemma_wf();
            }
        }
        proof {
            self.lemma_wf();
        }
    }

    /// DirectiveLocations: `|`? DirectiveLocation (`|` DirectiveLocation)*
    pub fn directive_locations(&mut self)
        requires
            old(self).wf(),
        ensures
            old(self).step(
                final(self),
                directive_locations(old(self).input(), old(self).state()),
                4,
                6,
            ),
    {
        proof {
            reveal(directive_locations);
            self.lemma_wf();
        }
        self.start(SyntaxKind::DirectiveLocations);
        if self.is_at(TokenKind::Pipe) {
            self.bump(SyntaxKind::Pipe);
        }
        self.directive_location();
        self.directive_location_list();
        self.finish();
        proof {
            self.lemma_wf();
        }
    }

    /// Where a directive can stand: `repeatable`? `on` DirectiveLocations
    pub fn directive_targets(&mut self)
        requires
            old(self).wf(),
        ensures
            old(self).step(
                final(self),
                directive_targets(old(self).input(), old(self).state()),
                4,
                6,
            ),
    {
        proof {
            reveal(directive_targets);
            self.lemma_wf();
        }
        if self.is_at_keyword(SyntaxKind::RepeatableKw) {
            self.bump(SyntaxKind::RepeatableKw);
        }
        if self.is_at_keyword(SyntaxKind::OnKw) {
            self.bump(SyntaxKind::OnKw);
            self.directive_locations();
        } else {
            self.error(ErrorKind::Missing, Expected::On);
        }
        proof {
            self.lemma_wf();
        }
    }

    /// DirectiveDefinition: Description? `directive` `@` Name
    /// ArgumentsDefinition? `repeatable`? `on` DirectiveLocations
    pub fn directive_definition(&mut self)
        requires
            old(self).wf(),
            old(self).leads(SyntaxKind::DirectiveKw),
        ensures
            old(self).step(
                final(self),
                directive_definition(old(self).input(), old(self).state()),
                9,
                41,
            ),
            old(self).moved(final(self)),
    {
        proof {
            reveal(directive_definition);
            self.lemma_wf();
        }
        self.start(SyntaxKind::DirectiveDefinition);
        if self.is_at(TokenKind::StringValue) {
            self.description();
        }
        self.bump(SyntaxKind::DirectiveKw);
        self.expect(TokenKind::At, SyntaxKind::At, Expected::At);
        self.name();
        if self.is_at(TokenKind::LParen) {
            self.arguments_definition();
        }
        self.directive_targets();
        self.finish();
        proof {
            self.lemma_wf();
        }
    }
}

} // verus!
