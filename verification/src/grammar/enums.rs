//! Enums and their extensions.

use crate::error::Expected;
use crate::grammar::{description, list_stop, name};
use crate::grammar::directive::directives;
use crate::kind::{SyntaxKind, TokenKind};
use crate::parser::{
    advanced, at, bump, expect, extends, finish, paid, rest, spent, start, unexpected, Input,
    Parser, State,
};
use vstd::prelude::*;

verus! {

/// EnumValueDefinition: Description? EnumValue Directives?
#[verifier::opaque]
pub open spec fn enum_value_definition(inp: Input, s: State) -> State {
    let s = start(s, SyntaxKind::EnumValueDefinition);
    let s = if at(inp, s, TokenKind::StringValue) {
        description(inp, s)
    } else {
        s
    };
    let s = start(s, SyntaxKind::EnumValue);
    let s = name(inp, s);
    let s = finish(s);
    let s = if at(inp, s, TokenKind::At) {
        directives(inp, s)
    } else {
        s
    };
    finish(s)
}

/// Enum value definitions up to the closing brace.
#[verifier::opaque]
pub open spec fn enum_value_list(inp: Input, s: State) -> State
    decreases rest(inp, s),
{
    if at(inp, s, TokenKind::Name) || at(inp, s, TokenKind::StringValue) {
        let t = enum_value_definition(inp, s);
        if advanced(inp, s, t) {
            enum_value_list(inp, t)
        } else {
            t
        }
    } else if list_stop(inp, s) {
        s
    } else {
        let t = unexpected(inp, s, Expected::Name);
        if advanced(inp, s, t) {
            enum_value_list(inp, t)
        } else {
            t
        }
    }
}

/// EnumValuesDefinition: `{` EnumValueDefinition* `}`
#[verifier::opaque]
pub open spec fn enum_values_definition(inp: Input, s: State) -> State {
    let s = start(s, SyntaxKind::EnumValuesDefinition);
    let s = bump(inp, s, SyntaxKind::LCurly);
    let s = enum_value_list(inp, s);
    let s = expect(inp, s, TokenKind::RCurly, SyntaxKind::RCurly, Expected::ClosingBrace);
    finish(s)
}

/// EnumTypeDefinition: Description? `enum` Name Directives?
/// EnumValuesDefinition?
#[verifier::opaque]
pub open spec fn enum_type_definition(inp: Input, s: State) -> State {
    let s = start(s, SyntaxKind::EnumTypeDefinition);
    let s = if at(inp, s, TokenKind::StringValue) {
        description(inp, s)
    } else {
        s
    };
    let s = bump(inp, s, SyntaxKind::EnumKw);
    let s = name(inp, s);
    let s = if at(inp, s, TokenKind::At) {
        directives(inp, s)
    } else {
        s
    };
    let s = if at(inp, s, TokenKind::LCurly) {
        enum_values_definition(inp, s)
    } else {
        s
    };
    finish(s)
}

/// EnumTypeExtension: `extend` `enum` Name Directives?
/// EnumValuesDefinition?
#[verifier::opaque]
pub open spec fn enum_type_extension(inp: Input, s: State) -> State {
    let s = start(s, SyntaxKind::EnumTypeExtension);
    let s = bump(inp, s, SyntaxKind::ExtendKw);
    let s = bump(inp, s, SyntaxKind::EnumKw);
    let s = name(inp, s);
    let s = if at(inp, s, TokenKind::At) {
        directives(inp, s)
    } else {
        s
    };
    let s = if at(inp, s, TokenKind::LCurly) {
        enum_values_definition(inp, s)
    } else {
        s
    };
    finish(s)
}

impl<'a> Parser<'a> {
    /// EnumValueDefinition: Description? EnumValue Directives?
    pub fn enum_value_definition(&mut self)
        requires
            old(self).wf(),
            old(self).at(TokenKind::Name) || old(self).at(TokenKind::StringValue),
        ensures
            old(self).step(
                final(self),
                enum_value_definition(old(self).input(), old(self).state()),
                6,
                29,
            ),
            old(self).moved(final(self)),
    {
        proof {
            reveal(enum_value_definition);
            self.lemma_wf();
        }
        self.start(SyntaxKind::EnumValueDefinition);
        if self.is_at(TokenKind::StringValue) {
            self.description();
        }
        self.start(SyntaxKind::EnumValue);
        self.name();
        self.finish();
        if self.is_at(TokenKind::At) {
            self.directives();
        }
        self.finish();
        proof {
            self.lemma_wf();
        }
    }

    /// Enum value definitions up to the closing brace.
    pub fn enum_value_list(&mut self)
        requires
            old(self).wf(),
        ensures
            old(self).step(
                final(self),
                enum_value_list(old(self).input(), old(self).state()),
                0,
                29,
            ),
            final(self).list_stop(),
    {
        proof {
            reveal(enum_value_list);
            self.lemma_wf();
        }
        let ghost inp = self.input();
        let ghost s0 = self.state();
        while !self.is_list_stop()
            invariant
                self.wf(),
                self.input() == inp,
                self.depth() == old(self).depth(),
                inp == old(self).input(),
                s0 == old(self).state(),
                0 <= s0.pos <= inp.tokens.len(),
                extends(s0, self.state()),
                spent(s0, self.state(), 0),
                paid(s0, self.state(), 29),
                self.state().pos > s0.pos || self.state() == s0,
                enum_value_list(inp, self.state()) == enum_value_list(inp, s0),
            decreases rest(inp, self.state()),
        {
            proof {
                reveal(enum_value_list);
                self.lemma_wf();
            }
            if self.is_at(TokenKind::Name) || self.is_at(TokenKind::StringValue) {
                self.enum_value_definition();
            } else {
                self.unexpected(Expected::Name);
            }
            proof {
                self.lemma_wf();
            }
        }
        proof {
            self.lemma_wf();
        }
    }

    /// EnumValuesDefinition: `{` EnumValueDefinition* `}`
    pub fn enum_values_definition(&mut self)
        requires
            old(self).wf(),
            old(self).at(TokenKind::LCurly),
        ensures
            old(self).step(
                final(self),
                enum_values_definition(old(self).input(), old(self).state()),
                3,
                32,
            ),
            old(self).moved(final(self)),
    {
        proof {
            reveal(enum_values_definition);
            self.lemma_wf();
        }
        self.start(SyntaxKind::EnumValuesDefinition);
        self.bump(SyntaxKind::LCurly);
        self.enum_value_list();
        self.expect(TokenKind::RCurly, SyntaxKind::RCurly, Expected::ClosingBrace);
        self.finish();
        proof {
            self.lemma_wf();
        }
    }

    /// EnumTypeDefinition: Description? `enum` Name Directives?
    /// EnumValuesDefinition?
    pub fn enum_type_definition(&mut self)
        requires
            old(self).wf(),
            old(self).leads(SyntaxKind::EnumKw),
        ensures
            old(self).step(
                final(self),
                enum_type_definition(old(self).input(), old(self).state()),
                4,
                36,
            ),
            old(self).moved(final(self)),
    {
        proof {
            reveal(enum_type_definition);
            self.lemma_wf();
        }
        self.start(SyntaxKind::EnumTypeDefinition);
        if self.is_at(TokenKind::StringValue) {
            self.description();
        }
        self.bump(SyntaxKind::EnumKw);
        self.name();
        if self.is_at(TokenKind::At) {
            self.directives();
        }
        if self.is_at(TokenKind::LCurly) {
            self.enum_values_definition();
        }
        self.finish();
        proof {
            self.lemma_wf();
        }
    }

    /// EnumTypeExtension: `extend` `enum` Name Directives?
    /// EnumValuesDefinition?
    pub fn enum_type_extension(&mut self)
        requires
            old(self).wf(),
            old(self).at_keyword(SyntaxKind::ExtendKw)
                && old(self).second_keyword(SyntaxKind::EnumKw),
        ensures
            old(self).step(
                final(self),
                enum_type_extension(old(self).input(), old(self).state()),
                4,
                36,
            ),
            old(self).moved(final(self)),
    {
        proof {
            reveal(enum_type_extension);
            self.lemma_wf();
        }
        self.start(SyntaxKind::EnumTypeExtension);
        self.bump(SyntaxKind::ExtendKw);
        self.bump(SyntaxKind::EnumKw);
        self.name();
        if self.is_at(TokenKind::At) {
            self.directives();
        }
        if self.is_at(TokenKind::LCurly) {
            self.enum_values_definition();
        }
        self.finish();
        proof {
            self.lemma_wf();
        }
    }
}

} // verus!
