//! Input values: the arguments that a field or a directive takes, and
//! input object types with their extensions.

use crate::error::{ErrorKind, Expected};
use crate::grammar::{description, list_stop, name};
use crate::grammar::directive::directives;
use crate::grammar::ty::{ty, type_start};
use crate::grammar::variable::default_value;
use crate::kind::{SyntaxKind, TokenKind};
use crate::parser::{
    advanced, at, bump, error, expect, extends, finish, paid, rest, spent, start, unexpected, Input,
    Parser, State,
};
use vstd::prelude::*;

verus! {

/// InputValueDefinition: Description? Name `:` Type DefaultValue?
/// Directives?
#[verifier::opaque]
pub open spec fn input_value_definition(inp: Input, s: State) -> State {
    let s = start(s, SyntaxKind::InputValueDefinition);
    let s = if at(inp, s, TokenKind::StringValue) {
        description(inp, s)
    } else {
        s
    };
    let s = name(inp, s);
    let s = expect(inp, s, TokenKind::Colon, SyntaxKind::Colon, Expected::Colon);
    let s = if type_start(inp, s) {
        ty(inp, s)
    } else {
        error(inp, s, ErrorKind::Missing, Expected::Type)
    };
    let s = if at(inp, s, TokenKind::Eq) {
        default_value(inp, s)
    } else {
        s
    };
    let s = if at(inp, s, TokenKind::At) {
        directives(inp, s)
    } else {
        s
    };
    finish(s)
}

/// Input value definitions up to the closing delimiter.
#[verifier::opaque]
pub open spec fn input_value_list(inp: Input, s: State) -> State
    decreases rest(inp, s),
{
    if at(inp, s, TokenKind::Name) || at(inp, s, TokenKind::StringValue) {
        let t = input_value_definition(inp, s);
        if advanced(inp, s, t) {
            input_value_list(inp, t)
        } else {
            t
        }
    } else if list_stop(inp, s) {
        s
    } else {
        let t = unexpected(inp, s, Expected::Name);
        if advanced(inp, s, t) {
            input_value_list(inp, t)
        } else {
            t
        }
    }
}

/// ArgumentsDefinition: `(` InputValueDefinition* `)`
#[verifier::opaque]
pub open spec fn arguments_definition(inp: Input, s: State) -> State {
    let s = start(s, SyntaxKind::ArgumentsDefinition);
    let s = bump(inp, s, SyntaxKind::LParen);
    let s = input_value_list(inp, s);
    let s = expect(inp, s, TokenKind::RParen, SyntaxKind::RParen, Expected::ClosingParen);
    finish(s)
}

/// InputFieldsDefinition: `{` InputValueDefinition* `}`
#[verifier::opaque]
pub open spec fn input_fields_definition(inp: Input, s: State) -> State {
    let s = start(s, SyntaxKind::InputFieldsDefinition);
    let s = bump(inp, s, SyntaxKind::LCurly);
    let s = input_value_list(inp, s);
    let s = expect(inp, s, TokenKind::RCurly, SyntaxKind::RCurly, Expected::ClosingBrace);
    finish(s)
}

/// InputObjectTypeDefinition: Description? `input` Name Directives?
/// InputFieldsDefinition?
#[verifier::opaque]
pub open spec fn input_object_type_definition(inp: Input, s: State) -> State {
    let s = start(s, SyntaxKind::InputObjectTypeDefinition);
    let s = if at(inp, s, TokenKind::StringValue) {
        description(inp, s)
    } else {
        s
    };
    let s = bump(inp, s, SyntaxKind::InputKw);
    let s = name(inp, s);
    let s = if at(inp, s, TokenKind::At) {
        directives(inp, s)
    } else {
        s
    };
    let s = if at(inp, s, TokenKind::LCurly) {
        input_fields_definition(inp, s)
    } else {
        s
    };
    finish(s)
}

/// InputObjectTypeExtension: `extend` `input` Name Directives?
/// InputFieldsDefinition?
#[verifier::opaque]
pub open spec fn input_object_type_extension(inp: Input, s: State) -> State {
    let s = start(s, SyntaxKind::InputObjectTypeExtension);
    let s = bump(inp, s, SyntaxKind::ExtendKw);
    let s = bump(inp, s, SyntaxKind::InputKw);
    let s = name(inp, s);
    let s = if at(inp, s, TokenKind::At) {
        directives(inp, s)
    } else {
        s
    };
    let s = if at(inp, s, TokenKind::LCurly) {
        input_fields_definition(inp, s)
    } else {
        s
    };
    finish(s)
}

impl<'a> Parser<'a> {
    /// InputValueDefinition: Description? Name `:` Type DefaultValue?
    /// Directives?
    pub fn input_value_definition(&mut self)
        requires
            old(self).wf(),
            old(self).at(TokenKind::Name) || old(self).at(TokenKind::StringValue),
        ensures
            old(self).step(
                final(self),
                input_value_definition(old(self).input(), old(self).state()),
                6,
                29,
            ),
            old(self).moved(final(self)),
    {
        proof {
            reveal(input_value_definition);
            self.lemma_wf();
        }
        self.start(SyntaxKind::InputValueDefinition);
        if self.is_at(TokenKind::StringValue) {
            self.description();
        }
        self.name();
        self.expect(TokenKind::Colon, SyntaxKind::Colon, Expected::Colon);
        if self.is_type_start() {
            self.ty();
        } else {
            self.error(ErrorKind::Missing, Expected::Type);
        }
        if self.is_at(TokenKind::Eq) {
            self.default_value();
        }
        if self.is_at(TokenKind::At) {
            self.directives();
        }
        self.finish();
        proof {
            self.lemma_wf();
        }
    }

    /// Input value definitions up to the closing delimiter.
    pub fn input_value_list(&mut self)
        requires
            old(self).wf(),
        ensures
            old(self).step(
                final(self),
                input_value_list(old(self).input(), old(self).state()),
                0,
                29,
            ),
            final(self).list_stop(),
    {
        proof {
            reveal(input_value_list);
            self.lemma_wf();
        }
        let ghost inp = self.input();
        let ghost s0 = self.state();
        while !self.is_list_stop()
            invariant
                self.wf(),
                self.input() == inp,
                self.depth() == old(self).depth(),
                inp == old(self).input(),
                s0 == old(self).state(),
                0 <= s0.pos <= inp.tokens.len(),
                extends(s0, self.state()),
                spent(s0, self.state(), 0),
                paid(s0, self.state(), 29),
                self.state().pos > s0.pos || self.state() == s0,
                input_value_list(inp, self.state()) == input_value_list(inp, s0),
            decreases rest(inp, self.state()),
        {
            proof {
                reveal(input_value_list);
                self.lemma_wf();
            }
            if self.is_at(TokenKind::Name) || self.is_at(TokenKind::StringValue) {
                self.input_value_definition();
            } else {
                self.unexpected(Expected::Name);
            }
            proof {
                self.lemma_wf();
            }
        }
        proof {
            self.lemma_wf();
        }
    }

    /// ArgumentsDefinition: `(` InputValueDefinition* `)`
    pub fn arguments_definition(&mut self)
        requires
            old(self).wf(),
            old(self).at(TokenKind::LParen),
        ensures
            old(self).step(
                final(self),
                arguments_definition(old(self).input(), old(self).state()),
                3,
                32,
            ),
            old(self).moved(final(self)),
    {
        proof {
            reveal(arguments_definition);
            self.lemma_wf();
        }
        self.start(SyntaxKind::ArgumentsDefinition);
        self.bump(SyntaxKind::LParen);
        self.input_value_list();
        self.expect(TokenKind::RParen, SyntaxKind::RParen, Expected::ClosingParen);
        self.finish();
        proof {
            self.lemma_wf();
        }
    }

    /// InputFieldsDefinition: `{` InputValueDefinition* `}`
    pub fn input_fields_definition(&mut self)
        requires
            old(self).wf(),
            old(self).at(TokenKind::LCurly),
        ensures
            old(self).step(
                final(self),
                input_fields_definition(old(self).input(), old(self).state()),
                3,
                32,
            ),
            old(self).moved(final(self)),
    {
        proof {
            reveal(input_fields_definition);
            self.lemma_wf();
        }
        self.start(SyntaxKind::InputFieldsDefinition);
        self.bump(SyntaxKind::LCurly);
        self.input_value_list();
        self.expect(TokenKind::RCurly, SyntaxKind::RCurly, Expected::ClosingBrace);
        self.finish();
        proof {
            self.lemma_wf();
        }
    }

    /// InputObjectTypeDefinition: Description? `input` Name Directives?
    /// InputFieldsDefinition?
    pub fn input_object_type_definition(&mut self)
        requires
            old(self).wf(),
            old(self).leads(SyntaxKind::InputKw),
        ensures
            old(self).step(
                final(self),
                input_object_type_definition(old(self).input(), old(self).state()),
                4,
                36,
            ),
            old(self).moved(final(self)),
    {
        proof {
            reveal(input_object_type_definition);
            self.lemma_wf();
        }
        self.start(SyntaxKind::InputObjectTypeDefinition);
        if self.is_at(TokenKind::StringValue) {
            self.description();
        }
        self.bump(SyntaxKind::InputKw);
        self.name();
        if self.is_at(TokenKind::At) {
            self.directives();
        }
        if self.is_at(TokenKind::LCurly) {
            self.input_fields_definition();
        }
        self.finish();
        proof {
            self.lemma_wf();
        }
    }

    /// InputObjectTypeExtension: `extend` `input` Name Directives?
    /// InputFieldsDefinition?
    pub fn input_object_type_extension(&mut self)
        requires
            old(self).wf(),
            old(self).at_keyword(SyntaxKind::ExtendKw)
                && old(self).second_keyword(SyntaxKind::InputKw),
        ensures
            old(self).step(
                final(self),
                input_object_type_extension(old(self).input(), old(self).state()),
                4,
                36,
            ),
            old(self).moved(final(self)),
    {
        proof {
            reveal(input_object_type_extension);
            self.lemma_wf();
        }
        self.start(SyntaxKind::InputObjectTypeExtension);
        self.bump(SyntaxKind::ExtendKw);
        self.bump(SyntaxKind::InputKw);
        self.name();
        if self.is_at(TokenKind::At) {
            self.directives();
        }
        if self.is_at(TokenKind::LCurly) {
            self.input_fields_definition();
        }
        self.finish();
        proof {
            self.lemma_wf();
        }
    }
}

} // verus!
