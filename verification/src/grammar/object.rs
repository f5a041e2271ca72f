//! Object types and their extensions; the fields and the implemented
//! interfaces, which interfaces have too.

use crate::error::{ErrorKind, Expected};
use crate::grammar::{description, list_stop, name};
use crate::grammar::directive::directives;
use crate::grammar::input::arguments_definition;
use crate::grammar::ty::{named_type, ty, type_start};
use crate::kind::{SyntaxKind, TokenKind};
use crate::parser::{
    advanced, at, at_keyword, bump, error, expect, extends, finish, paid, rest, spent, start,
    unexpected, Input, Parser, State,
};
use vstd::prelude::*;

verus! {

/// The further interfaces, each behind `&`.
#[verifier::opaque]
pub open spec fn implements_list(inp: Input, s: State) -> State
    decreases rest(inp, s),
{
    if at(inp, s, TokenKind::Amp) {
        let t = {
            let s = bump(inp, s, SyntaxKind::Amp);
            named_type(inp, s)
        };
        if advanced(inp, s, t) {
            implements_list(inp, t)
        } else {
            t
        }
    } else {
        s
    }
}

/// ImplementsInterfaces: `implements` `&`? NamedType (`&` NamedType)*
#[verifier::opaque]
pub open spec fn implements_interfaces(inp: Input, s: State) -> State {
    let s = start(s, SyntaxKind::ImplementsInterfaces);
    let s = bump(inp, s, SyntaxKind::ImplementsKw);
    let s = if at(inp, s, TokenKind::Amp) {
        bump(inp, s, SyntaxKind::Amp)
    } else {
        s
    };
    let s = named_type(inp, s);
    let s = implements_list(inp, s);
    finish(s)
}

/// FieldDefinition: Description? Name ArgumentsDefinition? `:` Type
/// Directives?
#[verifier::opaque]
pub open spec fn field_definition(inp: Input, s: State) -> State {
    let s = start(s, SyntaxKind::FieldDefinition);
    let s = if at(inp, s, TokenKind::StringValue) {
        description(inp, s)
    } else {
        s
    };
    let s = name(inp, s);
    let s = if at(inp, s, TokenKind::LParen) {
        arguments_definition(inp, s)
    } else {
        s
    };
    let s = expect(inp, s, TokenKind::Colon, SyntaxKind::Colon, Expected::Colon);
    let s = if type_start(inp, s) {
        ty(inp, s)
    } else {
        error(inp, s, ErrorKind::Missing, Expected::Type)
    };
    let s = if at(inp, s, TokenKind::At) {
        directives(inp, s)
    } else {
        s
    };
    finish(s)
}

/// Field definitions up to the closing brace.
#[verifier::opaque]
pub open spec fn field_definition_list(inp: Input, s: State) -> State
    decreases rest(inp, s),
{
    if at(inp, s, TokenKind::Name) || at(inp, s, TokenKind::StringValue) {
        let t = field_definition(inp, s);
        if advanced(inp, s, t) {
            field_definition_list(inp, t)
        } else {
            t
        }
    } else if list_stop(inp, s) {
        s
    } else {
        let t = unexpected(inp, s, Expected::Fields);
        if advanced(inp, s, t) {
            field_definition_list(inp, t)
        } else {
            t
        }
    }
}

/// FieldsDefinition: `{` FieldDefinition* `}`
#[verifier::opaque]
pub open spec fn fields_definition(inp: Input, s: State) -> State {
    let s = start(s, SyntaxKind::FieldsDefinition);
    let s = bump(inp, s, SyntaxKind::LCurly);
    let s = field_definition_list(inp, s);
    let s = expect(inp, s, TokenKind::RCurly, SyntaxKind::RCurly, Expected::ClosingBrace);
    finish(s)
}

/// ObjectTypeDefinition: Description? `type` Name ImplementsInterfaces?
/// Directives? FieldsDefinition?
#[verifier::opaque]
pub open spec fn object_type_definition(inp: Input, s: State) -> State {
    let s = start(s, SyntaxKind::ObjectTypeDefinition);
    let s = if at(inp, s, TokenKind::StringValue) {
        description(inp, s)
    } else {
        s
    };
    let s = bump(inp, s, SyntaxKind::TypeKw);
    let s = name(inp, s);
    let s = if at_keyword(inp, s, SyntaxKind::ImplementsKw) {
        implements_interfaces(inp, s)
    } else {
        s
    };
    let s = if at(inp, s, TokenKind::At) {
        directives(inp, s)
    } else {
        s
    };
    let s = if at(inp, s, TokenKind::LCurly) {
        fields_definition(inp, s)
    } else {
        s
    };
    finish(s)
}

/// ObjectTypeExtension: `extend` `type` Name ImplementsInterfaces?
/// Directives? FieldsDefinition?
#[verifier::opaque]
pub open spec fn object_type_extension(inp: Input, s: State) -> State {
    let s = start(s, SyntaxKind::ObjectTypeExtension);
    let s = bump(inp, s, SyntaxKind::ExtendKw);
    let s = bump(inp, s, SyntaxKind::TypeKw);
    let s = name(inp, s);
    let s = if at_keyword(inp, s, SyntaxKind::ImplementsKw) {
        implements_interfaces(inp, s)
    } else {
        s
    };
    let s = if at(inp, s, TokenKind::At) {
        directives(inp, s)
    } else {
        s
    };
    let s = if at(inp, s, TokenKind::LCurly) {
        fields_definition(inp, s)
    } else {
        s
    };
    finish(s)
}

impl<'a> Parser<'a> {
    /// The further interfaces, each behind `&`.
    pub fn implements_list(&mut self)
        requires
            old(self).wf(),
        ensures
            old(self).step(
                final(self),
                implements_list(old(self).input(), old(self).state()),
                0,
                4,
            ),
            !final(self).at(TokenKind::Amp),
    {
        proof {
            reveal(implements_list);
            self.lemma_wf();
        }
        let ghost inp = self.input();
        let ghost s0 = self.state();
        while self.is_at(TokenKind::Amp)
            invariant
                self.wf(),
                self.input() == inp,
                self.depth() == old(self).depth(),
                inp == old(self).input(),
                s0 == old(self).state(),
                0 <= s0.pos <= inp.tokens.len(),
                extends(s0, self.state()),
                spent(s0, self.state(), 0),
                paid(s0, self.state(), 4),
                self.state().pos > s0.pos || self.state() == s0,
                implements_list(inp, self.state()) == implements_list(inp, s0),
            decreases rest(inp, self.state()),
        {
            proof {
                reveal(implements_list);
                self.lemma_wf();
            }
            self.bump(SyntaxKind::Amp);
            self.named_type();
            proof {
                self.lemma_wf();
            }
        }
        proof {
            self.lemma_wf();
        }
    }

    /// ImplementsInterfaces: `implements` `&`? NamedType (`&` NamedType)*
    pub fn implements_interfaces(&mut self)
        requires
            old(self).wf(),
            old(self).at_keyword(SyntaxKind::ImplementsKw),
        ensures
            old(self).step(
                final(self),
                implements_interfaces(old(self).input(), old(self).state()),
                6,
                10,
            ),
            old(self).moved(final(self)),
    {
        proof {
            reveal(implements_interfaces);
            self.lemma_wf();
        }
        self.start(SyntaxKind::ImplementsInterfaces);
        self.bump(SyntaxKind::ImplementsKw);
        if self.is_at(TokenKind::Amp) {
            self.bump(SyntaxKind::Amp);
        }
        self.named_type();
        self.implements_list();
        self.finish();
        proof {
            self.lemma_wf();
        }
    }

    /// FieldDefinition: Description? Name ArgumentsDefinition? `:` Type
    /// Directives?
    pub fn field_definition(&mut self)
        requires
            old(self).wf(),
            old(self).at(TokenKind::Name) || old(self).at(TokenKind::StringValue),
        ensures
            old(self).step(
                final(self),
                field_definition(old(self).input(), old(self).state()),
                6,
                38,
            ),
            old(self).moved(final(self)),
    {
        proof {
            reveal(field_definition);
            self.lemma_wf();
        }
        self.start(SyntaxKind::FieldDefinition);
        if self.is_at(TokenKind::StringValue) {
            self.description();
        }
        self.name();
        if self.is_at(TokenKind::LParen) {
            self.arguments_definition();
        }
        self.expect(TokenKind::Colon, SyntaxKind::Colon, Expected::Colon);
        if self.is_type_start() {
            self.ty();
        } else {
            self.error(ErrorKind::Missing, Expected::Type);
        }
        if self.is_at(TokenKind::At) {
            self.directives();
        }
        self.finish();
        proof {
            self.lemma_wf();
        }
    }

    /// Field definitions up to the closing brace.
    pub fn field_definition_list(&mut self)
        requires
            old(self).wf(),
        ensures
            old(self).step(
                final(self),
                field_definition_list(old(self).input(), old(self).state()),
                0,
                38,
            ),
            final(self).list_stop(),
    {
        proof {
            reveal(field_definition_list);
            self.lemma_wf();
        }
        let ghost inp = self.input();
        let ghost s0 = self.state();
        while !self.is_list_stop()
            invariant
                self.wf(),
                self.input() == inp,
                self.depth() == old(self).depth(),
                inp == old(self).input(),
                s0 == old(self).state(),
                0 <= s0.pos <= inp.tokens.len(),
                extends(s0, self.state()),
                spent(s0, self.state(), 0),
                paid(s0, self.state(), 38),
                self.state().pos > s0.pos || self.state() == s0,
                field_definition_list(inp, self.state()) == field_definition_list(inp, s0),
            decreases rest(inp, self.state()),
        {
            proof {
                reveal(field_definition_list);
                self.lemma_wf();
            }
            if self.is_at(TokenKind::Name) || self.is_at(TokenKind::StringValue) {
                self.field_definition();
            } else {
                self.unexpected(Expected::Fields);
            }
            proof {
                self.lemma_wf();
            }
        }
        proof {
            self.lemma_wf();
        }
    }

    /// FieldsDefinition: `{` FieldDefinition* `}`
    pub fn fields_definition(&mut self)
        requires
            old(self).wf(),
            old(self).at(TokenKind::LCurly),
        ensures
            old(self).step(
                final(self),
                fields_definition(old(self).input(), old(self).state()),
                3,
                41,
            ),
            old(self).moved(final(self)),
    {
        proof {
            reveal(fields_definition);
            self.lemma_wf();
        }
        self.start(SyntaxKind::FieldsDefinition);
        self.bump(SyntaxKind::LCurly);
        self.field_definition_list();
        self.expect(TokenKind::RCurly, SyntaxKind::RCurly, Expected::ClosingBrace);
        self.finish();
        proof {
            self.lemma_wf();
        }
    }

    /// ObjectTypeDefinition: Description? `type` Name ImplementsInterfaces?
    /// Directives? FieldsDefinition?
    #[verifier::rlimit(30)]
    pub fn object_type_definition(&mut self)
        requires
            old(self).wf(),
            old(self).leads(SyntaxKind::TypeKw),
        ensures
            old(self).step(
                final(self),
                object_type_definition(old(self).input(), old(self).state()),
                4,
                45,
            ),
            old(self).moved(final(self)),
    {
        proof {
            reveal(object_type_definition);
            self.lemma_wf();
        }
        self.start(SyntaxKind::ObjectTypeDefinition);
        if self.is_at(TokenKind::StringValue) {
            self.description();
        }
        self.bump(SyntaxKind::TypeKw);
        self.name();
        if self.is_at_keyword(SyntaxKind::ImplementsKw) {
            self.implements_interfaces();
        }
        if self.is_at(TokenKind::At) {
            self.directives();
        }
        if self.is_at(TokenKind::LCurly) {
            self.fields_definition();
        }
        self.finish();
        proof {
            self.lemma_wf();
        }
    }

    /// ObjectTypeExtension: `extend` `type` Name ImplementsInterfaces?
    /// Directives? FieldsDefinition?
    pub fn object_type_extension(&mut self)
        requires
            old(self).wf(),
            old(self).at_keyword(SyntaxKind::ExtendKw)
                && old(self).second_keyword(SyntaxKind::TypeKw),
        ensures
            old(self).step(
                final(self),
                object_type_extension(old(self).input(), old(self).state()),
                4,
                45,
            ),
            old(self).moved(final(self)),
    {
        proof {
            reveal(object_type_extension);
            self.lemma_wf();
        }
        self.start(SyntaxKind::ObjectTypeExtension);
        self.bump(SyntaxKind::ExtendKw);
        self.bump(SyntaxKind::TypeKw);
        self.name();
        if self.is_at_keyword(SyntaxKind::ImplementsKw) {
            self.implements_interfaces();
        }
        if self.is_at(TokenKind::At) {
            self.directives();
        }
        if self.is_at(TokenKind::LCurly) {
            self.fields_definition();
        }
        self.finish();
        proof {
            self.lemma_wf();
        }
    }
}

} // verus!
