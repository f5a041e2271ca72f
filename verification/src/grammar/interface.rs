//! Interfaces and their extensions.

use crate::grammar::{description, name};
use crate::grammar::directive::directives;
use crate::grammar::object::{fields_definition, implements_interfaces};
use crate::kind::{SyntaxKind, TokenKind};
use crate::parser::{at, at_keyword, bump, finish, start, Input, Parser, State};
use vstd::prelude::*;

verus! {

/// InterfaceTypeDefinition: Description? `interface` Name
/// ImplementsInterfaces? Directives? FieldsDefinition?
#[verifier::opaque]
pub open spec fn interface_type_definition(inp: Input, s: State) -> State {
    let s = start(s, SyntaxKind::InterfaceTypeDefinition);
    let s = if at(inp, s, TokenKind::StringValue) {
        description(inp, s)
    } else {
        s
    };
    let s = bump(inp, s, SyntaxKind::InterfaceKw);
    let s = name(inp, s);
    let s = if at_keyword(inp, s, SyntaxKind::ImplementsKw) {
        implements_interfaces(inp, s)
    } else {
        s
    };
    let s = if at(inp, s, TokenKind::At) {
        directives(inp, s)
    } else {
        s
    };
    let s = if at(inp, s, TokenKind::LCurly) {
        fields_definition(inp, s)
    } else {
        s
    };
    finish(s)
}

/// InterfaceTypeExtension: `extend` `interface` Name
/// ImplementsInterfaces? Directives? FieldsDefinition?
#[verifier::opaque]
pub open spec fn interface_type_extension(inp: Input, s: State) -> State {
    let s = start(s, SyntaxKind::InterfaceTypeExtension);
    let s = bump(inp, s, SyntaxKind::ExtendKw);
    let s = bump(inp, s, SyntaxKind::InterfaceKw);
    let s = name(inp, s);
    let s = if at_keyword(inp, s, SyntaxKind::ImplementsKw) {
        implements_interfaces(inp, s)
    } else {
        s
    };
    let s = if at(inp, s, TokenKind::At) {
        directives(inp, s)
    } else {
        s
    };
    let s = if at(inp, s, TokenKind::LCurly) {
        fields_definition(inp, s)
    } else {
        s
    };
    finish(s)
}

impl<'a> Parser<'a> {
    /// InterfaceTypeDefinition: Description? `interface` Name
    /// ImplementsInterfaces? Directives? FieldsDefinition?
    pub fn interface_type_definition(&mut self)
        requires
            old(self).wf(),
            old(self).leads(SyntaxKind::InterfaceKw),
        ensures
            old(self).step(
                final(self),
                interface_type_definition(old(self).input(), old(self).state()),
                4,
                45,
            ),
            old(self).moved(final(self)),
    {
        proof {
            reveal(interface_type_definition);
            self.lemma_wf();
        }
        self.start(SyntaxKind::InterfaceTypeDefinition);
        if self.is_at(TokenKind::StringValue) {
            self.description();
        }
        self.bump(SyntaxKind::InterfaceKw);
        self.name();
        if self.is_at_keyword(SyntaxKind::ImplementsKw) {
            self.implements_interfaces();
        }
        if self.is_at(TokenKind::At) {
            self.directives();
        }
        if self.is_at(TokenKind::LCurly) {
            self.fields_definition();
        }
        self.finish();
        proof {
            self.lemma_wf();
        }
    }

    /// InterfaceTypeExtension: `extend` `interface` Name
    /// ImplementsInterfaces? Directives? FieldsDefinition?
    pub fn interface_type_extension(&mut self)
        requires
            old(self).wf(),
            old(self).at_keyword(SyntaxKind::ExtendKw)
                && old(self).second_keyword(SyntaxKind::InterfaceKw),
        ensures
            old(self).step(
                final(self),
                interface_type_extension(old(self).input(), old(self).state()),
                4,
                45,
            ),
            old(self).moved(final(self)),
    {
        proof {
            reveal(interface_type_extension);
            self.lemma_wf();
        }
        self.start(SyntaxKind::InterfaceTypeExtension);
        self.bump(SyntaxKind::ExtendKw);
        self.bump(SyntaxKind::InterfaceKw);
        self.name();
        if self.is_at_keyword(SyntaxKind::ImplementsKw) {
            self.implements_interfaces();
        }
        if self.is_at(TokenKind::At) {
            self.directives();
        }
        if self.is_at(TokenKind::LCurly) {
            self.fields_definition();
        }
        self.finish();
        proof {
            self.lemma_wf();
        }
    }
}

} // verus!
