//! Schemas and their extensions.

use crate::error::{ErrorKind, Expected};
use crate::grammar::{description, list_stop};
use crate::grammar::directive::directives;
use crate::grammar::operation::{operation_keyword, operation_type};
use crate::grammar::ty::named_type;
use crate::kind::{SyntaxKind, TokenKind};
use crate::parser::{
    advanced, at, bump, error, expect, extends, finish, paid, rest, spent, start, unexpected, Input,
    Parser, State,
};
use vstd::prelude::*;

verus! {

/// RootOperationTypeDefinition: OperationType `:` NamedType
#[verifier::opaque]
pub open spec fn root_operation_type_definition(inp: Input, s: State) -> State {
    let s = start(s, SyntaxKind::RootOperationTypeDefinition);
    let s = operation_type(inp, s);
    let s = expect(inp, s, TokenKind::Colon, SyntaxKind::Colon, Expected::Colon);
    let s = named_type(inp, s);
    finish(s)
}

/// The root operation types of a schema.
#[verifier::opaque]
pub open spec fn root_operation_list(inp: Input, s: State) -> State
    decreases rest(inp, s),
{
    if operation_keyword(inp, s) {
        let t = root_operation_type_definition(inp, s);
        if advanced(inp, s, t) {
            root_operation_list(inp, t)
        } else {
            t
        }
    } else if list_stop(inp, s) {
        s
    } else {
        let t = unexpected(inp, s, Expected::OperationType);
        if advanced(inp, s, t) {
            root_operation_list(inp, t)
        } else {
            t
        }
    }
}

/// SchemaDefinition: Description? `schema` Directives?
/// `{` RootOperationTypeDefinition* `}`
#[verifier::opaque]
pub open spec fn schema_definition(inp: Input, s: State) -> State {
    let s = start(s, SyntaxKind::SchemaDefinition);
    let s = if at(inp, s, TokenKind::StringValue) {
        description(inp, s)
    } else {
        s
    };
    let s = bump(inp, s, SyntaxKind::SchemaKw);
    let s = if at(inp, s, TokenKind::At) {
        directives(inp, s)
    } else {
        s
    };
    let s = if at(inp, s, TokenKind::LCurly) {
        let s = bump(inp, s, SyntaxKind::LCurly);
        let s = root_operation_list(inp, s);
        expect(inp, s, TokenKind::RCurly, SyntaxKind::RCurly, Expected::ClosingBrace)
    } else {
        error(inp, s, ErrorKind::Missing, Expected::Fields)
    };
    finish(s)
}

/// SchemaExtension: `extend` `schema` Directives?
/// (`{` RootOperationTypeDefinition* `}`)?
#[verifier::opaque]
pub open spec fn schema_extension(inp: Input, s: State) -> State {
    let s = start(s, SyntaxKind::SchemaExtension);
    let s = bump(inp, s, SyntaxKind::ExtendKw);
    let s = bump(inp, s, SyntaxKind::SchemaKw);
    let s = if at(inp, s, TokenKind::At) {
        directives(inp, s)
    } else {
        s
    };
    let s = if at(inp, s, TokenKind::LCurly) {
        let s = bump(inp, s, SyntaxKind::LCurly);
        let s = root_operation_list(inp, s);
        expect(inp, s, TokenKind::RCurly, SyntaxKind::RCurly, Expected::ClosingBrace)
    } else {
        s
    };
    finish(s)
}

impl<'a> Parser<'a> {
    /// RootOperationTypeDefinition: OperationType `:` NamedType
    pub fn root_operation_type_definition(&mut self)
        requires
            old(self).wf(),
            old(self).operation_keyword(),
        ensures
            old(self).step(
                final(self),
                root_operation_type_definition(old(self).input(), old(self).state()),
                7,
                9,
            ),
            old(self).moved(final(self)),
    {
        proof {
            reveal(root_operation_type_definition);
            self.lemma_wf();
        }
        self.start(SyntaxKind::RootOperationTypeDefinition);
        self.operation_type();
        self.expect(TokenKind::Colon, SyntaxKind::Colon, Expected::Colon);
        self.named_type();
        self.finish();
        proof {
            self.lemma_wf();
        }
    }

    /// The root operation types of a schema.
    pub fn root_operation_list(&mut self)
        requires
            old(self).wf(),
        ensures
            old(self).step(
                final(self),
                root_operation_list(old(self).input(), old(self).state()),
                0,
                9,
            ),
            final(self).list_stop(),
    {
        proof {
            reveal(root_operation_list);
            self.lemma_wf();
        }
        let ghost inp = self.input();
        let ghost s0 = self.state();
        while !self.is_list_stop()
            invariant
                self.wf(),
                self.input() == inp,
                self.depth() == old(self).depth(),
                inp == old(self).input(),
                s0 == old(self).state(),
                0 <= s0.pos <= inp.tokens.len(),
                extends(s0, self.state()),
                spent(s0, self.state(), 0),
                paid(s0, self.state(), 9),
                self.state().pos > s0.pos || self.state() == s0,
                root_operation_list(inp, self.state()) == root_operation_list(inp, s0),
            decreases rest(inp, self.state()),
        {
            proof {
                reveal(root_operation_list);
                self.lemma_wf();
            }
            if self.is_operation_keyword() {
                self.root_operation_type_definition();
            } else {
                self.unexpected(Expected::OperationType);
            }
            proof {
                self.lemma_wf();
            }
        }
        proof {
            self.lemma_wf();
        }
    }

    /// SchemaDefinition: Description? `schema` Directives?
    /// `{` RootOperationTypeDefinition* `}`
    pub fn schema_definition(&mut self)
        requires
            old(self).wf(),
            old(self).leads(SyntaxKind::SchemaKw),
        ensures
            old(self).step(
                final(self),
                schema_definition(old(self).input(), old(self).state()),
                3,
                26,
            ),
            old(self).moved(final(self)),
    {
        proof {
            reveal(schema_definition);
            self.lemma_wf();
        }
        self.start(SyntaxKind::SchemaDefinition);
        if self.is_at(TokenKind::StringValue) {
            self.description();
        }
        self.bump(SyntaxKind::SchemaKw);
        if self.is_at(TokenKind::At) {
            self.directives();
        }
        if self.is_at(TokenKind::LCurly) {
            self.bump(SyntaxKind::LCurly);
            self.root_operation_list();
            self.expect(TokenKind::RCurly, SyntaxKind::RCurly, Expected::ClosingBrace);
        } else {
            self.error(ErrorKind::Missing, Expected::Fields);
        }
        self.finish();
        proof {
            self.lemma_wf();
        }
    }

    /// SchemaExtension: `extend` `schema` Directives?
    /// (`{` RootOperationTypeDefinition* `}`)?
    pub fn schema_extension(&mut self)
        requires
            old(self).wf(),
            old(self).at_keyword(SyntaxKind::ExtendKw)
                && old(self).second_keyword(SyntaxKind::SchemaKw),
        ensures
            old(self).step(
                final(self),
                schema_extension(old(self).input(), old(self).state()),
                3,
                26,
            ),
            old(self).moved(final(self)),
    {
        proof {
            reveal(schema_extension);
            self.lemma_wf();
        }
        self.start(SyntaxKind::SchemaExtension);
        self.bump(SyntaxKind::ExtendKw);
        self.bump(SyntaxKind::SchemaKw);
        if self.is_at(TokenKind::At) {
            self.directives();
        }
        if self.is_at(TokenKind::LCurly) {
            self.bump(SyntaxKind::LCurly);
            self.root_operation_list();
            self.expect(TokenKind::RCurly, SyntaxKind::RCurly, Expected::ClosingBrace);
        }
        self.finish();
        proof {
            self.lemma_wf();
        }
    }
}

} // verus!
