//! Unions and their extensions.

use crate::grammar::{description, name};
use crate::grammar::directive::directives;
use crate::grammar::ty::named_type;
use crate::kind::{SyntaxKind, TokenKind};
use crate::parser::{
    advanced, at, bump, extends, finish, paid, rest, spent, start, Input, Parser, State,
};
use vstd::prelude::*;

verus! {

/// The further members of a union, each behind `|`.
#[verifier::opaque]
pub open spec fn union_member_list(inp: Input, s: State) -> State
    decreases rest(inp, s),
{
    if at(inp, s, TokenKind::Pipe) {
        let t = {
            let s = bump(inp, s, SyntaxKind::Pipe);
            named_type(inp, s)
        };
        if advanced(inp, s, t) {
            union_member_list(inp, t)
        } else {
            t
        }
    } else {
        s
    }
}

/// UnionMemberTypes: `=` `|`? NamedType (`|` NamedType)*
#[verifier::opaque]
pub open spec fn union_member_types(inp: Input, s: State) -> State {
    let s = start(s, SyntaxKind::UnionMemberTypes);
    let s = bump(inp, s, SyntaxKind::Eq);
    let s = if at(inp, s, TokenKind::Pipe) {
        bump(inp, s, SyntaxKind::Pipe)
    } else {
        s
    };
    let s = named_type(inp, s);
    let s = union_member_list(inp, s);
    finish(s)
}

/// UnionTypeDefinition: Description? `union` Name Directives?
/// UnionMemberTypes?
#[verifier::opaque]
pub open spec fn union_type_definition(inp: Input, s: State) -> State {
    let s = start(s, SyntaxKind::UnionTypeDefinition);
    let s = if at(inp, s, TokenKind::StringValue) {
        description(inp, s)
    } else {
        s
    };
    let s = bump(inp, s, SyntaxKind::UnionKw);
    let s = name(inp, s);
    let s = if at(inp, s, TokenKind::At) {
        directives(inp, s)
    } else {
        s
    };
    let s = if at(inp, s, TokenKind::Eq) {
        union_member_types(inp, s)
    } else {
        s
    };
    finish(s)
}

/// UnionTypeExtension: `extend` `union` Name Directives?
/// UnionMemberTypes?
#[verifier::opaque]
pub open spec fn union_type_extension(inp: Input, s: State) -> State {
    let s = start(s, SyntaxKind::UnionTypeExtension);
    let s = bump(inp, s, SyntaxKind::ExtendKw);
    let s = bump(inp, s, SyntaxKind::UnionKw);
    let s = name(inp, s);
    let s = if at(inp, s, TokenKind::At) {
        directives(inp, s)
    } else {
        s
    };
    let s = if at(inp, s, TokenKind::Eq) {
        union_member_types(inp, s)
    } else {
        s
    };
    finish(s)
}

impl<'a> Parser<'a> {
    /// The further members of a union, each behind `|`.
    pub fn union_member_list(&mut self)
        requires
            old(self).wf(),
        ensures
            old(self).step(
                final(self),
                union_member_list(old(self).input(), old(self).state()),
                0,
                4,
            ),
            !final(self).at(TokenKind::Pipe),
    {
        proof {
            reveal(union_member_list);
            self.lemma_wf();
        }
        let ghost inp = self.input();
        let ghost s0 = self.state();
        while self.is_at(TokenKind::Pipe)
            invariant
                self.wf(),
                self.input() == inp,
                self.depth() == old(self).depth(),
                inp == old(self).input(),
                s0 == old(self).state(),
                0 <= s0.pos <= inp.tokens.len(),
                extends(s0, self.state()),
                spent(s0, self.state(), 0),
                paid(s0, self.state(), 4),
                self.state().pos > s0.pos || self.state() == s0,
                union_member_list(inp, self.state()) == union_member_list(inp, s0),
            decreases rest(inp, self.state()),
        {
            proof {
                reveal(union_member_list);
                self.lemma_wf();
            }
            self.bump(SyntaxKind::Pipe);
            self.named_type();
            proof {
                self.lemma_wf();
            }
        }
        proof {
            self.lemma_wf();
        }
    }

    /// UnionMemberTypes: `=` `|`? NamedType (`|` NamedType)*
    pub fn union_member_types(&mut self)
        requires
            old(self).wf(),
            old(self).at(TokenKind::Eq),
        ensures
            old(self).step(
                final(self),
                union_member_types(old(self).input(), old(self).state()),
                6,
                10,
            ),
            old(self).moved(final(self)),
    {
        proof {
            reveal(union_member_types);
            self.lemma_wf();
        }
        self.start(SyntaxKind::UnionMemberTypes);
        self.bump(SyntaxKind::Eq);
        if self.is_at(TokenKind::Pipe) {
            self.bump(SyntaxKind::Pipe);
        }
        self.named_type();
        self.union_member_list();
        self.finish();
        proof {
            self.lemma_wf();
        }
    }

    /// UnionTypeDefinition: Description? `union` Name Directives?
    /// UnionMemberTypes?
    pub fn union_type_definition(&mut self)
        requires
            old(self).wf(),
            old(self).leads(SyntaxKind::UnionKw),
        ensures
            old(self).step(
                final(self),
                union_type_definition(old(self).input(), old(self).state()),
                4,
                27,
            ),
            old(self).moved(final(self)),
    {
        proof {
            reveal(union_type_definition);
            self.lemma_wf();
        }
        self.start(SyntaxKind::UnionTypeDefinition);
        if self.is_at(TokenKind::StringValue) {
            self.description();
        }
        self.bump(SyntaxKind::UnionKw);
        self.name();
        if self.is_at(TokenKind::At) {
            self.directives();
        }
        if self.is_at(TokenKind::Eq) {
            self.union_member_types();
        }
        self.finish();
        proof {
            self.lemma_wf();
        }
    }

    /// UnionTypeExtension: `extend` `union` Name Directives?
    /// UnionMemberTypes?
    pub fn union_type_extension(&mut self)
        requires
            old(self).wf(),
            old(self).at_keyword(SyntaxKind::ExtendKw)
                && old(self).second_keyword(SyntaxKind::UnionKw),
        ensures
            old(self).step(
                final(self),
                union_type_extension(old(self).input(), old(self).state()),
                4,
                27,
            ),
            old(self).moved(final(self)),
    {
        proof {
            reveal(union_type_extension);
            self.lemma_wf();
        }
        self.start(SyntaxKind::UnionTypeExtension);
        self.bump(SyntaxKind::ExtendKw);
        self.bump(SyntaxKind::UnionKw);
        self.name();
        if self.is_at(TokenKind::At) {
            self.directives();
        }
        if self.is_at(TokenKind::Eq) {
            self.union_member_types();
        }
        self.finish();
        proof {
            self.lemma_wf();
        }
    }
}

} // verus!
