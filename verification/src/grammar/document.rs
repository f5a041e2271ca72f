//! The document: its definitions, and what happens to input that starts
//! none.

use crate::error::Expected;
use crate::grammar::directive::directive_definition;
use crate::grammar::enums::{enum_type_definition, enum_type_extension};
use crate::grammar::fragment::fragment_definition;
use crate::grammar::input::{input_object_type_definition, input_object_type_extension};
use crate::grammar::interface::{interface_type_definition, interface_type_extension};
use crate::grammar::object::{object_type_definition, object_type_extension};
use crate::grammar::operation::{operation_definition, operation_start};
use crate::grammar::scalar::{scalar_type_definition, scalar_type_extension};
use crate::grammar::schema::{schema_definition, schema_extension};
use crate::grammar::unions::{union_type_definition, union_type_extension};
use crate::kind::SyntaxKind;
use crate::parser::{
    advanced, at_end, at_keyword, bump, extends, leads, paid, rest, second_keyword, spent,
    unexpected, Input, Parser, State,
};
use vstd::prelude::*;

verus! {

/// A definition of the type system can start here: with its keyword, or
/// with a description before the keyword.
pub open spec fn type_system_start(inp: Input, s: State) -> bool {
    leads(inp, s, SyntaxKind::SchemaKw)
        || leads(inp, s, SyntaxKind::ScalarKw)
        || leads(inp, s, SyntaxKind::TypeKw)
        || leads(inp, s, SyntaxKind::InterfaceKw)
        || leads(inp, s, SyntaxKind::UnionKw)
        || leads(inp, s, SyntaxKind::EnumKw)
        || leads(inp, s, SyntaxKind::InputKw)
        || leads(inp, s, SyntaxKind::DirectiveKw)
}

/// A definition can start here. These are the tokens at which the parser
/// takes up its work again after input that it could not place.
pub open spec fn definition_start(inp: Input, s: State) -> bool {
    operation_start(inp, s)
        || at_keyword(inp, s, SyntaxKind::FragmentKw)
        || at_keyword(inp, s, SyntaxKind::ExtendKw)
        || type_system_start(inp, s)
}

/// An extension: `extend` and the keyword of what is extended. `extend`
/// before anything else is skipped as an error.
#[verifier::opaque]
pub open spec fn extension(inp: Input, s: State) -> State {
    if second_keyword(inp, s, SyntaxKind::SchemaKw) {
        schema_extension(inp, s)
    } else {
        if second_keyword(inp, s, SyntaxKind::ScalarKw) {
            scalar_type_extension(inp, s)
        } else {
            if second_keyword(inp, s, SyntaxKind::TypeKw) {
                object_type_extension(inp, s)
            } else {
                if second_keyword(inp, s, SyntaxKind::InterfaceKw) {
                    interface_type_extension(inp, s)
                } else {
                    if second_keyword(inp, s, SyntaxKind::UnionKw) {
                        union_type_extension(inp, s)
                    } else {
                        if second_keyword(inp, s, SyntaxKind::EnumKw) {
                            enum_type_extension(inp, s)
                        } else {
                            if second_keyword(inp, s, SyntaxKind::InputKw) {
                                input_object_type_extension(inp, s)
                            } else {
                                unexpected(inp, s, Expected::TypeSystemDefinition)
                            }
                        }
                    }
                }
            }
        }
    }
}

/// A definition of the type system, told apart by its keyword.
#[verifier::opaque]
pub open spec fn type_system_definition(inp: Input, s: State) -> State {
    if leads(inp, s, SyntaxKind::SchemaKw) {
        schema_definition(inp, s)
    } else {
        if leads(inp, s, SyntaxKind::ScalarKw) {
            scalar_type_definition(inp, s)
        } else {
            if leads(inp, s, SyntaxKind::TypeKw) {
                object_type_definition(inp, s)
            } else {
                if leads(inp, s, SyntaxKind::InterfaceKw) {
                    interface_type_definition(inp, s)
                } else {
                    if leads(inp, s, SyntaxKind::UnionKw) {
                        union_type_definition(inp, s)
                    } else {
                        if leads(inp, s, SyntaxKind::EnumKw) {
                            enum_type_definition(inp, s)
                        } else {
                            if leads(inp, s, SyntaxKind::InputKw) {
                                input_object_type_definition(inp, s)
                            } else {
                                if leads(inp, s, SyntaxKind::DirectiveKw) {
                                    directive_definition(inp, s)
                                } else {
                                    s
                                }
                            }
                        }
                    }
                }
            }
        }
    }
}

/// Definition: an operation, a fragment, an extension or a definition of
/// the type system, told apart by the leading token.
#[verifier::opaque]
pub open spec fn definition(inp: Input, s: State) -> State {
    if operation_start(inp, s) {
        operation_definition(inp, s)
    } else {
        if at_keyword(inp, s, SyntaxKind::FragmentKw) {
            fragment_definition(inp, s)
        } else {
            if at_keyword(inp, s, SyntaxKind::ExtendKw) {
                extension(inp, s)
            } else {
                if type_system_start(inp, s) {
                    type_system_definition(inp, s)
                } else {
                    s
                }
            }
        }
    }
}

/// Skips tokens as errors up to the next token at which a definition can
/// start.
#[verifier::opaque]
pub open spec fn sync(inp: Input, s: State) -> State
    decreases rest(inp, s),
{
    if !(at_end(inp, s) || definition_start(inp, s)) {
        let t = bump(inp, s, SyntaxKind::Error);
        if advanced(inp, s, t) {
            sync(inp, t)
        } else {
            t
        }
    } else {
        s
    }
}

/// Input that starts no definition: one diagnostic, and the tokens up to
/// the next start of a definition become error leaves.
#[verifier::opaque]
pub open spec fn stray(inp: Input, s: State) -> State {
    let s = unexpected(inp, s, Expected::Definition);
    sync(inp, s)
}

/// The definitions of a document, to the end of the input.
#[verifier::opaque]
pub open spec fn definitions(inp: Input, s: State) -> State
    decreases rest(inp, s),
{
    if definition_start(inp, s) {
        let t = definition(inp, s);
        if advanced(inp, s, t) {
            definitions(inp, t)
        } else {
            t
        }
    } else if at_end(inp, s) {
        s
    } else {
        let t = stray(inp, s);
        if advanced(inp, s, t) {
            definitions(inp, t)
        } else {
            t
        }
    }
}

impl<'a> Parser<'a> {
    /// A definition of the type system can start here: with its keyword, or
    /// with a description before the keyword.
    pub open spec fn type_system_start(&self) -> bool {
        type_system_start(self.input(), self.state())
    }

    pub fn is_type_system_start(&self) -> (r: bool)
        requires
            self.wf(),
        ensures
            r == self.type_system_start(),
    {
        self.is_leading(SyntaxKind::SchemaKw)
            || self.is_leading(SyntaxKind::ScalarKw)
            || self.is_leading(SyntaxKind::TypeKw)
            || self.is_leading(SyntaxKind::InterfaceKw)
            || self.is_leading(SyntaxKind::UnionKw)
            || self.is_leading(SyntaxKind::EnumKw)
            || self.is_leading(SyntaxKind::InputKw)
            || self.is_leading(SyntaxKind::DirectiveKw)
    }

    /// A definition can start here. These are the tokens at which the parser
    /// takes up its work again after input that it could not place.
    pub open spec fn definition_start(&self) -> bool {
        definition_start(self.input(), self.state())
    }

    pub fn is_definition_start(&self) -> (r: bool)
        requires
            self.wf(),
        ensures
            r == self.definition_start(),
    {
        self.is_operation_start()
            || self.is_at_keyword(SyntaxKind::FragmentKw)
            || self.is_at_keyword(SyntaxKind::ExtendKw)
            || self.is_type_system_start()
    }

    /// An extension: `extend` and the keyword of what is extended. `extend`
    /// before anything else is skipped as an error.
    pub fn extension(&mut self)
        requires
            old(self).wf(),
            old(self).at_keyword(SyntaxKind::ExtendKw),
        ensures
            old(self).step(final(self), extension(old(self).input(), old(self).state()), 1, 46),
            old(self).moved(final(self)),
    {
        proof {
            reveal(extension);
            self.lemma_wf();
        }
        if self.is_second_keyword(SyntaxKind::SchemaKw) {
            self.schema_extension();
        } else {
            if self.is_second_keyword(SyntaxKind::ScalarKw) {
                self.scalar_type_extension();
            } else {
                if self.is_second_keyword(SyntaxKind::TypeKw) {
                    self.object_type_extension();
                } else {
                    if self.is_second_keyword(SyntaxKind::InterfaceKw) {
                        self.interface_type_extension();
                    } else {
                        if self.is_second_keyword(SyntaxKind::UnionKw) {
                            self.union_type_extension();
                        } else {
                            if self.is_second_keyword(SyntaxKind::EnumKw) {
                                self.enum_type_extension();
                            } else {
                                if self.is_second_keyword(SyntaxKind::InputKw) {
                                    self.input_object_type_extension();
                                } else {
                                    self.unexpected(Expected::TypeSystemDefinition);
                                }
                            }
                        }
                    }
                }
            }
        }
        proof {
            self.lemma_wf();
        }
    }

    /// A definition of the type system, told apart by its keyword.
    pub fn type_system_definition(&mut self)
        requires
            old(self).wf(),
            old(self).type_system_start(),
        ensures
            old(self).step(
                final(self),
                type_system_definition(old(self).input(), old(self).state()),
                0,
                45,
            ),
            old(self).moved(final(self)),
    {
        proof {
            reveal(type_system_definition);
            self.lemma_wf();
        }
        if self.is_leading(SyntaxKind::SchemaKw) {
            self.schema_definition();
        } else {
            if self.is_leading(SyntaxKind::ScalarKw) {
                self.scalar_type_definition();
            } else {
                if self.is_leading(SyntaxKind::TypeKw) {
                    self.object_type_definition();
                } else {
                    if self.is_leading(SyntaxKind::InterfaceKw) {
                        self.interface_type_definition();
                    } else {
                        if self.is_leading(SyntaxKind::UnionKw) {
                            self.union_type_definition();
                        } else {
                            if self.is_leading(SyntaxKind::EnumKw) {
                                self.enum_type_definition();
                            } else {
                                if self.is_leading(SyntaxKind::InputKw) {
                                    self.input_object_type_definition();
                                } else {
                                    if self.is_leading(SyntaxKind::DirectiveKw) {
                                        self.directive_definition();
                                    }
                                }
                            }
                        }
                    }
                }
            }
        }
        proof {
            self.lemma_wf();
        }
    }

    /// Definition: an operation, a fragment, an extension or a definition of
    /// the type system, told apart by the leading token.
    pub fn definition(&mut self)
        requires
            old(self).wf(),
            old(self).definition_start(),
        ensures
            old(self).step(final(self), definition(old(self).input(), old(self).state()), 0, 46),
            old(self).moved(final(self)),
    {
        proof {
            reveal(definition);
            self.lemma_wf();
        }
        if self.is_operation_start() {
            self.operation_definition();
        } else {
            if self.is_at_keyword(SyntaxKind::FragmentKw) {
                self.fragment_definition();
            } else {
                if self.is_at_keyword(SyntaxKind::ExtendKw) {
                    self.extension();
                } else {
                    if self.is_type_system_start() {
                        self.type_system_definition();
                    }
                }
            }
        }
        proof {
            self.lemma_wf();
        }
    }

    /// Skips tokens as errors up to the next token at which a definition can
    /// start.
    pub fn sync(&mut self)
        requires
            old(self).wf(),
        ensures
            old(self).step(final(self), sync(old(self).input(), old(self).state()), 0, 0),
            final(self).at_end() || final(self).definition_start(),
    {
        proof {
            reveal(sync);
            self.lemma_wf();
        }
        let ghost inp = self.input();
        let ghost s0 = self.state();
        while !(self.is_at_end() || self.is_definition_start())
            invariant
                self.wf(),
                self.input() == inp,
                self.depth() == old(self).depth(),
                inp == old(self).input(),
                s0 == old(self).state(),
                0 <= s0.pos <= inp.tokens.len(),
                extends(s0, self.state()),
                spent(s0, self.state(), 0),
                paid(s0, self.state(), 0),
                self.state().pos > s0.pos || self.state() == s0,
                sync(inp, self.state()) == sync(inp, s0),
            decreases rest(inp, self.state()),
        {
            proof {
                reveal(sync);
                self.lemma_wf();
            }
            self.bump(SyntaxKind::Error);
            proof {
                self.lemma_wf();
            }
        }
        proof {
            self.lemma_wf();
        }
    }

    /// Input that starts no definition: one diagnostic, and the tokens up to
    /// the next start of a definition become error leaves.
    pub fn stray(&mut self)
        requires
            old(self).wf(),
            !old(self).at_end(),
        ensures
            old(self).step(final(self), stray(old(self).input(), old(self).state()), 1, 1),
            old(self).moved(final(self)),
    {
        proof {
            reveal(stray);
            self.lemma_wf();
        }
        self.unexpected(Expected::Definition);
        self.sync();
        proof {
            self.lemma_wf();
        }
    }

    /// The definitions of a document, to the end of the input.
    pub fn definitions(&mut self)
        requires
            old(self).wf(),
        ensures
            old(self).step(final(self), definitions(old(self).input(), old(self).state()), 0, 46),
            final(self).at_end(),
    {
        proof {
            reveal(definitions);
            self.lemma_wf();
        }
        let ghost inp = self.input();
        let ghost s0 = self.state();
        while !self.is_at_end()
            invariant
                self.wf(),
                self.input() == inp,
                self.depth() == old(self).depth(),
                inp == old(self).input(),
                s0 == old(self).state(),
                0 <= s0.pos <= inp.tokens.len(),
                extends(s0, self.state()),
                spent(s0, self.state(), 0),
                paid(s0, self.state(), 46),
                self.state().pos > s0.pos || self.state() == s0,
                definitions(inp, self.state()) == definitions(inp, s0),
            decreases rest(inp, self.state()),
        {
            proof {
                reveal(definitions);
                self.lemma_wf();
            }
            if self.is_definition_start() {
                self.definition();
            } else {
                self.stray();
            }
            proof {
                self.lemma_wf();
            }
        }
        proof {
            self.lemma_wf();
        }
    }
}

} // verus!
