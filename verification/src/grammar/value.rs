//! Values: variables, numbers, strings, `true`, `false`, `null`, enum values,
//! lists and objects.

use crate::error::{ErrorKind, Expected};
use crate::grammar::{list_stop, name};
use crate::kind::{SyntaxKind, TokenKind};
use crate::parser::{
    advanced, at, at_keyword, bump, error, expect, extends, finish, paid, rest, spent, start,
    unexpected, Input, Parser, State,
};
use vstd::prelude::*;

verus! {

/// A value can start here.
pub open spec fn value_start(inp: Input, s: State) -> bool {
    at(inp, s, TokenKind::Dollar)
        || at(inp, s, TokenKind::Int)
        || at(inp, s, TokenKind::Float)
        || at(inp, s, TokenKind::StringValue)
        || at(inp, s, TokenKind::Name)
        || at(inp, s, TokenKind::LBracket)
        || at(inp, s, TokenKind::LCurly)
}

/// Variable: `$` Name
#[verifier::opaque]
pub open spec fn variable(inp: Input, s: State) -> State {
    let s = start(s, SyntaxKind::Variable);
    let s = bump(inp, s, SyntaxKind::Dollar);
    let s = name(inp, s);
    finish(s)
}

/// Value: a variable, a number, a string, `true`, `false`, `null`, an enum
/// value, a list or an object, told apart by the next token.
#[verifier::opaque]
pub open spec fn value(inp: Input, s: State) -> State
    decreases rest(inp, s), 3int,
{
    if at(inp, s, TokenKind::Dollar) {
        variable(inp, s)
    } else {
        if at(inp, s, TokenKind::Int) {
            let s = start(s, SyntaxKind::IntValue);
            let s = bump(inp, s, SyntaxKind::Int);
            finish(s)
        } else {
            if at(inp, s, TokenKind::Float) {
                let s = start(s, SyntaxKind::FloatValue);
                let s = bump(inp, s, SyntaxKind::Float);
                finish(s)
            } else {
                if at(inp, s, TokenKind::StringValue) {
                    let s = start(s, SyntaxKind::StringValue);
                    let s = bump(inp, s, SyntaxKind::String);
                    finish(s)
                } else {
                    if at_keyword(inp, s, SyntaxKind::TrueKw) {
                        let s = start(s, SyntaxKind::BooleanValue);
                        let s = bump(inp, s, SyntaxKind::TrueKw);
                        finish(s)
                    } else {
                        if at_keyword(inp, s, SyntaxKind::FalseKw) {
                            let s = start(s, SyntaxKind::BooleanValue);
                            let s = bump(inp, s, SyntaxKind::FalseKw);
                            finish(s)
                        } else {
                            if at_keyword(inp, s, SyntaxKind::NullKw) {
                                let s = start(s, SyntaxKind::NullValue);
                                let s = bump(inp, s, SyntaxKind::NullKw);
                                finish(s)
                            } else {
                                if at(inp, s, TokenKind::Name) {
                                    let s = start(s, SyntaxKind::EnumValue);
                                    let s = name(inp, s);
                                    finish(s)
                                } else {
                                    if at(inp, s, TokenKind::LBracket) {
                                        list_value(inp, s)
                                    } else {
                                        if at(inp, s, TokenKind::LCurly) {
                                            object_value(inp, s)
                                        } else {
                                            s
                                        }
                                    }
                                }
                            }
                        }
                    }
                }
            }
        }
    }
}

/// ListValue: `[` Value* `]`
#[verifier::opaque]
pub open spec fn list_value(inp: Input, s: State) -> State
    decreases rest(inp, s), 2int,
{
    let s0 = s;
    let s = start(s, SyntaxKind::ListValue);
    let s = bump(inp, s, SyntaxKind::LBracket);
    let s = if advanced(inp, s0, s) {
        list_items(inp, s)
    } else {
        s
    };
    let s = expect(inp, s, TokenKind::RBracket, SyntaxKind::RBracket, Expected::ClosingBracket);
    finish(s)
}

/// The values of a list. A token that starts no value and closes nothing
/// is skipped as an error.
#[verifier::opaque]
pub open spec fn list_items(inp: Input, s: State) -> State
    decreases rest(inp, s), 5int,
{
    if value_start(inp, s) {
        let t = value(inp, s);
        if advanced(inp, s, t) {
            list_items(inp, t)
        } else {
            t
        }
    } else if list_stop(inp, s) {
        s
    } else {
        let t = unexpected(inp, s, Expected::Value);
        if advanced(inp, s, t) {
            list_items(inp, t)
        } else {
            t
        }
    }
}

/// ObjectValue: `{` ObjectField* `}`
#[verifier::opaque]
pub open spec fn object_value(inp: Input, s: State) -> State
    decreases rest(inp, s), 2int,
{
    let s0 = s;
    let s = start(s, SyntaxKind::ObjectValue);
    let s = bump(inp, s, SyntaxKind::LCurly);
    let s = if advanced(inp, s0, s) {
        object_fields(inp, s)
    } else {
        s
    };
    let s = expect(inp, s, TokenKind::RCurly, SyntaxKind::RCurly, Expected::ClosingBrace);
    finish(s)
}

/// The fields of an object value.
#[verifier::opaque]
pub open spec fn object_fields(inp: Input, s: State) -> State
    decreases rest(inp, s), 5int,
{
    if at(inp, s, TokenKind::Name) {
        let t = object_field(inp, s);
        if advanced(inp, s, t) {
            object_fields(inp, t)
        } else {
            t
        }
    } else if list_stop(inp, s) {
        s
    } else {
        let t = unexpected(inp, s, Expected::Name);
        if advanced(inp, s, t) {
            object_fields(inp, t)
        } else {
            t
        }
    }
}

/// ObjectField: Name `:` Value
#[verifier::opaque]
pub open spec fn object_field(inp: Input, s: State) -> State
    decreases rest(inp, s), 4int,
{
    let s0 = s;
    let s = start(s, SyntaxKind::ObjectField);
    let s = name(inp, s);
    let s = expect(inp, s, TokenKind::Colon, SyntaxKind::Colon, Expected::Colon);
    let s = if value_start(inp, s) {
        if advanced(inp, s0, s) {
            value(inp, s)
        } else {
            s
        }
    } else {
        error(inp, s, ErrorKind::Missing, Expected::Value)
    };
    finish(s)
}

impl<'a> Parser<'a> {
    /// A value can start here.
    pub open spec fn value_start(&self) -> bool {
        value_start(self.input(), self.state())
    }

    pub fn is_value_start(&self) -> (r: bool)
        requires
            self.wf(),
        ensures
            r == self.value_start(),
    {
        self.is_at(TokenKind::Dollar)
            || self.is_at(TokenKind::Int)
            || self.is_at(TokenKind::Float)
            || self.is_at(TokenKind::StringValue)
            || self.is_at(TokenKind::Name)
            || self.is_at(TokenKind::LBracket)
            || self.is_at(TokenKind::LCurly)
    }

    /// Variable: `$` Name
    pub fn variable(&mut self)
        requires
            old(self).wf(),
            old(self).at(TokenKind::Dollar),
        ensures
            old(self).step(final(self), variable(old(self).input(), old(self).state()), 4, 4),
            old(self).moved(final(self)),
    {
        proof {
            reveal(variable);
            self.lemma_wf();
        }
        self.start(SyntaxKind::Variable);
        self.bump(SyntaxKind::Dollar);
        self.name();
        self.finish();
        proof {
            self.lemma_wf();
        }
    }

    /// Value: a variable, a number, a string, `true`, `false`, `null`, an enum
    /// value, a list or an object, told apart by the next token.
    pub fn value(&mut self)
        requires
            old(self).wf(),
            old(self).value_start(),
        ensures
            old(self).step(final(self), value(old(self).input(), old(self).state()), 4, 8),
            old(self).moved(final(self)),
        decreases old(self).left(), 3int,
    {
        proof {
            reveal(value);
            reveal(list_value);
            reveal(list_items);
            reveal(object_value);
            reveal(object_fields);
            reveal(object_field);
            self.lemma_wf();
        }
        if self.is_at(TokenKind::Dollar) {
            self.variable();
        } else {
            if self.is_at(TokenKind::Int) {
                self.start(SyntaxKind::IntValue);
                self.bump(SyntaxKind::Int);
                self.finish();
            } else {
                if self.is_at(TokenKind::Float) {
                    self.start(SyntaxKind::FloatValue);
                    self.bump(SyntaxKind::Float);
                    self.finish();
                } else {
                    if self.is_at(TokenKind::StringValue) {
                        self.start(SyntaxKind::StringValue);
                        self.bump(SyntaxKind::String);
                        self.finish();
                    } else {
                        if self.is_at_keyword(SyntaxKind::TrueKw) {
                            self.start(SyntaxKind::BooleanValue);
                            self.bump(SyntaxKind::TrueKw);
                            self.finish();
                        } else {
                            if self.is_at_keyword(SyntaxKind::FalseKw) {
                                self.start(SyntaxKind::BooleanValue);
                                self.bump(SyntaxKind::FalseKw);
                                self.finish();
                            } else {
                                if self.is_at_keyword(SyntaxKind::NullKw) {
                                    self.start(SyntaxKind::NullValue);
                                    self.bump(SyntaxKind::NullKw);
                                    self.finish();
                                } else {
                                    if self.is_at(TokenKind::Name) {
                                        self.start(SyntaxKind::EnumValue);
                                        self.name();
                                        self.finish();
                                    } else {
                                        if self.is_at(TokenKind::LBracket) {
                                            self.list_value();
                                        } else {
                                            if self.is_at(TokenKind::LCurly) {
                                                self.object_value();
                                            }
                                        }
                                    }
                                }
                            }
                        }
                    }
                }
            }
        }
        proof {
            self.lemma_wf();
        }
    }

    /// ListValue: `[` Value* `]`
    pub fn list_value(&mut self)
        requires
            old(self).wf(),
            old(self).at(TokenKind::LBracket),
        ensures
            old(self).step(final(self), list_value(old(self).input(), old(self).state()), 3, 3),
            old(self).moved(final(self)),
        decreases old(self).left(), 2int,
    {
        proof {
            reveal(value);
            reveal(list_value);
            reveal(list_items);
            reveal(object_value);
            reveal(object_fields);
            reveal(object_field);
            self.lemma_wf();
        }
        self.start(SyntaxKind::ListValue);
        self.bump(SyntaxKind::LBracket);
        self.list_items();
        self.expect(TokenKind::RBracket, SyntaxKind::RBracket, Expected::ClosingBracket);
        self.finish();
        proof {
            self.lemma_wf();
        }
    }

    /// The values of a list. A token that starts no value and closes nothing
    /// is skipped as an error.
    pub fn list_items(&mut self)
        requires
            old(self).wf(),
        ensures
            old(self).step(final(self), list_items(old(self).input(), old(self).state()), 0, 8),
            final(self).list_stop(),
        decreases old(self).left(), 5int,
    {
        proof {
            reveal(value);
            reveal(list_value);
            reveal(list_items);
            reveal(object_value);
            reveal(object_fields);
            reveal(object_field);
            self.lemma_wf();
        }
        let ghost inp = self.input();
        let ghost s0 = self.state();
        while !self.is_list_stop()
            invariant
                self.wf(),
                self.input() == inp,
                self.depth() == old(self).depth(),
                inp == old(self).input(),
                s0 == old(self).state(),
                0 <= s0.pos <= inp.tokens.len(),
                extends(s0, self.state()),
                spent(s0, self.state(), 0),
                paid(s0, self.state(), 8),
                self.state().pos > s0.pos || self.state() == s0,
                list_items(inp, self.state()) == list_items(inp, s0),
            decreases rest(inp, self.state()),
        {
            proof {
                reveal(value);
                reveal(list_value);
                reveal(list_items);
                reveal(object_value);
                reveal(object_fields);
                reveal(object_field);
                self.lemma_wf();
            }
            if self.is_value_start() {
                self.value();
            } else {
                self.unexpected(Expected::Value);
            }
            proof {
                self.lemma_wf();
            }
        }
        proof {
            self.lemma_wf();
        }
    }

    /// ObjectValue: `{` ObjectField* `}`
    pub fn object_value(&mut self)
        requires
            old(self).wf(),
            old(self).at(TokenKind::LCurly),
        ensures
            old(self).step(final(self), object_value(old(self).input(), old(self).state()), 3, 3),
            old(self).moved(final(self)),
        decreases old(self).left(), 2int,
    {
        proof {
            reveal(value);
            reveal(list_value);
            reveal(list_items);
            reveal(object_value);
            reveal(object_fields);
            reveal(object_field);
            self.lemma_wf();
        }
        self.start(SyntaxKind::ObjectValue);
        self.bump(SyntaxKind::LCurly);
        self.object_fields();
        self.expect(TokenKind::RCurly, SyntaxKind::RCurly, Expected::ClosingBrace);
        self.finish();
        proof {
            self.lemma_wf();
        }
    }

    /// The fields of an object value.
    pub fn object_fields(&mut self)
        requires
            old(self).wf(),
        ensures
            old(self).step(final(self), object_fields(old(self).input(), old(self).state()), 0, 6),
            final(self).list_stop(),
        decreases old(self).left(), 5int,
    {
        proof {
            reveal(value);
            reveal(list_value);
            reveal(list_items);
            reveal(object_value);
            reveal(object_fields);
            reveal(object_field);
            self.lemma_wf();
        }
        let ghost inp = self.input();
        let ghost s0 = self.state();
        while !self.is_list_stop()
            invariant
                self.wf(),
                self.input() == inp,
                self.depth() == old(self).depth(),
                inp == old(self).input(),
                s0 == old(self).state(),
                0 <= s0.pos <= inp.tokens.len(),
                extends(s0, self.state()),
                spent(s0, self.state(), 0),
                paid(s0, self.state(), 6),
                self.state().pos > s0.pos || self.state() == s0,
                object_fields(inp, self.state()) == object_fields(inp, s0),
            decreases rest(inp, self.state()),
        {
            proof {
                reveal(value);
                reveal(list_value);
                reveal(list_items);
                reveal(object_value);
                reveal(object_fields);
                reveal(object_field);
                self.lemma_wf();
            }
            if self.is_at(TokenKind::Name) {
                self.object_field();
            } else {
                self.unexpected(Expected::Name);
            }
            proof {
                self.lemma_wf();
            }
        }
        proof {
            self.lemma_wf();
        }
    }

    /// ObjectField: Name `:` Value
    pub fn object_field(&mut self)
        requires
            old(self).wf(),
            old(self).at(TokenKind::Name),
        ensures
            old(self).step(final(self), object_field(old(self).input(), old(self).state()), 6, 6),
            old(self).moved(final(self)),
        decreases old(self).left(), 4int,
    {
        proof {
            reveal(value);
            reveal(list_value);
            reveal(list_items);
            reveal(object_value);
            reveal(object_fields);
            reveal(object_field);
            self.lemma_wf();
        }
        self.start(SyntaxKind::ObjectField);
        self.name();
        self.expect(TokenKind::Colon, SyntaxKind::Colon, Expected::Colon);
        if self.is_value_start() {
            self.value();
        } else {
            self.error(ErrorKind::Missing, Expected::Value);
        }
        self.finish();
        proof {
            self.lemma_wf();
        }
    }
}

} // verus!
