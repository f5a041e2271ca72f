//! The core of the parser: the state of a parse as a mathematical value,
//! the primitive steps on it, and the executable parser that makes exactly
//! those steps. The grammar is built from these steps.

use crate::builder::SyntaxTreeBuilder;
use crate::error::{Error, ErrorKind, Expected};
use crate::event::{text_upto, Event};
use crate::kind::{SyntaxKind, TokenKind};
use crate::lexer::{
    ends_clean, in_class, joins, lemma_tokens_tile, lex, tiles, tokens_of, ByteClass, Token,
};
use vstd::prelude::*;
use vstd::string::StringSliceAdditionalSpecFns;
use vstd::utf8::{
    decode_utf8, decode_utf8_split, encode_utf8, encode_utf8_decode_utf8, encode_utf8_valid_utf8,
    is_char_boundary, is_char_boundary_iff_not_is_continuation_byte,
    is_char_boundary_start_end_of_seq, valid_utf8, valid_utf8_split,
};

verus! {

/// What is parsed: the bytes of the text and its tokens.
pub struct Input {
    pub bytes: Seq<u8>,
    pub tokens: Seq<Token>,
}

/// How far a parse has come: the index of the next token, the events
/// emitted and the diagnostics recorded so far.
pub struct State {
    pub pos: int,
    pub events: Seq<Event>,
    pub errors: Seq<Error>,
}

/// Tokens that the grammar never sees: trivia, and tokens that the lexer
/// could not classify.
pub open spec fn insignificant(k: TokenKind) -> bool {
    k.is_trivia() || k == TokenKind::Error
}

/// The text of token `i`.
pub open spec fn token_text(inp: Input, i: int) -> Seq<char> {
    decode_utf8(inp.bytes.subrange(inp.tokens[i].start as int, inp.tokens[i].end as int))
}

/// How many insignificant tokens stand in a row from `i` on.
pub open spec fn skip_run(t: Seq<Token>, i: int) -> nat
    decreases t.len() - i,
{
    if 0 <= i < t.len() && insignificant(t[i].kind) {
        1 + skip_run(t, i + 1)
    } else {
        0
    }
}

/// The events of the `n` insignificant tokens from `i` on: each is a leaf of
/// its lexical kind.
pub open spec fn skipped_events(inp: Input, i: int, n: nat) -> Seq<Event>
    decreases n,
{
    if n == 0 {
        Seq::empty()
    } else {
        skipped_events(inp, i, (n - 1) as nat).push(
            Event::Token(inp.tokens[i + n - 1].kind.plain_kind(), token_text(inp, i + n - 1)),
        )
    }
}

/// The diagnostic for a token that the lexer could not classify.
pub open spec fn lexical_error(t: Token) -> Error {
    Error { kind: ErrorKind::Lexical, expected: Expected::Token, start: t.start, end: t.end }
}

/// The diagnostics of the `n` insignificant tokens from `i` on: one for each
/// token that the lexer could not classify.
pub open spec fn skipped_errors(inp: Input, i: int, n: nat) -> Seq<Error>
    decreases n,
{
    if n == 0 {
        Seq::empty()
    } else if inp.tokens[i + n - 1].kind == TokenKind::Error {
        skipped_errors(inp, i, (n - 1) as nat).push(lexical_error(inp.tokens[i + n - 1]))
    } else {
        skipped_errors(inp, i, (n - 1) as nat)
    }
}

/// Passes over the insignificant tokens at the current position. Each
/// becomes a leaf; each unclassified one is recorded as a lexical error.
#[verifier::opaque]
pub open spec fn skip(inp: Input, s: State) -> State {
    let n = skip_run(inp.tokens, s.pos);
    State {
        pos: s.pos + n,
        events: s.events + skipped_events(inp, s.pos, n),
        errors: s.errors + skipped_errors(inp, s.pos, n),
    }
}

/// No token is left.
pub open spec fn at_end(inp: Input, s: State) -> bool {
    !(0 <= s.pos < inp.tokens.len())
}

/// The next token is of the lexical kind `k`.
pub open spec fn at(inp: Input, s: State, k: TokenKind) -> bool {
    !at_end(inp, s) && inp.tokens[s.pos].kind == k
}

/// The spelling of a keyword kind.
pub open spec fn keyword_text(kw: SyntaxKind) -> Seq<char> {
    match kw {
        SyntaxKind::QueryKw => "query"@,
        SyntaxKind::MutationKw => "mutation"@,
        SyntaxKind::SubscriptionKw => "subscription"@,
        SyntaxKind::FragmentKw => "fragment"@,
        SyntaxKind::OnKw => "on"@,
        SyntaxKind::SchemaKw => "schema"@,
        SyntaxKind::ScalarKw => "scalar"@,
        SyntaxKind::TypeKw => "type"@,
        SyntaxKind::InterfaceKw => "interface"@,
        SyntaxKind::UnionKw => "union"@,
        SyntaxKind::EnumKw => "enum"@,
        SyntaxKind::InputKw => "input"@,
        SyntaxKind::DirectiveKw => "directive"@,
        SyntaxKind::ExtendKw => "extend"@,
        SyntaxKind::ImplementsKw => "implements"@,
        SyntaxKind::RepeatableKw => "repeatable"@,
        SyntaxKind::TrueKw => "true"@,
        SyntaxKind::FalseKw => "false"@,
        SyntaxKind::NullKw => "null"@,
        _ => Seq::empty(),
    }
}

/// Token `i` is a name that spells the keyword.
pub open spec fn is_keyword(inp: Input, i: int, kw: SyntaxKind) -> bool {
    &&& 0 <= i < inp.tokens.len()
    &&& inp.tokens[i].kind == TokenKind::Name
    &&& inp.bytes.subrange(inp.tokens[i].start as int, inp.tokens[i].end as int) == encode_utf8(
        keyword_text(kw),
    )
}

/// The next token is the keyword.
pub open spec fn at_keyword(inp: Input, s: State, kw: SyntaxKind) -> bool {
    is_keyword(inp, s.pos, kw)
}

/// The index of the significant token behind the next one.
pub open spec fn second_pos(inp: Input, s: State) -> int {
    s.pos + 1 + skip_run(inp.tokens, s.pos + 1)
}

/// The significant token behind the next one is of the lexical kind `k`.
pub open spec fn second_at(inp: Input, s: State, k: TokenKind) -> bool {
    let i = second_pos(inp, s);
    0 <= s.pos && i < inp.tokens.len() && inp.tokens[i].kind == k
}

/// The significant token behind the next one is the keyword.
pub open spec fn second_keyword(inp: Input, s: State, kw: SyntaxKind) -> bool {
    0 <= s.pos && is_keyword(inp, second_pos(inp, s), kw)
}

/// The keyword leads a definition: it is the next token, or it stands
/// behind a string, which is then the description of the definition.
pub open spec fn leads(inp: Input, s: State, kw: SyntaxKind) -> bool {
    at_keyword(inp, s, kw) || (at(inp, s, TokenKind::StringValue) && second_keyword(inp, s, kw))
}

/// Opens a node.
#[verifier::opaque]
pub open spec fn start(s: State, kind: SyntaxKind) -> State {
    State { pos: s.pos, events: s.events.push(Event::Start(kind)), errors: s.errors }
}

/// Closes the open node.
#[verifier::opaque]
pub open spec fn finish(s: State) -> State {
    State { pos: s.pos, events: s.events.push(Event::Finish), errors: s.errors }
}

/// Consumes the next token as a leaf of the kind, and the insignificant
/// tokens behind it. At the end of the input nothing happens.
#[verifier::opaque]
pub open spec fn bump(inp: Input, s: State, kind: SyntaxKind) -> State {
    if at_end(inp, s) {
        s
    } else {
        skip(
            inp,
            State {
                pos: s.pos + 1,
                events: s.events.push(Event::Token(kind, token_text(inp, s.pos))),
                errors: s.errors,
            },
        )
    }
}

/// The bytes that a diagnostic at the current position is about: the next
/// token, or the empty stretch at the end of the input.
pub open spec fn span_here(inp: Input, s: State) -> (usize, usize) {
    if at_end(inp, s) {
        (inp.bytes.len() as usize, inp.bytes.len() as usize)
    } else {
        (inp.tokens[s.pos].start, inp.tokens[s.pos].end)
    }
}

/// Records a diagnostic at the current position. Nothing is consumed.
#[verifier::opaque]
pub open spec fn error(inp: Input, s: State, kind: ErrorKind, expected: Expected) -> State {
    State {
        pos: s.pos,
        events: s.events,
        errors: s.errors.push(
            Error { kind, expected, start: span_here(inp, s).0, end: span_here(inp, s).1 },
        ),
    }
}

/// Consumes the next token as a leaf of the kind if it is of the lexical
/// kind `k`; else records that it is missing.
#[verifier::opaque]
pub open spec fn expect(
    inp: Input,
    s: State,
    k: TokenKind,
    kind: SyntaxKind,
    expected: Expected,
) -> State {
    if at(inp, s, k) {
        bump(inp, s, kind)
    } else {
        error(inp, s, ErrorKind::Missing, expected)
    }
}

/// Consumes the next token as an error leaf and records that it cannot
/// stand here.
#[verifier::opaque]
pub open spec fn unexpected(inp: Input, s: State, expected: Expected) -> State {
    bump(inp, error(inp, s, ErrorKind::Unexpected, expected), SyntaxKind::Error)
}

/// How many tokens are left.
pub open spec fn rest(inp: Input, s: State) -> nat {
    if 0 <= s.pos <= inp.tokens.len() {
        (inp.tokens.len() - s.pos) as nat
    } else {
        0
    }
}

/// The parse has moved on from `s` to `t`: at least one token was consumed.
pub open spec fn advanced(inp: Input, s: State, t: State) -> bool {
    0 <= s.pos < t.pos <= inp.tokens.len()
}

/// The parse has gone on from `s` to `t`: nothing that was emitted or
/// recorded has been taken back, and the position has not gone back.
pub open spec fn extends(s: State, t: State) -> bool {
    &&& s.pos <= t.pos
    &&& s.events.is_prefix_of(t.events)
    &&& s.errors.is_prefix_of(t.errors)
}

/// What a parse has put out: the number of its events and diagnostics.
pub open spec fn cost(s: State) -> int {
    (s.events.len() + s.errors.len()) as int
}

/// How much a parse may put out for each token that it consumes.
pub const WEIGHT: usize = 64;

/// From `s` to `t` the parse has put out no more than `WEIGHT` for each
/// token that it has consumed, and `k` besides.
pub open spec fn spent(s: State, t: State, k: int) -> bool {
    cost(t) - cost(s) <= WEIGHT * (t.pos - s.pos) + k
}

/// From `s` to `t` the parse has put out no more than two for each token
/// that it has consumed, and `k` besides: what the steps do that consume
/// tokens themselves.
pub open spec fn spent_little(s: State, t: State, k: int) -> bool {
    cost(t) - cost(s) <= 2 * (t.pos - s.pos) + k
}

/// Where the parse has moved on, the first token that it consumed has paid
/// for `k`: the parse has put out no more than `WEIGHT` for each further
/// token, two for the first, and `k` besides.
pub open spec fn paid(s: State, t: State, k: int) -> bool {
    s.pos < t.pos ==> cost(t) - cost(s) <= WEIGHT * (t.pos - s.pos) + k - (WEIGHT - 2)
}

/// Where the text of token `i` starts, or the length of the text for the
/// index behind the last token.
pub open spec fn offset(inp: Input, i: int) -> int {
    if 0 <= i < inp.tokens.len() {
        inp.tokens[i].start as int
    } else {
        inp.bytes.len() as int
    }
}

/// The diagnostics stand in the order of the text: none starts before one
/// that was recorded earlier, none starts behind `upto`, and each is about
/// bytes of the text, which has `len` bytes.
pub open spec fn in_order(errors: Seq<Error>, upto: int, len: int) -> bool {
    &&& forall|i: int|
        0 <= i < errors.len() ==> (#[trigger] errors[i]).start <= upto && errors[i].start
            <= errors[i].end <= len
    &&& forall|i: int, j: int|
        0 <= i <= j < errors.len() ==> (#[trigger] errors[i]).start <= (#[trigger] errors[j]).start
}

/// A run of insignificant tokens ends inside the tokens, before a
/// significant one.
pub proof fn lemma_skip_run(t: Seq<Token>, i: int)
    requires
        0 <= i <= t.len(),
    ensures
        i + skip_run(t, i) <= t.len(),
        i + skip_run(t, i) < t.len() ==> !insignificant(t[i + skip_run(t, i)].kind),
    decreases t.len() - i,
{
    if i < t.len() && insignificant(t[i].kind) {
        lemma_skip_run(t, i + 1);
    }
}

/// Passing over `n` tokens emits `n` events and records no more than `n`
/// diagnostics.
pub proof fn lemma_skipped(inp: Input, i: int, n: nat)
    ensures
        skipped_events(inp, i, n).len() == n,
        skipped_errors(inp, i, n).len() <= n,
    decreases n,
{
    if n > 0 {
        lemma_skipped(inp, i, (n - 1) as nat);
    }
}

/// Decoding a valid text up to one boundary, and from there up to another,
/// gives the text up to the second.
pub proof fn lemma_decode_step(bytes: Seq<u8>, s: int, e: int)
    requires
        valid_utf8(bytes),
        0 <= s <= e <= bytes.len(),
        s < bytes.len() ==> !in_class(ByteClass::Continuation, bytes[s]),
        e < bytes.len() ==> !in_class(ByteClass::Continuation, bytes[e]),
    ensures
        decode_utf8(bytes.subrange(0, e)) == decode_utf8(bytes.subrange(0, s)) + decode_utf8(
            bytes.subrange(s, e),
        ),
        is_char_boundary(bytes, s),
        is_char_boundary(bytes, e),
{
    is_char_boundary_start_end_of_seq(bytes);
    if s < bytes.len() {
        is_char_boundary_iff_not_is_continuation_byte(bytes, s);
    }
    if e < bytes.len() {
        is_char_boundary_iff_not_is_continuation_byte(bytes, e);
    }
    valid_utf8_split(bytes, e);
    let b = bytes.subrange(0, e);
    is_char_boundary_start_end_of_seq(b);
    if s < e {
        assert(b[s] == bytes[s]);
        is_char_boundary_iff_not_is_continuation_byte(b, s);
    }
    decode_utf8_split(b, s);
    assert(b.subrange(0, s) =~= bytes.subrange(0, s));
    assert(b.subrange(s, b.len() as int) =~= bytes.subrange(s, e));
    assert(b.subrange(0, b.len() as int) =~= b);
}

/// The parser: the text, its tokens, a position among them, and the tree
/// and the diagnostics under construction.
pub struct Parser<'a> {
    source: &'a str,
    tokens: Vec<Token>,
    pos: usize,
    builder: SyntaxTreeBuilder,
    errors: Vec<Error>,
}

impl<'a> Parser<'a> {
    /// What is parsed.
    pub closed spec fn input(&self) -> Input {
        Input { bytes: self.source.spec_bytes(), tokens: self.tokens@ }
    }

    /// How far the parse has come.
    pub closed spec fn state(&self) -> State {
        State { pos: self.pos as int, events: self.builder@, errors: self.errors@ }
    }

    /// How many nodes are open.
    pub closed spec fn depth(&self) -> int {
        self.builder.depth()
    }

    /// The invariant between two tokens: the tokens are those of the text,
    /// the root is open, and the text of the events is the text before the
    /// position.
    pub closed spec fn raw_wf(&self) -> bool {
        let inp = self.input();
        let ev = self.builder@;
        &&& inp.tokens == tokens_of(inp.bytes)
        &&& inp.bytes.len() <= u32::MAX
        &&& self.pos <= inp.tokens.len()
        &&& self.builder.wf()
        &&& self.builder.depth() >= 1
        &&& self.builder.text_bytes() == offset(inp, self.pos as int)
        &&& text_upto(ev, ev.len() as int) == decode_utf8(
            inp.bytes.subrange(0, offset(inp, self.pos as int)),
        )
        &&& in_order(self.errors@, offset(inp, self.pos as int), inp.bytes.len() as int)
    }

    /// The invariant between two steps of the grammar: the position is at a
    /// significant token or at the end.
    pub closed spec fn wf(&self) -> bool {
        &&& self.raw_wf()
        &&& (self.pos < self.tokens@.len() ==> !insignificant(self.tokens@[self.pos as int].kind))
    }

    /// No token is left.
    pub open spec fn at_end(&self) -> bool {
        at_end(self.input(), self.state())
    }

    /// The next token is of the lexical kind `k`.
    pub open spec fn at(&self, k: TokenKind) -> bool {
        at(self.input(), self.state(), k)
    }

    /// The next token is the keyword.
    pub open spec fn at_keyword(&self, kw: SyntaxKind) -> bool {
        at_keyword(self.input(), self.state(), kw)
    }

    /// The significant token behind the next one is of the lexical kind
    /// `k`.
    pub open spec fn second_at(&self, k: TokenKind) -> bool {
        second_at(self.input(), self.state(), k)
    }

    /// The significant token behind the next one is the keyword.
    pub open spec fn second_keyword(&self, kw: SyntaxKind) -> bool {
        second_keyword(self.input(), self.state(), kw)
    }

    /// The keyword leads a definition.
    pub open spec fn leads(&self, kw: SyntaxKind) -> bool {
        leads(self.input(), self.state(), kw)
    }

    /// How many tokens are left.
    pub open spec fn left(&self) -> nat {
        rest(self.input(), self.state())
    }

    /// The parser `then` has consumed at least one token since `self`.
    pub open spec fn moved(&self, then: &Parser<'a>) -> bool {
        advanced(self.input(), self.state(), then.state())
    }

    /// What every step of the grammar keeps. From `self` to `then` the
    /// parser has made the step that leads to the state `to`: the invariant
    /// holds, the input is the same, as many nodes are open as before,
    /// nothing that was emitted or recorded has been taken back, and no
    /// more was put out than `WEIGHT` for each consumed token and `extra`
    /// besides; where a token was consumed, the first token has paid for
    /// `first`.
    pub open spec fn step(&self, then: &Parser<'a>, to: State, extra: int, first: int) -> bool {
        &&& then.wf()
        &&& then.input() == self.input()
        &&& then.state() == to
        &&& then.depth() == self.depth()
        &&& extends(self.state(), then.state())
        &&& spent(self.state(), then.state(), extra)
        &&& paid(self.state(), then.state(), first)
    }

    /// What the invariant says of the input and the state.
    pub proof fn lemma_wf(&self)
        requires
            self.wf(),
        ensures
            self.input().tokens == tokens_of(self.input().bytes),
            self.input().bytes.len() <= u32::MAX,
            0 <= self.state().pos <= self.input().tokens.len(),
            !at_end(self.input(), self.state()) ==> !insignificant(
                self.input().tokens[self.state().pos].kind,
            ),
            self.depth() >= 1,
            text_upto(self.state().events, self.state().events.len() as int) == decode_utf8(
                self.input().bytes.subrange(0, offset(self.input(), self.state().pos)),
            ),
            in_order(
                self.state().errors,
                offset(self.input(), self.state().pos),
                self.input().bytes.len() as int,
            ),
    {
    }

    proof fn lemma_tokens(&self)
        requires
            self.raw_wf(),
        ensures
            tiles(self.tokens@, 0, self.source.spec_bytes().len() as int),
            ends_clean(self.source.spec_bytes(), self.tokens@),
            valid_utf8(self.source.spec_bytes()),
            forall|i: int|
                0 <= i <= self.tokens@.len() ==> 0 <= #[trigger] offset(self.input(), i)
                    <= self.source.spec_bytes().len() && (offset(self.input(), i)
                    < self.source.spec_bytes().len() ==> !in_class(
                    ByteClass::Continuation,
                    self.source.spec_bytes()[offset(self.input(), i)],
                )),
            forall|i: int|
                0 <= i < self.tokens@.len() ==> (#[trigger] self.tokens@[i]).end == offset(
                    self.input(),
                    i + 1,
                ),
    {
        let b = self.source.spec_bytes();
        let t = self.tokens@;
        lemma_tokens_tile(b, 0);
        encode_utf8_valid_utf8(self.source@);
        assert forall|i: int| 0 <= i < t.len() implies (#[trigger] t[i]).end == offset(
            self.input(),
            i + 1,
        ) by {
            if i + 1 < t.len() {
                assert(joins(t, i));
            } else {
                assert(t[i] == t.last());
            }
        }
        assert forall|i: int| 0 <= i <= t.len() implies 0 <= #[trigger] offset(self.input(), i)
            <= b.len() && (offset(self.input(), i) < b.len() ==> !in_class(
            ByteClass::Continuation,
            b[offset(self.input(), i)],
        )) by {
            if 0 < i {
                assert(t[i - 1].end == offset(self.input(), i));
            } else if t.len() > 0 {
                assert(t[0].start == 0);
                if 0 < b.len() {
                    is_char_boundary_iff_not_is_continuation_byte(b, 0);
                }
            }
        }
    }

    /// The text of token `i`, as a slice of the source.
    fn token_str(&self, i: usize) -> (t: &'a str)
        requires
            self.raw_wf(),
            i < self.tokens@.len(),
        ensures
            t@ == token_text(self.input(), i as int),
            encode_utf8(t@) == self.input().bytes.subrange(
                self.tokens@[i as int].start as int,
                self.tokens@[i as int].end as int,
            ),
            self.tokens@[i as int].start <= self.tokens@[i as int].end
                <= self.input().bytes.len(),
    {
        let tok = self.tokens[i];
        let ghost b = self.source.spec_bytes();
        proof {
            self.lemma_tokens();
            assert(tok.start == offset(self.input(), i as int));
            assert(tok.end == offset(self.input(), i + 1));
            lemma_decode_step(b, tok.start as int, tok.end as int);
        }
        let (_, tail) = self.source.split_at(tok.start);
        proof {
            let r = tail.spec_bytes();
            encode_utf8_valid_utf8(tail@);
            is_char_boundary_start_end_of_seq(r);
            if tok.end < b.len() {
                assert(r[tok.end - tok.start] == b[tok.end as int]);
                if tok.end > tok.start {
                    is_char_boundary_iff_not_is_continuation_byte(r, tok.end - tok.start);
                }
            }
        }
        let (t, _) = tail.split_at(tok.end - tok.start);
        proof {
            assert(t.spec_bytes() =~= b.subrange(tok.start as int, tok.end as int));
            encode_utf8_decode_utf8(t@);
        }
        t
    }

    /// Emits token `self.pos` as a leaf of the kind and moves behind it.
    fn take(&mut self, kind: SyntaxKind)
        requires
            old(self).raw_wf(),
            old(self).pos < old(self).tokens@.len(),
        ensures
            final(self).raw_wf(),
            final(self).input() == old(self).input(),
            final(self).depth() == old(self).depth(),
            final(self).state() == (State {
                pos: old(self).state().pos + 1,
                events: old(self).state().events.push(
                    Event::Token(kind, token_text(old(self).input(), old(self).state().pos)),
                ),
                errors: old(self).state().errors,
            }),
    {
        let text = self.token_str(self.pos);
        assert(self.pos < self.tokens.len());
        proof {
            self.lemma_tokens();
            let inp = self.input();
            let b = inp.bytes;
            let i = self.pos as int;
            assert(self.tokens@[i].end == offset(inp, i + 1));
            assert(self.tokens@[i].start == offset(inp, i));
            lemma_decode_step(b, offset(inp, i), offset(inp, i + 1));
            crate::builder::lemma_push(self.builder@, Event::Token(kind, text@));
        }
        self.builder.token(kind, text);
        self.pos = self.pos + 1;
    }

    /// Passes over the insignificant tokens at the position.
    fn skip_insignificant(&mut self)
        requires
            old(self).raw_wf(),
        ensures
            final(self).wf(),
            final(self).input() == old(self).input(),
            final(self).depth() == old(self).depth(),
            final(self).state() == skip(old(self).input(), old(self).state()),
            spent_little(old(self).state(), final(self).state(), 0),
    {
        proof {
            reveal(skip);
        }
        proof {
            lemma_skipped(self.input(), self.pos as int, skip_run(self.tokens@, self.pos as int));
        }
        let ghost inp = self.input();
        let ghost s0 = self.state();
        let ghost from = self.pos as int;
        let ghost n: nat = 0;
        proof {
            assert(s0.events + skipped_events(inp, from, 0) =~= s0.events);
            assert(s0.errors + skipped_errors(inp, from, 0) =~= s0.errors);
        }
        while self.pos < self.tokens.len() && (self.tokens[self.pos].kind.trivia()
            || self.tokens[self.pos].kind == TokenKind::Error)
            invariant
                self.raw_wf(),
                self.input() == inp,
                self.depth() == old(self).depth(),
                self.pos == from + n,
                n + skip_run(inp.tokens, from + n) == skip_run(inp.tokens, from),
                self.state().events == s0.events + skipped_events(inp, from, n),
                self.state().errors == s0.errors + skipped_errors(inp, from, n),
            decreases self.tokens.len() - self.pos,
        {
            let tok = self.tokens[self.pos];
            let ghost before = self.state();
            proof {
                self.lemma_tokens();
                assert(tok.end == offset(inp, from + n + 1));
            }
            if tok.kind == TokenKind::Error {
                self.errors.push(
                    Error {
                        kind: ErrorKind::Lexical,
                        expected: Expected::Token,
                        start: tok.start,
                        end: tok.end,
                    },
                );
            }
            self.take(tok.kind.to_syntax_kind());
            proof {
                let m = (n + 1) as nat;
                assert(skipped_events(inp, from, m) == skipped_events(inp, from, n).push(
                    Event::Token(tok.kind.plain_kind(), token_text(inp, from + n)),
                ));
                assert(self.state().events =~= s0.events + skipped_events(inp, from, m));
                assert(self.state().errors =~= s0.errors + skipped_errors(inp, from, m));
                n = m;
            }
        }
        proof {
            lemma_skip_run(inp.tokens, from);
        }
    }

    /// Lexes the text, opens the root, and passes over what stands before
    /// the first significant token.
    pub fn new(source: &'a str) -> (p: Self)
        requires
            source.spec_bytes().len() <= u32::MAX,
        ensures
            p.wf(),
            p.input() == (Input {
                bytes: source.spec_bytes(),
                tokens: tokens_of(source.spec_bytes()),
            }),
            p.state() == skip(
                p.input(),
                State {
                    pos: 0,
                    events: seq![Event::Start(SyntaxKind::Document)],
                    errors: Seq::empty(),
                },
            ),
            p.depth() == 1,
            spent_little(initial(), p.state(), 0),
    {
        proof {
            reveal(skip);
        }
        let tokens = lex(source.as_bytes());
        let mut builder = SyntaxTreeBuilder::new();
        builder.start_node(SyntaxKind::Document);
        let mut p = Parser { source, tokens, pos: 0, builder, errors: Vec::new() };
        proof {
            let inp = p.input();
            let ev = p.builder@;
            assert(ev =~= seq![Event::Start(SyntaxKind::Document)]);
            assert(text_upto(ev, 1) =~= Seq::<char>::empty()) by {
                assert(text_upto(ev, 0) =~= Seq::<char>::empty());
            }
            lemma_tokens_tile(inp.bytes, 0);
            assert(offset(inp, 0) == 0);
            assert(inp.bytes.subrange(0, 0) =~= Seq::<u8>::empty());
            assert(decode_utf8(Seq::<u8>::empty()) =~= Seq::<char>::empty());
        }
        p.skip_insignificant();
        p
    }

    /// No token is left.
    pub fn is_at_end(&self) -> (r: bool)
        requires
            self.wf(),
        ensures
            r == self.at_end(),
    {
        self.pos >= self.tokens.len()
    }

    /// Whether the next token is of the lexical kind `k`.
    pub fn is_at(&self, k: TokenKind) -> (r: bool)
        requires
            self.wf(),
        ensures
            r == self.at(k),
    {
        self.pos < self.tokens.len() && self.tokens[self.pos].kind == k
    }

    fn token_is_keyword(&self, i: usize, kw: SyntaxKind) -> (r: bool)
        requires
            self.raw_wf(),
        ensures
            r == is_keyword(self.input(), i as int, kw),
    {
        if i >= self.tokens.len() {
            return false;
        }
        let tok = self.tokens[i];
        if tok.kind != TokenKind::Name {
            return false;
        }
        proof {
            self.lemma_tokens();
            assert(tok.end == offset(self.input(), i + 1));
        }
        let word = keyword_str(kw).as_bytes();
        let bytes = self.source.as_bytes();
        let n = tok.end - tok.start;
        if word.len() != n {
            return false;
        }
        let ghost have = bytes@.subrange(tok.start as int, tok.end as int);
        let mut j: usize = 0;
        while j < n
            invariant
                j <= n,
                n == word@.len(),
                tok.start + n == tok.end,
                tok.end <= bytes@.len(),
                have == bytes@.subrange(tok.start as int, tok.end as int),
                bytes@ == self.input().bytes,
                i < self.tokens@.len(),
                tok == self.tokens@[i as int],
                word@ == encode_utf8(keyword_text(kw)),
                forall|k: int| 0 <= k < j ==> have[k] == word@[k],
            decreases n - j,
        {
            if bytes[tok.start + j] != word[j] {
                assert(have[j as int] == bytes@[tok.start + j]);
                assert(have[j as int] != word@[j as int]);
                assert(have != word@);
                return false;
            }
            j = j + 1;
        }
        assert(have =~= word@);
        true
    }

    /// Whether the next token is the keyword.
    pub fn is_at_keyword(&self, kw: SyntaxKind) -> (r: bool)
        requires
            self.wf(),
        ensures
            r == self.at_keyword(kw),
    {
        self.token_is_keyword(self.pos, kw)
    }

    /// The index of the significant token behind the next one.
    fn second(&self) -> (i: usize)
        requires
            self.wf(),
        ensures
            i == if self.state().pos < self.input().tokens.len() {
                second_pos(self.input(), self.state())
            } else {
                self.input().tokens.len() as int
            },
            i <= self.input().tokens.len(),
    {
        if self.pos >= self.tokens.len() {
            return self.tokens.len();
        }
        let from = self.pos + 1;
        let mut i: usize = from;
        proof {
            lemma_skip_run(self.tokens@, from as int);
        }
        while i < self.tokens.len() && (self.tokens[i].kind.trivia() || self.tokens[i].kind
            == TokenKind::Error)
            invariant
                from <= i <= self.tokens@.len(),
                i + skip_run(self.tokens@, i as int) == from + skip_run(self.tokens@, from as int),
            decreases self.tokens.len() - i,
        {
            i = i + 1;
        }
        i
    }

    /// Whether the significant token behind the next one is of the lexical
    /// kind `k`.
    pub fn is_second_at(&self, k: TokenKind) -> (r: bool)
        requires
            self.wf(),
        ensures
            r == self.second_at(k),
    {
        proof {
            if self.pos < self.tokens@.len() {
                lemma_skip_run(self.tokens@, self.pos + 1);
            }
        }
        let i = self.second();
        i < self.tokens.len() && self.tokens[i].kind == k
    }

    /// Whether the significant token behind the next one is the keyword.
    pub fn is_second_keyword(&self, kw: SyntaxKind) -> (r: bool)
        requires
            self.wf(),
        ensures
            r == self.second_keyword(kw),
    {
        proof {
            if self.pos < self.tokens@.len() {
                lemma_skip_run(self.tokens@, self.pos + 1);
            }
        }
        let i = self.second();
        self.token_is_keyword(i, kw)
    }

    /// Whether the keyword leads a definition.
    pub fn is_leading(&self, kw: SyntaxKind) -> (r: bool)
        requires
            self.wf(),
        ensures
            r == self.leads(kw),
    {
        self.is_at_keyword(kw) || (self.is_at(TokenKind::StringValue) && self.is_second_keyword(kw))
    }

    /// Opens a node.
    pub fn start(&mut self, kind: SyntaxKind)
        requires
            old(self).wf(),
        ensures
            final(self).wf(),
            final(self).input() == old(self).input(),
            final(self).state() == start(old(self).state(), kind),
            final(self).state().pos == old(self).state().pos,
            extends(old(self).state(), final(self).state()),
            cost(final(self).state()) == cost(old(self).state()) + 1,
            final(self).depth() == old(self).depth() + 1,
    {
        proof {
            reveal(start);
        }
        proof {
            crate::builder::lemma_push(self.builder@, Event::Start(kind));
            assert(text_upto(self.builder@, self.builder@.len() as int) + Seq::<char>::empty()
                =~= text_upto(self.builder@, self.builder@.len() as int));
        }
        self.builder.start_node(kind);
    }

    /// Closes the open node. The root stays open.
    pub fn finish(&mut self)
        requires
            old(self).wf(),
            old(self).depth() >= 2,
        ensures
            final(self).wf(),
            final(self).input() == old(self).input(),
            final(self).state() == finish(old(self).state()),
            final(self).state().pos == old(self).state().pos,
            extends(old(self).state(), final(self).state()),
            cost(final(self).state()) == cost(old(self).state()) + 1,
            final(self).depth() == old(self).depth() - 1,
    {
        proof {
            reveal(finish);
        }
        proof {
            crate::builder::lemma_push(self.builder@, Event::Finish);
            assert(text_upto(self.builder@, self.builder@.len() as int) + Seq::<char>::empty()
                =~= text_upto(self.builder@, self.builder@.len() as int));
        }
        self.builder.finish_node();
    }

    /// Consumes the next token as a leaf of the kind, with the
    /// insignificant tokens behind it.
    pub fn bump(&mut self, kind: SyntaxKind)
        requires
            old(self).wf(),
        ensures
            final(self).wf(),
            final(self).input() == old(self).input(),
            final(self).state() == bump(old(self).input(), old(self).state(), kind),
            final(self).depth() == old(self).depth(),
            extends(old(self).state(), final(self).state()),
            spent_little(old(self).state(), final(self).state(), 0),
            !at_end(old(self).input(), old(self).state()) ==> advanced(
                old(self).input(),
                old(self).state(),
                final(self).state(),
            ),
    {
        proof {
            reveal(bump);
            reveal(skip);
        }
        if self.pos < self.tokens.len() {
            self.take(kind);
            self.skip_insignificant();
        }
    }

    /// Records a diagnostic at the current position.
    pub fn error(&mut self, kind: ErrorKind, expected: Expected)
        requires
            old(self).wf(),
        ensures
            final(self).wf(),
            final(self).input() == old(self).input(),
            final(self).state() == error(old(self).input(), old(self).state(), kind, expected),
            final(self).state().pos == old(self).state().pos,
            extends(old(self).state(), final(self).state()),
            cost(final(self).state()) == cost(old(self).state()) + 1,
            final(self).depth() == old(self).depth(),
    {
        proof {
            reveal(error);
        }
        proof {
            self.lemma_tokens();
            if self.pos < self.tokens@.len() {
                assert(self.tokens@[self.pos as int].end == offset(self.input(), self.pos + 1));
            }
        }
        let len = self.source.as_bytes().len();
        let (start, end) = if self.pos < self.tokens.len() {
            (self.tokens[self.pos].start, self.tokens[self.pos].end)
        } else {
            (len, len)
        };
        self.errors.push(Error { kind, expected, start, end });
    }

    /// Consumes the next token if it is of the lexical kind `k`; else
    /// records that it is missing.
    pub fn expect(&mut self, k: TokenKind, kind: SyntaxKind, expected: Expected)
        requires
            old(self).wf(),
        ensures
            final(self).wf(),
            final(self).input() == old(self).input(),
            final(self).state() == expect(old(self).input(), old(self).state(), k, kind, expected),
            final(self).depth() == old(self).depth(),
            extends(old(self).state(), final(self).state()),
            spent_little(old(self).state(), final(self).state(), 1),
    {
        proof {
            reveal(expect);
        }
        if self.is_at(k) {
            self.bump(kind);
        } else {
            self.error(ErrorKind::Missing, expected);
        }
    }

    /// Consumes the next token as an error leaf and records that it cannot
    /// stand here.
    pub fn unexpected(&mut self, expected: Expected)
        requires
            old(self).wf(),
        ensures
            final(self).wf(),
            final(self).input() == old(self).input(),
            final(self).state() == unexpected(old(self).input(), old(self).state(), expected),
            final(self).depth() == old(self).depth(),
            extends(old(self).state(), final(self).state()),
            spent_little(old(self).state(), final(self).state(), 1),
            !at_end(old(self).input(), old(self).state()) ==> advanced(
                old(self).input(),
                old(self).state(),
                final(self).state(),
            ),
    {
        proof {
            reveal(unexpected);
        }
        self.error(ErrorKind::Unexpected, expected);
        self.bump(SyntaxKind::Error);
    }
}

/// The state in which a parse begins: the root is open, nothing is consumed.
pub open spec fn initial() -> State {
    State { pos: 0, events: seq![Event::Start(SyntaxKind::Document)], errors: Seq::empty() }
}

/// What is parsed when `text` is parsed.
pub open spec fn input_of(text: Seq<char>) -> Input {
    Input { bytes: encode_utf8(text), tokens: tokens_of(encode_utf8(text)) }
}

/// The parse of an input: the root is opened, what stands before the first
/// significant token is passed over, the definitions are parsed to the end
/// of the input, and the root is closed.
pub open spec fn parsed(inp: Input) -> State {
    finish(crate::grammar::document::definitions(inp, skip(inp, initial())))
}

impl<'a> Parser<'a> {
    /// Parses the text to its end and returns the tree with the
    /// diagnostics. Every input gives a tree.
    pub fn parse(self) -> (tree: crate::tree::SyntaxTree)
        requires
            self.wf(),
            self.depth() == 1,
        ensures
            tree.events() == finish(
                crate::grammar::document::definitions(self.input(), self.state()),
            ).events,
            tree.diagnostics() == crate::grammar::document::definitions(
                self.input(),
                self.state(),
            ).errors,
            self.state().events.is_prefix_of(tree.events()),
            tree.source_text() == decode_utf8(self.input().bytes),
            in_order(
                tree.diagnostics(),
                self.input().bytes.len() as int,
                self.input().bytes.len() as int,
            ),
            tree.events().len() + tree.diagnostics().len() <= cost(self.state()) + WEIGHT * (
            self.input().tokens.len() - self.state().pos) + 1,
    {
        proof {
            reveal(finish);
        }
        let mut p = self;
        let ghost inp = p.input();
        let ghost s0 = p.state();
        p.definitions();
        proof {
            crate::builder::lemma_push(p.builder@, Event::Finish);
            assert(text_upto(p.builder@, p.builder@.len() as int) + Seq::<char>::empty()
                =~= text_upto(p.builder@, p.builder@.len() as int));
            assert(inp.bytes.subrange(0, inp.bytes.len() as int) =~= inp.bytes);
            p.builder.lemma_wf();
        }
        let Parser { source: _, tokens: _, pos: _, builder, errors } = p;
        let mut builder = builder;
        builder.finish_node();
        builder.finish(errors)
    }
}

/// Parses a text. Every text gives a tree, with the diagnostics that were
/// recorded; the texts of the tree's tokens, in order, are the text.
pub fn parse(text: &str) -> (tree: crate::tree::SyntaxTree)
    requires
        text.spec_bytes().len() <= u32::MAX,
    ensures
        tree.events() == parsed(input_of(text@)).events,
        tree.diagnostics() == parsed(input_of(text@)).errors,
        tree.source_text() == text@,
        tree.events()[0] == Event::Start(SyntaxKind::Document),
        in_order(
            tree.diagnostics(),
            text.spec_bytes().len() as int,
            text.spec_bytes().len() as int,
        ),
        tree.events().len() + tree.diagnostics().len() <= WEIGHT * tokens_of(
            text.spec_bytes(),
        ).len() + 2,
{
    let p = Parser::new(text);
    proof {
        reveal(skip);
        reveal(finish);
        encode_utf8_decode_utf8(text@);
        assert(initial().events[0] == Event::Start(SyntaxKind::Document));
        assert(p.state().events[0] == Event::Start(SyntaxKind::Document));
    }
    p.parse()
}

/// Parses a text of any length. A text of more bytes than a 32-bit number
/// counts has no tree, as the green tree measures its text in 32 bits;
/// every other text is parsed.
pub fn parse_checked(text: &str) -> (r: Option<crate::tree::SyntaxTree>)
    ensures
        r is Some <==> text.spec_bytes().len() <= u32::MAX,
        r matches Some(tree) ==> {
            &&& tree.events() == parsed(input_of(text@)).events
            &&& tree.diagnostics() == parsed(input_of(text@)).errors
            &&& tree.source_text() == text@
            &&& tree.events()[0] == Event::Start(SyntaxKind::Document)
            &&& in_order(
                tree.diagnostics(),
                text.spec_bytes().len() as int,
                text.spec_bytes().len() as int,
            )
            &&& tree.events().len() + tree.diagnostics().len() <= WEIGHT * tokens_of(
                text.spec_bytes(),
            ).len() + 2
        },
{
    if text.as_bytes().len() <= 0xFFFF_FFFF {
        Some(parse(text))
    } else {
        None
    }
}

/// The spelling of a keyword kind.
pub fn keyword_str(kw: SyntaxKind) -> (r: &'static str)
    ensures
        r@ == keyword_text(kw),
{
    match kw {
        SyntaxKind::QueryKw => "query",
        SyntaxKind::MutationKw => "mutation",
        SyntaxKind::SubscriptionKw => "subscription",
        SyntaxKind::FragmentKw => "fragment",
        SyntaxKind::OnKw => "on",
        SyntaxKind::SchemaKw => "schema",
        SyntaxKind::ScalarKw => "scalar",
        SyntaxKind::TypeKw => "type",
        SyntaxKind::InterfaceKw => "interface",
        SyntaxKind::UnionKw => "union",
        SyntaxKind::EnumKw => "enum",
        SyntaxKind::InputKw => "input",
        SyntaxKind::DirectiveKw => "directive",
        SyntaxKind::ExtendKw => "extend",
        SyntaxKind::ImplementsKw => "implements",
        SyntaxKind::RepeatableKw => "repeatable",
        SyntaxKind::TrueKw => "true",
        SyntaxKind::FalseKw => "false",
        SyntaxKind::NullKw => "null",
        _ => {
            proof {
                reveal_strlit("");
            }
            ""
        },
    }
}

} // verus!
