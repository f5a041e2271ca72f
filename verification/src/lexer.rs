//! The token stream: a total function from bytes to classified tokens that
//! cover the input without gaps.
//!
//! The lexical grammar is given by the spec functions of this module
//! ([`tokens_from`] and what it is built from). [`lex`] computes exactly that
//! sequence.

use crate::kind::TokenKind;
use vstd::prelude::*;

verus! {

pub const TAB: u8 = 9;

pub const LINE_FEED: u8 = 10;

pub const CARRIAGE_RETURN: u8 = 13;

pub const SPACE: u8 = 32;

pub const BANG: u8 = 33;

pub const QUOTE: u8 = 34;

pub const HASH: u8 = 35;

pub const DOLLAR: u8 = 36;

pub const AMP: u8 = 38;

pub const L_PAREN: u8 = 40;

pub const R_PAREN: u8 = 41;

pub const PLUS: u8 = 43;

pub const COMMA: u8 = 44;

pub const MINUS: u8 = 45;

pub const DOT: u8 = 46;

pub const ZERO: u8 = 48;

pub const NINE: u8 = 57;

pub const COLON: u8 = 58;

pub const EQUALS: u8 = 61;

pub const AT: u8 = 64;

pub const UPPER_A: u8 = 65;

pub const UPPER_E: u8 = 69;

pub const UPPER_Z: u8 = 90;

pub const L_BRACKET: u8 = 91;

pub const BACKSLASH: u8 = 92;

pub const R_BRACKET: u8 = 93;

pub const UNDERSCORE: u8 = 95;

pub const LOWER_A: u8 = 97;

pub const LOWER_E: u8 = 101;

pub const LOWER_Z: u8 = 122;

pub const L_CURLY: u8 = 123;

pub const PIPE: u8 = 124;

pub const R_CURLY: u8 = 125;

/// A classified stretch of the input: the bytes from `start` up to, not
/// including, `end`.
#[derive(Clone, Copy, Debug, PartialEq, Eq, Structural)]
pub struct Token {
    pub kind: TokenKind,
    pub start: usize,
    pub end: usize,
}

/// Sets of bytes of which a token may hold a run.
#[derive(Clone, Copy, Debug, PartialEq, Eq, Structural)]
pub enum ByteClass {
    /// `0` to `9`.
    Digit,
    /// Letters, digits and the underscore.
    NameContinue,
    /// Space, tab, line feed and carriage return.
    Blank,
    /// Everything but a line feed or a carriage return.
    CommentBody,
    /// The bytes `0x80` to `0xBF`, which continue a UTF-8 sequence.
    Continuation,
    /// What may not follow a number directly: name bytes and the dot.
    NumberTail,
    /// The dot.
    Dot,
}

pub open spec fn is_digit(x: u8) -> bool {
    ZERO <= x <= NINE
}

pub open spec fn is_name_start(x: u8) -> bool {
    x == UNDERSCORE || UPPER_A <= x <= UPPER_Z || LOWER_A <= x <= LOWER_Z
}

pub open spec fn is_line_end(x: u8) -> bool {
    x == LINE_FEED || x == CARRIAGE_RETURN
}

pub open spec fn in_class(c: ByteClass, x: u8) -> bool {
    match c {
        ByteClass::Digit => is_digit(x),
        ByteClass::NameContinue => is_name_start(x) || is_digit(x),
        ByteClass::Blank => x == SPACE || x == TAB || is_line_end(x),
        ByteClass::CommentBody => !is_line_end(x),
        ByteClass::Continuation => 0x80 <= x <= 0xBF,
        ByteClass::NumberTail => is_name_start(x) || is_digit(x) || x == DOT,
        ByteClass::Dot => x == DOT,
    }
}

/// The byte at `i`, or `-1` outside the input.
pub open spec fn at(b: Seq<u8>, i: int) -> int {
    if 0 <= i < b.len() {
        b[i] as int
    } else {
        -1
    }
}

/// How many bytes of class `c` stand in a row from `i` on.
pub open spec fn run_len(b: Seq<u8>, i: int, c: ByteClass) -> nat
    decreases b.len() - i,
{
    if 0 <= i < b.len() && in_class(c, b[i]) {
        1 + run_len(b, i + 1, c)
    } else {
        0
    }
}

/// The token kind of a one-byte punctuator (the comma among them).
pub open spec fn punctuator(x: u8) -> Option<TokenKind> {
    if x == BANG {
        Some(TokenKind::Bang)
    } else if x == DOLLAR {
        Some(TokenKind::Dollar)
    } else if x == AMP {
        Some(TokenKind::Amp)
    } else if x == L_PAREN {
        Some(TokenKind::LParen)
    } else if x == R_PAREN {
        Some(TokenKind::RParen)
    } else if x == COMMA {
        Some(TokenKind::Comma)
    } else if x == COLON {
        Some(TokenKind::Colon)
    } else if x == EQUALS {
        Some(TokenKind::Eq)
    } else if x == AT {
        Some(TokenKind::At)
    } else if x == L_BRACKET {
        Some(TokenKind::LBracket)
    } else if x == R_BRACKET {
        Some(TokenKind::RBracket)
    } else if x == L_CURLY {
        Some(TokenKind::LCurly)
    } else if x == PIPE {
        Some(TokenKind::Pipe)
    } else if x == R_CURLY {
        Some(TokenKind::RCurly)
    } else {
        None
    }
}

/// A number that starts at `i` (a digit or a minus sign): its kind and the
/// index behind it.
///
/// The integer part is the sign and the digits; a fraction is a dot with
/// digits behind it; an exponent is `e` or `E`, an optional sign, and digits.
/// Name bytes or dots that follow directly belong to the token and make it
/// an error, as do a missing integer part and a leading zero.
pub open spec fn number(b: Seq<u8>, i: int) -> (TokenKind, int) {
    let digits_from = if at(b, i) == MINUS {
        i + 1
    } else {
        i
    };
    let d1 = i + 1 + run_len(b, i + 1, ByteClass::Digit);
    let int_ok = d1 > digits_from && (at(b, digits_from) != ZERO || d1 == digits_from + 1);
    let f1 = if at(b, d1) == DOT && ZERO <= at(b, d1 + 1) <= NINE {
        d1 + 2 + run_len(b, d1 + 2, ByteClass::Digit)
    } else {
        d1
    };
    let s = if at(b, f1 + 1) == PLUS || at(b, f1 + 1) == MINUS {
        f1 + 2
    } else {
        f1 + 1
    };
    let x1 = if (at(b, f1) == LOWER_E || at(b, f1) == UPPER_E) && ZERO <= at(b, s) <= NINE {
        s + 1 + run_len(b, s + 1, ByteClass::Digit)
    } else {
        f1
    };
    let end = x1 + run_len(b, x1, ByteClass::NumberTail);
    let kind = if !int_ok || end > x1 {
        TokenKind::Error
    } else if x1 > d1 {
        TokenKind::Float
    } else {
        TokenKind::Int
    };
    (kind, end)
}

/// The rest of a one-line string from `j` on, behind the opening quote: its
/// kind and its length. It ends behind the next quote that no backslash
/// escapes; a line end or the end of the input comes first in an
/// unterminated string, which is an error and ends before it.
pub open spec fn line_tail(b: Seq<u8>, j: int) -> (TokenKind, nat)
    decreases b.len() - j,
{
    if j < 0 || j >= b.len() {
        (TokenKind::Error, 0)
    } else if b[j] == QUOTE {
        (TokenKind::StringValue, 1)
    } else if is_line_end(b[j]) {
        (TokenKind::Error, 0)
    } else if b[j] == BACKSLASH && j + 1 < b.len() && !is_line_end(b[j + 1]) {
        let r = line_tail(b, j + 2);
        (r.0, 2 + r.1)
    } else {
        let r = line_tail(b, j + 1);
        (r.0, 1 + r.1)
    }
}

/// The rest of a block string from `j` on, behind the three opening quotes.
/// It ends behind the next three quotes that no backslash escapes; without
/// them it is an error that runs to the end of the input.
pub open spec fn block_tail(b: Seq<u8>, j: int) -> (TokenKind, nat)
    decreases b.len() - j,
{
    if j < 0 || j >= b.len() {
        (TokenKind::Error, 0)
    } else if b[j] == QUOTE && at(b, j + 1) == QUOTE && at(b, j + 2) == QUOTE {
        (TokenKind::StringValue, 3)
    } else if b[j] == BACKSLASH && at(b, j + 1) == QUOTE && at(b, j + 2) == QUOTE && at(b, j + 3)
        == QUOTE {
        let r = block_tail(b, j + 4);
        (r.0, 4 + r.1)
    } else {
        let r = block_tail(b, j + 1);
        (r.0, 1 + r.1)
    }
}

/// The kind of the token that starts at `i`, and the index behind its last
/// byte, before the continuation bytes that follow are added to it.
#[verifier::opaque]
pub open spec fn scan(b: Seq<u8>, i: int) -> (TokenKind, int)
    recommends
        0 <= i < b.len(),
{
    let x = b[i];
    if in_class(ByteClass::Blank, x) {
        (TokenKind::Whitespace, i + 1 + run_len(b, i + 1, ByteClass::Blank))
    } else if x == 0xEF && at(b, i + 1) == 0xBB && at(b, i + 2) == 0xBF {
        (TokenKind::Whitespace, i + 3)
    } else if x == HASH {
        (TokenKind::Comment, i + 1 + run_len(b, i + 1, ByteClass::CommentBody))
    } else if punctuator(x) is Some {
        (punctuator(x).unwrap(), i + 1)
    } else if x == DOT {
        if at(b, i + 1) == DOT && at(b, i + 2) == DOT {
            (TokenKind::Spread, i + 3)
        } else {
            (TokenKind::Error, i + 1 + run_len(b, i + 1, ByteClass::Dot))
        }
    } else if is_name_start(x) {
        (TokenKind::Name, i + 1 + run_len(b, i + 1, ByteClass::NameContinue))
    } else if is_digit(x) || x == MINUS {
        number(b, i)
    } else if x == QUOTE {
        if at(b, i + 1) == QUOTE && at(b, i + 2) == QUOTE {
            let r = block_tail(b, i + 3);
            (r.0, i + 3 + r.1)
        } else {
            let r = line_tail(b, i + 1);
            (r.0, i + 1 + r.1)
        }
    } else {
        (TokenKind::Error, i + 1)
    }
}

/// The token that starts at `i`. Continuation bytes that follow a token
/// directly belong to it, so that no token ends inside a UTF-8 sequence.
pub open spec fn token_at(b: Seq<u8>, i: int) -> Token
    recommends
        0 <= i < b.len(),
{
    let (kind, raw_end) = scan(b, i);
    Token {
        kind,
        start: i as usize,
        end: (raw_end + run_len(b, raw_end, ByteClass::Continuation)) as usize,
    }
}

/// The index behind the token that starts at `i`, as an integer.
pub open spec fn token_end(b: Seq<u8>, i: int) -> int {
    scan(b, i).1 + run_len(b, scan(b, i).1, ByteClass::Continuation)
}

/// The tokens of the input from `i` on.
pub open spec fn tokens_from(b: Seq<u8>, i: int) -> Seq<Token>
    decreases b.len() - i,
{
    if 0 <= i < token_end(b, i) <= b.len() {
        seq![token_at(b, i)] + tokens_from(b, token_end(b, i))
    } else {
        Seq::empty()
    }
}

/// The tokens of the whole input.
pub open spec fn tokens_of(b: Seq<u8>) -> Seq<Token> {
    tokens_from(b, 0)
}

/// A run stays inside the input, holds only bytes of its class, and stops
/// before a byte that is not of it.
pub proof fn lemma_run_len(b: Seq<u8>, i: int, c: ByteClass)
    requires
        0 <= i <= b.len(),
    ensures
        i + run_len(b, i, c) <= b.len(),
        forall|k: int| i <= k < i + run_len(b, i, c) ==> in_class(c, #[trigger] b[k]),
        i + run_len(b, i, c) < b.len() ==> !in_class(c, b[i + run_len(b, i, c)]),
    decreases b.len() - i,
{
    if i < b.len() && in_class(c, b[i]) {
        lemma_run_len(b, i + 1, c);
    }
}

pub proof fn lemma_line_tail(b: Seq<u8>, j: int)
    requires
        0 <= j <= b.len(),
    ensures
        j + line_tail(b, j).1 <= b.len(),
    decreases b.len() - j,
{
    if j < b.len() && b[j] != QUOTE && !is_line_end(b[j]) {
        if b[j] == BACKSLASH && j + 1 < b.len() && !is_line_end(b[j + 1]) {
            lemma_line_tail(b, j + 2);
        } else {
            lemma_line_tail(b, j + 1);
        }
    }
}

pub proof fn lemma_block_tail(b: Seq<u8>, j: int)
    requires
        0 <= j <= b.len(),
    ensures
        j + block_tail(b, j).1 <= b.len(),
    decreases b.len() - j,
{
    if j < b.len() {
        if b[j] == QUOTE && at(b, j + 1) == QUOTE && at(b, j + 2) == QUOTE {
        } else if b[j] == BACKSLASH && at(b, j + 1) == QUOTE && at(b, j + 2) == QUOTE && at(
            b,
            j + 3,
        ) == QUOTE {
            lemma_block_tail(b, j + 4);
        } else {
            lemma_block_tail(b, j + 1);
        }
    }
}

/// Every token holds at least one byte, ends inside the input, and ends
/// where no UTF-8 sequence is cut.
pub proof fn lemma_token_end(b: Seq<u8>, i: int)
    requires
        0 <= i < b.len(),
    ensures
        i < scan(b, i).1 <= token_end(b, i) <= b.len(),
        token_end(b, i) < b.len() ==> !in_class(ByteClass::Continuation, b[token_end(b, i)]),
{
    reveal(scan);
    lemma_run_len(b, i + 1, ByteClass::Blank);
    lemma_run_len(b, i + 1, ByteClass::CommentBody);
    lemma_run_len(b, i + 1, ByteClass::Dot);
    lemma_run_len(b, i + 1, ByteClass::NameContinue);
    if is_digit(b[i]) || b[i] == MINUS {
        lemma_number(b, i);
    }
    if b[i] == QUOTE {
        if at(b, i + 1) == QUOTE && at(b, i + 2) == QUOTE {
            lemma_block_tail(b, i + 3);
        } else {
            lemma_line_tail(b, i + 1);
        }
    }
    lemma_run_len(b, scan(b, i).1, ByteClass::Continuation);
}

pub proof fn lemma_number(b: Seq<u8>, i: int)
    requires
        0 <= i < b.len(),
    ensures
        i < number(b, i).1 <= b.len(),
{
    let d1 = i + 1 + run_len(b, i + 1, ByteClass::Digit);
    lemma_run_len(b, i + 1, ByteClass::Digit);
    let f1 = if at(b, d1) == DOT && ZERO <= at(b, d1 + 1) <= NINE {
        d1 + 2 + run_len(b, d1 + 2, ByteClass::Digit)
    } else {
        d1
    };
    if at(b, d1) == DOT && ZERO <= at(b, d1 + 1) <= NINE {
        lemma_run_len(b, d1 + 2, ByteClass::Digit);
    }
    let s = if at(b, f1 + 1) == PLUS || at(b, f1 + 1) == MINUS {
        f1 + 2
    } else {
        f1 + 1
    };
    let x1 = if (at(b, f1) == LOWER_E || at(b, f1) == UPPER_E) && ZERO <= at(b, s) <= NINE {
        s + 1 + run_len(b, s + 1, ByteClass::Digit)
    } else {
        f1
    };
    if (at(b, f1) == LOWER_E || at(b, f1) == UPPER_E) && ZERO <= at(b, s) <= NINE {
        lemma_run_len(b, s + 1, ByteClass::Digit);
    }
    lemma_run_len(b, x1, ByteClass::NumberTail);
}

/// Token `k` ends where token `k + 1` starts.
pub open spec fn joins(t: Seq<Token>, k: int) -> bool {
    t[k].end == t[k + 1].start
}

/// The tokens tile the bytes from `from` to `len`: the first starts at
/// `from`, each next one starts where the one before it ends, the last ends
/// at `len`, and none is empty.
pub open spec fn tiles(t: Seq<Token>, from: int, len: int) -> bool {
    &&& 0 <= from <= len
    &&& (t.len() == 0 <==> from == len)
    &&& (t.len() > 0 ==> t[0].start == from && t.last().end == len)
    &&& (forall|k: int| 0 <= k < t.len() ==> (#[trigger] t[k]).start < t[k].end <= len)
    &&& (forall|k: int| 0 <= k < t.len() - 1 ==> #[trigger] joins(t, k))
}

/// No token ends inside a UTF-8 sequence: the byte behind it, if there is
/// one, is no continuation byte.
pub open spec fn ends_clean(b: Seq<u8>, t: Seq<Token>) -> bool {
    forall|k: int|
        0 <= k < t.len() && (#[trigger] t[k]).end < b.len() ==> !in_class(
            ByteClass::Continuation,
            b[t[k].end as int],
        )
}

/// The tokens of an input tile it, and none ends inside a UTF-8 sequence.
pub proof fn lemma_tokens_tile(b: Seq<u8>, i: int)
    requires
        0 <= i <= b.len() <= usize::MAX,
    ensures
        tiles(tokens_from(b, i), i, b.len() as int),
        ends_clean(b, tokens_from(b, i)),
    decreases b.len() - i,
{
    if i < b.len() {
        lemma_token_end(b, i);
        let e = token_end(b, i);
        lemma_tokens_tile(b, e);
        let first = token_at(b, i);
        let rest = tokens_from(b, e);
        let t = tokens_from(b, i);
        assert(t =~= seq![first] + rest);
        assert(t[0] == first);
        assert(first.start == i && first.end == e);
        assert forall|k: int| 0 <= k < t.len() implies (#[trigger] t[k]).start < t[k].end
            <= b.len() by {
            if k > 0 {
                assert(t[k] == rest[k - 1]);
            }
        }
        assert forall|k: int| 0 <= k < t.len() - 1 implies #[trigger] joins(t, k) by {
            assert(t[k + 1] == rest[k]);
            if k > 0 {
                assert(t[k] == rest[k - 1]);
                assert(joins(rest, k - 1));
            }
        }
        assert forall|k: int| 0 <= k < t.len() && (#[trigger] t[k]).end < b.len() implies !in_class(
            ByteClass::Continuation,
            b[t[k].end as int],
        ) by {
            if k > 0 {
                assert(t[k] == rest[k - 1]);
            }
        }
        if rest.len() > 0 {
            assert(t.last() == rest.last());
        }
    }
}

pub fn class_contains(c: ByteClass, x: u8) -> (r: bool)
    ensures
        r == in_class(c, x),
{
    let digit = ZERO <= x && x <= NINE;
    let name_start = x == UNDERSCORE || (UPPER_A <= x && x <= UPPER_Z) || (LOWER_A <= x && x
        <= LOWER_Z);
    let line_end = x == LINE_FEED || x == CARRIAGE_RETURN;
    match c {
        ByteClass::Digit => digit,
        ByteClass::NameContinue => name_start || digit,
        ByteClass::Blank => x == SPACE || x == TAB || line_end,
        ByteClass::CommentBody => !line_end,
        ByteClass::Continuation => 0x80 <= x && x <= 0xBF,
        ByteClass::NumberTail => name_start || digit || x == DOT,
        ByteClass::Dot => x == DOT,
    }
}

/// The index behind the run of class `c` that starts at `i`.
pub fn skip_run(bytes: &[u8], i: usize, c: ByteClass) -> (e: usize)
    requires
        i <= bytes.len(),
    ensures
        e == i + run_len(bytes@, i as int, c),
        i <= e <= bytes.len(),
{
    let mut j: usize = i;
    while j < bytes.len() && class_contains(c, bytes[j])
        invariant
            i <= j <= bytes.len(),
            i + run_len(bytes@, i as int, c) == j + run_len(bytes@, j as int, c),
        decreases bytes.len() - j,
    {
        j = j + 1;
    }
    j
}

fn byte_is(bytes: &[u8], i: usize, x: u8) -> (r: bool)
    ensures
        r == (at(bytes@, i as int) == x),
{
    i < bytes.len() && bytes[i] == x
}

fn digit_at(bytes: &[u8], i: usize) -> (r: bool)
    ensures
        r == (ZERO <= at(bytes@, i as int) <= NINE),
{
    i < bytes.len() && ZERO <= bytes[i] && bytes[i] <= NINE
}

fn punctuator_of(x: u8) -> (r: Option<TokenKind>)
    ensures
        r == punctuator(x),
{
    if x == BANG {
        Some(TokenKind::Bang)
    } else if x == DOLLAR {
        Some(TokenKind::Dollar)
    } else if x == AMP {
        Some(TokenKind::Amp)
    } else if x == L_PAREN {
        Some(TokenKind::LParen)
    } else if x == R_PAREN {
        Some(TokenKind::RParen)
    } else if x == COMMA {
        Some(TokenKind::Comma)
    } else if x == COLON {
        Some(TokenKind::Colon)
    } else if x == EQUALS {
        Some(TokenKind::Eq)
    } else if x == AT {
        Some(TokenKind::At)
    } else if x == L_BRACKET {
        Some(TokenKind::LBracket)
    } else if x == R_BRACKET {
        Some(TokenKind::RBracket)
    } else if x == L_CURLY {
        Some(TokenKind::LCurly)
    } else if x == PIPE {
        Some(TokenKind::Pipe)
    } else if x == R_CURLY {
        Some(TokenKind::RCurly)
    } else {
        None
    }
}

fn scan_number(bytes: &[u8], i: usize) -> (r: (TokenKind, usize))
    requires
        i < bytes.len(),
    ensures
        r.0 == number(bytes@, i as int).0,
        r.1 == number(bytes@, i as int).1,
        i < r.1 <= bytes.len(),
{
    proof {
        lemma_number(bytes@, i as int);
    }
    let digits_from: usize = if bytes[i] == MINUS {
        i + 1
    } else {
        i
    };
    let d1: usize = skip_run(bytes, i + 1, ByteClass::Digit);
    let int_ok = d1 > digits_from && (!byte_is(bytes, digits_from, ZERO) || d1 == digits_from + 1);
    let mut f1: usize = d1;
    if byte_is(bytes, d1, DOT) && digit_at(bytes, d1 + 1) {
        f1 = skip_run(bytes, d1 + 2, ByteClass::Digit);
    }
    let mut x1: usize = f1;
    if byte_is(bytes, f1, LOWER_E) || byte_is(bytes, f1, UPPER_E) {
        let s: usize = if byte_is(bytes, f1 + 1, PLUS) || byte_is(bytes, f1 + 1, MINUS) {
            f1 + 2
        } else {
            f1 + 1
        };
        if digit_at(bytes, s) {
            x1 = skip_run(bytes, s + 1, ByteClass::Digit);
        }
    }
    let end: usize = skip_run(bytes, x1, ByteClass::NumberTail);
    let kind = if !int_ok || end > x1 {
        TokenKind::Error
    } else if x1 > d1 {
        TokenKind::Float
    } else {
        TokenKind::Int
    };
    (kind, end)
}

fn scan_line_tail(bytes: &[u8], from: usize) -> (r: (TokenKind, usize))
    requires
        from <= bytes.len(),
    ensures
        r.0 == line_tail(bytes@, from as int).0,
        r.1 == from + line_tail(bytes@, from as int).1,
        from <= r.1 <= bytes.len(),
{
    let mut j: usize = from;
    loop
        invariant
            from <= j <= bytes.len(),
            line_tail(bytes@, from as int).0 == line_tail(bytes@, j as int).0,
            from + line_tail(bytes@, from as int).1 == j + line_tail(bytes@, j as int).1,
        decreases bytes.len() - j,
    {
        if j >= bytes.len() {
            return (TokenKind::Error, j);
        }
        let x = bytes[j];
        if x == QUOTE {
            return (TokenKind::StringValue, j + 1);
        }
        if x == LINE_FEED || x == CARRIAGE_RETURN {
            return (TokenKind::Error, j);
        }
        if x == BACKSLASH && j + 1 < bytes.len() && bytes[j + 1] != LINE_FEED && bytes[j + 1]
            != CARRIAGE_RETURN {
            j = j + 2;
        } else {
            j = j + 1;
        }
    }
}

fn scan_block_tail(bytes: &[u8], from: usize) -> (r: (TokenKind, usize))
    requires
        from <= bytes.len(),
    ensures
        r.0 == block_tail(bytes@, from as int).0,
        r.1 == from + block_tail(bytes@, from as int).1,
        from <= r.1 <= bytes.len(),
{
    let mut j: usize = from;
    loop
        invariant
            from <= j <= bytes.len(),
            block_tail(bytes@, from as int).0 == block_tail(bytes@, j as int).0,
            from + block_tail(bytes@, from as int).1 == j + block_tail(bytes@, j as int).1,
        decreases bytes.len() - j,
    {
        if j >= bytes.len() {
            return (TokenKind::Error, j);
        }
        let x = bytes[j];
        if x == QUOTE && byte_is(bytes, j + 1, QUOTE) && byte_is(bytes, j + 2, QUOTE) {
            return (TokenKind::StringValue, j + 3);
        }
        if x == BACKSLASH && byte_is(bytes, j + 1, QUOTE) && byte_is(bytes, j + 2, QUOTE)
            && byte_is(bytes, j + 3, QUOTE) {
            j = j + 4;
        } else {
            j = j + 1;
        }
    }
}

/// The token that starts at `i`.
pub fn next_token(bytes: &[u8], i: usize) -> (t: Token)
    requires
        i < bytes.len(),
    ensures
        t == token_at(bytes@, i as int),
        t.end == token_end(bytes@, i as int),
        i < t.end <= bytes.len(),
{
    proof {
        reveal(scan);
        lemma_token_end(bytes@, i as int);
    }
    let x = bytes[i];
    let mut kind = TokenKind::Error;
    let mut raw_end: usize = i + 1;
    if class_contains(ByteClass::Blank, x) {
        kind = TokenKind::Whitespace;
        raw_end = skip_run(bytes, i + 1, ByteClass::Blank);
    } else if x == 0xEF && byte_is(bytes, i + 1, 0xBB) && byte_is(bytes, i + 2, 0xBF) {
        kind = TokenKind::Whitespace;
        raw_end = i + 3;
    } else if x == HASH {
        kind = TokenKind::Comment;
        raw_end = skip_run(bytes, i + 1, ByteClass::CommentBody);
    } else if let Some(k) = punctuator_of(x) {
        kind = k;
    } else if x == DOT {
        if byte_is(bytes, i + 1, DOT) && byte_is(bytes, i + 2, DOT) {
            kind = TokenKind::Spread;
            raw_end = i + 3;
        } else {
            raw_end = skip_run(bytes, i + 1, ByteClass::Dot);
        }
    } else if x == UNDERSCORE || (UPPER_A <= x && x <= UPPER_Z) || (LOWER_A <= x && x
        <= LOWER_Z) {
        kind = TokenKind::Name;
        raw_end = skip_run(bytes, i + 1, ByteClass::NameContinue);
    } else if (ZERO <= x && x <= NINE) || x == MINUS {
        let r = scan_number(bytes, i);
        kind = r.0;
        raw_end = r.1;
    } else if x == QUOTE {
        if byte_is(bytes, i + 1, QUOTE) && byte_is(bytes, i + 2, QUOTE) {
            proof {
                lemma_block_tail(bytes@, i + 3);
            }
            let r = scan_block_tail(bytes, i + 3);
            kind = r.0;
            raw_end = r.1;
        } else {
            let r = scan_line_tail(bytes, i + 1);
            kind = r.0;
            raw_end = r.1;
        }
    }
    let end: usize = skip_run(bytes, raw_end, ByteClass::Continuation);
    Token { kind, start: i, end }
}

/// Splits the input into its tokens.
pub fn lex(bytes: &[u8]) -> (tokens: Vec<Token>)
    ensures
        tokens@ == tokens_of(bytes@),
{
    let mut tokens: Vec<Token> = Vec::new();
    let mut i: usize = 0;
    while i < bytes.len()
        invariant
            i <= bytes.len(),
            tokens@ + tokens_from(bytes@, i as int) == tokens_of(bytes@),
        decreases bytes.len() - i,
    {
        let t = next_token(bytes, i);
        proof {
            assert(tokens_from(bytes@, i as int) == seq![t] + tokens_from(bytes@, t.end as int));
            assert(tokens@.push(t) + tokens_from(bytes@, t.end as int) == tokens@ + (seq![t]
                + tokens_from(bytes@, t.end as int)));
        }
        tokens.push(t);
        i = t.end;
    }
    assert(tokens@ + tokens_from(bytes@, i as int) == tokens@);
    tokens
}

} // verus!
