//! The printed form of a tree: one line for each node and each token, a
//! child four columns further in than its parent, and one line for each
//! diagnostic.

use crate::error::Error;
use crate::event::{bytes_upto, depth_upto, Event};
use crate::kind::SyntaxKind;
use vstd::prelude::*;

verus! {

/// The text that Rust's `Debug` writes for a string: the string between
/// quotes, with what cannot stand there escaped.
pub uninterp spec fn quoted(text: Seq<char>) -> Seq<char>;

/// Calls `format!` with `{:?}` on a string: its `Debug` form.
#[verifier::external_body]
pub(crate) fn quote(text: &str) -> (r: String)
    ensures
        r@ == quoted(text@),
{
    format!("{:?}", text)
}

/// A digit as a text.
pub open spec fn digit(d: nat) -> Seq<char> {
    if d == 0 {
        "0"@
    } else if d == 1 {
        "1"@
    } else if d == 2 {
        "2"@
    } else if d == 3 {
        "3"@
    } else if d == 4 {
        "4"@
    } else if d == 5 {
        "5"@
    } else if d == 6 {
        "6"@
    } else if d == 7 {
        "7"@
    } else if d == 8 {
        "8"@
    } else {
        "9"@
    }
}

/// A number in decimal digits.
pub open spec fn decimal(n: nat) -> Seq<char>
    decreases n,
{
    if n < 10 {
        digit(n)
    } else {
        decimal(n / 10) + digit(n % 10)
    }
}

/// Four blanks for each level of depth.
pub open spec fn indent(depth: int) -> Seq<char>
    decreases depth,
{
    if depth <= 0 {
        Seq::empty()
    } else {
        indent(depth - 1) + "    "@
    }
}

/// The line of event `i`: its kind and the bytes that it covers, and for a
/// token its text. The end of a node has no line.
pub open spec fn line(ev: Seq<Event>, close: Seq<usize>, i: int) -> Seq<char> {
    let depth = depth_upto(ev, i);
    let start = bytes_upto(ev, i);
    let end = bytes_upto(ev, close[i] + 1);
    match ev[i] {
        Event::Start(k) => node_line(depth, k, start, end),
        Event::Token(k, t) => token_line(depth, k, start, end, t),
        Event::Finish => Seq::empty(),
    }
}

/// The start of a line: the blanks of the depth, the kind, and the span.
pub open spec fn head(depth: int, k: SyntaxKind, start: nat, end: nat) -> Seq<char> {
    indent(depth) + "- "@ + k.name() + "@"@ + decimal(start) + ".."@ + decimal(end)
}

/// The line of a node.
pub open spec fn node_line(depth: int, k: SyntaxKind, start: nat, end: nat) -> Seq<char> {
    head(depth, k, start, end) + "\n"@
}

/// The line of a token: as that of a node, with the text of the token in
/// quotes.
pub open spec fn token_line(
    depth: int,
    k: SyntaxKind,
    start: nat,
    end: nat,
    text: Seq<char>,
) -> Seq<char> {
    head(depth, k, start, end) + " "@ + quoted(text) + "\n"@
}

/// The lines of the first `i` events.
pub open spec fn lines_upto(ev: Seq<Event>, close: Seq<usize>, i: int) -> Seq<char>
    decreases i,
{
    if 0 < i <= ev.len() {
        lines_upto(ev, close, i - 1) + line(ev, close, i - 1)
    } else {
        Seq::empty()
    }
}

/// The line of a diagnostic: the bytes that it is about, and its message.
pub open spec fn error_line(e: Error) -> Seq<char> {
    "- ERROR@"@ + decimal(e.start as nat) + ".."@ + decimal(e.end as nat) + " "@
        + e.expected.words() + "\n"@
}

/// The lines of the first `i` diagnostics.
pub open spec fn error_lines_upto(errors: Seq<Error>, i: int) -> Seq<char>
    decreases i,
{
    if 0 < i <= errors.len() {
        error_lines_upto(errors, i - 1) + error_line(errors[i - 1])
    } else {
        Seq::empty()
    }
}

fn digit_str(d: usize) -> (r: &'static str)
    requires
        d < 10,
    ensures
        r@ == digit(d as nat),
{
    if d == 0 {
        "0"
    } else if d == 1 {
        "1"
    } else if d == 2 {
        "2"
    } else if d == 3 {
        "3"
    } else if d == 4 {
        "4"
    } else if d == 5 {
        "5"
    } else if d == 6 {
        "6"
    } else if d == 7 {
        "7"
    } else if d == 8 {
        "8"
    } else {
        "9"
    }
}

/// Writes a number in decimal digits behind `out`.
pub fn push_decimal(out: &mut String, n: usize)
    ensures
        final(out)@ == old(out)@ + decimal(n as nat),
    decreases n,
{
    if n < 10 {
        vstd::string::StringExecFns::append(out, digit_str(n));
    } else {
        push_decimal(out, n / 10);
        vstd::string::StringExecFns::append(out, digit_str(n % 10));
        assert(old(out)@ + decimal((n / 10) as nat) + digit((n % 10) as nat) =~= old(out)@ + (
        decimal((n / 10) as nat) + digit((n % 10) as nat)));
    }
}

/// Writes the blanks of a depth behind `out`.
pub fn push_indent(out: &mut String, depth: usize)
    ensures
        final(out)@ == old(out)@ + indent(depth as int),
{
    let mut k: usize = 0;
    assert(out@ + indent(0) =~= out@);
    while k < depth
        invariant
            k <= depth,
            out@ == old(out)@ + indent(k as int),
        decreases depth - k,
    {
        vstd::string::StringExecFns::append(out, "    ");
        assert(old(out)@ + indent(k as int) + "    "@ =~= old(out)@ + indent(k + 1));
        k = k + 1;
    }
}

fn push_head(out: &mut String, depth: usize, k: SyntaxKind, start: usize, end: usize)
    ensures
        final(out)@ == old(out)@ + head(depth as int, k, start as nat, end as nat),
{
    push_indent(out, depth);
    vstd::string::StringExecFns::append(out, "- ");
    vstd::string::StringExecFns::append(out, k.as_str());
    vstd::string::StringExecFns::append(out, "@");
    push_decimal(out, start);
    vstd::string::StringExecFns::append(out, "..");
    push_decimal(out, end);
    assert(out@ =~= old(out)@ + head(depth as int, k, start as nat, end as nat));
}

/// Writes the line of a node behind `out`.
pub fn push_node_line(out: &mut String, depth: usize, k: SyntaxKind, start: usize, end: usize)
    ensures
        final(out)@ == old(out)@ + node_line(depth as int, k, start as nat, end as nat),
{
    push_head(out, depth, k, start, end);
    vstd::string::StringExecFns::append(out, "\n");
    assert(out@ =~= old(out)@ + node_line(depth as int, k, start as nat, end as nat));
}

/// Writes the line of a token behind `out`.
pub fn push_token_line(
    out: &mut String,
    depth: usize,
    k: SyntaxKind,
    start: usize,
    end: usize,
    text: &str,
)
    ensures
        final(out)@ == old(out)@ + token_line(depth as int, k, start as nat, end as nat, text@),
{
    push_head(out, depth, k, start, end);
    vstd::string::StringExecFns::append(out, " ");
    let q = quote(text);
    vstd::string::StringExecFns::append(out, q.as_str());
    vstd::string::StringExecFns::append(out, "\n");
    assert(out@ =~= old(out)@ + token_line(depth as int, k, start as nat, end as nat, text@));
}

/// Writes the line of a diagnostic behind `out`.
pub fn push_error_line(out: &mut String, e: &Error)
    ensures
        final(out)@ == old(out)@ + error_line(*e),
{
    vstd::string::StringExecFns::append(out, "- ERROR@");
    push_decimal(out, e.start);
    vstd::string::StringExecFns::append(out, "..");
    push_decimal(out, e.end);
    vstd::string::StringExecFns::append(out, " ");
    vstd::string::StringExecFns::append(out, e.message());
    vstd::string::StringExecFns::append(out, "\n");
    assert(out@ =~= old(out)@ + error_line(*e));
}

} // verus!
