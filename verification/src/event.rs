//! The mathematical model of a tree: the sequence of events that builds it,
//! and what it means for such a sequence to be well nested.

use crate::kind::SyntaxKind;
use vstd::prelude::*;
use vstd::utf8::encode_utf8;

verus! {

/// One step of building a tree: a node opens, a token is attached to the
/// open node, or the open node closes.
pub enum Event {
    Start(SyntaxKind),
    Token(SyntaxKind, Seq<char>),
    Finish,
}

/// One element of a stored tree. A tree is kept flat, in document order: a
/// node is its `Start`, its children, and its `Finish`.
#[derive(Debug)]
pub enum Element {
    Start(SyntaxKind),
    Token(SyntaxKind, String),
    Finish,
}

impl View for Element {
    type V = Event;

    open spec fn view(&self) -> Event {
        match self {
            Element::Start(k) => Event::Start(*k),
            Element::Token(k, s) => Event::Token(*k, s@),
            Element::Finish => Event::Finish,
        }
    }
}

/// The events that a sequence of elements stands for.
pub open spec fn events_of(els: Seq<Element>) -> Seq<Event> {
    Seq::new(els.len(), |i: int| els[i]@)
}

/// The text that an event carries.
pub open spec fn event_text(e: Event) -> Seq<char> {
    match e {
        Event::Token(_, t) => t,
        _ => Seq::empty(),
    }
}

/// The number of bytes that an event's text takes as UTF-8.
pub open spec fn event_bytes(e: Event) -> nat {
    encode_utf8(event_text(e)).len()
}

/// The text of the first `i` events, in order.
pub open spec fn text_upto(ev: Seq<Event>, i: int) -> Seq<char>
    decreases i,
{
    if 0 < i <= ev.len() {
        text_upto(ev, i - 1) + event_text(ev[i - 1])
    } else {
        Seq::empty()
    }
}

/// The number of bytes that the text of the first `i` events takes.
pub open spec fn bytes_upto(ev: Seq<Event>, i: int) -> nat
    decreases i,
{
    if 0 < i <= ev.len() {
        bytes_upto(ev, i - 1) + event_bytes(ev[i - 1])
    } else {
        0
    }
}

/// How many nodes are open after the first `i` events.
pub open spec fn depth_upto(ev: Seq<Event>, i: int) -> int
    decreases i,
{
    if 0 < i <= ev.len() {
        depth_upto(ev, i - 1) + match ev[i - 1] {
            Event::Start(_) => 1int,
            Event::Token(_, _) => 0int,
            Event::Finish => -1int,
        }
    } else {
        0
    }
}

/// How many nodes are open after all the events.
pub open spec fn open_count(ev: Seq<Event>) -> int {
    depth_upto(ev, ev.len() as int)
}

/// The events so far belong to one tree: they begin with a node, and that
/// node stays open until the last event at the earliest.
pub open spec fn rooted(ev: Seq<Event>) -> bool {
    forall|i: int| 0 < i < ev.len() ==> #[trigger] depth_upto(ev, i) >= 1
}

/// The events are exactly one node with all that is in it.
pub open spec fn complete(ev: Seq<Event>) -> bool {
    &&& ev.len() > 0
    &&& rooted(ev)
    &&& open_count(ev) == 0
}

/// The elements from `a` up to `b` are whole: each is a token, or a node
/// that closes before `b` and whose inside is whole. `close` gives for each
/// `Start` the index of its `Finish`, and for other elements their own index.
pub open spec fn forest(ev: Seq<Event>, close: Seq<usize>, a: int, b: int) -> bool
    decreases b - a,
{
    if a >= b {
        a == b
    } else {
        &&& 0 <= a <= close[a] < b <= ev.len() == close.len()
        &&& match ev[a] {
            Event::Token(_, _) => close[a] == a,
            Event::Start(_) => a < close[a] && ev[close[a] as int] is Finish && forest(
                ev,
                close,
                a + 1,
                close[a] as int,
            ),
            Event::Finish => false,
        }
        &&& forest(ev, close, close[a] + 1, b)
    }
}

/// The indices of the elements that stand side by side from `a` up to `b`.
pub open spec fn siblings(close: Seq<usize>, a: int, b: int) -> Seq<int>
    decreases b - a,
{
    if 0 <= a < b && a < close.len() && a <= close[a] < b {
        seq![a] + siblings(close, close[a] + 1, b)
    } else {
        Seq::empty()
    }
}

/// The first `i` events do not depend on what follows them.
pub proof fn lemma_prefix(ev: Seq<Event>, ev2: Seq<Event>, i: int)
    requires
        0 <= i <= ev.len() <= ev2.len(),
        forall|k: int| 0 <= k < i ==> ev[k] == ev2[k],
    ensures
        text_upto(ev, i) == text_upto(ev2, i),
        bytes_upto(ev, i) == bytes_upto(ev2, i),
        depth_upto(ev, i) == depth_upto(ev2, i),
    decreases i,
{
    if i > 0 {
        lemma_prefix(ev, ev2, i - 1);
    }
}

/// Whether a stretch is whole depends on that stretch alone.
pub proof fn lemma_forest_frame(
    ev: Seq<Event>,
    close: Seq<usize>,
    ev2: Seq<Event>,
    close2: Seq<usize>,
    a: int,
    b: int,
)
    requires
        forest(ev, close, a, b),
        b <= ev2.len() == close2.len(),
        forall|k: int| a <= k < b ==> ev[k] == ev2[k] && close[k] == close2[k],
    ensures
        forest(ev2, close2, a, b),
    decreases b - a,
{
    if a < b {
        if ev[a] is Start {
            lemma_forest_frame(ev, close, ev2, close2, a + 1, close[a] as int);
        }
        lemma_forest_frame(ev, close, ev2, close2, close[a] + 1, b);
    }
}

/// Two whole stretches that meet are one whole stretch.
pub proof fn lemma_forest_join(ev: Seq<Event>, close: Seq<usize>, a: int, b: int, c: int)
    requires
        forest(ev, close, a, b),
        forest(ev, close, b, c),
    ensures
        forest(ev, close, a, c),
    decreases b - a,
{
    if a < b {
        lemma_forest_join(ev, close, close[a] + 1, b, c);
    }
}

/// What a whole stretch holds: every node in it closes inside it and has a
/// whole inside, and every token in it stands for itself.
pub proof fn lemma_forest_inside(ev: Seq<Event>, close: Seq<usize>, a: int, b: int, k: int)
    requires
        forest(ev, close, a, b),
        a <= k < b,
    ensures
        ev[k] is Start ==> k < close[k] < b && ev[close[k] as int] is Finish && forest(
            ev,
            close,
            k + 1,
            close[k] as int,
        ),
        ev[k] is Token ==> close[k] == k,
    decreases b - a,
{
    if k == a {
    } else if k < close[a] {
        lemma_forest_inside(ev, close, a + 1, close[a] as int, k);
    } else if k > close[a] {
        lemma_forest_inside(ev, close, close[a] + 1, b, k);
    }
}

/// The elements that stand side by side in a whole stretch: each is a token
/// or a node, each closes before the stretch ends, and each stands directly
/// behind the one before it.
pub proof fn lemma_siblings(ev: Seq<Event>, close: Seq<usize>, a: int, b: int)
    requires
        forest(ev, close, a, b),
    ensures
        ({
            let s = siblings(close, a, b);
            &&& (s.len() == 0 <==> a == b)
            &&& (s.len() > 0 ==> s[0] == a && close[s.last()] + 1 == b)
            &&& (forall|j: int|
                0 <= j < s.len() ==> a <= (#[trigger] s[j]) <= close[s[j]] < b && !(ev[s[j]]
                    is Finish))
            &&& (forall|j: int| 0 <= j < s.len() - 1 ==> close[#[trigger] s[j]] + 1 == s[j + 1])
        }),
    decreases b - a,
{
    if a < b {
        let rest = siblings(close, close[a] + 1, b);
        let s = siblings(close, a, b);
        lemma_siblings(ev, close, close[a] + 1, b);
        assert(s =~= seq![a] + rest);
        assert forall|j: int| 0 <= j < s.len() implies a <= (#[trigger] s[j]) <= close[s[j]] < b
            && !(ev[s[j]] is Finish) by {
            if j > 0 {
                assert(s[j] == rest[j - 1]);
            }
        }
        assert forall|j: int| 0 <= j < s.len() - 1 implies close[#[trigger] s[j]] + 1 == s[j
            + 1] by {
            assert(s[j + 1] == rest[j]);
            if j > 0 {
                assert(s[j] == rest[j - 1]);
            }
        }
        if rest.len() > 0 {
            assert(s.last() == rest.last());
        }
    }
}

/// The length of the text grows with the events.
pub proof fn lemma_bytes_rise(ev: Seq<Event>, i: int, j: int)
    requires
        0 <= i <= j <= ev.len(),
    ensures
        bytes_upto(ev, i) <= bytes_upto(ev, j),
    decreases j - i,
{
    if i < j {
        lemma_bytes_rise(ev, i, j - 1);
    }
}

/// No more nodes are open than events have come.
pub proof fn lemma_depth_bound(ev: Seq<Event>, i: int)
    requires
        0 <= i <= ev.len(),
    ensures
        depth_upto(ev, i) <= i,
    decreases i,
{
    if i > 0 {
        lemma_depth_bound(ev, i - 1);
    }
}

/// No prefix of the text is longer than the whole.
pub proof fn lemma_bytes_total(ev: Seq<Event>, i: int)
    requires
        0 <= i <= ev.len(),
    ensures
        bytes_upto(ev, i) <= bytes_upto(ev, ev.len() as int),
{
    lemma_bytes_rise(ev, i, ev.len() as int);
}

} // verus!
