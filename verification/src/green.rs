//! The green tree of `rowan`, which the builder fills beside its own
//! elements. What this module states of it is taken on trust from rowan's
//! source; everything else in the library is proved.

use crate::event::{event_text, Event};
use vstd::prelude::*;
use vstd::utf8::encode_utf8;

verus! {

/// `rowan::GreenNodeBuilder`, of which Verus sees nothing but what the
/// functions below state.
#[verifier::external_type_specification]
#[verifier::external_body]
pub struct ExGreenNodeBuilder<'cache>(rowan::GreenNodeBuilder<'cache>);

/// `rowan::GreenNode`, of which Verus sees nothing but what the functions
/// below state.
#[verifier::external_type_specification]
#[verifier::external_body]
pub struct ExGreenNode(rowan::GreenNode);

pub const STEP_START: u8 = 0;

pub const STEP_TOKEN: u8 = 1;

pub const STEP_FINISH: u8 = 2;

/// The build steps that a green node builder holds, in the order in which
/// they were made. A step is a tag, a raw kind and a text: tag 0 opens a
/// node of the kind, tag 1 attaches a token of the kind with the text, and
/// tag 2 closes the open node.
pub uninterp spec fn recorded(b: rowan::GreenNodeBuilder<'static>) -> Seq<(u8, u16, Seq<char>)>;

/// The steps that build a green node: what a walk through it in document
/// order meets.
pub uninterp spec fn walk(g: rowan::GreenNode) -> Seq<(u8, u16, Seq<char>)>;

/// The step that an event is for a green node builder.
pub open spec fn step_of(e: Event) -> (u8, u16, Seq<char>) {
    match e {
        Event::Start(k) => (STEP_START, k.raw(), Seq::empty()),
        Event::Token(k, t) => (STEP_TOKEN, k.raw(), t),
        Event::Finish => (STEP_FINISH, 0u16, Seq::empty()),
    }
}

pub open spec fn steps_of(ev: Seq<Event>) -> Seq<(u8, u16, Seq<char>)> {
    Seq::new(ev.len(), |i: int| step_of(ev[i]))
}

/// How many nodes are open after the first `i` steps.
pub open spec fn steps_depth(s: Seq<(u8, u16, Seq<char>)>, i: int) -> int
    decreases i,
{
    if 0 < i <= s.len() {
        steps_depth(s, i - 1) + if s[i - 1].0 == STEP_START {
            1int
        } else if s[i - 1].0 == STEP_FINISH {
            -1int
        } else {
            0int
        }
    } else {
        0
    }
}

/// The number of bytes that the text of the first `i` steps takes as UTF-8.
pub open spec fn steps_bytes(s: Seq<(u8, u16, Seq<char>)>, i: int) -> nat
    decreases i,
{
    if 0 < i <= s.len() {
        steps_bytes(s, i - 1) + encode_utf8(s[i - 1].2).len()
    } else {
        0
    }
}

/// The steps are exactly one node with all that is in it.
pub open spec fn steps_complete(s: Seq<(u8, u16, Seq<char>)>) -> bool {
    &&& s.len() > 0
    &&& s[0].0 == STEP_START
    &&& steps_depth(s, s.len() as int) == 0
    &&& forall|i: int| 0 < i < s.len() ==> #[trigger] steps_depth(s, i) >= 1
}

/// Calls `rowan::GreenNodeBuilder::new`: a builder that holds no step.
#[verifier::external_body]
pub(crate) fn green_builder() -> (b: rowan::GreenNodeBuilder<'static>)
    ensures
        recorded(b) == Seq::<(u8, u16, Seq<char>)>::empty(),
{
    rowan::GreenNodeBuilder::new()
}

/// Calls `rowan::GreenNodeBuilder::start_node`, which opens a node of the
/// kind behind all that the builder holds.
#[verifier::external_body]
pub(crate) fn green_start_node(b: &mut rowan::GreenNodeBuilder<'static>, kind: u16)
    ensures
        recorded(*final(b)) == recorded(*old(b)).push((STEP_START, kind, Seq::empty())),
{
    b.start_node(rowan::SyntaxKind(kind))
}

/// Calls `rowan::GreenNodeBuilder::token`, which attaches a token of the
/// kind, with the text, behind all that the builder holds.
#[verifier::external_body]
pub(crate) fn green_token(b: &mut rowan::GreenNodeBuilder<'static>, kind: u16, text: &str)
    ensures
        recorded(*final(b)) == recorded(*old(b)).push((STEP_TOKEN, kind, text@)),
{
    b.token(rowan::SyntaxKind(kind), text)
}

/// Calls `rowan::GreenNodeBuilder::finish_node`, which closes the open
/// node. It panics where no node is open; and it adds up the lengths of the
/// node's texts as 32-bit numbers, so the whole text must fit in one.
#[verifier::external_body]
pub(crate) fn green_finish_node(b: &mut rowan::GreenNodeBuilder<'static>)
    requires
        steps_depth(recorded(*old(b)), recorded(*old(b)).len() as int) > 0,
        steps_bytes(recorded(*old(b)), recorded(*old(b)).len() as int) <= u32::MAX,
    ensures
        recorded(*final(b)) == recorded(*old(b)).push((STEP_FINISH, 0u16, Seq::empty())),
{
    b.finish_node()
}

/// Calls `rowan::GreenNodeBuilder::finish`, which hands out the one node
/// that the steps have built. It panics unless the builder holds exactly one
/// closed node.
#[verifier::external_body]
pub(crate) fn green_finish(b: rowan::GreenNodeBuilder<'static>) -> (g: rowan::GreenNode)
    requires
        steps_complete(recorded(b)),
    ensures
        walk(g) == recorded(b),
{
    b.finish()
}

/// Calls `clone` on a green node: another handle to the same tree.
#[verifier::external_body]
pub(crate) fn green_clone(g: &rowan::GreenNode) -> (r: rowan::GreenNode)
    ensures
        walk(r) == walk(*g),
{
    g.clone()
}

/// The steps of a sequence of events keep its depths and its lengths.
pub proof fn lemma_steps(ev: Seq<Event>, i: int)
    requires
        0 <= i <= ev.len(),
    ensures
        steps_depth(steps_of(ev), i) == crate::event::depth_upto(ev, i),
        steps_bytes(steps_of(ev), i) == crate::event::bytes_upto(ev, i),
    decreases i,
{
    if i > 0 {
        lemma_steps(ev, i - 1);
        assert(steps_of(ev)[i - 1] == step_of(ev[i - 1]));
        assert(step_of(ev[i - 1]).2 == event_text(ev[i - 1]));
    }
}

} // verus!
