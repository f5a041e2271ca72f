//! The tree builder: an append-only assembler that records "open node",
//! "close node" and "attach token", and hands out the finished tree.

use crate::error::Error;
use crate::event::{
    bytes_upto, complete, depth_upto, events_of, forest, lemma_forest_frame, lemma_forest_join,
    lemma_prefix, open_count, rooted, text_upto, Element, Event,
};
use crate::green::{
    green_builder, green_finish, green_finish_node, green_start_node, green_token, lemma_steps,
    recorded, step_of, steps_complete, steps_of,
};
use crate::kind::SyntaxKind;
use crate::tree::SyntaxTree;
use vstd::prelude::*;
use vstd::string::StringExecFns;

verus! {

/// Where the stretch of children of the `k`-th open node starts. Stretch 0
/// is what stands before the first open node.
pub open spec fn stretch_start(open: Seq<usize>, k: int) -> int {
    if k == 0 {
        0
    } else {
        open[k - 1] + 1
    }
}

/// Where that stretch ends: at the next open node, or with the elements.
pub open spec fn stretch_end(open: Seq<usize>, len: int, k: int) -> int {
    if k < open.len() {
        open[k] as int
    } else {
        len
    }
}

/// What pushing one event does to the sums over a sequence of events.
pub proof fn lemma_push(ev: Seq<Event>, e: Event)
    ensures
        forall|i: int|
            0 <= i <= ev.len() ==> #[trigger] depth_upto(ev.push(e), i) == depth_upto(ev, i),
        forall|i: int|
            0 <= i <= ev.len() ==> #[trigger] bytes_upto(ev.push(e), i) == bytes_upto(ev, i),
        forall|i: int|
            0 <= i <= ev.len() ==> #[trigger] text_upto(ev.push(e), i) == text_upto(ev, i),
        open_count(ev.push(e)) == open_count(ev) + match e {
            Event::Start(_) => 1int,
            Event::Token(_, _) => 0int,
            Event::Finish => -1int,
        },
        bytes_upto(ev.push(e), ev.len() as int + 1) == bytes_upto(ev, ev.len() as int)
            + crate::event::event_bytes(e),
        text_upto(ev.push(e), ev.len() as int + 1) == text_upto(ev, ev.len() as int)
            + crate::event::event_text(e),
        steps_of(ev.push(e)) == steps_of(ev).push(step_of(e)),
{
    let ev2 = ev.push(e);
    assert forall|i: int| 0 <= i <= ev.len() implies #[trigger] depth_upto(ev2, i) == depth_upto(
        ev,
        i,
    ) by {
        lemma_prefix(ev, ev2, i);
    }
    assert forall|i: int| 0 <= i <= ev.len() implies #[trigger] bytes_upto(ev2, i) == bytes_upto(
        ev,
        i,
    ) by {
        lemma_prefix(ev, ev2, i);
    }
    assert forall|i: int| 0 <= i <= ev.len() implies #[trigger] text_upto(ev2, i) == text_upto(
        ev,
        i,
    ) by {
        lemma_prefix(ev, ev2, i);
    }
    let n = ev.len() as int;
    assert(ev2[n] == e);
    assert(ev2.len() == n + 1);
    lemma_prefix(ev, ev2, n);
    assert(depth_upto(ev2, n + 1) == depth_upto(ev2, n) + match e {
        Event::Start(_) => 1int,
        Event::Token(_, _) => 0int,
        Event::Finish => -1int,
    });
    assert(bytes_upto(ev2, n + 1) == bytes_upto(ev2, n) + crate::event::event_bytes(e));
    assert(text_upto(ev2, n + 1) == text_upto(ev2, n) + crate::event::event_text(e));
    assert(steps_of(ev2) =~= steps_of(ev).push(step_of(e)));
}

/// Assembles a tree from nested calls: every `start_node` is matched by a
/// later `finish_node`, and a token goes to the node that is open.
pub struct SyntaxTreeBuilder {
    elements: Vec<Element>,
    close: Vec<usize>,
    offsets: Vec<usize>,
    open: Vec<usize>,
    bytes: usize,
    green: rowan::GreenNodeBuilder<'static>,
}

impl View for SyntaxTreeBuilder {
    type V = Seq<Event>;

    closed spec fn view(&self) -> Seq<Event> {
        events_of(self.elements@)
    }
}

impl SyntaxTreeBuilder {
    /// The invariant of a builder.
    pub closed spec fn wf(&self) -> bool {
        let ev = self@;
        let open = self.open@;
        let len = ev.len() as int;
        &&& self.close@.len() == len
        &&& self.offsets@.len() == len
        &&& forall|k: int|
            0 <= k < open.len() ==> (#[trigger] open[k]) < len && ev[open[k] as int] is Start
        &&& forall|k: int|
            0 <= k <= open.len() ==> forest(
                ev,
                self.close@,
                #[trigger] stretch_start(open, k),
                stretch_end(open, len, k),
            )
        &&& forall|i: int| 0 <= i < len ==> #[trigger] self.offsets@[i] == bytes_upto(ev, i)
        &&& self.bytes == bytes_upto(ev, len)
        &&& self.bytes <= u32::MAX
        &&& recorded(self.green) == steps_of(ev)
        &&& open.len() == open_count(ev)
        &&& rooted(ev)
        &&& (len > 0 ==> ev[0] is Start)
        &&& (open.len() > 0 ==> open[0] == 0)
        &&& (len > 0 && open.len() == 0 ==> self.close@[0] + 1 == len)
    }

    /// How many nodes are open.
    pub closed spec fn depth(&self) -> int {
        self.open@.len() as int
    }

    /// The number of bytes of the text of the tokens so far.
    pub closed spec fn text_bytes(&self) -> nat {
        self.bytes as nat
    }

    pub proof fn lemma_wf(&self)
        requires
            self.wf(),
        ensures
            self.depth() == open_count(self@),
            self.depth() >= 0,
            rooted(self@),
            self@.len() > 0 ==> self@[0] is Start,
            self.text_bytes() == bytes_upto(self@, self@.len() as int),
            self.text_bytes() <= u32::MAX,
    {
    }

    /// A builder that holds nothing.
    pub fn new() -> (b: Self)
        ensures
            b.wf(),
            b@ == Seq::<Event>::empty(),
            b.depth() == 0,
            b.text_bytes() == 0,
    {
        let b = SyntaxTreeBuilder {
            elements: Vec::new(),
            close: Vec::new(),
            offsets: Vec::new(),
            open: Vec::new(),
            bytes: 0,
            green: green_builder(),
        };
        assert(b@ =~= Seq::<Event>::empty());
        assert(steps_of(b@) =~= Seq::<(u8, u16, Seq<char>)>::empty());
        assert(stretch_start(b.open@, 0) == 0);
        b
    }

    /// Starts a new node and makes it the open one. The first node is the
    /// root; a tree has one root.
    pub fn start_node(&mut self, kind: SyntaxKind)
        requires
            old(self).wf(),
            old(self)@.len() == 0 || old(self).depth() > 0,
        ensures
            final(self).wf(),
            final(self)@ == old(self)@.push(Event::Start(kind)),
            final(self).depth() == old(self).depth() + 1,
            final(self).text_bytes() == old(self).text_bytes(),
    {
        let ghost ev = self@;
        let ghost e = Event::Start(kind);
        let ghost old_open = self.open@;
        let ghost old_close = self.close@;
        let n = self.elements.len();
        proof {
            lemma_push(ev, e);
        }
        green_start_node(&mut self.green, kind.to_raw());
        self.elements.push(Element::Start(kind));
        self.close.push(n);
        self.offsets.push(self.bytes);
        self.open.push(n);
        proof {
            let ev2 = self@;
            assert(ev2 =~= ev.push(e));
            let open = self.open@;
            assert forall|k: int| 0 <= k < open.len() implies (#[trigger] open[k]) < ev2.len()
                && ev2[open[k] as int] is Start by {
                if k < old_open.len() {
                    assert(open[k] == old_open[k]);
                }
            }
            assert forall|k: int| 0 <= k <= open.len() implies forest(
                ev2,
                self.close@,
                #[trigger] stretch_start(open, k),
                stretch_end(open, ev2.len() as int, k),
            ) by {
                if k <= old_open.len() {
                    assert(stretch_start(open, k) == stretch_start(old_open, k));
                    assert(stretch_end(open, ev2.len() as int, k) == stretch_end(
                        old_open,
                        ev.len() as int,
                        k,
                    ));
                    lemma_forest_frame(
                        ev,
                        old_close,
                        ev2,
                        self.close@,
                        stretch_start(old_open, k),
                        stretch_end(old_open, ev.len() as int, k),
                    );
                }
            }
            assert forall|i: int| 0 < i < ev2.len() implies #[trigger] depth_upto(ev2, i)
                >= 1 by {
                if i < ev.len() {
                    assert(depth_upto(ev, i) >= 1);
                }
            }
        }
    }

    /// Attaches a token to the open node.
    pub fn token(&mut self, kind: SyntaxKind, text: &str)
        requires
            old(self).wf(),
            old(self).depth() > 0,
            old(self).text_bytes() + vstd::utf8::encode_utf8(text@).len() <= u32::MAX,
        ensures
            final(self).wf(),
            final(self)@ == old(self)@.push(Event::Token(kind, text@)),
            final(self).depth() == old(self).depth(),
            final(self).text_bytes() == old(self).text_bytes() + vstd::utf8::encode_utf8(
                text@,
            ).len(),
    {
        let ghost ev = self@;
        let ghost e = Event::Token(kind, text@);
        let ghost old_open = self.open@;
        let ghost old_close = self.close@;
        let n = self.elements.len();
        proof {
            lemma_push(ev, e);
        }
        green_token(&mut self.green, kind.to_raw(), text);
        self.elements.push(Element::Token(kind, String::from_str(text)));
        self.close.push(n);
        self.offsets.push(self.bytes);
        self.bytes = self.bytes + text.len();
        proof {
            let ev2 = self@;
            assert(ev2 =~= ev.push(e));
            let open = self.open@;
            let last = open.len() as int;
            assert forall|k: int| 0 <= k <= open.len() implies forest(
                ev2,
                self.close@,
                #[trigger] stretch_start(open, k),
                stretch_end(open, ev2.len() as int, k),
            ) by {
                lemma_forest_frame(
                    ev,
                    old_close,
                    ev2,
                    self.close@,
                    stretch_start(open, k),
                    stretch_end(open, ev.len() as int, k),
                );
                if k == last {
                    assert(forest(ev2, self.close@, n + 1, n + 1));
                    assert(forest(ev2, self.close@, n as int, n + 1));
                    lemma_forest_join(
                        ev2,
                        self.close@,
                        stretch_start(open, k),
                        n as int,
                        n + 1,
                    );
                }
            }
            assert forall|i: int| 0 < i < ev2.len() implies #[trigger] depth_upto(ev2, i)
                >= 1 by {
                if i < ev.len() {
                    assert(depth_upto(ev, i) >= 1);
                }
            }
        }
    }

    /// Finishes the open node and makes its parent the open one again.
    pub fn finish_node(&mut self)
        requires
            old(self).wf(),
            old(self).depth() > 0,
        ensures
            final(self).wf(),
            final(self)@ == old(self)@.push(Event::Finish),
            final(self).depth() == old(self).depth() - 1,
            final(self).text_bytes() == old(self).text_bytes(),
    {
        let ghost ev = self@;
        let ghost e = Event::Finish;
        let ghost old_open = self.open@;
        let ghost old_close = self.close@;
        let n = self.elements.len();
        proof {
            lemma_push(ev, e);
            lemma_steps(ev, ev.len() as int);
        }
        green_finish_node(&mut self.green);
        let o = self.open.pop().unwrap();
        assert(o == old_open[old_open.len() - 1]);
        self.elements.push(Element::Finish);
        self.close.set(o, n);
        self.close.push(n);
        self.offsets.push(self.bytes);
        proof {
            let ev2 = self@;
            assert(ev2 =~= ev.push(e));
            let open = self.open@;
            let close = self.close@;
            let last = open.len() as int;
            assert(old_open[last] == o);
            assert(stretch_start(old_open, last + 1) == o + 1);
            assert(forest(ev, old_close, o + 1, n as int));
            assert(forest(ev, old_close, stretch_start(old_open, last), o as int));
            assert forall|k: int| 0 <= k < open.len() implies (#[trigger] open[k]) < ev2.len()
                && ev2[open[k] as int] is Start by {
                assert(open[k] == old_open[k]);
            }
            assert forall|k: int| 0 <= k <= open.len() implies forest(
                ev2,
                close,
                #[trigger] stretch_start(open, k),
                stretch_end(open, ev2.len() as int, k),
            ) by {
                assert(stretch_start(open, k) == stretch_start(old_open, k));
                if k < last {
                    assert(open[k] == old_open[k]);
                    assert(forest(
                        ev,
                        old_close,
                        stretch_start(old_open, k),
                        stretch_end(old_open, ev.len() as int, k),
                    ));
                    assert(old_open[k] <= stretch_start(old_open, k + 1) - 1);
                    assert(forest(
                        ev,
                        old_close,
                        stretch_start(old_open, k + 1),
                        stretch_end(old_open, ev.len() as int, k + 1),
                    ));
                    lemma_forest_bounds(
                        ev,
                        old_close,
                        stretch_start(old_open, k + 1),
                        stretch_end(old_open, ev.len() as int, k + 1),
                    );
                    lemma_order(old_open, ev, old_close, k, last);
                    lemma_forest_frame(
                        ev,
                        old_close,
                        ev2,
                        close,
                        stretch_start(old_open, k),
                        old_open[k] as int,
                    );
                } else {
                    let s = stretch_start(old_open, last);
                    lemma_forest_bounds(ev, old_close, s, o as int);
                    lemma_forest_frame(ev, old_close, ev2, close, s, o as int);
                    lemma_forest_frame(ev, old_close, ev2, close, o + 1, n as int);
                    assert(forest(ev2, close, n + 1, n + 1));
                    assert(forest(ev2, close, o as int, n + 1));
                    lemma_forest_join(ev2, close, s, o as int, n + 1);
                }
            }
            assert forall|i: int| 0 < i < ev2.len() implies #[trigger] depth_upto(ev2, i)
                >= 1 by {
                if i < ev.len() {
                    assert(depth_upto(ev, i) >= 1);
                }
            }
            assert forall|i: int| 0 <= i < ev2.len() implies #[trigger] self.offsets@[i]
                == bytes_upto(ev2, i) by {}
        }
    }

    /// Closes the builder and returns the tree with its diagnostics. All
    /// nodes must be finished, and there must be a root.
    pub fn finish(self, errors: Vec<Error>) -> (tree: SyntaxTree)
        requires
            self.wf(),
            self@.len() > 0,
            self.depth() == 0,
        ensures
            tree.events() == self@,
            tree.diagnostics() == errors@,
    {
        proof {
            let ev = self@;
            assert forall|i: int| 0 < i < ev.len() implies #[trigger] crate::green::steps_depth(
                steps_of(ev),
                i,
            ) >= 1 by {
                lemma_steps(ev, i);
                assert(depth_upto(ev, i) >= 1);
            }
            lemma_steps(ev, ev.len() as int);
            assert(steps_of(ev)[0] == step_of(ev[0]));
            assert(steps_complete(steps_of(ev)));
            assert(stretch_start(self.open@, 0) == 0);
            assert(complete(ev));
        }
        let green = green_finish(self.green);
        SyntaxTree::assemble(self.elements, self.close, self.offsets, green, errors)
    }
}

/// A whole stretch does not end before it starts.
pub proof fn lemma_forest_bounds(ev: Seq<Event>, close: Seq<usize>, a: int, b: int)
    requires
        forest(ev, close, a, b),
    ensures
        a <= b,
        a < b ==> 0 <= a && b <= ev.len() && ev.len() == close.len(),
{
}

/// The open nodes stand in rising order.
proof fn lemma_order(open: Seq<usize>, ev: Seq<Event>, close: Seq<usize>, k: int, last: int)
    requires
        0 <= k < last < open.len(),
        forall|j: int|
            0 <= j <= open.len() ==> forest(
                ev,
                close,
                #[trigger] stretch_start(open, j),
                stretch_end(open, ev.len() as int, j),
            ),
    ensures
        open[k] < open[last],
    decreases last - k,
{
    assert(forest(
        ev,
        close,
        stretch_start(open, k + 1),
        stretch_end(open, ev.len() as int, k + 1),
    ));
    if k + 1 < last {
        lemma_order(open, ev, close, k + 1, last);
    }
}

} // verus!
