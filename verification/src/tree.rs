//! The finished tree: immutable, lossless, and addressable by structural
//! kind. Positions are not stored in the nodes; an element's span is the
//! length of the text before it and of its own text.

use crate::error::Error;
use crate::event::{
    bytes_upto, complete, events_of, forest, lemma_forest_inside, lemma_siblings, siblings,
    text_upto, Element, Event,
};
use crate::green::{green_clone, steps_of, walk};
use crate::kind::{KindSet, SyntaxKind};
use vstd::prelude::*;
use vstd::string::StringExecFns;

verus! {

/// What makes stored elements a tree: they are one whole node, `close`
/// matches every `Start` with its `Finish`, `offsets` holds for every
/// element the length of the text before it, and the green tree is built
/// from the same events.
pub open spec fn is_tree(
    elements: Seq<Element>,
    close: Seq<usize>,
    offsets: Seq<usize>,
    green: rowan::GreenNode,
) -> bool {
    let ev = events_of(elements);
    let len = ev.len() as int;
    &&& close.len() == len
    &&& offsets.len() == len
    &&& len >= 2
    &&& ev[0] is Start
    &&& close[0] + 1 == len
    &&& forest(ev, close, 0, len)
    &&& complete(ev)
    &&& forall|i: int| 0 <= i < len ==> #[trigger] offsets[i] == bytes_upto(ev, i)
    &&& bytes_upto(ev, len) <= u32::MAX
    &&& walk(green) == steps_of(ev)
}

/// A parsed document: the tree and the diagnostics that were recorded while
/// it was built, in the order in which they were met.
pub struct SyntaxTree {
    elements: Vec<Element>,
    close: Vec<usize>,
    offsets: Vec<usize>,
    green: rowan::GreenNode,
    errors: Vec<Error>,
}

/// A node of a tree.
#[derive(Clone, Copy)]
pub struct SyntaxNode<'a> {
    tree: &'a SyntaxTree,
    index: usize,
}

/// A token of a tree.
#[derive(Clone, Copy)]
pub struct SyntaxToken<'a> {
    tree: &'a SyntaxTree,
    index: usize,
}

/// A child of a node.
#[derive(Clone, Copy)]
pub enum SyntaxElement<'a> {
    Node(SyntaxNode<'a>),
    Token(SyntaxToken<'a>),
}

/// What is looked for among the children of a node.
#[derive(Clone, Copy, Debug, PartialEq, Eq, Structural)]
pub enum Select {
    /// The nodes of a kind.
    Node(SyntaxKind),
    /// The tokens of a kind.
    Token(SyntaxKind),
    /// All nodes.
    Nodes,
    /// The nodes whose kind belongs to a group.
    Among(KindSet),
}

/// Whether an event is what is looked for.
pub open spec fn wanted(e: Event, sel: Select) -> bool {
    match sel {
        Select::Node(kind) => e == Event::Start(kind),
        Select::Token(kind) => e matches Event::Token(k, _) && k == kind,
        Select::Nodes => e is Start,
        Select::Among(set) => e matches Event::Start(k) && k.is_in(set),
    }
}

/// Those of the elements `s` that are looked for, in order.
pub open spec fn chosen(ev: Seq<Event>, s: Seq<int>, sel: Select) -> Seq<int>
    decreases s.len(),
{
    if s.len() == 0 {
        Seq::empty()
    } else if wanted(ev[s[0]], sel) {
        seq![s[0]] + chosen(ev, s.drop_first(), sel)
    } else {
        chosen(ev, s.drop_first(), sel)
    }
}

impl SyntaxTree {
    #[verifier::type_invariant]
    pub closed spec fn inv(self) -> bool {
        is_tree(self.elements@, self.close@, self.offsets@, self.green)
    }

    /// The events that build the tree, in document order.
    pub closed spec fn events(&self) -> Seq<Event> {
        events_of(self.elements@)
    }

    /// For each `Start` the index of its `Finish`.
    pub closed spec fn closes(&self) -> Seq<usize> {
        self.close@
    }

    /// The diagnostics of the tree.
    pub closed spec fn diagnostics(&self) -> Seq<Error> {
        self.errors@
    }

    /// The green tree that was built beside the elements.
    pub closed spec fn green_node(&self) -> rowan::GreenNode {
        self.green
    }

    /// The whole text of the tree: the texts of its tokens in document
    /// order.
    pub open spec fn source_text(&self) -> Seq<char> {
        text_upto(self.events(), self.events().len() as int)
    }

    /// The indices of the children of the node at `i`.
    pub open spec fn children_of(&self, i: int) -> Seq<int> {
        siblings(self.closes(), i + 1, self.closes()[i] as int)
    }

    /// The bytes that the element at `i` covers: where it starts and where
    /// it ends.
    pub open spec fn span_of(&self, i: int) -> (nat, nat) {
        (bytes_upto(self.events(), i), bytes_upto(self.events(), self.closes()[i] + 1))
    }

    /// What holds of every tree.
    pub proof fn lemma_tree(&self)
        requires
            self.inv(),
        ensures
            self.events().len() >= 2,
            self.events().len() == self.closes().len(),
            self.events()[0] is Start,
            self.closes()[0] + 1 == self.events().len(),
            forest(self.events(), self.closes(), 0, self.events().len() as int),
            complete(self.events()),
            walk(self.green_node()) == steps_of(self.events()),
    {
    }

    /// The span of child `j` of the children `c` ends where the span of the
    /// next child starts.
    pub open spec fn spans_meet(&self, c: Seq<int>, j: int) -> bool {
        self.span_of(c[j]).1 == self.span_of(c[j + 1]).0
    }

    /// The spans of the children of a node tile the span of the node: the
    /// first child starts where the node starts, each next child starts
    /// where the one before it ends, and the last child ends where the node
    /// ends. No span ends before it starts, so the spans of siblings do not
    /// overlap and rise in document order. A node without children covers
    /// nothing.
    pub proof fn lemma_spans_tile(&self, i: int)
        requires
            self.inv(),
            0 <= i < self.events().len(),
            self.events()[i] is Start,
        ensures
            ({
                let c = self.children_of(i);
                let whole = self.span_of(i);
                &&& whole.0 <= whole.1
                &&& (c.len() == 0 ==> whole.0 == whole.1)
                &&& (c.len() > 0 ==> self.span_of(c[0]).0 == whole.0 && self.span_of(c.last()).1
                    == whole.1)
                &&& (forall|j: int|
                    0 <= j < c.len() ==> self.span_of(#[trigger] c[j]).0 <= self.span_of(c[j]).1)
                &&& (forall|j: int| 0 <= j < c.len() - 1 ==> #[trigger] self.spans_meet(c, j))
            }),
    {
        let ev = self.events();
        let close = self.closes();
        let len = ev.len() as int;
        lemma_forest_inside(ev, close, 0, len, i);
        let e = close[i] as int;
        lemma_siblings(ev, close, i + 1, e);
        let c = self.children_of(i);
        crate::event::lemma_bytes_rise(ev, i, e + 1);
        assert(bytes_upto(ev, i + 1) == bytes_upto(ev, i));
        assert(bytes_upto(ev, e + 1) == bytes_upto(ev, e));
        assert forall|j: int| 0 <= j < c.len() implies self.span_of(#[trigger] c[j]).0
            <= self.span_of(c[j]).1 by {
            crate::event::lemma_bytes_rise(ev, c[j], close[c[j]] + 1);
        }
        assert forall|j: int| 0 <= j < c.len() - 1 implies #[trigger] self.spans_meet(c, j) by {
            assert(close[c[j]] + 1 == c[j + 1]);
        }
    }

    pub(crate) fn assemble(
        elements: Vec<Element>,
        close: Vec<usize>,
        offsets: Vec<usize>,
        green: rowan::GreenNode,
        errors: Vec<Error>,
    ) -> (tree: SyntaxTree)
        requires
            is_tree(elements@, close@, offsets@, green),
        ensures
            tree.events() == events_of(elements@),
            tree.closes() == close@,
            tree.diagnostics() == errors@,
            tree.green_node() == green,
            tree.inv(),
    {
        SyntaxTree { elements, close, offsets, green, errors }
    }

    /// The diagnostics, in the order in which they were recorded.
    pub fn errors(&self) -> (r: &[Error])
        ensures
            r@ == self.diagnostics(),
    {
        self.errors.as_slice()
    }

    /// The green tree of the document, built from the same events as this
    /// tree.
    pub fn green(&self) -> (g: &rowan::GreenNode)
        ensures
            walk(*g) == steps_of(self.events()),
            *g == self.green_node(),
    {
        proof {
            use_type_invariant(self);
        }
        &self.green
    }

    /// The root node.
    pub closed spec fn spec_root(&self) -> SyntaxNode<'_> {
        SyntaxNode { tree: self, index: 0 }
    }

    /// The typed view of the root. The document takes the tree over.
    pub fn document(self) -> (d: crate::ast::Document)
        ensures
            d.tree() == self,
    {
        crate::ast::Document::of(self)
    }

    /// The root node.
    pub fn root(&self) -> (n: SyntaxNode<'_>)
        ensures
            n == self.spec_root(),
            n.tree() == self,
            n.index() == 0,
    {
        proof {
            use_type_invariant(self);
        }
        SyntaxNode { tree: self, index: 0 }
    }

    /// The printed form of the tree: the lines of its nodes and tokens,
    /// then the lines of its diagnostics.
    pub open spec fn printed(&self) -> Seq<char> {
        crate::print::lines_upto(self.events(), self.closes(), self.events().len() as int)
            + crate::print::error_lines_upto(self.diagnostics(), self.diagnostics().len() as int)
    }

    /// Prints the tree: for each node and each token a line with its kind
    /// and its span, a child further in than its parent, and for each
    /// diagnostic a line with its span and its message.
    pub fn dump(&self) -> (r: String)
        ensures
            r@ == self.printed(),
    {
        proof {
            use_type_invariant(self);
        }
        let ghost ev = self.events();
        let ghost close = self.close@;
        let mut r = String::new();
        let mut depth: usize = 0;
        let mut i: usize = 0;
        while i < self.elements.len()
            invariant
                i <= self.elements@.len(),
                ev == events_of(self.elements@),
                close == self.close@,
                is_tree(self.elements@, self.close@, self.offsets@, self.green),
                depth == crate::event::depth_upto(ev, i as int),
                r@ == crate::print::lines_upto(ev, close, i as int),
            decreases self.elements@.len() - i,
        {
            let ghost before = r@;
            proof {
                lemma_forest_inside(ev, close, 0, ev.len() as int, i as int);
                if i > 0 {
                    assert(crate::event::depth_upto(ev, i as int) >= 1);
                }
                crate::event::lemma_depth_bound(ev, i as int);
                crate::event::lemma_bytes_total(ev, i as int);
            }
            match &self.elements[i] {
                Element::Start(k) => {
                    let c = self.close[i];
                    proof {
                        assert(bytes_upto(ev, c + 1) == bytes_upto(ev, c as int));
                    }
                    let (start, end) = (self.offsets[i], self.offsets[c]);
                    crate::print::push_node_line(&mut r, depth, *k, start, end);
                    depth = depth + 1;
                },
                Element::Token(k, t) => {
                    proof {
                        crate::event::lemma_bytes_total(ev, i + 1);
                    }
                    let start = self.offsets[i];
                    let end = start + t.as_str().len();
                    crate::print::push_token_line(&mut r, depth, *k, start, end, t.as_str());
                },
                Element::Finish => {
                    assert(r@ + Seq::<char>::empty() =~= r@);
                    depth = depth - 1;
                },
            }
            i = i + 1;
        }
        let ghost lines = r@;
        let mut j: usize = 0;
        assert(lines + crate::print::error_lines_upto(self.errors@, 0) =~= lines);
        while j < self.errors.len()
            invariant
                j <= self.errors@.len(),
                r@ == lines + crate::print::error_lines_upto(self.errors@, j as int),
            decreases self.errors@.len() - j,
        {
            let ghost before = r@;
            crate::print::push_error_line(&mut r, &self.errors[j]);
            assert(r@ =~= lines + crate::print::error_lines_upto(self.errors@, j + 1));
            j = j + 1;
        }
        r
    }

    /// Whether two trees are equal: they are built by the same events and
    /// carry the same diagnostics. Where the trees are stored does not
    /// matter.
    pub fn equals(&self, other: &SyntaxTree) -> (r: bool)
        ensures
            r == (self.events() == other.events() && self.diagnostics() == other.diagnostics()),
    {
        if self.elements.len() != other.elements.len() || self.errors.len() != other.errors.len() {
            proof {
                assert(self.events().len() == self.elements@.len());
                assert(other.events().len() == other.elements@.len());
            }
            return false;
        }
        let mut i: usize = 0;
        while i < self.elements.len()
            invariant
                i <= self.elements@.len(),
                self.elements@.len() == other.elements@.len(),
                forall|k: int| 0 <= k < i ==> self.events()[k] == other.events()[k],
            decreases self.elements@.len() - i,
        {
            if !same_element(&self.elements[i], &other.elements[i]) {
                assert(self.events()[i as int] != other.events()[i as int]);
                return false;
            }
            i = i + 1;
        }
        assert(self.events() =~= other.events());
        let mut j: usize = 0;
        while j < self.errors.len()
            invariant
                j <= self.errors@.len(),
                self.errors@.len() == other.errors@.len(),
                forall|k: int| 0 <= k < j ==> self.errors@[k] == other.errors@[k],
            decreases self.errors@.len() - j,
        {
            if self.errors[j] != other.errors[j] {
                return false;
            }
            j = j + 1;
        }
        assert(self.errors@ =~= other.errors@);
        true
    }

    /// The text of the tree: the texts of all its tokens, in document order.
    pub fn text(&self) -> (r: String)
        ensures
            r@ == self.source_text(),
    {
        proof {
            use_type_invariant(self);
        }
        let mut r = String::new();
        let mut i: usize = 0;
        while i < self.elements.len()
            invariant
                i <= self.elements.len(),
                r@ == text_upto(events_of(self.elements@), i as int),
            decreases self.elements.len() - i,
        {
            match &self.elements[i] {
                Element::Token(_, t) => {
                    r.append(t.as_str());
                },
                _ => {
                    assert(r@ + Seq::<char>::empty() =~= r@);
                },
            }
            i = i + 1;
        }
        r
    }
}

impl PartialEq for SyntaxTree {
    fn eq(&self, other: &SyntaxTree) -> (r: bool) {
        self.equals(other)
    }
}

impl vstd::std_specs::cmp::PartialEqSpecImpl for SyntaxTree {
    open spec fn obeys_eq_spec() -> bool {
        true
    }

    /// Two trees are equal where they are built by the same events and
    /// carry the same diagnostics.
    open spec fn eq_spec(&self, other: &SyntaxTree) -> bool {
        self.events() == other.events() && self.diagnostics() == other.diagnostics()
    }
}

impl Eq for SyntaxTree {

}

impl Clone for SyntaxTree {
    /// A tree of its own with the same events and the same diagnostics.
    fn clone(&self) -> (r: SyntaxTree)
        ensures
            r.events() == self.events(),
            r.diagnostics() == self.diagnostics(),
            walk(r.green_node()) == walk(self.green_node()),
    {
        proof {
            use_type_invariant(self);
        }
        let mut elements: Vec<Element> = Vec::new();
        let mut close: Vec<usize> = Vec::new();
        let mut offsets: Vec<usize> = Vec::new();
        let mut i: usize = 0;
        while i < self.elements.len()
            invariant
                i <= self.elements@.len(),
                self.close@.len() == self.elements@.len(),
                self.offsets@.len() == self.elements@.len(),
                elements@.len() == i,
                close@ == self.close@.subrange(0, i as int),
                offsets@ == self.offsets@.subrange(0, i as int),
                forall|k: int| 0 <= k < i ==> (#[trigger] elements@[k])@ == self.elements@[k]@,
            decreases self.elements@.len() - i,
        {
            let e = match &self.elements[i] {
                Element::Start(k) => Element::Start(*k),
                Element::Token(k, t) => Element::Token(*k, String::from_str(t.as_str())),
                Element::Finish => Element::Finish,
            };
            elements.push(e);
            close.push(self.close[i]);
            offsets.push(self.offsets[i]);
            assert(close@ =~= self.close@.subrange(0, i + 1));
            assert(offsets@ =~= self.offsets@.subrange(0, i + 1));
            i = i + 1;
        }
        let mut errors: Vec<Error> = Vec::new();
        let mut j: usize = 0;
        while j < self.errors.len()
            invariant
                j <= self.errors@.len(),
                errors@ == self.errors@.subrange(0, j as int),
            decreases self.errors@.len() - j,
        {
            errors.push(self.errors[j]);
            assert(errors@ =~= self.errors@.subrange(0, j + 1));
            j = j + 1;
        }
        proof {
            assert(events_of(elements@) =~= events_of(self.elements@));
            assert(close@ =~= self.close@);
            assert(offsets@ =~= self.offsets@);
            assert(errors@ =~= self.errors@);
        }
        let green = green_clone(&self.green);
        SyntaxTree::assemble(elements, close, offsets, green, errors)
    }
}

/// Whether two elements stand for the same event.
fn same_element(a: &Element, b: &Element) -> (r: bool)
    ensures
        r == (a@ == b@),
{
    match (a, b) {
        (Element::Start(x), Element::Start(y)) => *x == *y,
        (Element::Token(x, s), Element::Token(y, t)) => *x == *y && *s == *t,
        (Element::Finish, Element::Finish) => true,
        _ => false,
    }
}

impl<'a> SyntaxNode<'a> {
    #[verifier::type_invariant]
    pub closed spec fn inv(self) -> bool {
        self.index < self.tree.events().len() && self.tree.events()[self.index as int] is Start
    }

    /// The tree that the node belongs to.
    pub closed spec fn tree(&self) -> &'a SyntaxTree {
        self.tree
    }

    /// Where the node's `Start` stands among the events of its tree.
    pub closed spec fn index(&self) -> int {
        self.index as int
    }

    /// The kind of the node.
    pub open spec fn spec_kind(&self) -> SyntaxKind {
        self.tree().events()[self.index()]->Start_0
    }

    /// What holds of every node.
    pub proof fn lemma_node(&self)
        requires
            self.inv(),
        ensures
            0 <= self.index() < self.tree().events().len(),
            self.tree().events()[self.index()] is Start,
    {
    }

    pub fn kind(&self) -> (k: SyntaxKind)
        ensures
            k == self.spec_kind(),
    {
        proof {
            use_type_invariant(self);
            use_type_invariant(self.tree);
        }
        match &self.tree.elements[self.index] {
            Element::Start(k) => *k,
            _ => SyntaxKind::Error,
        }
    }

    /// The bytes of the text that the node covers.
    pub fn span(&self) -> (r: (usize, usize))
        ensures
            (r.0 as nat, r.1 as nat) == self.tree().span_of(self.index()),
            r.0 <= r.1,
    {
        proof {
            use_type_invariant(self);
            use_type_invariant(self.tree);
            let ev = self.tree.events();
            lemma_forest_inside(ev, self.tree.close@, 0, ev.len() as int, self.index as int);
            let c = self.tree.close@[self.index as int] as int;
            crate::event::lemma_bytes_rise(ev, self.index as int, c);
            assert(bytes_upto(ev, c + 1) == bytes_upto(ev, c));
        }
        let c = self.tree.close[self.index];
        (self.tree.offsets[self.index], self.tree.offsets[c])
    }

    /// The children of the node, nodes and tokens, in document order.
    pub fn children(&self) -> (r: Vec<SyntaxElement<'a>>)
        ensures
            r@.len() == self.tree().children_of(self.index()).len(),
            forall|j: int|
                0 <= j < r@.len() ==> (#[trigger] r@[j]).tree() == self.tree() && r@[j].index()
                    == self.tree().children_of(self.index())[j],
    {
        proof {
            use_type_invariant(self);
            use_type_invariant(self.tree);
            let ev = self.tree.events();
            lemma_forest_inside(ev, self.tree.close@, 0, ev.len() as int, self.index as int);
        }
        let tree = self.tree;
        let end = tree.close[self.index];
        let ghost ev = tree.events();
        let ghost all = siblings(tree.close@, self.index + 1, end as int);
        let mut r: Vec<SyntaxElement<'a>> = Vec::new();
        let mut i: usize = self.index + 1;
        while i < end
            invariant
                self.index < i <= end < ev.len(),
                ev == tree.events(),
                ev.len() == tree.close@.len(),
                ev.len() == tree.elements@.len(),
                ev == events_of(tree.elements@),
                forest(ev, tree.close@, i as int, end as int),
                all == r@.map_values(|e: SyntaxElement<'a>| e.index()) + siblings(
                    tree.close@,
                    i as int,
                    end as int,
                ),
                forall|j: int| 0 <= j < r@.len() ==> (#[trigger] r@[j]).tree() == tree,
            decreases end - i,
        {
            let ghost before = r@.map_values(|e: SyntaxElement<'a>| e.index());
            match &tree.elements[i] {
                Element::Start(_) => {
                    r.push(SyntaxElement::Node(SyntaxNode { tree, index: i }));
                },
                _ => {
                    r.push(SyntaxElement::Token(SyntaxToken { tree, index: i }));
                },
            }
            proof {
                assert(r@.map_values(|e: SyntaxElement<'a>| e.index()) =~= before.push(i as int));
                assert(siblings(tree.close@, i as int, end as int) =~= seq![i as int] + siblings(
                    tree.close@,
                    tree.close@[i as int] + 1,
                    end as int,
                ));
            }
            i = tree.close[i] + 1;
        }
        proof {
            assert(siblings(tree.close@, i as int, end as int) =~= Seq::<int>::empty());
            assert(all =~= r@.map_values(|e: SyntaxElement<'a>| e.index()));
            assert forall|j: int| 0 <= j < r@.len() implies r@[j].index() == all[j] by {
                assert(r@.map_values(|e: SyntaxElement<'a>| e.index())[j] == r@[j].index());
            }
        }
        r
    }
}

impl<'a> SyntaxNode<'a> {
    /// The indices of the children that are looked for.
    pub open spec fn chosen_ids(&self, sel: Select) -> Seq<int> {
        chosen(self.tree().events(), self.tree().children_of(self.index()), sel)
    }

    /// The child nodes of the kind, in document order.
    pub closed spec fn spec_children(&self, kind: SyntaxKind) -> Seq<SyntaxNode<'a>> {
        Seq::new(
            self.chosen_ids(Select::Node(kind)).len(),
            |j: int|
                SyntaxNode {
                    tree: self.tree,
                    index: self.chosen_ids(Select::Node(kind))[j] as usize,
                },
        )
    }

    /// All child nodes, in document order.
    pub closed spec fn spec_nodes(&self) -> Seq<SyntaxNode<'a>> {
        Seq::new(
            self.chosen_ids(Select::Nodes).len(),
            |j: int|
                SyntaxNode { tree: self.tree, index: self.chosen_ids(Select::Nodes)[j] as usize },
        )
    }

    /// The child tokens of the kind, in document order.
    pub closed spec fn spec_tokens(&self, kind: SyntaxKind) -> Seq<SyntaxToken<'a>> {
        Seq::new(
            self.chosen_ids(Select::Token(kind)).len(),
            |j: int|
                SyntaxToken {
                    tree: self.tree,
                    index: self.chosen_ids(Select::Token(kind))[j] as usize,
                },
        )
    }

    /// The child nodes whose kind belongs to the group, in document order.
    pub closed spec fn spec_among(&self, set: KindSet) -> Seq<SyntaxNode<'a>> {
        Seq::new(
            self.chosen_ids(Select::Among(set)).len(),
            |j: int|
                SyntaxNode {
                    tree: self.tree,
                    index: self.chosen_ids(Select::Among(set))[j] as usize,
                },
        )
    }

    /// The first child node whose kind belongs to the group, if there is
    /// one.
    pub open spec fn spec_first_among(&self, set: KindSet) -> Option<SyntaxNode<'a>> {
        if self.spec_among(set).len() > 0 {
            Some(self.spec_among(set)[0])
        } else {
            None
        }
    }

    /// The first child node of the kind, if there is one.
    pub open spec fn spec_child(&self, kind: SyntaxKind) -> Option<SyntaxNode<'a>> {
        if self.spec_children(kind).len() > 0 {
            Some(self.spec_children(kind)[0])
        } else {
            None
        }
    }

    /// The first child token of the kind, if there is one.
    pub open spec fn spec_token(&self, kind: SyntaxKind) -> Option<SyntaxToken<'a>> {
        if self.spec_tokens(kind).len() > 0 {
            Some(self.spec_tokens(kind)[0])
        } else {
            None
        }
    }

    /// What the selections are, over the events of the tree.
    pub proof fn lemma_selected(&self, kind: SyntaxKind)
        ensures
            self.spec_children(kind).len() == self.chosen_ids(Select::Node(kind)).len(),
            self.spec_tokens(kind).len() == self.chosen_ids(Select::Token(kind)).len(),
            self.spec_nodes().len() == self.chosen_ids(Select::Nodes).len(),
            forall|j: int|
                0 <= j < self.spec_children(kind).len() ==> (#[trigger] self.spec_children(
                    kind,
                )[j]).tree() == self.tree() && self.spec_children(kind)[j].index()
                    == self.chosen_ids(Select::Node(kind))[j] as usize,
            forall|j: int|
                0 <= j < self.spec_tokens(kind).len() ==> (#[trigger] self.spec_tokens(
                    kind,
                )[j]).tree() == self.tree() && self.spec_tokens(kind)[j].index()
                    == self.chosen_ids(Select::Token(kind))[j] as usize,
            forall|j: int|
                0 <= j < self.spec_nodes().len() ==> (#[trigger] self.spec_nodes()[j]).tree()
                    == self.tree() && self.spec_nodes()[j].index() == self.chosen_ids(
                    Select::Nodes,
                )[j] as usize,
    {
    }

    /// The indices of the children that are looked for.
    fn select(&self, sel: Select) -> (r: Vec<usize>)
        ensures
            r@.len() == self.chosen_ids(sel).len(),
            forall|j: int| 0 <= j < r@.len() ==> #[trigger] r@[j] == self.chosen_ids(sel)[j],
            forall|j: int|
                0 <= j < r@.len() ==> (#[trigger] r@[j]) < self.tree().events().len() && wanted(
                    self.tree().events()[r@[j] as int],
                    sel,
                ),
    {
        let all = self.children();
        let ghost ev = self.tree.events();
        let ghost s = self.tree.children_of(self.index as int);
        proof {
            use_type_invariant(self);
            use_type_invariant(self.tree);
            lemma_forest_inside(ev, self.tree.close@, 0, ev.len() as int, self.index as int);
            let end = self.tree.close@[self.index as int] as int;
            lemma_siblings(ev, self.tree.close@, self.index + 1, end);
            assert(s.subrange(0, s.len() as int) =~= s);
        }
        let tree = self.tree;
        let mut r: Vec<usize> = Vec::new();
        let mut j: usize = 0;
        while j < all.len()
            invariant
                j <= all@.len(),
                all@.len() == s.len(),
                ev == tree.events(),
                ev == events_of(tree.elements@),
                forall|k: int| 0 <= k < all@.len() ==> (#[trigger] all@[k]).index() == s[k],
                forall|k: int| 0 <= k < all@.len() ==> (#[trigger] all@[k]).tree() == tree,
                forall|k: int| 0 <= k < s.len() ==> 0 <= #[trigger] s[k] < ev.len(),
                r@.map_values(|i: usize| i as int) + chosen(
                    ev,
                    s.subrange(j as int, s.len() as int),
                    sel,
                ) == chosen(ev, s, sel),
                forall|k: int|
                    0 <= k < r@.len() ==> (#[trigger] r@[k]) < ev.len() && wanted(
                        ev[r@[k] as int],
                        sel,
                    ),
            decreases all@.len() - j,
        {
            let ghost before = r@.map_values(|i: usize| i as int);
            let ghost tail = s.subrange(j as int, s.len() as int);
            proof {
                assert(tail[0] == s[j as int]);
                assert(tail.drop_first() =~= s.subrange(j + 1, s.len() as int));
            }
            let (index, hit) = match all[j] {
                SyntaxElement::Node(n) => {
                    proof {
                        use_type_invariant(n);
                    }
                    let hit = match sel {
                        Select::Node(kind) => n.kind() == kind,
                        Select::Token(_) => false,
                        Select::Nodes => true,
                        Select::Among(set) => n.kind().within(set),
                    };
                    (n.index, hit)
                },
                SyntaxElement::Token(t) => {
                    proof {
                        use_type_invariant(t);
                    }
                    let hit = match sel {
                        Select::Token(kind) => t.kind() == kind,
                        _ => false,
                    };
                    (t.index, hit)
                },
            };
            assert(index == s[j as int]);
            assert(hit == wanted(ev[index as int], sel));
            if hit {
                r.push(index);
                proof {
                    assert(r@.map_values(|i: usize| i as int) =~= before.push(index as int));
                    assert(before.push(index as int) + chosen(
                        ev,
                        s.subrange(j + 1, s.len() as int),
                        sel,
                    ) =~= before + chosen(ev, tail, sel));
                }
            }
            j = j + 1;
        }
        proof {
            assert(s.subrange(s.len() as int, s.len() as int) =~= Seq::<int>::empty());
            assert(r@.map_values(|i: usize| i as int) =~= chosen(ev, s, sel));
            assert forall|k: int| 0 <= k < r@.len() implies #[trigger] r@[k] == self.chosen_ids(
                sel,
            )[k] by {
                assert(r@.map_values(|i: usize| i as int)[k] == r@[k] as int);
            }
        }
        r
    }

    /// The child nodes of the kind, in document order.
    pub fn child_nodes(&self, kind: SyntaxKind) -> (r: Vec<SyntaxNode<'a>>)
        ensures
            r@ == self.spec_children(kind),
            forall|j: int| 0 <= j < r@.len() ==> (#[trigger] r@[j]).spec_kind() == kind,
    {
        let ids = self.select(Select::Node(kind));
        let tree = self.tree;
        let mut r: Vec<SyntaxNode<'a>> = Vec::new();
        let mut j: usize = 0;
        while j < ids.len()
            invariant
                j <= ids@.len(),
                r@.len() == j,
                forall|k: int|
                    0 <= k < ids@.len() ==> (#[trigger] ids@[k]) < tree.events().len()
                        && tree.events()[ids@[k] as int] == Event::Start(kind),
                forall|k: int|
                    0 <= k < j ==> #[trigger] r@[k] == (SyntaxNode { tree, index: ids@[k] }),
            decreases ids@.len() - j,
        {
            r.push(SyntaxNode { tree, index: ids[j] });
            j = j + 1;
        }
        assert(r@ =~= self.spec_children(kind));
        r
    }

    /// All child nodes, in document order.
    pub fn nodes(&self) -> (r: Vec<SyntaxNode<'a>>)
        ensures
            r@ == self.spec_nodes(),
    {
        let ids = self.select(Select::Nodes);
        let tree = self.tree;
        let mut r: Vec<SyntaxNode<'a>> = Vec::new();
        let mut j: usize = 0;
        while j < ids.len()
            invariant
                j <= ids@.len(),
                r@.len() == j,
                forall|k: int|
                    0 <= k < ids@.len() ==> (#[trigger] ids@[k]) < tree.events().len()
                        && tree.events()[ids@[k] as int] is Start,
                forall|k: int|
                    0 <= k < j ==> #[trigger] r@[k] == (SyntaxNode { tree, index: ids@[k] }),
            decreases ids@.len() - j,
        {
            r.push(SyntaxNode { tree, index: ids[j] });
            j = j + 1;
        }
        assert(r@ =~= self.spec_nodes());
        r
    }

    /// The child nodes whose kind belongs to the group, in document order.
    pub fn among(&self, set: KindSet) -> (r: Vec<SyntaxNode<'a>>)
        ensures
            r@ == self.spec_among(set),
            forall|j: int| 0 <= j < r@.len() ==> (#[trigger] r@[j]).spec_kind().is_in(set),
    {
        let ids = self.select(Select::Among(set));
        let tree = self.tree;
        let mut r: Vec<SyntaxNode<'a>> = Vec::new();
        let mut j: usize = 0;
        while j < ids.len()
            invariant
                j <= ids@.len(),
                r@.len() == j,
                forall|k: int|
                    0 <= k < ids@.len() ==> (#[trigger] ids@[k]) < tree.events().len() && wanted(
                        tree.events()[ids@[k] as int],
                        Select::Among(set),
                    ),
                forall|k: int|
                    0 <= k < j ==> #[trigger] r@[k] == (SyntaxNode { tree, index: ids@[k] }),
            decreases ids@.len() - j,
        {
            r.push(SyntaxNode { tree, index: ids[j] });
            j = j + 1;
        }
        assert(r@ =~= self.spec_among(set));
        r
    }

    /// The first child node whose kind belongs to the group, if there is
    /// one.
    pub fn first_among(&self, set: KindSet) -> (r: Option<SyntaxNode<'a>>)
        ensures
            r == self.spec_first_among(set),
            r matches Some(n) ==> n.spec_kind().is_in(set),
    {
        let all = self.among(set);
        if all.len() > 0 {
            Some(all[0])
        } else {
            None
        }
    }

    /// The child tokens of the kind, in document order.
    pub fn child_tokens(&self, kind: SyntaxKind) -> (r: Vec<SyntaxToken<'a>>)
        ensures
            r@ == self.spec_tokens(kind),
    {
        let ids = self.select(Select::Token(kind));
        let tree = self.tree;
        let mut r: Vec<SyntaxToken<'a>> = Vec::new();
        let mut j: usize = 0;
        while j < ids.len()
            invariant
                j <= ids@.len(),
                r@.len() == j,
                forall|k: int|
                    0 <= k < ids@.len() ==> (#[trigger] ids@[k]) < tree.events().len()
                        && tree.events()[ids@[k] as int] is Token,
                forall|k: int|
                    0 <= k < j ==> #[trigger] r@[k] == (SyntaxToken { tree, index: ids@[k] }),
            decreases ids@.len() - j,
        {
            r.push(SyntaxToken { tree, index: ids[j] });
            j = j + 1;
        }
        assert(r@ =~= self.spec_tokens(kind));
        r
    }

    /// The first child node of the kind. A tree of a faulty text may lack
    /// it: then there is none.
    pub fn child(&self, kind: SyntaxKind) -> (r: Option<SyntaxNode<'a>>)
        ensures
            r == self.spec_child(kind),
            r matches Some(n) ==> n.spec_kind() == kind,
    {
        let all = self.child_nodes(kind);
        if all.len() > 0 {
            Some(all[0])
        } else {
            None
        }
    }

    /// The first child token of the kind, if there is one.
    pub fn token(&self, kind: SyntaxKind) -> (r: Option<SyntaxToken<'a>>)
        ensures
            r == self.spec_token(kind),
    {
        let all = self.child_tokens(kind);
        if all.len() > 0 {
            Some(all[0])
        } else {
            None
        }
    }
}

impl<'a> SyntaxToken<'a> {
    #[verifier::type_invariant]
    pub closed spec fn inv(self) -> bool {
        self.index < self.tree.events().len() && self.tree.events()[self.index as int] is Token
    }

    /// The tree that the token belongs to.
    pub closed spec fn tree(&self) -> &'a SyntaxTree {
        self.tree
    }

    /// Where the token stands among the events of its tree.
    pub closed spec fn index(&self) -> int {
        self.index as int
    }

    pub open spec fn spec_kind(&self) -> SyntaxKind {
        self.tree().events()[self.index()]->Token_0
    }

    pub open spec fn spec_text(&self) -> Seq<char> {
        self.tree().events()[self.index()]->Token_1
    }

    pub fn kind(&self) -> (k: SyntaxKind)
        ensures
            k == self.spec_kind(),
    {
        proof {
            use_type_invariant(self);
            use_type_invariant(self.tree);
        }
        match &self.tree.elements[self.index] {
            Element::Token(k, _) => *k,
            _ => SyntaxKind::Error,
        }
    }

    /// The text of the token.
    pub fn text(&self) -> (t: &'a str)
        ensures
            t@ == self.spec_text(),
    {
        proof {
            use_type_invariant(self);
            use_type_invariant(self.tree);
        }
        match &self.tree.elements[self.index] {
            Element::Token(_, t) => t.as_str(),
            _ => "",
        }
    }

    /// The bytes of the text that the token covers.
    pub fn span(&self) -> (r: (usize, usize))
        ensures
            (r.0 as nat, r.1 as nat) == self.tree().span_of(self.index()),
            r.0 <= r.1,
    {
        proof {
            use_type_invariant(self);
            use_type_invariant(self.tree);
            let ev = self.tree.events();
            lemma_forest_inside(ev, self.tree.close@, 0, ev.len() as int, self.index as int);
        }
        let start = self.tree.offsets[self.index];
        match &self.tree.elements[self.index] {
            Element::Token(_, t) => {
                proof {
                    crate::event::lemma_bytes_total(self.tree.events(), self.index as int + 1);
                }
                (start, start + t.as_str().len())
            },
            _ => (start, start),
        }
    }
}

impl<'a> SyntaxElement<'a> {
    /// The tree that the element belongs to.
    pub open spec fn tree(&self) -> &'a SyntaxTree {
        match self {
            SyntaxElement::Node(n) => n.tree(),
            SyntaxElement::Token(t) => t.tree(),
        }
    }

    /// Where the element stands among the events of its tree.
    pub open spec fn index(&self) -> int {
        match self {
            SyntaxElement::Node(n) => n.index(),
            SyntaxElement::Token(t) => t.index(),
        }
    }
}

} // verus!
