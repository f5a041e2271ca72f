//! Operation definitions as values: what a generator of documents puts
//! together, what the encoder writes, and what is read back from a parsed
//! operation.

use crate::ast;
use crate::encoder::{
    add_directive, add_field, add_variable, kind_code, new_operation, new_selection_set,
    op_directives, op_fields, op_kind, op_name, op_plain, op_shorthand, op_variables, render,
    rendered, set_fields, set_name, set_plain, set_shorthand,
};
use crate::entropy::{
    after, byte_or_zero, choice, draw_index, draw_u32, draw_u8, remaining, source_of, u32_drawn,
    BuildError,
};
use crate::kind::{KindSet, SyntaxKind};
use crate::tree::SyntaxNode;
use vstd::prelude::*;
use vstd::string::StringExecFns;

verus! {

/// The kind of an operation: `query`, `mutation` or `subscription`.
#[derive(Clone, Copy, Debug, PartialEq, Eq, Structural)]
pub enum OperationType {
    Query,
    Mutation,
    Subscription,
}

/// Where a directive on an operation stands.
#[derive(Clone, Copy, Debug, PartialEq, Eq, Structural)]
pub enum DirectiveLocation {
    Query,
    Mutation,
    Subscription,
}

/// A name.
#[derive(Debug)]
pub struct Name {
    pub name: String,
}

/// A directive, by its name.
#[derive(Debug)]
pub struct Directive {
    pub name: Name,
}

/// The definition of a variable: its name and the name of its type.
#[derive(Debug)]
pub struct VariableDef {
    pub name: Name,
    pub ty: Name,
}

/// A selection set, by the names of the fields that it selects.
#[derive(Debug)]
pub struct SelectionSet {
    pub fields: Vec<Name>,
}

/// An operation definition:
/// OperationType Name? VariableDefinitions? Directives? SelectionSet
#[derive(Debug)]
pub struct OperationDef {
    pub operation_type: OperationType,
    pub name: Option<Name>,
    pub variable_definitions: Vec<VariableDef>,
    pub directives: Vec<Directive>,
    pub selection_set: SelectionSet,
    pub shorthand: bool,
}

/// The root types of a schema, by name.
#[derive(Debug)]
pub struct SchemaDef {
    pub query: Option<Name>,
    pub mutation: Option<Name>,
    pub subscription: Option<Name>,
}

/// What an operation of one type is given: its directives and its
/// selection set.
#[derive(Debug)]
pub struct Body {
    pub directives: Vec<Directive>,
    pub selection_set: SelectionSet,
}

/// The parts from which the builder puts an operation together. The builder
/// decides on the type of the operation and takes the body that is meant
/// for it.
#[derive(Debug)]
pub struct OperationParts {
    pub name: Name,
    pub query: Body,
    pub mutation: Body,
    pub subscription: Body,
    pub variable_definitions: Vec<VariableDef>,
}

impl OperationParts {
    /// The body that is meant for operations of the type.
    pub open spec fn body(self, t: OperationType) -> Body {
        match t {
            OperationType::Query => self.query,
            OperationType::Mutation => self.mutation,
            OperationType::Subscription => self.subscription,
        }
    }
}

/// The names of a sequence of named things, as texts.
pub open spec fn texts(names: Seq<Name>) -> Seq<Seq<char>> {
    Seq::new(names.len(), |i: int| names[i].name@)
}

impl OperationType {
    /// The operation type that the number `raw` chooses: the three types
    /// share the range of the numbers in equal parts.
    pub open spec fn chosen_by(raw: u32) -> OperationType {
        if raw as int * 3 < 0x1_0000_0000 {
            OperationType::Query
        } else if raw as int * 3 < 0x2_0000_0000 {
            OperationType::Mutation
        } else {
            OperationType::Subscription
        }
    }

    pub fn pick(raw: u32) -> (t: OperationType)
        ensures
            t == OperationType::chosen_by(raw),
    {
        let scaled: u64 = (raw as u64) * 3;
        if scaled < 0x1_0000_0000 {
            OperationType::Query
        } else if scaled < 0x2_0000_0000 {
            OperationType::Mutation
        } else {
            OperationType::Subscription
        }
    }

    /// Where the directives of an operation of this type stand.
    pub open spec fn location(self) -> DirectiveLocation {
        match self {
            OperationType::Query => DirectiveLocation::Query,
            OperationType::Mutation => DirectiveLocation::Mutation,
            OperationType::Subscription => DirectiveLocation::Subscription,
        }
    }

    pub fn directive_location(self) -> (l: DirectiveLocation)
        ensures
            l == self.location(),
    {
        match self {
            OperationType::Query => DirectiveLocation::Query,
            OperationType::Mutation => DirectiveLocation::Mutation,
            OperationType::Subscription => DirectiveLocation::Subscription,
        }
    }

    /// The operation type that a node of an operation type spells: the
    /// keyword that it holds, and `query` where it holds none.
    pub open spec fn spelled_node(node: SyntaxNode<'_>) -> OperationType {
        if node.spec_token(SyntaxKind::QueryKw) is Some {
            OperationType::Query
        } else if node.spec_token(SyntaxKind::MutationKw) is Some {
            OperationType::Mutation
        } else if node.spec_token(SyntaxKind::SubscriptionKw) is Some {
            OperationType::Subscription
        } else {
            OperationType::Query
        }
    }

    /// The operation type that a parsed operation type spells.
    pub open spec fn spelled(node: ast::OperationType<'_>) -> OperationType {
        OperationType::spelled_node(node.node())
    }

    pub fn from_ast(node: ast::OperationType<'_>) -> (t: OperationType)
        ensures
            t == OperationType::spelled(node),
    {
        if node.query_token().is_some() {
            OperationType::Query
        } else if node.mutation_token().is_some() {
            OperationType::Mutation
        } else if node.subscription_token().is_some() {
            OperationType::Subscription
        } else {
            OperationType::Query
        }
    }
}

impl Name {
    pub fn new(name: &str) -> (n: Name)
        ensures
            n.name@ == name@,
    {
        Name { name: String::from_str(name) }
    }

    /// The name that a parsed name spells.
    pub fn from_ast(node: ast::Name<'_>) -> (n: Name)
        ensures
            n.name@ == match node.node().spec_token(SyntaxKind::Ident) {
                Some(t) => t.spec_text(),
                None => Seq::empty(),
            },
    {
        Name { name: String::from_str(node.text()) }
    }
}

/// The name that a node holds: the text of its name, if it has one.
pub open spec fn name_text(node: SyntaxNode<'_>) -> Option<Seq<char>> {
    match node.spec_child(SyntaxKind::Name) {
        Some(n) => Some(
            match n.spec_token(SyntaxKind::Ident) {
                Some(t) => t.spec_text(),
                None => Seq::empty(),
            },
        ),
        None => None,
    }
}

/// The names of those of the nodes that are fields with a name, in order.
pub open spec fn field_names(nodes: Seq<SyntaxNode<'_>>) -> Seq<Seq<char>>
    decreases nodes.len(),
{
    if nodes.len() == 0 {
        Seq::empty()
    } else if nodes[0].spec_kind() == SyntaxKind::Field && name_text(nodes[0]) is Some {
        seq![name_text(nodes[0]).unwrap()] + field_names(nodes.drop_first())
    } else {
        field_names(nodes.drop_first())
    }
}

/// The names of the nodes, in order; nothing where one of them has no name.
pub open spec fn all_names(nodes: Seq<SyntaxNode<'_>>) -> Option<Seq<Seq<char>>>
    decreases nodes.len(),
{
    if nodes.len() == 0 {
        Some(Seq::empty())
    } else {
        match (name_text(nodes[0]), all_names(nodes.drop_first())) {
            (Some(first), Some(others)) => Some(seq![first] + others),
            _ => None,
        }
    }
}

/// The names without those that have come before.
pub open spec fn without_repeats(names: Seq<Seq<char>>) -> Seq<Seq<char>>
    decreases names.len(),
{
    if names.len() == 0 {
        Seq::empty()
    } else {
        let before = without_repeats(names.drop_last());
        if before.contains(names.last()) {
            before
        } else {
            before.push(names.last())
        }
    }
}

/// The names of the directives of a parsed operation, each once: none where
/// it has no directives; nothing where one of them has no name.
pub open spec fn directive_names(op: ast::OperationDefinition<'_>) -> Option<Seq<Seq<char>>> {
    match op.node().spec_child(SyntaxKind::Directives) {
        Some(d) => match all_names(d.spec_children(SyntaxKind::Directive)) {
            Some(names) => Some(without_repeats(names)),
            None => None,
        },
        None => Some(Seq::empty()),
    }
}

/// The names of directives, as texts.
pub open spec fn directive_texts(list: Seq<Directive>) -> Seq<Seq<char>> {
    Seq::new(list.len(), |i: int| list[i].name.name@)
}

/// Whether one of the directives has the name.
fn has_name(list: &Vec<Directive>, name: &String) -> (r: bool)
    ensures
        r == directive_texts(list@).contains(name@),
{
    let mut i: usize = 0;
    while i < list.len()
        invariant
            i <= list@.len(),
            forall|k: int| 0 <= k < i ==> directive_texts(list@)[k] != name@,
        decreases list@.len() - i,
    {
        if list[i].name.name == *name {
            assert(directive_texts(list@)[i as int] == name@);
            return true;
        }
        i = i + 1;
    }
    false
}

/// The directives without those whose name has come before: an operation
/// has no two directives of one name.
pub fn without_repeated(list: &Vec<Directive>) -> (r: Vec<Directive>)
    ensures
        directive_texts(r@) == without_repeats(directive_texts(list@)),
        directive_texts(r@).no_duplicates(),
{
    let ghost names = directive_texts(list@);
    let mut r: Vec<Directive> = Vec::new();
    let mut j: usize = 0;
    proof {
        assert(names.subrange(0, 0) =~= Seq::<Seq<char>>::empty());
        assert(directive_texts(r@) =~= Seq::<Seq<char>>::empty());
    }
    while j < list.len()
        invariant
            j <= list@.len(),
            names == directive_texts(list@),
            directive_texts(r@) == without_repeats(names.subrange(0, j as int)),
            directive_texts(r@).no_duplicates(),
        decreases list@.len() - j,
    {
        let ghost before = directive_texts(r@);
        proof {
            let upto = names.subrange(0, j + 1);
            assert(upto.drop_last() =~= names.subrange(0, j as int));
            assert(upto.last() == names[j as int]);
        }
        let name = &list[j].name.name;
        if !has_name(&r, name) {
            r.push(Directive { name: Name::new(name.as_str()) });
            proof {
                assert(directive_texts(r@) =~= before.push(name@));
            }
        }
        j = j + 1;
    }
    proof {
        assert(names.subrange(0, names.len() as int) =~= names);
    }
    r
}

impl SelectionSet {
    /// The selection set that a parsed selection set spells: the names of
    /// the fields that stand directly in it.
    pub fn from_ast(set: ast::SelectionSet<'_>) -> (r: SelectionSet)
        ensures
            texts(r.fields@) == field_names(set.node().spec_among(KindSet::Selection)),
    {
        let selections = set.selections();
        let ghost nodes = set.node().spec_among(KindSet::Selection);
        let mut fields: Vec<Name> = Vec::new();
        let mut j: usize = 0;
        proof {
            assert(nodes.subrange(0, nodes.len() as int) =~= nodes);
            assert(texts(fields@) =~= Seq::<Seq<char>>::empty());
        }
        while j < selections.len()
            invariant
                j <= selections@.len(),
                selections@.len() == nodes.len(),
                forall|k: int|
                    0 <= k < nodes.len() ==> (#[trigger] selections@[k]).node() == nodes[k],
                texts(fields@) + field_names(nodes.subrange(j as int, nodes.len() as int))
                    == field_names(nodes),
            decreases selections@.len() - j,
        {
            let ghost tail = nodes.subrange(j as int, nodes.len() as int);
            let ghost before = texts(fields@);
            proof {
                assert(tail[0] == nodes[j as int]);
                assert(tail.drop_first() =~= nodes.subrange(j + 1, nodes.len() as int));
            }
            match selections[j] {
                ast::Selection::Field(f) => {
                    proof {
                        use_type_invariant(&f);
                        f.lemma_kind();
                    }
                    match f.name() {
                        Some(n) => {
                            fields.push(Name::from_ast(n));
                            proof {
                                let first = name_text(nodes[j as int]).unwrap();
                                let others = field_names(nodes.subrange(j + 1, nodes.len() as int));
                                assert(texts(fields@) =~= before.push(first));
                                assert(before.push(first) + others =~= before + field_names(tail));
                            }
                        },
                        None => {},
                    }
                },
                ast::Selection::FragmentSpread(x) => {
                    proof {
                        use_type_invariant(&x);
                        x.lemma_kind();
                    }
                },
                ast::Selection::InlineFragment(x) => {
                    proof {
                        use_type_invariant(&x);
                        x.lemma_kind();
                    }
                },
            }
            j = j + 1;
        }
        proof {
            assert(nodes.subrange(nodes.len() as int, nodes.len() as int) =~= Seq::<
                SyntaxNode<'_>,
            >::empty());
            assert(texts(fields@) + Seq::<Seq<char>>::empty() =~= texts(fields@));
        }
        SelectionSet { fields }
    }
}

/// The directives of a parsed list of directives, by name; nothing where
/// one of them has no name.
pub fn directives_from_ast(list: ast::Directives<'_>) -> (r: Option<Vec<Directive>>)
    ensures
        r is Some <==> all_names(list.node().spec_children(SyntaxKind::Directive)) is Some,
        r matches Some(v) ==> directive_texts(v@) == all_names(
            list.node().spec_children(SyntaxKind::Directive),
        ).unwrap(),
{
    let all = list.directives();
    let ghost nodes = list.node().spec_children(SyntaxKind::Directive);
    let mut r: Vec<Directive> = Vec::new();
    let mut j: usize = 0;
    proof {
        assert(nodes.subrange(0, nodes.len() as int) =~= nodes);
    }
    while j < all.len()
        invariant
            j <= all@.len(),
            all@.len() == nodes.len(),
            nodes == list.node().spec_children(SyntaxKind::Directive),
            forall|k: int| 0 <= k < nodes.len() ==> (#[trigger] all@[k]).node() == nodes[k],
            all_names(nodes) == match all_names(nodes.subrange(j as int, nodes.len() as int)) {
                Some(rest) => Some(Seq::new(r@.len(), |i: int| r@[i].name.name@) + rest),
                None => None,
            },
        decreases all@.len() - j,
    {
        let ghost tail = nodes.subrange(j as int, nodes.len() as int);
        let ghost before = Seq::new(r@.len(), |i: int| r@[i].name.name@);
        proof {
            assert(tail[0] == nodes[j as int]);
            assert(tail.drop_first() =~= nodes.subrange(j + 1, nodes.len() as int));
        }
        match all[j].name() {
            Some(n) => {
                r.push(Directive { name: Name::from_ast(n) });
                proof {
                    let first = name_text(nodes[j as int]).unwrap();
                    assert(Seq::new(r@.len(), |i: int| r@[i].name.name@) =~= before.push(first));
                    match all_names(nodes.subrange(j + 1, nodes.len() as int)) {
                        Some(rest) => {
                            assert(before.push(first) + rest =~= before + (seq![first] + rest));
                        },
                        None => {},
                    }
                }
            },
            None => {
                proof {
                    assert(name_text(tail[0]) is None);
                    assert(all_names(tail) is None);
                }
                return None;
            },
        }
        j = j + 1;
    }
    proof {
        assert(nodes.subrange(nodes.len() as int, nodes.len() as int) =~= Seq::<
            SyntaxNode<'_>,
        >::empty());
        let got = Seq::new(r@.len(), |i: int| r@[i].name.name@);
        assert(got + Seq::<Seq<char>>::empty() =~= got);
    }
    Some(r)
}

impl OperationDef {
    /// The name of the operation as a text.
    pub open spec fn name_view(&self) -> Option<Seq<char>> {
        match self.name {
            Some(n) => Some(n.name@),
            None => None,
        }
    }

    /// The names of the directives.
    pub open spec fn directive_views(&self) -> Seq<Seq<char>> {
        Seq::new(self.directives@.len(), |i: int| self.directives@[i].name.name@)
    }

    /// The variables, each with the name of its type.
    pub open spec fn variable_views(&self) -> Seq<(Seq<char>, Seq<char>)> {
        Seq::new(
            self.variable_definitions@.len(),
            |i: int|
                (
                    self.variable_definitions@[i].name.name@,
                    self.variable_definitions@[i].ty.name@,
                ),
        )
    }

    /// The names of the fields that are selected.
    pub open spec fn field_views(&self) -> Seq<Seq<char>> {
        texts(self.selection_set.fields@)
    }

    /// The operation that a parsed operation spells. An operation without a
    /// keyword is a query in the short form. The variables are not read.
    /// There is no operation where the selection set is missing or a
    /// directive has no name.
    pub fn from_ast(op: ast::OperationDefinition<'_>) -> (r: Option<OperationDef>)
        ensures
            r is Some <==> op.node().spec_child(SyntaxKind::SelectionSet) is Some
                && directive_names(op) is Some,
            r matches Some(x) ==> {
                &&& x.name_view() == name_text(op.node())
                &&& x.directive_views() == directive_names(op).unwrap()
                &&& x.directive_views().no_duplicates()
                &&& x.variable_definitions@.len() == 0
                &&& x.field_views() == field_names(
                    op.node().spec_child(SyntaxKind::SelectionSet).unwrap().spec_among(
                        KindSet::Selection,
                    ),
                )
                &&& x.shorthand == (op.node().spec_child(SyntaxKind::OperationType) is None)
                &&& x.operation_type == match op.node().spec_child(SyntaxKind::OperationType) {
                    Some(t) => OperationType::spelled_node(t),
                    None => OperationType::Query,
                }
            },
    {
        let set = match op.selection_set() {
            Some(s) => s,
            None => {
                return None;
            },
        };
        let directives = match op.directives() {
            Some(d) => match directives_from_ast(d) {
                Some(v) => without_repeated(&v),
                None => {
                    return None;
                },
            },
            None => Vec::new(),
        };
        let name = match op.name() {
            Some(n) => Some(Name::from_ast(n)),
            None => None,
        };
        let (operation_type, shorthand) = match op.operation_type() {
            Some(t) => (OperationType::from_ast(t), false),
            None => (OperationType::Query, true),
        };
        let x = OperationDef {
            operation_type,
            name,
            variable_definitions: Vec::new(),
            directives,
            selection_set: SelectionSet::from_ast(set),
            shorthand,
        };
        proof {
            assert(x.directive_views() =~= directive_texts(x.directives@));
            assert(x.directive_views() =~= directive_names(op).unwrap());
        }
        Some(x)
    }

    /// The operation as the encoder takes it.
    pub fn to_encoder(&self) -> (op: apollo_encoder::OperationDefinition)
        ensures
            op_kind(op) == kind_code(self.operation_type),
            op_name(op) == self.name_view(),
            op_variables(op) == self.variable_views(),
            op_directives(op) == self.directive_views(),
            op_fields(op) == self.field_views(),
            op_shorthand(op) == self.shorthand,
            op_plain(op),
    {
        let mut set = new_selection_set();
        let mut i: usize = 0;
        while i < self.selection_set.fields.len()
            invariant
                i <= self.selection_set.fields@.len(),
                set_fields(set) == self.field_views().subrange(0, i as int),
                set_plain(set),
            decreases self.selection_set.fields@.len() - i,
        {
            add_field(&mut set, self.selection_set.fields[i].name.as_str());
            assert(self.field_views().subrange(0, i + 1) =~= self.field_views().subrange(
                0,
                i as int,
            ).push(self.selection_set.fields@[i as int].name@));
            i = i + 1;
        }
        assert(self.field_views().subrange(0, i as int) =~= self.field_views());
        let mut op = new_operation(self.operation_type, set);
        match &self.name {
            Some(n) => {
                set_name(&mut op, n.name.as_str());
            },
            None => {},
        }
        let mut i: usize = 0;
        while i < self.variable_definitions.len()
            invariant
                i <= self.variable_definitions@.len(),
                op_variables(op) == self.variable_views().subrange(0, i as int),
                op_kind(op) == kind_code(self.operation_type),
                op_name(op) == self.name_view(),
                op_directives(op) == Seq::<Seq<char>>::empty(),
                op_fields(op) == self.field_views(),
                op_shorthand(op) == false,
                op_plain(op),
            decreases self.variable_definitions@.len() - i,
        {
            let v = &self.variable_definitions[i];
            add_variable(&mut op, v.name.name.as_str(), v.ty.name.as_str());
            assert(self.variable_views().subrange(0, i + 1) =~= self.variable_views().subrange(
                0,
                i as int,
            ).push((v.name.name@, v.ty.name@)));
            i = i + 1;
        }
        assert(self.variable_views().subrange(0, i as int) =~= self.variable_views());
        if self.shorthand {
            set_shorthand(&mut op);
        }
        let mut i: usize = 0;
        while i < self.directives.len()
            invariant
                i <= self.directives@.len(),
                op_directives(op) == self.directive_views().subrange(0, i as int),
                op_kind(op) == kind_code(self.operation_type),
                op_name(op) == self.name_view(),
                op_variables(op) == self.variable_views(),
                op_fields(op) == self.field_views(),
                op_shorthand(op) == self.shorthand,
                op_plain(op),
            decreases self.directives@.len() - i,
        {
            add_directive(&mut op, self.directives[i].name.name.as_str());
            assert(self.directive_views().subrange(0, i + 1) =~= self.directive_views().subrange(
                0,
                i as int,
            ).push(self.directives@[i as int].name.name@));
            i = i + 1;
        }
        assert(self.directive_views().subrange(0, i as int) =~= self.directive_views());
        op
    }

    /// The text that the encoder writes for the operation.
    pub fn to_text(&self) -> (text: String)
        ensures
            text@ == rendered(
                kind_code(self.operation_type),
                self.name_view(),
                self.variable_views(),
                self.directive_views(),
                self.field_views(),
                self.shorthand,
            ),
    {
        let op = self.to_encoder();
        render(&op)
    }
}

/// Whether the first of the bytes gives a yes: its lowest bit is set. No
/// byte gives a no.
pub open spec fn flip(data: Seq<u8>) -> bool {
    byte_or_zero(data, 0) & 1 == 1
}

/// The operation types for which a schema names a root type, in the order
/// query, mutation, subscription.
pub open spec fn available(schema: SchemaDef) -> Seq<OperationType> {
    (if schema.query is Some {
        seq![OperationType::Query]
    } else {
        Seq::empty()
    }) + (if schema.mutation is Some {
        seq![OperationType::Mutation]
    } else {
        Seq::empty()
    }) + (if schema.subscription is Some {
        seq![OperationType::Subscription]
    } else {
        Seq::empty()
    })
}

/// Puts documents together from the bytes of a source of choices.
pub struct DocumentBuilder<'a> {
    u: arbitrary::Unstructured<'a>,
    operation_defs: Vec<OperationDef>,
    schema_defs: Vec<SchemaDef>,
}

impl<'a> DocumentBuilder<'a> {
    /// The bytes that are left in the source of choices.
    pub closed spec fn entropy(&self) -> Seq<u8> {
        remaining(self.u)
    }

    /// The operations that the document has so far.
    pub closed spec fn operations(&self) -> Seq<OperationDef> {
        self.operation_defs@
    }

    /// The schemas that the document has so far.
    pub closed spec fn schemas(&self) -> Seq<SchemaDef> {
        self.schema_defs@
    }

    /// A builder that takes its choices from the bytes.
    pub fn new(data: &'a [u8]) -> (b: Self)
        ensures
            b.entropy() == data@,
            b.operations() == Seq::<OperationDef>::empty(),
            b.schemas() == Seq::<SchemaDef>::empty(),
    {
        DocumentBuilder { u: source_of(data), operation_defs: Vec::new(), schema_defs: Vec::new() }
    }

    /// Whether the document has a schema.
    pub fn has_schema(&self) -> (r: bool)
        ensures
            r == (self.schemas().len() > 0),
    {
        self.schema_defs.len() > 0
    }

    /// Adds an operation to the document.
    pub fn push_operation(&mut self, op: OperationDef)
        ensures
            final(self).operations() == old(self).operations().push(op),
            final(self).schemas() == old(self).schemas(),
            final(self).entropy() == old(self).entropy(),
    {
        self.operation_defs.push(op);
    }

    /// Adds a schema to the document.
    pub fn push_schema(&mut self, schema: SchemaDef)
        ensures
            final(self).schemas() == old(self).schemas().push(schema),
            final(self).operations() == old(self).operations(),
            final(self).entropy() == old(self).entropy(),
    {
        self.schema_defs.push(schema);
    }

    /// Takes a yes or a no from the source.
    fn coin(&mut self) -> (r: bool)
        ensures
            r == flip(old(self).entropy()),
            final(self).entropy() == after(old(self).entropy(), 1),
            final(self).operations() == old(self).operations(),
            final(self).schemas() == old(self).schemas(),
    {
        match draw_u8(&mut self.u) {
            Ok(b) => b & 1 == 1,
            Err(_) => false,
        }
    }

    /// Whether an operation of the type is written in the short form: only
    /// the first operation of a document can be, only if it is a query, and
    /// then the source decides.
    fn shorthand(&mut self, t: OperationType) -> (r: bool)
        ensures
            r == (old(self).operations().len() == 0 && t == OperationType::Query && flip(
                old(self).entropy(),
            )),
            final(self).entropy() == if old(self).operations().len() == 0 && t
                == OperationType::Query {
                after(old(self).entropy(), 1)
            } else {
                old(self).entropy()
            },
            final(self).operations() == old(self).operations(),
            final(self).schemas() == old(self).schemas(),
    {
        self.operation_defs.len() == 0 && t == OperationType::Query && self.coin()
    }

    /// An operation, put together from the parts as the source decides: it
    /// decides whether the operation has the name, of which type it is, and,
    /// for the first query of a document, whether it is written in the
    /// short form. The operation gets the body that the parts hold for its
    /// type.
    pub fn operation_definition(&mut self, parts: OperationParts) -> (r: Result<
        OperationDef,
        BuildError,
    >)
        ensures
            ({
                let d0 = old(self).entropy();
                let d1 = after(d0, 1);
                let d2 = after(d1, 4);
                let t = OperationType::chosen_by(u32_drawn(d1) as u32);
                let asks = old(self).operations().len() == 0 && t == OperationType::Query;
                &&& r == Ok::<OperationDef, BuildError>(
                    OperationDef {
                        operation_type: t,
                        name: if flip(d0) {
                            Some(parts.name)
                        } else {
                            None
                        },
                        variable_definitions: parts.variable_definitions,
                        directives: parts.body(t).directives,
                        selection_set: parts.body(t).selection_set,
                        shorthand: asks && flip(d2),
                    },
                )
                &&& final(self).entropy() == if asks {
                    after(d2, 1)
                } else {
                    d2
                }
            }),
            final(self).operations() == old(self).operations(),
            final(self).schemas() == old(self).schemas(),
    {
        let named = self.coin();
        let raw = match draw_u32(&mut self.u) {
            Ok(x) => x,
            Err(e) => {
                return Err(e);
            },
        };
        let t = OperationType::pick(raw);
        let OperationParts { name, query, mutation, subscription, variable_definitions } = parts;
        let body = match t {
            OperationType::Query => query,
            OperationType::Mutation => mutation,
            OperationType::Subscription => subscription,
        };
        let shorthand = self.shorthand(t);
        Ok(
            OperationDef {
                operation_type: t,
                name: if named {
                    Some(name)
                } else {
                    None
                },
                variable_definitions,
                directives: body.directives,
                selection_set: body.selection_set,
                shorthand,
            },
        )
    }

    /// The operation types for which the schema names a root type.
    fn available_operations(schema: &SchemaDef) -> (r: Vec<OperationType>)
        ensures
            r@ == available(*schema),
    {
        let mut r: Vec<OperationType> = Vec::new();
        if schema.query.is_some() {
            r.push(OperationType::Query);
        }
        if schema.mutation.is_some() {
            r.push(OperationType::Mutation);
        }
        if schema.subscription.is_some() {
            r.push(OperationType::Subscription);
        }
        assert(r@ =~= available(*schema));
        r
    }

    /// An operation for the last schema of the document. The source
    /// decides whether the operation has the name and which of the root
    /// types of the schema it works on; a schema without root types gives
    /// an error. The operation has no variables. Whether it is written in
    /// the short form is decided as for any operation, from the bytes that
    /// the choice of the type has left.
    pub fn operation_definition_from_schema(&mut self, parts: OperationParts) -> (r: Result<
        OperationDef,
        BuildError,
    >)
        requires
            old(self).schemas().len() > 0,
        ensures
            ({
                let d0 = old(self).entropy();
                let d1 = after(d0, 1);
                let ops = available(old(self).schemas().last());
                let t = ops[choice(d1, ops.len() as usize).0 as int];
                let d2 = choice(d1, ops.len() as usize).1;
                let asks = old(self).operations().len() == 0 && t == OperationType::Query;
                if ops.len() == 0 {
                    &&& r == Err::<OperationDef, BuildError>(BuildError::EmptyChoose)
                    &&& final(self).entropy() == d1
                } else {
                    &&& r == Ok::<OperationDef, BuildError>(
                        OperationDef {
                            operation_type: t,
                            name: if flip(d0) {
                                Some(parts.name)
                            } else {
                                None
                            },
                            variable_definitions: r->Ok_0.variable_definitions,
                            directives: parts.body(t).directives,
                            selection_set: parts.body(t).selection_set,
                            shorthand: asks && flip(d2),
                        },
                    )
                    &&& r->Ok_0.variable_definitions@.len() == 0
                    &&& final(self).entropy() == if asks {
                        after(d2, 1)
                    } else {
                        d2
                    }
                }
            }),
            final(self).operations() == old(self).operations(),
            final(self).schemas() == old(self).schemas(),
    {
        let named = self.coin();
        let ghost d1 = self.entropy();
        let last = self.schema_defs.len() - 1;
        let ops = Self::available_operations(&self.schema_defs[last]);
        let i = match draw_index(&mut self.u, ops.len()) {
            Ok(i) => i,
            Err(e) => {
                return Err(e);
            },
        };
        let t = ops[i];
        let OperationParts { name, query, mutation, subscription, variable_definitions: _ } = parts;
        let body = match t {
            OperationType::Query => query,
            OperationType::Mutation => mutation,
            OperationType::Subscription => subscription,
        };
        let shorthand = self.shorthand(t);
        Ok(
            OperationDef {
                operation_type: t,
                name: if named {
                    Some(name)
                } else {
                    None
                },
                variable_definitions: Vec::new(),
                directives: body.directives,
                selection_set: body.selection_set,
                shorthand,
            },
        )
    }
}

} // verus!
