//! The typed layer: for each production a wrapper over the nodes of its
//! kind, with an accessor for each part. A wrapper owns nothing; it is a
//! view of a node. An accessor looks among the children of the node for the
//! part it is named after, and finds nothing where a faulty text left the
//! part out: it never fails.

use crate::kind::{KindSet, SyntaxKind};
use crate::tree::{SyntaxNode, SyntaxToken, SyntaxTree};
use vstd::prelude::*;

verus! {

/// An operation: a query, a mutation or a subscription.
#[derive(Clone, Copy)]
pub struct OperationDefinition<'a> {
    syntax: SyntaxNode<'a>,
}

/// The keyword of an operation.
#[derive(Clone, Copy)]
pub struct OperationType<'a> {
    syntax: SyntaxNode<'a>,
}

/// A name.
#[derive(Clone, Copy)]
pub struct Name<'a> {
    syntax: SyntaxNode<'a>,
}

/// The variable definitions of an operation.
#[derive(Clone, Copy)]
pub struct VariableDefinitions<'a> {
    syntax: SyntaxNode<'a>,
}

/// The definition of a variable.
#[derive(Clone, Copy)]
pub struct VariableDefinition<'a> {
    syntax: SyntaxNode<'a>,
}

/// A variable.
#[derive(Clone, Copy)]
pub struct Variable<'a> {
    syntax: SyntaxNode<'a>,
}

/// A default value.
#[derive(Clone, Copy)]
pub struct DefaultValue<'a> {
    syntax: SyntaxNode<'a>,
}

/// The directives on a construct.
#[derive(Clone, Copy)]
pub struct Directives<'a> {
    syntax: SyntaxNode<'a>,
}

/// A directive.
#[derive(Clone, Copy)]
pub struct Directive<'a> {
    syntax: SyntaxNode<'a>,
}

/// The arguments of a field or a directive.
#[derive(Clone, Copy)]
pub struct Arguments<'a> {
    syntax: SyntaxNode<'a>,
}

/// An argument.
#[derive(Clone, Copy)]
pub struct Argument<'a> {
    syntax: SyntaxNode<'a>,
}

/// A selection set.
#[derive(Clone, Copy)]
pub struct SelectionSet<'a> {
    syntax: SyntaxNode<'a>,
}

/// A field.
#[derive(Clone, Copy)]
pub struct Field<'a> {
    syntax: SyntaxNode<'a>,
}

/// The alias of a field.
#[derive(Clone, Copy)]
pub struct Alias<'a> {
    syntax: SyntaxNode<'a>,
}

/// A fragment spread.
#[derive(Clone, Copy)]
pub struct FragmentSpread<'a> {
    syntax: SyntaxNode<'a>,
}

/// An inline fragment.
#[derive(Clone, Copy)]
pub struct InlineFragment<'a> {
    syntax: SyntaxNode<'a>,
}

/// The definition of a fragment.
#[derive(Clone, Copy)]
pub struct FragmentDefinition<'a> {
    syntax: SyntaxNode<'a>,
}

/// The name of a fragment.
#[derive(Clone, Copy)]
pub struct FragmentName<'a> {
    syntax: SyntaxNode<'a>,
}

/// A type condition.
#[derive(Clone, Copy)]
pub struct TypeCondition<'a> {
    syntax: SyntaxNode<'a>,
}

/// A type given by its name.
#[derive(Clone, Copy)]
pub struct NamedType<'a> {
    syntax: SyntaxNode<'a>,
}

/// A list type.
#[derive(Clone, Copy)]
pub struct ListType<'a> {
    syntax: SyntaxNode<'a>,
}

/// A named type that is not null.
#[derive(Clone, Copy)]
pub struct NonNullType<'a> {
    syntax: SyntaxNode<'a>,
}

/// A string.
#[derive(Clone, Copy)]
pub struct StringValue<'a> {
    syntax: SyntaxNode<'a>,
}

/// An integer.
#[derive(Clone, Copy)]
pub struct IntValue<'a> {
    syntax: SyntaxNode<'a>,
}

/// A floating point number.
#[derive(Clone, Copy)]
pub struct FloatValue<'a> {
    syntax: SyntaxNode<'a>,
}

/// `true` or `false`.
#[derive(Clone, Copy)]
pub struct BooleanValue<'a> {
    syntax: SyntaxNode<'a>,
}

/// `null`.
#[derive(Clone, Copy)]
pub struct NullValue<'a> {
    syntax: SyntaxNode<'a>,
}

/// An enum value.
#[derive(Clone, Copy)]
pub struct EnumValue<'a> {
    syntax: SyntaxNode<'a>,
}

/// A list of values.
#[derive(Clone, Copy)]
pub struct ListValue<'a> {
    syntax: SyntaxNode<'a>,
}

/// An object value.
#[derive(Clone, Copy)]
pub struct ObjectValue<'a> {
    syntax: SyntaxNode<'a>,
}

/// A field of an object value.
#[derive(Clone, Copy)]
pub struct ObjectField<'a> {
    syntax: SyntaxNode<'a>,
}

/// A description.
#[derive(Clone, Copy)]
pub struct Description<'a> {
    syntax: SyntaxNode<'a>,
}

/// The definition of a schema.
#[derive(Clone, Copy)]
pub struct SchemaDefinition<'a> {
    syntax: SyntaxNode<'a>,
}

/// A root operation type of a schema.
#[derive(Clone, Copy)]
pub struct RootOperationTypeDefinition<'a> {
    syntax: SyntaxNode<'a>,
}

/// The definition of a scalar type.
#[derive(Clone, Copy)]
pub struct ScalarTypeDefinition<'a> {
    syntax: SyntaxNode<'a>,
}

/// The definition of an object type.
#[derive(Clone, Copy)]
pub struct ObjectTypeDefinition<'a> {
    syntax: SyntaxNode<'a>,
}

/// The interfaces that a type implements.
#[derive(Clone, Copy)]
pub struct ImplementsInterfaces<'a> {
    syntax: SyntaxNode<'a>,
}

/// The fields of an object type or an interface.
#[derive(Clone, Copy)]
pub struct FieldsDefinition<'a> {
    syntax: SyntaxNode<'a>,
}

/// The definition of a field.
#[derive(Clone, Copy)]
pub struct FieldDefinition<'a> {
    syntax: SyntaxNode<'a>,
}

/// The arguments that a field or a directive takes.
#[derive(Clone, Copy)]
pub struct ArgumentsDefinition<'a> {
    syntax: SyntaxNode<'a>,
}

/// The definition of an argument or of an input field.
#[derive(Clone, Copy)]
pub struct InputValueDefinition<'a> {
    syntax: SyntaxNode<'a>,
}

/// The definition of an interface.
#[derive(Clone, Copy)]
pub struct InterfaceTypeDefinition<'a> {
    syntax: SyntaxNode<'a>,
}

/// The definition of a union.
#[derive(Clone, Copy)]
pub struct UnionTypeDefinition<'a> {
    syntax: SyntaxNode<'a>,
}

/// The members of a union.
#[derive(Clone, Copy)]
pub struct UnionMemberTypes<'a> {
    syntax: SyntaxNode<'a>,
}

/// The definition of an enum.
#[derive(Clone, Copy)]
pub struct EnumTypeDefinition<'a> {
    syntax: SyntaxNode<'a>,
}

/// The values of an enum.
#[derive(Clone, Copy)]
pub struct EnumValuesDefinition<'a> {
    syntax: SyntaxNode<'a>,
}

/// The definition of an enum value.
#[derive(Clone, Copy)]
pub struct EnumValueDefinition<'a> {
    syntax: SyntaxNode<'a>,
}

/// The definition of an input object type.
#[derive(Clone, Copy)]
pub struct InputObjectTypeDefinition<'a> {
    syntax: SyntaxNode<'a>,
}

/// The fields of an input object type.
#[derive(Clone, Copy)]
pub struct InputFieldsDefinition<'a> {
    syntax: SyntaxNode<'a>,
}

/// The definition of a directive.
#[derive(Clone, Copy)]
pub struct DirectiveDefinition<'a> {
    syntax: SyntaxNode<'a>,
}

/// The locations of a directive.
#[derive(Clone, Copy)]
pub struct DirectiveLocations<'a> {
    syntax: SyntaxNode<'a>,
}

/// A location of a directive.
#[derive(Clone, Copy)]
pub struct DirectiveLocation<'a> {
    syntax: SyntaxNode<'a>,
}

/// An extension of a schema.
#[derive(Clone, Copy)]
pub struct SchemaExtension<'a> {
    syntax: SyntaxNode<'a>,
}

/// An extension of a scalar type.
#[derive(Clone, Copy)]
pub struct ScalarTypeExtension<'a> {
    syntax: SyntaxNode<'a>,
}

/// An extension of an object type.
#[derive(Clone, Copy)]
pub struct ObjectTypeExtension<'a> {
    syntax: SyntaxNode<'a>,
}

/// An extension of an interface.
#[derive(Clone, Copy)]
pub struct InterfaceTypeExtension<'a> {
    syntax: SyntaxNode<'a>,
}

/// An extension of a union.
#[derive(Clone, Copy)]
pub struct UnionTypeExtension<'a> {
    syntax: SyntaxNode<'a>,
}

/// An extension of an enum.
#[derive(Clone, Copy)]
pub struct EnumTypeExtension<'a> {
    syntax: SyntaxNode<'a>,
}

/// An extension of an input object type.
#[derive(Clone, Copy)]
pub struct InputObjectTypeExtension<'a> {
    syntax: SyntaxNode<'a>,
}

/// What stands at the top of a document.
#[derive(Clone, Copy)]
pub enum Definition<'a> {
    OperationDefinition(OperationDefinition<'a>),
    FragmentDefinition(FragmentDefinition<'a>),
    DirectiveDefinition(DirectiveDefinition<'a>),
    SchemaDefinition(SchemaDefinition<'a>),
    ScalarTypeDefinition(ScalarTypeDefinition<'a>),
    ObjectTypeDefinition(ObjectTypeDefinition<'a>),
    InterfaceTypeDefinition(InterfaceTypeDefinition<'a>),
    UnionTypeDefinition(UnionTypeDefinition<'a>),
    EnumTypeDefinition(EnumTypeDefinition<'a>),
    InputObjectTypeDefinition(InputObjectTypeDefinition<'a>),
    SchemaExtension(SchemaExtension<'a>),
    ScalarTypeExtension(ScalarTypeExtension<'a>),
    ObjectTypeExtension(ObjectTypeExtension<'a>),
    InterfaceTypeExtension(InterfaceTypeExtension<'a>),
    UnionTypeExtension(UnionTypeExtension<'a>),
    EnumTypeExtension(EnumTypeExtension<'a>),
    InputObjectTypeExtension(InputObjectTypeExtension<'a>),
}

/// What stands in a selection set.
#[derive(Clone, Copy)]
pub enum Selection<'a> {
    Field(Field<'a>),
    FragmentSpread(FragmentSpread<'a>),
    InlineFragment(InlineFragment<'a>),
}

/// A value.
#[derive(Clone, Copy)]
pub enum Value<'a> {
    Variable(Variable<'a>),
    StringValue(StringValue<'a>),
    FloatValue(FloatValue<'a>),
    IntValue(IntValue<'a>),
    BooleanValue(BooleanValue<'a>),
    NullValue(NullValue<'a>),
    EnumValue(EnumValue<'a>),
    ListValue(ListValue<'a>),
    ObjectValue(ObjectValue<'a>),
}

/// A reference to a type.
#[derive(Clone, Copy)]
pub enum Type<'a> {
    NamedType(NamedType<'a>),
    ListType(ListType<'a>),
    NonNullType(NonNullType<'a>),
}

impl<'a> OperationDefinition<'a> {
    /// The node that is viewed.
    pub closed spec fn node(&self) -> SyntaxNode<'a> {
        self.syntax
    }

    #[verifier::type_invariant]
    pub closed spec fn inv(self) -> bool {
        self.syntax.spec_kind() == SyntaxKind::OperationDefinition
    }

    /// The node that is viewed is of the kind of the view.
    pub proof fn lemma_kind(&self)
        requires
            self.inv(),
        ensures
            self.node().spec_kind() == SyntaxKind::OperationDefinition,
    {
    }

    /// The view of a node, if the node is of this kind.
    pub fn cast(node: SyntaxNode<'a>) -> (r: Option<OperationDefinition<'a>>)
        ensures
            r is Some <==> node.spec_kind() == SyntaxKind::OperationDefinition,
            r matches Some(x) ==> x.node() == node,
    {
        if node.kind() == SyntaxKind::OperationDefinition {
            Some(OperationDefinition { syntax: node })
        } else {
            None
        }
    }

    pub fn syntax(&self) -> (r: SyntaxNode<'a>)
        ensures
            r == self.node(),
    {
        self.syntax
    }

    /// The first OperationType among the children.
    pub fn operation_type(&self) -> (r: Option<OperationType<'a>>)
        ensures
            r is Some <==> self.node().spec_child(SyntaxKind::OperationType) is Some,
            r matches Some(x) ==> Some(x.node()) == self.node().spec_child(
                SyntaxKind::OperationType,
            ),
    {
        match self.syntax.child(SyntaxKind::OperationType) {
            Some(n) => Some(OperationType { syntax: n }),
            None => None,
        }
    }

    /// The first Name among the children.
    pub fn name(&self) -> (r: Option<Name<'a>>)
        ensures
            r is Some <==> self.node().spec_child(SyntaxKind::Name) is Some,
            r matches Some(x) ==> Some(x.node()) == self.node().spec_child(SyntaxKind::Name),
    {
        match self.syntax.child(SyntaxKind::Name) {
            Some(n) => Some(Name { syntax: n }),
            None => None,
        }
    }

    /// The first VariableDefinitions among the children.
    pub fn variable_definitions(&self) -> (r: Option<VariableDefinitions<'a>>)
        ensures
            r is Some <==> self.node().spec_child(SyntaxKind::VariableDefinitions) is Some,
            r matches Some(x) ==> Some(x.node()) == self.node().spec_child(
                SyntaxKind::VariableDefinitions,
            ),
    {
        match self.syntax.child(SyntaxKind::VariableDefinitions) {
            Some(n) => Some(VariableDefinitions { syntax: n }),
            None => None,
        }
    }

    /// The first Directives among the children.
    pub fn directives(&self) -> (r: Option<Directives<'a>>)
        ensures
            r is Some <==> self.node().spec_child(SyntaxKind::Directives) is Some,
            r matches Some(x) ==> Some(x.node()) == self.node().spec_child(SyntaxKind::Directives),
    {
        match self.syntax.child(SyntaxKind::Directives) {
            Some(n) => Some(Directives { syntax: n }),
            None => None,
        }
    }

    /// The first SelectionSet among the children.
    pub fn selection_set(&self) -> (r: Option<SelectionSet<'a>>)
        ensures
            r is Some <==> self.node().spec_child(SyntaxKind::SelectionSet) is Some,
            r matches Some(x) ==> Some(x.node()) == self.node().spec_child(
                SyntaxKind::SelectionSet,
            ),
    {
        match self.syntax.child(SyntaxKind::SelectionSet) {
            Some(n) => Some(SelectionSet { syntax: n }),
            None => None,
        }
    }
}

impl<'a> OperationType<'a> {
    /// The node that is viewed.
    pub closed spec fn node(&self) -> SyntaxNode<'a> {
        self.syntax
    }

    #[verifier::type_invariant]
    pub closed spec fn inv(self) -> bool {
        self.syntax.spec_kind() == SyntaxKind::OperationType
    }

    /// The node that is viewed is of the kind of the view.
    pub proof fn lemma_kind(&self)
        requires
            self.inv(),
        ensures
            self.node().spec_kind() == SyntaxKind::OperationType,
    {
    }

    /// The view of a node, if the node is of this kind.
    pub fn cast(node: SyntaxNode<'a>) -> (r: Option<OperationType<'a>>)
        ensures
            r is Some <==> node.spec_kind() == SyntaxKind::OperationType,
            r matches Some(x) ==> x.node() == node,
    {
        if node.kind() == SyntaxKind::OperationType {
            Some(OperationType { syntax: node })
        } else {
            None
        }
    }

    pub fn syntax(&self) -> (r: SyntaxNode<'a>)
        ensures
            r == self.node(),
    {
        self.syntax
    }

    /// The first token of kind `QueryKw` among the children.
    pub fn query_token(&self) -> (r: Option<SyntaxToken<'a>>)
        ensures
            r == self.node().spec_token(SyntaxKind::QueryKw),
    {
        self.syntax.token(SyntaxKind::QueryKw)
    }

    /// The first token of kind `MutationKw` among the children.
    pub fn mutation_token(&self) -> (r: Option<SyntaxToken<'a>>)
        ensures
            r == self.node().spec_token(SyntaxKind::MutationKw),
    {
        self.syntax.token(SyntaxKind::MutationKw)
    }

    /// The first token of kind `SubscriptionKw` among the children.
    pub fn subscription_token(&self) -> (r: Option<SyntaxToken<'a>>)
        ensures
            r == self.node().spec_token(SyntaxKind::SubscriptionKw),
    {
        self.syntax.token(SyntaxKind::SubscriptionKw)
    }
}

impl<'a> Name<'a> {
    /// The node that is viewed.
    pub closed spec fn node(&self) -> SyntaxNode<'a> {
        self.syntax
    }

    #[verifier::type_invariant]
    pub closed spec fn inv(self) -> bool {
        self.syntax.spec_kind() == SyntaxKind::Name
    }

    /// The node that is viewed is of the kind of the view.
    pub proof fn lemma_kind(&self)
        requires
            self.inv(),
        ensures
            self.node().spec_kind() == SyntaxKind::Name,
    {
    }

    /// The view of a node, if the node is of this kind.
    pub fn cast(node: SyntaxNode<'a>) -> (r: Option<Name<'a>>)
        ensures
            r is Some <==> node.spec_kind() == SyntaxKind::Name,
            r matches Some(x) ==> x.node() == node,
    {
        if node.kind() == SyntaxKind::Name {
            Some(Name { syntax: node })
        } else {
            None
        }
    }

    pub fn syntax(&self) -> (r: SyntaxNode<'a>)
        ensures
            r == self.node(),
    {
        self.syntax
    }

    /// The first token of kind `Ident` among the children.
    pub fn ident_token(&self) -> (r: Option<SyntaxToken<'a>>)
        ensures
            r == self.node().spec_token(SyntaxKind::Ident),
    {
        self.syntax.token(SyntaxKind::Ident)
    }

    /// The text of the first token of kind `Ident` among the children; the
    /// empty text where there is none.
    pub fn text(&self) -> (r: &'a str)
        ensures
            r@ == match self.node().spec_token(SyntaxKind::Ident) {
                Some(t) => t.spec_text(),
                None => Seq::empty(),
            },
    {
        match self.syntax.token(SyntaxKind::Ident) {
            Some(t) => t.text(),
            None => {
                proof {
                    reveal_strlit("");
                }
                ""
            },
        }
    }
}

impl<'a> VariableDefinitions<'a> {
    /// The node that is viewed.
    pub closed spec fn node(&self) -> SyntaxNode<'a> {
        self.syntax
    }

    #[verifier::type_invariant]
    pub closed spec fn inv(self) -> bool {
        self.syntax.spec_kind() == SyntaxKind::VariableDefinitions
    }

    /// The node that is viewed is of the kind of the view.
    pub proof fn lemma_kind(&self)
        requires
            self.inv(),
        ensures
            self.node().spec_kind() == SyntaxKind::VariableDefinitions,
    {
    }

    /// The view of a node, if the node is of this kind.
    pub fn cast(node: SyntaxNode<'a>) -> (r: Option<VariableDefinitions<'a>>)
        ensures
            r is Some <==> node.spec_kind() == SyntaxKind::VariableDefinitions,
            r matches Some(x) ==> x.node() == node,
    {
        if node.kind() == SyntaxKind::VariableDefinitions {
            Some(VariableDefinitions { syntax: node })
        } else {
            None
        }
    }

    pub fn syntax(&self) -> (r: SyntaxNode<'a>)
        ensures
            r == self.node(),
    {
        self.syntax
    }

    /// Every VariableDefinition among the children, in document order.
    pub fn variable_definitions(&self) -> (r: Vec<VariableDefinition<'a>>)
        ensures
            r@.len() == self.node().spec_children(SyntaxKind::VariableDefinition).len(),
            forall|j: int|
                0 <= j < r@.len() ==> (#[trigger] r@[j]).node() == self.node().spec_children(
                    SyntaxKind::VariableDefinition,
                )[j],
    {
        VariableDefinition::all_in(self.syntax)
    }
}

impl<'a> VariableDefinition<'a> {
    /// The node that is viewed.
    pub closed spec fn node(&self) -> SyntaxNode<'a> {
        self.syntax
    }

    #[verifier::type_invariant]
    pub closed spec fn inv(self) -> bool {
        self.syntax.spec_kind() == SyntaxKind::VariableDefinition
    }

    /// The node that is viewed is of the kind of the view.
    pub proof fn lemma_kind(&self)
        requires
            self.inv(),
        ensures
            self.node().spec_kind() == SyntaxKind::VariableDefinition,
    {
    }

    /// The view of a node, if the node is of this kind.
    pub fn cast(node: SyntaxNode<'a>) -> (r: Option<VariableDefinition<'a>>)
        ensures
            r is Some <==> node.spec_kind() == SyntaxKind::VariableDefinition,
            r matches Some(x) ==> x.node() == node,
    {
        if node.kind() == SyntaxKind::VariableDefinition {
            Some(VariableDefinition { syntax: node })
        } else {
            None
        }
    }

    pub fn syntax(&self) -> (r: SyntaxNode<'a>)
        ensures
            r == self.node(),
    {
        self.syntax
    }

    /// The views of the children of `parent` that are of this kind, in
    /// document order.
    pub fn all_in(parent: SyntaxNode<'a>) -> (r: Vec<VariableDefinition<'a>>)
        ensures
            r@.len() == parent.spec_children(SyntaxKind::VariableDefinition).len(),
            forall|j: int|
                0 <= j < r@.len() ==> (#[trigger] r@[j]).node() == parent.spec_children(
                    SyntaxKind::VariableDefinition,
                )[j],
    {
        let nodes = parent.child_nodes(SyntaxKind::VariableDefinition);
        let mut r: Vec<VariableDefinition<'a>> = Vec::new();
        let mut j: usize = 0;
        while j < nodes.len()
            invariant
                j <= nodes@.len(),
                r@.len() == j,
                forall|k: int| 0 <= k < j ==> (#[trigger] r@[k]).node() == nodes@[k],
                forall|k: int|
                    0 <= k < nodes@.len() ==> (#[trigger] nodes@[k]).spec_kind()
                        == SyntaxKind::VariableDefinition,
            decreases nodes@.len() - j,
        {
            r.push(VariableDefinition { syntax: nodes[j] });
            j = j + 1;
        }
        r
    }

    /// The first Variable among the children.
    pub fn variable(&self) -> (r: Option<Variable<'a>>)
        ensures
            r is Some <==> self.node().spec_child(SyntaxKind::Variable) is Some,
            r matches Some(x) ==> Some(x.node()) == self.node().spec_child(SyntaxKind::Variable),
    {
        match self.syntax.child(SyntaxKind::Variable) {
            Some(n) => Some(Variable { syntax: n }),
            None => None,
        }
    }

    /// The first Type among the children.
    pub fn ty(&self) -> (r: Option<Type<'a>>)
        ensures
            r is Some <==> self.node().spec_first_among(KindSet::Type) is Some,
            r matches Some(x) ==> Some(x.node()) == self.node().spec_first_among(
                KindSet::Type,
            ),
    {
        match self.syntax.first_among(KindSet::Type) {
            Some(n) => Type::cast(n),
            None => None,
        }
    }

    /// The first DefaultValue among the children.
    pub fn default_value(&self) -> (r: Option<DefaultValue<'a>>)
        ensures
            r is Some <==> self.node().spec_child(SyntaxKind::DefaultValue) is Some,
            r matches Some(x) ==> Some(x.node()) == self.node().spec_child(
                SyntaxKind::DefaultValue,
            ),
    {
        match self.syntax.child(SyntaxKind::DefaultValue) {
            Some(n) => Some(DefaultValue { syntax: n }),
            None => None,
        }
    }

    /// The first Directives among the children.
    pub fn directives(&self) -> (r: Option<Directives<'a>>)
        ensures
            r is Some <==> self.node().spec_child(SyntaxKind::Directives) is Some,
            r matches Some(x) ==> Some(x.node()) == self.node().spec_child(SyntaxKind::Directives),
    {
        match self.syntax.child(SyntaxKind::Directives) {
            Some(n) => Some(Directives { syntax: n }),
            None => None,
        }
    }
}

impl<'a> Variable<'a> {
    /// The node that is viewed.
    pub closed spec fn node(&self) -> SyntaxNode<'a> {
        self.syntax
    }

    #[verifier::type_invariant]
    pub closed spec fn inv(self) -> bool {
        self.syntax.spec_kind() == SyntaxKind::Variable
    }

    /// The node that is viewed is of the kind of the view.
    pub proof fn lemma_kind(&self)
        requires
            self.inv(),
        ensures
            self.node().spec_kind() == SyntaxKind::Variable,
    {
    }

    /// The view of a node, if the node is of this kind.
    pub fn cast(node: SyntaxNode<'a>) -> (r: Option<Variable<'a>>)
        ensures
            r is Some <==> node.spec_kind() == SyntaxKind::Variable,
            r matches Some(x) ==> x.node() == node,
    {
        if node.kind() == SyntaxKind::Variable {
            Some(Variable { syntax: node })
        } else {
            None
        }
    }

    pub fn syntax(&self) -> (r: SyntaxNode<'a>)
        ensures
            r == self.node(),
    {
        self.syntax
    }

    /// The first Name among the children.
    pub fn name(&self) -> (r: Option<Name<'a>>)
        ensures
            r is Some <==> self.node().spec_child(SyntaxKind::Name) is Some,
            r matches Some(x) ==> Some(x.node()) == self.node().spec_child(SyntaxKind::Name),
    {
        match self.syntax.child(SyntaxKind::Name) {
            Some(n) => Some(Name { syntax: n }),
            None => None,
        }
    }
}

impl<'a> DefaultValue<'a> {
    /// The node that is viewed.
    pub closed spec fn node(&self) -> SyntaxNode<'a> {
        self.syntax
    }

    #[verifier::type_invariant]
    pub closed spec fn inv(self) -> bool {
        self.syntax.spec_kind() == SyntaxKind::DefaultValue
    }

    /// The node that is viewed is of the kind of the view.
    pub proof fn lemma_kind(&self)
        requires
            self.inv(),
        ensures
            self.node().spec_kind() == SyntaxKind::DefaultValue,
    {
    }

    /// The view of a node, if the node is of this kind.
    pub fn cast(node: SyntaxNode<'a>) -> (r: Option<DefaultValue<'a>>)
        ensures
            r is Some <==> node.spec_kind() == SyntaxKind::DefaultValue,
            r matches Some(x) ==> x.node() == node,
    {
        if node.kind() == SyntaxKind::DefaultValue {
            Some(DefaultValue { syntax: node })
        } else {
            None
        }
    }

    pub fn syntax(&self) -> (r: SyntaxNode<'a>)
        ensures
            r == self.node(),
    {
        self.syntax
    }

    /// The first Value among the children.
    pub fn value(&self) -> (r: Option<Value<'a>>)
        ensures
            r is Some <==> self.node().spec_first_among(KindSet::Value) is Some,
            r matches Some(x) ==> Some(x.node()) == self.node().spec_first_among(
                KindSet::Value,
            ),
    {
        match self.syntax.first_among(KindSet::Value) {
            Some(n) => Value::cast(n),
            None => None,
        }
    }
}

impl<'a> Directives<'a> {
    /// The node that is viewed.
    pub closed spec fn node(&self) -> SyntaxNode<'a> {
        self.syntax
    }

    #[verifier::type_invariant]
    pub closed spec fn inv(self) -> bool {
        self.syntax.spec_kind() == SyntaxKind::Directives
    }

    /// The node that is viewed is of the kind of the view.
    pub proof fn lemma_kind(&self)
        requires
            self.inv(),
        ensures
            self.node().spec_kind() == SyntaxKind::Directives,
    {
    }

    /// The view of a node, if the node is of this kind.
    pub fn cast(node: SyntaxNode<'a>) -> (r: Option<Directives<'a>>)
        ensures
            r is Some <==> node.spec_kind() == SyntaxKind::Directives,
            r matches Some(x) ==> x.node() == node,
    {
        if node.kind() == SyntaxKind::Directives {
            Some(Directives { syntax: node })
        } else {
            None
        }
    }

    pub fn syntax(&self) -> (r: SyntaxNode<'a>)
        ensures
            r == self.node(),
    {
        self.syntax
    }

    /// Every Directive among the children, in document order.
    pub fn directives(&self) -> (r: Vec<Directive<'a>>)
        ensures
            r@.len() == self.node().spec_children(SyntaxKind::Directive).len(),
            forall|j: int|
                0 <= j < r@.len() ==> (#[trigger] r@[j]).node() == self.node().spec_children(
                    SyntaxKind::Directive,
                )[j],
    {
        Directive::all_in(self.syntax)
    }
}

impl<'a> Directive<'a> {
    /// The node that is viewed.
    pub closed spec fn node(&self) -> SyntaxNode<'a> {
        self.syntax
    }

    #[verifier::type_invariant]
    pub closed spec fn inv(self) -> bool {
        self.syntax.spec_kind() == SyntaxKind::Directive
    }

    /// The node that is viewed is of the kind of the view.
    pub proof fn lemma_kind(&self)
        requires
            self.inv(),
        ensures
            self.node().spec_kind() == SyntaxKind::Directive,
    {
    }

    /// The view of a node, if the node is of this kind.
    pub fn cast(node: SyntaxNode<'a>) -> (r: Option<Directive<'a>>)
        ensures
            r is Some <==> node.spec_kind() == SyntaxKind::Directive,
            r matches Some(x) ==> x.node() == node,
    {
        if node.kind() == SyntaxKind::Directive {
            Some(Directive { syntax: node })
        } else {
            None
        }
    }

    pub fn syntax(&self) -> (r: SyntaxNode<'a>)
        ensures
            r == self.node(),
    {
        self.syntax
    }

    /// The views of the children of `parent` that are of this kind, in
    /// document order.
    pub fn all_in(parent: SyntaxNode<'a>) -> (r: Vec<Directive<'a>>)
        ensures
            r@.len() == parent.spec_children(SyntaxKind::Directive).len(),
            forall|j: int|
                0 <= j < r@.len() ==> (#[trigger] r@[j]).node() == parent.spec_children(
                    SyntaxKind::Directive,
                )[j],
    {
        let nodes = parent.child_nodes(SyntaxKind::Directive);
        let mut r: Vec<Directive<'a>> = Vec::new();
        let mut j: usize = 0;
        while j < nodes.len()
            invariant
                j <= nodes@.len(),
                r@.len() == j,
                forall|k: int| 0 <= k < j ==> (#[trigger] r@[k]).node() == nodes@[k],
                forall|k: int|
                    0 <= k < nodes@.len() ==> (#[trigger] nodes@[k]).spec_kind()
                        == SyntaxKind::Directive,
            decreases nodes@.len() - j,
        {
            r.push(Directive { syntax: nodes[j] });
            j = j + 1;
        }
        r
    }

    /// The first Name among the children.
    pub fn name(&self) -> (r: Option<Name<'a>>)
        ensures
            r is Some <==> self.node().spec_child(SyntaxKind::Name) is Some,
            r matches Some(x) ==> Some(x.node()) == self.node().spec_child(SyntaxKind::Name),
    {
        match self.syntax.child(SyntaxKind::Name) {
            Some(n) => Some(Name { syntax: n }),
            None => None,
        }
    }

    /// The first Arguments among the children.
    pub fn arguments(&self) -> (r: Option<Arguments<'a>>)
        ensures
            r is Some <==> self.node().spec_child(SyntaxKind::Arguments) is Some,
            r matches Some(x) ==> Some(x.node()) == self.node().spec_child(SyntaxKind::Arguments),
    {
        match self.syntax.child(SyntaxKind::Arguments) {
            Some(n) => Some(Arguments { syntax: n }),
            None => None,
        }
    }
}

impl<'a> Arguments<'a> {
    /// The node that is viewed.
    pub closed spec fn node(&self) -> SyntaxNode<'a> {
        self.syntax
    }

    #[verifier::type_invariant]
    pub closed spec fn inv(self) -> bool {
        self.syntax.spec_kind() == SyntaxKind::Arguments
    }

    /// The node that is viewed is of the kind of the view.
    pub proof fn lemma_kind(&self)
        requires
            self.inv(),
        ensures
            self.node().spec_kind() == SyntaxKind::Arguments,
    {
    }

    /// The view of a node, if the node is of this kind.
    pub fn cast(node: SyntaxNode<'a>) -> (r: Option<Arguments<'a>>)
        ensures
            r is Some <==> node.spec_kind() == SyntaxKind::Arguments,
            r matches Some(x) ==> x.node() == node,
    {
        if node.kind() == SyntaxKind::Arguments {
            Some(Arguments { syntax: node })
        } else {
            None
        }
    }

    pub fn syntax(&self) -> (r: SyntaxNode<'a>)
        ensures
            r == self.node(),
    {
        self.syntax
    }

    /// Every Argument among the children, in document order.
    pub fn arguments(&self) -> (r: Vec<Argument<'a>>)
        ensures
            r@.len() == self.node().spec_children(SyntaxKind::Argument).len(),
            forall|j: int|
                0 <= j < r@.len() ==> (#[trigger] r@[j]).node() == self.node().spec_children(
                    SyntaxKind::Argument,
                )[j],
    {
        Argument::all_in(self.syntax)
    }
}

impl<'a> Argument<'a> {
    /// The node that is viewed.
    pub closed spec fn node(&self) -> SyntaxNode<'a> {
        self.syntax
    }

    #[verifier::type_invariant]
    pub closed spec fn inv(self) -> bool {
        self.syntax.spec_kind() == SyntaxKind::Argument
    }

    /// The node that is viewed is of the kind of the view.
    pub proof fn lemma_kind(&self)
        requires
            self.inv(),
        ensures
            self.node().spec_kind() == SyntaxKind::Argument,
    {
    }

    /// The view of a node, if the node is of this kind.
    pub fn cast(node: SyntaxNode<'a>) -> (r: Option<Argument<'a>>)
        ensures
            r is Some <==> node.spec_kind() == SyntaxKind::Argument,
            r matches Some(x) ==> x.node() == node,
    {
        if node.kind() == SyntaxKind::Argument {
            Some(Argument { syntax: node })
        } else {
            None
        }
    }

    pub fn syntax(&self) -> (r: SyntaxNode<'a>)
        ensures
            r == self.node(),
    {
        self.syntax
    }

    /// The views of the children of `parent` that are of this kind, in
    /// document order.
    pub fn all_in(parent: SyntaxNode<'a>) -> (r: Vec<Argument<'a>>)
        ensures
            r@.len() == parent.spec_children(SyntaxKind::Argument).len(),
            forall|j: int|
                0 <= j < r@.len() ==> (#[trigger] r@[j]).node() == parent.spec_children(
                    SyntaxKind::Argument,
                )[j],
    {
        let nodes = parent.child_nodes(SyntaxKind::Argument);
        let mut r: Vec<Argument<'a>> = Vec::new();
        let mut j: usize = 0;
        while j < nodes.len()
            invariant
                j <= nodes@.len(),
                r@.len() == j,
                forall|k: int| 0 <= k < j ==> (#[trigger] r@[k]).node() == nodes@[k],
                forall|k: int|
                    0 <= k < nodes@.len() ==> (#[trigger] nodes@[k]).spec_kind()
                        == SyntaxKind::Argument,
            decreases nodes@.len() - j,
        {
            r.push(Argument { syntax: nodes[j] });
            j = j + 1;
        }
        r
    }

    /// The first Name among the children.
    pub fn name(&self) -> (r: Option<Name<'a>>)
        ensures
            r is Some <==> self.node().spec_child(SyntaxKind::Name) is Some,
            r matches Some(x) ==> Some(x.node()) == self.node().spec_child(SyntaxKind::Name),
    {
        match self.syntax.child(SyntaxKind::Name) {
            Some(n) => Some(Name { syntax: n }),
            None => None,
        }
    }

    /// The first Value among the children.
    pub fn value(&self) -> (r: Option<Value<'a>>)
        ensures
            r is Some <==> self.node().spec_first_among(KindSet::Value) is Some,
            r matches Some(x) ==> Some(x.node()) == self.node().spec_first_among(
                KindSet::Value,
            ),
    {
        match self.syntax.first_among(KindSet::Value) {
            Some(n) => Value::cast(n),
            None => None,
        }
    }
}

impl<'a> SelectionSet<'a> {
    /// The node that is viewed.
    pub closed spec fn node(&self) -> SyntaxNode<'a> {
        self.syntax
    }

    #[verifier::type_invariant]
    pub closed spec fn inv(self) -> bool {
        self.syntax.spec_kind() == SyntaxKind::SelectionSet
    }

    /// The node that is viewed is of the kind of the view.
    pub proof fn lemma_kind(&self)
        requires
            self.inv(),
        ensures
            self.node().spec_kind() == SyntaxKind::SelectionSet,
    {
    }

    /// The view of a node, if the node is of this kind.
    pub fn cast(node: SyntaxNode<'a>) -> (r: Option<SelectionSet<'a>>)
        ensures
            r is Some <==> node.spec_kind() == SyntaxKind::SelectionSet,
            r matches Some(x) ==> x.node() == node,
    {
        if node.kind() == SyntaxKind::SelectionSet {
            Some(SelectionSet { syntax: node })
        } else {
            None
        }
    }

    pub fn syntax(&self) -> (r: SyntaxNode<'a>)
        ensures
            r == self.node(),
    {
        self.syntax
    }

    /// Every Selection among the children, in document order.
    pub fn selections(&self) -> (r: Vec<Selection<'a>>)
        ensures
            r@.len() == self.node().spec_among(KindSet::Selection).len(),
            forall|j: int|
                0 <= j < r@.len() ==> (#[trigger] r@[j]).node() == self.node().spec_among(
                    KindSet::Selection,
                )[j],
    {
        selection_views(self.syntax)
    }
}

impl<'a> Field<'a> {
    /// The node that is viewed.
    pub closed spec fn node(&self) -> SyntaxNode<'a> {
        self.syntax
    }

    #[verifier::type_invariant]
    pub closed spec fn inv(self) -> bool {
        self.syntax.spec_kind() == SyntaxKind::Field
    }

    /// The node that is viewed is of the kind of the view.
    pub proof fn lemma_kind(&self)
        requires
            self.inv(),
        ensures
            self.node().spec_kind() == SyntaxKind::Field,
    {
    }

    /// The view of a node, if the node is of this kind.
    pub fn cast(node: SyntaxNode<'a>) -> (r: Option<Field<'a>>)
        ensures
            r is Some <==> node.spec_kind() == SyntaxKind::Field,
            r matches Some(x) ==> x.node() == node,
    {
        if node.kind() == SyntaxKind::Field {
            Some(Field { syntax: node })
        } else {
            None
        }
    }

    pub fn syntax(&self) -> (r: SyntaxNode<'a>)
        ensures
            r == self.node(),
    {
        self.syntax
    }

    /// The first Alias among the children.
    pub fn alias(&self) -> (r: Option<Alias<'a>>)
        ensures
            r is Some <==> self.node().spec_child(SyntaxKind::Alias) is Some,
            r matches Some(x) ==> Some(x.node()) == self.node().spec_child(SyntaxKind::Alias),
    {
        match self.syntax.child(SyntaxKind::Alias) {
            Some(n) => Some(Alias { syntax: n }),
            None => None,
        }
    }

    /// The first Name among the children.
    pub fn name(&self) -> (r: Option<Name<'a>>)
        ensures
            r is Some <==> self.node().spec_child(SyntaxKind::Name) is Some,
            r matches Some(x) ==> Some(x.node()) == self.node().spec_child(SyntaxKind::Name),
    {
        match self.syntax.child(SyntaxKind::Name) {
            Some(n) => Some(Name { syntax: n }),
            None => None,
        }
    }

    /// The first Arguments among the children.
    pub fn arguments(&self) -> (r: Option<Arguments<'a>>)
        ensures
            r is Some <==> self.node().spec_child(SyntaxKind::Arguments) is Some,
            r matches Some(x) ==> Some(x.node()) == self.node().spec_child(SyntaxKind::Arguments),
    {
        match self.syntax.child(SyntaxKind::Arguments) {
            Some(n) => Some(Arguments { syntax: n }),
            None => None,
        }
    }

    /// The first Directives among the children.
    pub fn directives(&self) -> (r: Option<Directives<'a>>)
        ensures
            r is Some <==> self.node().spec_child(SyntaxKind::Directives) is Some,
            r matches Some(x) ==> Some(x.node()) == self.node().spec_child(SyntaxKind::Directives),
    {
        match self.syntax.child(SyntaxKind::Directives) {
            Some(n) => Some(Directives { syntax: n }),
            None => None,
        }
    }

    /// The first SelectionSet among the children.
    pub fn selection_set(&self) -> (r: Option<SelectionSet<'a>>)
        ensures
            r is Some <==> self.node().spec_child(SyntaxKind::SelectionSet) is Some,
            r matches Some(x) ==> Some(x.node()) == self.node().spec_child(
                SyntaxKind::SelectionSet,
            ),
    {
        match self.syntax.child(SyntaxKind::SelectionSet) {
            Some(n) => Some(SelectionSet { syntax: n }),
            None => None,
        }
    }
}

impl<'a> Alias<'a> {
    /// The node that is viewed.
    pub closed spec fn node(&self) -> SyntaxNode<'a> {
        self.syntax
    }

    #[verifier::type_invariant]
    pub closed spec fn inv(self) -> bool {
        self.syntax.spec_kind() == SyntaxKind::Alias
    }

    /// The node that is viewed is of the kind of the view.
    pub proof fn lemma_kind(&self)
        requires
            self.inv(),
        ensures
            self.node().spec_kind() == SyntaxKind::Alias,
    {
    }

    /// The view of a node, if the node is of this kind.
    pub fn cast(node: SyntaxNode<'a>) -> (r: Option<Alias<'a>>)
        ensures
            r is Some <==> node.spec_kind() == SyntaxKind::Alias,
            r matches Some(x) ==> x.node() == node,
    {
        if node.kind() == SyntaxKind::Alias {
            Some(Alias { syntax: node })
        } else {
            None
        }
    }

    pub fn syntax(&self) -> (r: SyntaxNode<'a>)
        ensures
            r == self.node(),
    {
        self.syntax
    }

    /// The first Name among the children.
    pub fn name(&self) -> (r: Option<Name<'a>>)
        ensures
            r is Some <==> self.node().spec_child(SyntaxKind::Name) is Some,
            r matches Some(x) ==> Some(x.node()) == self.node().spec_child(SyntaxKind::Name),
    {
        match self.syntax.child(SyntaxKind::Name) {
            Some(n) => Some(Name { syntax: n }),
            None => None,
        }
    }
}

impl<'a> FragmentSpread<'a> {
    /// The node that is viewed.
    pub closed spec fn node(&self) -> SyntaxNode<'a> {
        self.syntax
    }

    #[verifier::type_invariant]
    pub closed spec fn inv(self) -> bool {
        self.syntax.spec_kind() == SyntaxKind::FragmentSpread
    }

    /// The node that is viewed is of the kind of the view.
    pub proof fn lemma_kind(&self)
        requires
            self.inv(),
        ensures
            self.node().spec_kind() == SyntaxKind::FragmentSpread,
    {
    }

    /// The view of a node, if the node is of this kind.
    pub fn cast(node: SyntaxNode<'a>) -> (r: Option<FragmentSpread<'a>>)
        ensures
            r is Some <==> node.spec_kind() == SyntaxKind::FragmentSpread,
            r matches Some(x) ==> x.node() == node,
    {
        if node.kind() == SyntaxKind::FragmentSpread {
            Some(FragmentSpread { syntax: node })
        } else {
            None
        }
    }

    pub fn syntax(&self) -> (r: SyntaxNode<'a>)
        ensures
            r == self.node(),
    {
        self.syntax
    }

    /// The first FragmentName among the children.
    pub fn fragment_name(&self) -> (r: Option<FragmentName<'a>>)
        ensures
            r is Some <==> self.node().spec_child(SyntaxKind::FragmentName) is Some,
            r matches Some(x) ==> Some(x.node()) == self.node().spec_child(
                SyntaxKind::FragmentName,
            ),
    {
        match self.syntax.child(SyntaxKind::FragmentName) {
            Some(n) => Some(FragmentName { syntax: n }),
            None => None,
        }
    }

    /// The first Directives among the children.
    pub fn directives(&self) -> (r: Option<Directives<'a>>)
        ensures
            r is Some <==> self.node().spec_child(SyntaxKind::Directives) is Some,
            r matches Some(x) ==> Some(x.node()) == self.node().spec_child(SyntaxKind::Directives),
    {
        match self.syntax.child(SyntaxKind::Directives) {
            Some(n) => Some(Directives { syntax: n }),
            None => None,
        }
    }
}

impl<'a> InlineFragment<'a> {
    /// The node that is viewed.
    pub closed spec fn node(&self) -> SyntaxNode<'a> {
        self.syntax
    }

    #[verifier::type_invariant]
    pub closed spec fn inv(self) -> bool {
        self.syntax.spec_kind() == SyntaxKind::InlineFragment
    }

    /// The node that is viewed is of the kind of the view.
    pub proof fn lemma_kind(&self)
        requires
            self.inv(),
        ensures
            self.node().spec_kind() == SyntaxKind::InlineFragment,
    {
    }

    /// The view of a node, if the node is of this kind.
    pub fn cast(node: SyntaxNode<'a>) -> (r: Option<InlineFragment<'a>>)
        ensures
            r is Some <==> node.spec_kind() == SyntaxKind::InlineFragment,
            r matches Some(x) ==> x.node() == node,
    {
        if node.kind() == SyntaxKind::InlineFragment {
            Some(InlineFragment { syntax: node })
        } else {
            None
        }
    }

    pub fn syntax(&self) -> (r: SyntaxNode<'a>)
        ensures
            r == self.node(),
    {
        self.syntax
    }

    /// The first TypeCondition among the children.
    pub fn type_condition(&self) -> (r: Option<TypeCondition<'a>>)
        ensures
            r is Some <==> self.node().spec_child(SyntaxKind::TypeCondition) is Some,
            r matches Some(x) ==> Some(x.node()) == self.node().spec_child(
                SyntaxKind::TypeCondition,
            ),
    {
        match self.syntax.child(SyntaxKind::TypeCondition) {
            Some(n) => Some(TypeCondition { syntax: n }),
            None => None,
        }
    }

    /// The first Directives among the children.
    pub fn directives(&self) -> (r: Option<Directives<'a>>)
        ensures
            r is Some <==> self.node().spec_child(SyntaxKind::Directives) is Some,
            r matches Some(x) ==> Some(x.node()) == self.node().spec_child(SyntaxKind::Directives),
    {
        match self.syntax.child(SyntaxKind::Directives) {
            Some(n) => Some(Directives { syntax: n }),
            None => None,
        }
    }

    /// The first SelectionSet among the children.
    pub fn selection_set(&self) -> (r: Option<SelectionSet<'a>>)
        ensures
            r is Some <==> self.node().spec_child(SyntaxKind::SelectionSet) is Some,
            r matches Some(x) ==> Some(x.node()) == self.node().spec_child(
                SyntaxKind::SelectionSet,
            ),
    {
        match self.syntax.child(SyntaxKind::SelectionSet) {
            Some(n) => Some(SelectionSet { syntax: n }),
            None => None,
        }
    }
}

impl<'a> FragmentDefinition<'a> {
    /// The node that is viewed.
    pub closed spec fn node(&self) -> SyntaxNode<'a> {
        self.syntax
    }

    #[verifier::type_invariant]
    pub closed spec fn inv(self) -> bool {
        self.syntax.spec_kind() == SyntaxKind::FragmentDefinition
    }

    /// The node that is viewed is of the kind of the view.
    pub proof fn lemma_kind(&self)
        requires
            self.inv(),
        ensures
            self.node().spec_kind() == SyntaxKind::FragmentDefinition,
    {
    }

    /// The view of a node, if the node is of this kind.
    pub fn cast(node: SyntaxNode<'a>) -> (r: Option<FragmentDefinition<'a>>)
        ensures
            r is Some <==> node.spec_kind() == SyntaxKind::FragmentDefinition,
            r matches Some(x) ==> x.node() == node,
    {
        if node.kind() == SyntaxKind::FragmentDefinition {
            Some(FragmentDefinition { syntax: node })
        } else {
            None
        }
    }

    pub fn syntax(&self) -> (r: SyntaxNode<'a>)
        ensures
            r == self.node(),
    {
        self.syntax
    }

    /// The first FragmentName among the children.
    pub fn fragment_name(&self) -> (r: Option<FragmentName<'a>>)
        ensures
            r is Some <==> self.node().spec_child(SyntaxKind::FragmentName) is Some,
            r matches Some(x) ==> Some(x.node()) == self.node().spec_child(
                SyntaxKind::FragmentName,
            ),
    {
        match self.syntax.child(SyntaxKind::FragmentName) {
            Some(n) => Some(FragmentName { syntax: n }),
            None => None,
        }
    }

    /// The first TypeCondition among the children.
    pub fn type_condition(&self) -> (r: Option<TypeCondition<'a>>)
        ensures
            r is Some <==> self.node().spec_child(SyntaxKind::TypeCondition) is Some,
            r matches Some(x) ==> Some(x.node()) == self.node().spec_child(
                SyntaxKind::TypeCondition,
            ),
    {
        match self.syntax.child(SyntaxKind::TypeCondition) {
            Some(n) => Some(TypeCondition { syntax: n }),
            None => None,
        }
    }

    /// The first Directives among the children.
    pub fn directives(&self) -> (r: Option<Directives<'a>>)
        ensures
            r is Some <==> self.node().spec_child(SyntaxKind::Directives) is Some,
            r matches Some(x) ==> Some(x.node()) == self.node().spec_child(SyntaxKind::Directives),
    {
        match self.syntax.child(SyntaxKind::Directives) {
            Some(n) => Some(Directives { syntax: n }),
            None => None,
        }
    }

    /// The first SelectionSet among the children.
    pub fn selection_set(&self) -> (r: Option<SelectionSet<'a>>)
        ensures
            r is Some <==> self.node().spec_child(SyntaxKind::SelectionSet) is Some,
            r matches Some(x) ==> Some(x.node()) == self.node().spec_child(
                SyntaxKind::SelectionSet,
            ),
    {
        match self.syntax.child(SyntaxKind::SelectionSet) {
            Some(n) => Some(SelectionSet { syntax: n }),
            None => None,
        }
    }
}

impl<'a> FragmentName<'a> {
    /// The node that is viewed.
    pub closed spec fn node(&self) -> SyntaxNode<'a> {
        self.syntax
    }

    #[verifier::type_invariant]
    pub closed spec fn inv(self) -> bool {
        self.syntax.spec_kind() == SyntaxKind::FragmentName
    }

    /// The node that is viewed is of the kind of the view.
    pub proof fn lemma_kind(&self)
        requires
            self.inv(),
        ensures
            self.node().spec_kind() == SyntaxKind::FragmentName,
    {
    }

    /// The view of a node, if the node is of this kind.
    pub fn cast(node: SyntaxNode<'a>) -> (r: Option<FragmentName<'a>>)
        ensures
            r is Some <==> node.spec_kind() == SyntaxKind::FragmentName,
            r matches Some(x) ==> x.node() == node,
    {
        if node.kind() == SyntaxKind::FragmentName {
            Some(FragmentName { syntax: node })
        } else {
            None
        }
    }

    pub fn syntax(&self) -> (r: SyntaxNode<'a>)
        ensures
            r == self.node(),
    {
        self.syntax
    }

    /// The first Name among the children.
    pub fn name(&self) -> (r: Option<Name<'a>>)
        ensures
            r is Some <==> self.node().spec_child(SyntaxKind::Name) is Some,
            r matches Some(x) ==> Some(x.node()) == self.node().spec_child(SyntaxKind::Name),
    {
        match self.syntax.child(SyntaxKind::Name) {
            Some(n) => Some(Name { syntax: n }),
            None => None,
        }
    }
}

impl<'a> TypeCondition<'a> {
    /// The node that is viewed.
    pub closed spec fn node(&self) -> SyntaxNode<'a> {
        self.syntax
    }

    #[verifier::type_invariant]
    pub closed spec fn inv(self) -> bool {
        self.syntax.spec_kind() == SyntaxKind::TypeCondition
    }

    /// The node that is viewed is of the kind of the view.
    pub proof fn lemma_kind(&self)
        requires
            self.inv(),
        ensures
            self.node().spec_kind() == SyntaxKind::TypeCondition,
    {
    }

    /// The view of a node, if the node is of this kind.
    pub fn cast(node: SyntaxNode<'a>) -> (r: Option<TypeCondition<'a>>)
        ensures
            r is Some <==> node.spec_kind() == SyntaxKind::TypeCondition,
            r matches Some(x) ==> x.node() == node,
    {
        if node.kind() == SyntaxKind::TypeCondition {
            Some(TypeCondition { syntax: node })
        } else {
            None
        }
    }

    pub fn syntax(&self) -> (r: SyntaxNode<'a>)
        ensures
            r == self.node(),
    {
        self.syntax
    }

    /// The first NamedType among the children.
    pub fn named_type(&self) -> (r: Option<NamedType<'a>>)
        ensures
            r is Some <==> self.node().spec_child(SyntaxKind::NamedType) is Some,
            r matches Some(x) ==> Some(x.node()) == self.node().spec_child(SyntaxKind::NamedType),
    {
        match self.syntax.child(SyntaxKind::NamedType) {
            Some(n) => Some(NamedType { syntax: n }),
            None => None,
        }
    }
}

impl<'a> NamedType<'a> {
    /// The node that is viewed.
    pub closed spec fn node(&self) -> SyntaxNode<'a> {
        self.syntax
    }

    #[verifier::type_invariant]
    pub closed spec fn inv(self) -> bool {
        self.syntax.spec_kind() == SyntaxKind::NamedType
    }

    /// The node that is viewed is of the kind of the view.
    pub proof fn lemma_kind(&self)
        requires
            self.inv(),
        ensures
            self.node().spec_kind() == SyntaxKind::NamedType,
    {
    }

    /// The view of a node, if the node is of this kind.
    pub fn cast(node: SyntaxNode<'a>) -> (r: Option<NamedType<'a>>)
        ensures
            r is Some <==> node.spec_kind() == SyntaxKind::NamedType,
            r matches Some(x) ==> x.node() == node,
    {
        if node.kind() == SyntaxKind::NamedType {
            Some(NamedType { syntax: node })
        } else {
            None
        }
    }

    pub fn syntax(&self) -> (r: SyntaxNode<'a>)
        ensures
            r == self.node(),
    {
        self.syntax
    }

    /// The views of the children of `parent` that are of this kind, in
    /// document order.
    pub fn all_in(parent: SyntaxNode<'a>) -> (r: Vec<NamedType<'a>>)
        ensures
            r@.len() == parent.spec_children(SyntaxKind::NamedType).len(),
            forall|j: int|
                0 <= j < r@.len() ==> (#[trigger] r@[j]).node() == parent.spec_children(
                    SyntaxKind::NamedType,
                )[j],
    {
        let nodes = parent.child_nodes(SyntaxKind::NamedType);
        let mut r: Vec<NamedType<'a>> = Vec::new();
        let mut j: usize = 0;
        while j < nodes.len()
            invariant
                j <= nodes@.len(),
                r@.len() == j,
                forall|k: int| 0 <= k < j ==> (#[trigger] r@[k]).node() == nodes@[k],
                forall|k: int|
                    0 <= k < nodes@.len() ==> (#[trigger] nodes@[k]).spec_kind()
                        == SyntaxKind::NamedType,
            decreases nodes@.len() - j,
        {
            r.push(NamedType { syntax: nodes[j] });
            j = j + 1;
        }
        r
    }

    /// The first Name among the children.
    pub fn name(&self) -> (r: Option<Name<'a>>)
        ensures
            r is Some <==> self.node().spec_child(SyntaxKind::Name) is Some,
            r matches Some(x) ==> Some(x.node()) == self.node().spec_child(SyntaxKind::Name),
    {
        match self.syntax.child(SyntaxKind::Name) {
            Some(n) => Some(Name { syntax: n }),
            None => None,
        }
    }
}

impl<'a> ListType<'a> {
    /// The node that is viewed.
    pub closed spec fn node(&self) -> SyntaxNode<'a> {
        self.syntax
    }

    #[verifier::type_invariant]
    pub closed spec fn inv(self) -> bool {
        self.syntax.spec_kind() == SyntaxKind::ListType
    }

    /// The node that is viewed is of the kind of the view.
    pub proof fn lemma_kind(&self)
        requires
            self.inv(),
        ensures
            self.node().spec_kind() == SyntaxKind::ListType,
    {
    }

    /// The view of a node, if the node is of this kind.
    pub fn cast(node: SyntaxNode<'a>) -> (r: Option<ListType<'a>>)
        ensures
            r is Some <==> node.spec_kind() == SyntaxKind::ListType,
            r matches Some(x) ==> x.node() == node,
    {
        if node.kind() == SyntaxKind::ListType {
            Some(ListType { syntax: node })
        } else {
            None
        }
    }

    pub fn syntax(&self) -> (r: SyntaxNode<'a>)
        ensures
            r == self.node(),
    {
        self.syntax
    }

    /// The first Type among the children.
    pub fn ty(&self) -> (r: Option<Type<'a>>)
        ensures
            r is Some <==> self.node().spec_first_among(KindSet::Type) is Some,
            r matches Some(x) ==> Some(x.node()) == self.node().spec_first_among(
                KindSet::Type,
            ),
    {
        match self.syntax.first_among(KindSet::Type) {
            Some(n) => Type::cast(n),
            None => None,
        }
    }

    /// The first token of kind `Bang` among the children.
    pub fn bang_token(&self) -> (r: Option<SyntaxToken<'a>>)
        ensures
            r == self.node().spec_token(SyntaxKind::Bang),
    {
        self.syntax.token(SyntaxKind::Bang)
    }
}

impl<'a> NonNullType<'a> {
    /// The node that is viewed.
    pub closed spec fn node(&self) -> SyntaxNode<'a> {
        self.syntax
    }

    #[verifier::type_invariant]
    pub closed spec fn inv(self) -> bool {
        self.syntax.spec_kind() == SyntaxKind::NonNullType
    }

    /// The node that is viewed is of the kind of the view.
    pub proof fn lemma_kind(&self)
        requires
            self.inv(),
        ensures
            self.node().spec_kind() == SyntaxKind::NonNullType,
    {
    }

    /// The view of a node, if the node is of this kind.
    pub fn cast(node: SyntaxNode<'a>) -> (r: Option<NonNullType<'a>>)
        ensures
            r is Some <==> node.spec_kind() == SyntaxKind::NonNullType,
            r matches Some(x) ==> x.node() == node,
    {
        if node.kind() == SyntaxKind::NonNullType {
            Some(NonNullType { syntax: node })
        } else {
            None
        }
    }

    pub fn syntax(&self) -> (r: SyntaxNode<'a>)
        ensures
            r == self.node(),
    {
        self.syntax
    }

    /// The first NamedType among the children.
    pub fn named_type(&self) -> (r: Option<NamedType<'a>>)
        ensures
            r is Some <==> self.node().spec_child(SyntaxKind::NamedType) is Some,
            r matches Some(x) ==> Some(x.node()) == self.node().spec_child(SyntaxKind::NamedType),
    {
        match self.syntax.child(SyntaxKind::NamedType) {
            Some(n) => Some(NamedType { syntax: n }),
            None => None,
        }
    }
}

impl<'a> StringValue<'a> {
    /// The node that is viewed.
    pub closed spec fn node(&self) -> SyntaxNode<'a> {
        self.syntax
    }

    #[verifier::type_invariant]
    pub closed spec fn inv(self) -> bool {
        self.syntax.spec_kind() == SyntaxKind::StringValue
    }

    /// The node that is viewed is of the kind of the view.
    pub proof fn lemma_kind(&self)
        requires
            self.inv(),
        ensures
            self.node().spec_kind() == SyntaxKind::StringValue,
    {
    }

    /// The view of a node, if the node is of this kind.
    pub fn cast(node: SyntaxNode<'a>) -> (r: Option<StringValue<'a>>)
        ensures
            r is Some <==> node.spec_kind() == SyntaxKind::StringValue,
            r matches Some(x) ==> x.node() == node,
    {
        if node.kind() == SyntaxKind::StringValue {
            Some(StringValue { syntax: node })
        } else {
            None
        }
    }

    pub fn syntax(&self) -> (r: SyntaxNode<'a>)
        ensures
            r == self.node(),
    {
        self.syntax
    }

    /// The first token of kind `String` among the children.
    pub fn string_token(&self) -> (r: Option<SyntaxToken<'a>>)
        ensures
            r == self.node().spec_token(SyntaxKind::String),
    {
        self.syntax.token(SyntaxKind::String)
    }

    /// The text of the first token of kind `String` among the children; the
    /// empty text where there is none.
    pub fn text(&self) -> (r: &'a str)
        ensures
            r@ == match self.node().spec_token(SyntaxKind::String) {
                Some(t) => t.spec_text(),
                None => Seq::empty(),
            },
    {
        match self.syntax.token(SyntaxKind::String) {
            Some(t) => t.text(),
            None => {
                proof {
                    reveal_strlit("");
                }
                ""
            },
        }
    }
}

impl<'a> IntValue<'a> {
    /// The node that is viewed.
    pub closed spec fn node(&self) -> SyntaxNode<'a> {
        self.syntax
    }

    #[verifier::type_invariant]
    pub closed spec fn inv(self) -> bool {
        self.syntax.spec_kind() == SyntaxKind::IntValue
    }

    /// The node that is viewed is of the kind of the view.
    pub proof fn lemma_kind(&self)
        requires
            self.inv(),
        ensures
            self.node().spec_kind() == SyntaxKind::IntValue,
    {
    }

    /// The view of a node, if the node is of this kind.
    pub fn cast(node: SyntaxNode<'a>) -> (r: Option<IntValue<'a>>)
        ensures
            r is Some <==> node.spec_kind() == SyntaxKind::IntValue,
            r matches Some(x) ==> x.node() == node,
    {
        if node.kind() == SyntaxKind::IntValue {
            Some(IntValue { syntax: node })
        } else {
            None
        }
    }

    pub fn syntax(&self) -> (r: SyntaxNode<'a>)
        ensures
            r == self.node(),
    {
        self.syntax
    }

    /// The first token of kind `Int` among the children.
    pub fn int_token(&self) -> (r: Option<SyntaxToken<'a>>)
        ensures
            r == self.node().spec_token(SyntaxKind::Int),
    {
        self.syntax.token(SyntaxKind::Int)
    }

    /// The text of the first token of kind `Int` among the children; the
    /// empty text where there is none.
    pub fn text(&self) -> (r: &'a str)
        ensures
            r@ == match self.node().spec_token(SyntaxKind::Int) {
                Some(t) => t.spec_text(),
                None => Seq::empty(),
            },
    {
        match self.syntax.token(SyntaxKind::Int) {
            Some(t) => t.text(),
            None => {
                proof {
                    reveal_strlit("");
                }
                ""
            },
        }
    }
}

impl<'a> FloatValue<'a> {
    /// The node that is viewed.
    pub closed spec fn node(&self) -> SyntaxNode<'a> {
        self.syntax
    }

    #[verifier::type_invariant]
    pub closed spec fn inv(self) -> bool {
        self.syntax.spec_kind() == SyntaxKind::FloatValue
    }

    /// The node that is viewed is of the kind of the view.
    pub proof fn lemma_kind(&self)
        requires
            self.inv(),
        ensures
            self.node().spec_kind() == SyntaxKind::FloatValue,
    {
    }

    /// The view of a node, if the node is of this kind.
    pub fn cast(node: SyntaxNode<'a>) -> (r: Option<FloatValue<'a>>)
        ensures
            r is Some <==> node.spec_kind() == SyntaxKind::FloatValue,
            r matches Some(x) ==> x.node() == node,
    {
        if node.kind() == SyntaxKind::FloatValue {
            Some(FloatValue { syntax: node })
        } else {
            None
        }
    }

    pub fn syntax(&self) -> (r: SyntaxNode<'a>)
        ensures
            r == self.node(),
    {
        self.syntax
    }

    /// The first token of kind `Float` among the children.
    pub fn float_token(&self) -> (r: Option<SyntaxToken<'a>>)
        ensures
            r == self.node().spec_token(SyntaxKind::Float),
    {
        self.syntax.token(SyntaxKind::Float)
    }

    /// The text of the first token of kind `Float` among the children; the
    /// empty text where there is none.
    pub fn text(&self) -> (r: &'a str)
        ensures
            r@ == match self.node().spec_token(SyntaxKind::Float) {
                Some(t) => t.spec_text(),
                None => Seq::empty(),
            },
    {
        match self.syntax.token(SyntaxKind::Float) {
            Some(t) => t.text(),
            None => {
                proof {
                    reveal_strlit("");
                }
                ""
            },
        }
    }
}

impl<'a> BooleanValue<'a> {
    /// The node that is viewed.
    pub closed spec fn node(&self) -> SyntaxNode<'a> {
        self.syntax
    }

    #[verifier::type_invariant]
    pub closed spec fn inv(self) -> bool {
        self.syntax.spec_kind() == SyntaxKind::BooleanValue
    }

    /// The node that is viewed is of the kind of the view.
    pub proof fn lemma_kind(&self)
        requires
            self.inv(),
        ensures
            self.node().spec_kind() == SyntaxKind::BooleanValue,
    {
    }

    /// The view of a node, if the node is of this kind.
    pub fn cast(node: SyntaxNode<'a>) -> (r: Option<BooleanValue<'a>>)
        ensures
            r is Some <==> node.spec_kind() == SyntaxKind::BooleanValue,
            r matches Some(x) ==> x.node() == node,
    {
        if node.kind() == SyntaxKind::BooleanValue {
            Some(BooleanValue { syntax: node })
        } else {
            None
        }
    }

    pub fn syntax(&self) -> (r: SyntaxNode<'a>)
        ensures
            r == self.node(),
    {
        self.syntax
    }

    /// The first token of kind `TrueKw` among the children.
    pub fn true_token(&self) -> (r: Option<SyntaxToken<'a>>)
        ensures
            r == self.node().spec_token(SyntaxKind::TrueKw),
    {
        self.syntax.token(SyntaxKind::TrueKw)
    }

    /// The first token of kind `FalseKw` among the children.
    pub fn false_token(&self) -> (r: Option<SyntaxToken<'a>>)
        ensures
            r == self.node().spec_token(SyntaxKind::FalseKw),
    {
        self.syntax.token(SyntaxKind::FalseKw)
    }
}

impl<'a> NullValue<'a> {
    /// The node that is viewed.
    pub closed spec fn node(&self) -> SyntaxNode<'a> {
        self.syntax
    }

    #[verifier::type_invariant]
    pub closed spec fn inv(self) -> bool {
        self.syntax.spec_kind() == SyntaxKind::NullValue
    }

    /// The node that is viewed is of the kind of the view.
    pub proof fn lemma_kind(&self)
        requires
            self.inv(),
        ensures
            self.node().spec_kind() == SyntaxKind::NullValue,
    {
    }

    /// The view of a node, if the node is of this kind.
    pub fn cast(node: SyntaxNode<'a>) -> (r: Option<NullValue<'a>>)
        ensures
            r is Some <==> node.spec_kind() == SyntaxKind::NullValue,
            r matches Some(x) ==> x.node() == node,
    {
        if node.kind() == SyntaxKind::NullValue {
            Some(NullValue { syntax: node })
        } else {
            None
        }
    }

    pub fn syntax(&self) -> (r: SyntaxNode<'a>)
        ensures
            r == self.node(),
    {
        self.syntax
    }

    /// The first token of kind `NullKw` among the children.
    pub fn null_token(&self) -> (r: Option<SyntaxToken<'a>>)
        ensures
            r == self.node().spec_token(SyntaxKind::NullKw),
    {
        self.syntax.token(SyntaxKind::NullKw)
    }
}

impl<'a> EnumValue<'a> {
    /// The node that is viewed.
    pub closed spec fn node(&self) -> SyntaxNode<'a> {
        self.syntax
    }

    #[verifier::type_invariant]
    pub closed spec fn inv(self) -> bool {
        self.syntax.spec_kind() == SyntaxKind::EnumValue
    }

    /// The node that is viewed is of the kind of the view.
    pub proof fn lemma_kind(&self)
        requires
            self.inv(),
        ensures
            self.node().spec_kind() == SyntaxKind::EnumValue,
    {
    }

    /// The view of a node, if the node is of this kind.
    pub fn cast(node: SyntaxNode<'a>) -> (r: Option<EnumValue<'a>>)
        ensures
            r is Some <==> node.spec_kind() == SyntaxKind::EnumValue,
            r matches Some(x) ==> x.node() == node,
    {
        if node.kind() == SyntaxKind::EnumValue {
            Some(EnumValue { syntax: node })
        } else {
            None
        }
    }

    pub fn syntax(&self) -> (r: SyntaxNode<'a>)
        ensures
            r == self.node(),
    {
        self.syntax
    }

    /// The first Name among the children.
    pub fn name(&self) -> (r: Option<Name<'a>>)
        ensures
            r is Some <==> self.node().spec_child(SyntaxKind::Name) is Some,
            r matches Some(x) ==> Some(x.node()) == self.node().spec_child(SyntaxKind::Name),
    {
        match self.syntax.child(SyntaxKind::Name) {
            Some(n) => Some(Name { syntax: n }),
            None => None,
        }
    }
}

impl<'a> ListValue<'a> {
    /// The node that is viewed.
    pub closed spec fn node(&self) -> SyntaxNode<'a> {
        self.syntax
    }

    #[verifier::type_invariant]
    pub closed spec fn inv(self) -> bool {
        self.syntax.spec_kind() == SyntaxKind::ListValue
    }

    /// The node that is viewed is of the kind of the view.
    pub proof fn lemma_kind(&self)
        requires
            self.inv(),
        ensures
            self.node().spec_kind() == SyntaxKind::ListValue,
    {
    }

    /// The view of a node, if the node is of this kind.
    pub fn cast(node: SyntaxNode<'a>) -> (r: Option<ListValue<'a>>)
        ensures
            r is Some <==> node.spec_kind() == SyntaxKind::ListValue,
            r matches Some(x) ==> x.node() == node,
    {
        if node.kind() == SyntaxKind::ListValue {
            Some(ListValue { syntax: node })
        } else {
            None
        }
    }

    pub fn syntax(&self) -> (r: SyntaxNode<'a>)
        ensures
            r == self.node(),
    {
        self.syntax
    }

    /// Every Value among the children, in document order.
    pub fn values(&self) -> (r: Vec<Value<'a>>)
        ensures
            r@.len() == self.node().spec_among(KindSet::Value).len(),
            forall|j: int|
                0 <= j < r@.len() ==> (#[trigger] r@[j]).node() == self.node().spec_among(
                    KindSet::Value,
                )[j],
    {
        value_views(self.syntax)
    }
}

impl<'a> ObjectValue<'a> {
    /// The node that is viewed.
    pub closed spec fn node(&self) -> SyntaxNode<'a> {
        self.syntax
    }

    #[verifier::type_invariant]
    pub closed spec fn inv(self) -> bool {
        self.syntax.spec_kind() == SyntaxKind::ObjectValue
    }

    /// The node that is viewed is of the kind of the view.
    pub proof fn lemma_kind(&self)
        requires
            self.inv(),
        ensures
            self.node().spec_kind() == SyntaxKind::ObjectValue,
    {
    }

    /// The view of a node, if the node is of this kind.
    pub fn cast(node: SyntaxNode<'a>) -> (r: Option<ObjectValue<'a>>)
        ensures
            r is Some <==> node.spec_kind() == SyntaxKind::ObjectValue,
            r matches Some(x) ==> x.node() == node,
    {
        if node.kind() == SyntaxKind::ObjectValue {
            Some(ObjectValue { syntax: node })
        } else {
            None
        }
    }

    pub fn syntax(&self) -> (r: SyntaxNode<'a>)
        ensures
            r == self.node(),
    {
        self.syntax
    }

    /// Every ObjectField among the children, in document order.
    pub fn object_fields(&self) -> (r: Vec<ObjectField<'a>>)
        ensures
            r@.len() == self.node().spec_children(SyntaxKind::ObjectField).len(),
            forall|j: int|
                0 <= j < r@.len() ==> (#[trigger] r@[j]).node() == self.node().spec_children(
                    SyntaxKind::ObjectField,
                )[j],
    {
        ObjectField::all_in(self.syntax)
    }
}

impl<'a> ObjectField<'a> {
    /// The node that is viewed.
    pub closed spec fn node(&self) -> SyntaxNode<'a> {
        self.syntax
    }

    #[verifier::type_invariant]
    pub closed spec fn inv(self) -> bool {
        self.syntax.spec_kind() == SyntaxKind::ObjectField
    }

    /// The node that is viewed is of the kind of the view.
    pub proof fn lemma_kind(&self)
        requires
            self.inv(),
        ensures
            self.node().spec_kind() == SyntaxKind::ObjectField,
    {
    }

    /// The view of a node, if the node is of this kind.
    pub fn cast(node: SyntaxNode<'a>) -> (r: Option<ObjectField<'a>>)
        ensures
            r is Some <==> node.spec_kind() == SyntaxKind::ObjectField,
            r matches Some(x) ==> x.node() == node,
    {
        if node.kind() == SyntaxKind::ObjectField {
            Some(ObjectField { syntax: node })
        } else {
            None
        }
    }

    pub fn syntax(&self) -> (r: SyntaxNode<'a>)
        ensures
            r == self.node(),
    {
        self.syntax
    }

    /// The views of the children of `parent` that are of this kind, in
    /// document order.
    pub fn all_in(parent: SyntaxNode<'a>) -> (r: Vec<ObjectField<'a>>)
        ensures
            r@.len() == parent.spec_children(SyntaxKind::ObjectField).len(),
            forall|j: int|
                0 <= j < r@.len() ==> (#[trigger] r@[j]).node() == parent.spec_children(
                    SyntaxKind::ObjectField,
                )[j],
    {
        let nodes = parent.child_nodes(SyntaxKind::ObjectField);
        let mut r: Vec<ObjectField<'a>> = Vec::new();
        let mut j: usize = 0;
        while j < nodes.len()
            invariant
                j <= nodes@.len(),
                r@.len() == j,
                forall|k: int| 0 <= k < j ==> (#[trigger] r@[k]).node() == nodes@[k],
                forall|k: int|
                    0 <= k < nodes@.len() ==> (#[trigger] nodes@[k]).spec_kind()
                        == SyntaxKind::ObjectField,
            decreases nodes@.len() - j,
        {
            r.push(ObjectField { syntax: nodes[j] });
            j = j + 1;
        }
        r
    }

    /// The first Name among the children.
    pub fn name(&self) -> (r: Option<Name<'a>>)
        ensures
            r is Some <==> self.node().spec_child(SyntaxKind::Name) is Some,
            r matches Some(x) ==> Some(x.node()) == self.node().spec_child(SyntaxKind::Name),
    {
        match self.syntax.child(SyntaxKind::Name) {
            Some(n) => Some(Name { syntax: n }),
            None => None,
        }
    }

    /// The first Value among the children.
    pub fn value(&self) -> (r: Option<Value<'a>>)
        ensures
            r is Some <==> self.node().spec_first_among(KindSet::Value) is Some,
            r matches Some(x) ==> Some(x.node()) == self.node().spec_first_among(
                KindSet::Value,
            ),
    {
        match self.syntax.first_among(KindSet::Value) {
            Some(n) => Value::cast(n),
            None => None,
        }
    }
}

impl<'a> Description<'a> {
    /// The node that is viewed.
    pub closed spec fn node(&self) -> SyntaxNode<'a> {
        self.syntax
    }

    #[verifier::type_invariant]
    pub closed spec fn inv(self) -> bool {
        self.syntax.spec_kind() == SyntaxKind::Description
    }

    /// The node that is viewed is of the kind of the view.
    pub proof fn lemma_kind(&self)
        requires
            self.inv(),
        ensures
            self.node().spec_kind() == SyntaxKind::Description,
    {
    }

    /// The view of a node, if the node is of this kind.
    pub fn cast(node: SyntaxNode<'a>) -> (r: Option<Description<'a>>)
        ensures
            r is Some <==> node.spec_kind() == SyntaxKind::Description,
            r matches Some(x) ==> x.node() == node,
    {
        if node.kind() == SyntaxKind::Description {
            Some(Description { syntax: node })
        } else {
            None
        }
    }

    pub fn syntax(&self) -> (r: SyntaxNode<'a>)
        ensures
            r == self.node(),
    {
        self.syntax
    }

    /// The first token of kind `String` among the children.
    pub fn string_token(&self) -> (r: Option<SyntaxToken<'a>>)
        ensures
            r == self.node().spec_token(SyntaxKind::String),
    {
        self.syntax.token(SyntaxKind::String)
    }

    /// The text of the first token of kind `String` among the children; the
    /// empty text where there is none.
    pub fn text(&self) -> (r: &'a str)
        ensures
            r@ == match self.node().spec_token(SyntaxKind::String) {
                Some(t) => t.spec_text(),
                None => Seq::empty(),
            },
    {
        match self.syntax.token(SyntaxKind::String) {
            Some(t) => t.text(),
            None => {
                proof {
                    reveal_strlit("");
                }
                ""
            },
        }
    }
}

impl<'a> SchemaDefinition<'a> {
    /// The node that is viewed.
    pub closed spec fn node(&self) -> SyntaxNode<'a> {
        self.syntax
    }

    #[verifier::type_invariant]
    pub closed spec fn inv(self) -> bool {
        self.syntax.spec_kind() == SyntaxKind::SchemaDefinition
    }

    /// The node that is viewed is of the kind of the view.
    pub proof fn lemma_kind(&self)
        requires
            self.inv(),
        ensures
            self.node().spec_kind() == SyntaxKind::SchemaDefinition,
    {
    }

    /// The view of a node, if the node is of this kind.
    pub fn cast(node: SyntaxNode<'a>) -> (r: Option<SchemaDefinition<'a>>)
        ensures
            r is Some <==> node.spec_kind() == SyntaxKind::SchemaDefinition,
            r matches Some(x) ==> x.node() == node,
    {
        if node.kind() == SyntaxKind::SchemaDefinition {
            Some(SchemaDefinition { syntax: node })
        } else {
            None
        }
    }

    pub fn syntax(&self) -> (r: SyntaxNode<'a>)
        ensures
            r == self.node(),
    {
        self.syntax
    }

    /// The first Description among the children.
    pub fn description(&self) -> (r: Option<Description<'a>>)
        ensures
            r is Some <==> self.node().spec_child(SyntaxKind::Description) is Some,
            r matches Some(x) ==> Some(x.node()) == self.node().spec_child(SyntaxKind::Description),
    {
        match self.syntax.child(SyntaxKind::Description) {
            Some(n) => Some(Description { syntax: n }),
            None => None,
        }
    }

    /// The first Directives among the children.
    pub fn directives(&self) -> (r: Option<Directives<'a>>)
        ensures
            r is Some <==> self.node().spec_child(SyntaxKind::Directives) is Some,
            r matches Some(x) ==> Some(x.node()) == self.node().spec_child(SyntaxKind::Directives),
    {
        match self.syntax.child(SyntaxKind::Directives) {
            Some(n) => Some(Directives { syntax: n }),
            None => None,
        }
    }

    /// Every RootOperationTypeDefinition among the children, in document order.
    pub fn root_operation_type_definitions(&self) -> (r: Vec<RootOperationTypeDefinition<'a>>)
        ensures
            r@.len() == self.node().spec_children(SyntaxKind::RootOperationTypeDefinition).len(),
            forall|j: int|
                0 <= j < r@.len() ==> (#[trigger] r@[j]).node() == self.node().spec_children(
                    SyntaxKind::RootOperationTypeDefinition,
                )[j],
    {
        RootOperationTypeDefinition::all_in(self.syntax)
    }
}

impl<'a> RootOperationTypeDefinition<'a> {
    /// The node that is viewed.
    pub closed spec fn node(&self) -> SyntaxNode<'a> {
        self.syntax
    }

    #[verifier::type_invariant]
    pub closed spec fn inv(self) -> bool {
        self.syntax.spec_kind() == SyntaxKind::RootOperationTypeDefinition
    }

    /// The node that is viewed is of the kind of the view.
    pub proof fn lemma_kind(&self)
        requires
            self.inv(),
        ensures
            self.node().spec_kind() == SyntaxKind::RootOperationTypeDefinition,
    {
    }

    /// The view of a node, if the node is of this kind.
    pub fn cast(node: SyntaxNode<'a>) -> (r: Option<RootOperationTypeDefinition<'a>>)
        ensures
            r is Some <==> node.spec_kind() == SyntaxKind::RootOperationTypeDefinition,
            r matches Some(x) ==> x.node() == node,
    {
        if node.kind() == SyntaxKind::RootOperationTypeDefinition {
            Some(RootOperationTypeDefinition { syntax: node })
        } else {
            None
        }
    }

    pub fn syntax(&self) -> (r: SyntaxNode<'a>)
        ensures
            r == self.node(),
    {
        self.syntax
    }

    /// The views of the children of `parent` that are of this kind, in
    /// document order.
    pub fn all_in(parent: SyntaxNode<'a>) -> (r: Vec<RootOperationTypeDefinition<'a>>)
        ensures
            r@.len() == parent.spec_children(SyntaxKind::RootOperationTypeDefinition).len(),
            forall|j: int|
                0 <= j < r@.len() ==> (#[trigger] r@[j]).node() == parent.spec_children(
                    SyntaxKind::RootOperationTypeDefinition,
                )[j],
    {
        let nodes = parent.child_nodes(SyntaxKind::RootOperationTypeDefinition);
        let mut r: Vec<RootOperationTypeDefinition<'a>> = Vec::new();
        let mut j: usize = 0;
        while j < nodes.len()
            invariant
                j <= nodes@.len(),
                r@.len() == j,
                forall|k: int| 0 <= k < j ==> (#[trigger] r@[k]).node() == nodes@[k],
                forall|k: int|
                    0 <= k < nodes@.len() ==> (#[trigger] nodes@[k]).spec_kind()
                        == SyntaxKind::RootOperationTypeDefinition,
            decreases nodes@.len() - j,
        {
            r.push(RootOperationTypeDefinition { syntax: nodes[j] });
            j = j + 1;
        }
        r
    }

    /// The first OperationType among the children.
    pub fn operation_type(&self) -> (r: Option<OperationType<'a>>)
        ensures
            r is Some <==> self.node().spec_child(SyntaxKind::OperationType) is Some,
            r matches Some(x) ==> Some(x.node()) == self.node().spec_child(
                SyntaxKind::OperationType,
            ),
    {
        match self.syntax.child(SyntaxKind::OperationType) {
            Some(n) => Some(OperationType { syntax: n }),
            None => None,
        }
    }

    /// The first NamedType among the children.
    pub fn named_type(&self) -> (r: Option<NamedType<'a>>)
        ensures
            r is Some <==> self.node().spec_child(SyntaxKind::NamedType) is Some,
            r matches Some(x) ==> Some(x.node()) == self.node().spec_child(SyntaxKind::NamedType),
    {
        match self.syntax.child(SyntaxKind::NamedType) {
            Some(n) => Some(NamedType { syntax: n }),
            None => None,
        }
    }
}

impl<'a> ScalarTypeDefinition<'a> {
    /// The node that is viewed.
    pub closed spec fn node(&self) -> SyntaxNode<'a> {
        self.syntax
    }

    #[verifier::type_invariant]
    pub closed spec fn inv(self) -> bool {
        self.syntax.spec_kind() == SyntaxKind::ScalarTypeDefinition
    }

    /// The node that is viewed is of the kind of the view.
    pub proof fn lemma_kind(&self)
        requires
            self.inv(),
        ensures
            self.node().spec_kind() == SyntaxKind::ScalarTypeDefinition,
    {
    }

    /// The view of a node, if the node is of this kind.
    pub fn cast(node: SyntaxNode<'a>) -> (r: Option<ScalarTypeDefinition<'a>>)
        ensures
            r is Some <==> node.spec_kind() == SyntaxKind::ScalarTypeDefinition,
            r matches Some(x) ==> x.node() == node,
    {
        if node.kind() == SyntaxKind::ScalarTypeDefinition {
            Some(ScalarTypeDefinition { syntax: node })
        } else {
            None
        }
    }

    pub fn syntax(&self) -> (r: SyntaxNode<'a>)
        ensures
            r == self.node(),
    {
        self.syntax
    }

    /// The first Description among the children.
    pub fn description(&self) -> (r: Option<Description<'a>>)
        ensures
            r is Some <==> self.node().spec_child(SyntaxKind::Description) is Some,
            r matches Some(x) ==> Some(x.node()) == self.node().spec_child(SyntaxKind::Description),
    {
        match self.syntax.child(SyntaxKind::Description) {
            Some(n) => Some(Description { syntax: n }),
            None => None,
        }
    }

    /// The first Name among the children.
    pub fn name(&self) -> (r: Option<Name<'a>>)
        ensures
            r is Some <==> self.node().spec_child(SyntaxKind::Name) is Some,
            r matches Some(x) ==> Some(x.node()) == self.node().spec_child(SyntaxKind::Name),
    {
        match self.syntax.child(SyntaxKind::Name) {
            Some(n) => Some(Name { syntax: n }),
            None => None,
        }
    }

    /// The first Directives among the children.
    pub fn directives(&self) -> (r: Option<Directives<'a>>)
        ensures
            r is Some <==> self.node().spec_child(SyntaxKind::Directives) is Some,
            r matches Some(x) ==> Some(x.node()) == self.node().spec_child(SyntaxKind::Directives),
    {
        match self.syntax.child(SyntaxKind::Directives) {
            Some(n) => Some(Directives { syntax: n }),
            None => None,
        }
    }
}

impl<'a> ObjectTypeDefinition<'a> {
    /// The node that is viewed.
    pub closed spec fn node(&self) -> SyntaxNode<'a> {
        self.syntax
    }

    #[verifier::type_invariant]
    pub closed spec fn inv(self) -> bool {
        self.syntax.spec_kind() == SyntaxKind::ObjectTypeDefinition
    }

    /// The node that is viewed is of the kind of the view.
    pub proof fn lemma_kind(&self)
        requires
            self.inv(),
        ensures
            self.node().spec_kind() == SyntaxKind::ObjectTypeDefinition,
    {
    }

    /// The view of a node, if the node is of this kind.
    pub fn cast(node: SyntaxNode<'a>) -> (r: Option<ObjectTypeDefinition<'a>>)
        ensures
            r is Some <==> node.spec_kind() == SyntaxKind::ObjectTypeDefinition,
            r matches Some(x) ==> x.node() == node,
    {
        if node.kind() == SyntaxKind::ObjectTypeDefinition {
            Some(ObjectTypeDefinition { syntax: node })
        } else {
            None
        }
    }

    pub fn syntax(&self) -> (r: SyntaxNode<'a>)
        ensures
            r == self.node(),
    {
        self.syntax
    }

    /// The first Description among the children.
    pub fn description(&self) -> (r: Option<Description<'a>>)
        ensures
            r is Some <==> self.node().spec_child(SyntaxKind::Description) is Some,
            r matches Some(x) ==> Some(x.node()) == self.node().spec_child(SyntaxKind::Description),
    {
        match self.syntax.child(SyntaxKind::Description) {
            Some(n) => Some(Description { syntax: n }),
            None => None,
        }
    }

    /// The first Name among the children.
    pub fn name(&self) -> (r: Option<Name<'a>>)
        ensures
            r is Some <==> self.node().spec_child(SyntaxKind::Name) is Some,
            r matches Some(x) ==> Some(x.node()) == self.node().spec_child(SyntaxKind::Name),
    {
        match self.syntax.child(SyntaxKind::Name) {
            Some(n) => Some(Name { syntax: n }),
            None => None,
        }
    }

    /// The first ImplementsInterfaces among the children.
    pub fn implements_interfaces(&self) -> (r: Option<ImplementsInterfaces<'a>>)
        ensures
            r is Some <==> self.node().spec_child(SyntaxKind::ImplementsInterfaces) is Some,
            r matches Some(x) ==> Some(x.node()) == self.node().spec_child(
                SyntaxKind::ImplementsInterfaces,
            ),
    {
        match self.syntax.child(SyntaxKind::ImplementsInterfaces) {
            Some(n) => Some(ImplementsInterfaces { syntax: n }),
            None => None,
        }
    }

    /// The first Directives among the children.
    pub fn directives(&self) -> (r: Option<Directives<'a>>)
        ensures
            r is Some <==> self.node().spec_child(SyntaxKind::Directives) is Some,
            r matches Some(x) ==> Some(x.node()) == self.node().spec_child(SyntaxKind::Directives),
    {
        match self.syntax.child(SyntaxKind::Directives) {
            Some(n) => Some(Directives { syntax: n }),
            None => None,
        }
    }

    /// The first FieldsDefinition among the children.
    pub fn fields_definition(&self) -> (r: Option<FieldsDefinition<'a>>)
        ensures
            r is Some <==> self.node().spec_child(SyntaxKind::FieldsDefinition) is Some,
            r matches Some(x) ==> Some(x.node()) == self.node().spec_child(
                SyntaxKind::FieldsDefinition,
            ),
    {
        match self.syntax.child(SyntaxKind::FieldsDefinition) {
            Some(n) => Some(FieldsDefinition { syntax: n }),
            None => None,
        }
    }
}

impl<'a> ImplementsInterfaces<'a> {
    /// The node that is viewed.
    pub closed spec fn node(&self) -> SyntaxNode<'a> {
        self.syntax
    }

    #[verifier::type_invariant]
    pub closed spec fn inv(self) -> bool {
        self.syntax.spec_kind() == SyntaxKind::ImplementsInterfaces
    }

    /// The node that is viewed is of the kind of the view.
    pub proof fn lemma_kind(&self)
        requires
            self.inv(),
        ensures
            self.node().spec_kind() == SyntaxKind::ImplementsInterfaces,
    {
    }

    /// The view of a node, if the node is of this kind.
    pub fn cast(node: SyntaxNode<'a>) -> (r: Option<ImplementsInterfaces<'a>>)
        ensures
            r is Some <==> node.spec_kind() == SyntaxKind::ImplementsInterfaces,
            r matches Some(x) ==> x.node() == node,
    {
        if node.kind() == SyntaxKind::ImplementsInterfaces {
            Some(ImplementsInterfaces { syntax: node })
        } else {
            None
        }
    }

    pub fn syntax(&self) -> (r: SyntaxNode<'a>)
        ensures
            r == self.node(),
    {
        self.syntax
    }

    /// Every NamedType among the children, in document order.
    pub fn named_types(&self) -> (r: Vec<NamedType<'a>>)
        ensures
            r@.len() == self.node().spec_children(SyntaxKind::NamedType).len(),
            forall|j: int|
                0 <= j < r@.len() ==> (#[trigger] r@[j]).node() == self.node().spec_children(
                    SyntaxKind::NamedType,
                )[j],
    {
        NamedType::all_in(self.syntax)
    }
}

impl<'a> FieldsDefinition<'a> {
    /// The node that is viewed.
    pub closed spec fn node(&self) -> SyntaxNode<'a> {
        self.syntax
    }

    #[verifier::type_invariant]
    pub closed spec fn inv(self) -> bool {
        self.syntax.spec_kind() == SyntaxKind::FieldsDefinition
    }

    /// The node that is viewed is of the kind of the view.
    pub proof fn lemma_kind(&self)
        requires
            self.inv(),
        ensures
            self.node().spec_kind() == SyntaxKind::FieldsDefinition,
    {
    }

    /// The view of a node, if the node is of this kind.
    pub fn cast(node: SyntaxNode<'a>) -> (r: Option<FieldsDefinition<'a>>)
        ensures
            r is Some <==> node.spec_kind() == SyntaxKind::FieldsDefinition,
            r matches Some(x) ==> x.node() == node,
    {
        if node.kind() == SyntaxKind::FieldsDefinition {
            Some(FieldsDefinition { syntax: node })
        } else {
            None
        }
    }

    pub fn syntax(&self) -> (r: SyntaxNode<'a>)
        ensures
            r == self.node(),
    {
        self.syntax
    }

    /// Every FieldDefinition among the children, in document order.
    pub fn field_definitions(&self) -> (r: Vec<FieldDefinition<'a>>)
        ensures
            r@.len() == self.node().spec_children(SyntaxKind::FieldDefinition).len(),
            forall|j: int|
                0 <= j < r@.len() ==> (#[trigger] r@[j]).node() == self.node().spec_children(
                    SyntaxKind::FieldDefinition,
                )[j],
    {
        FieldDefinition::all_in(self.syntax)
    }
}

impl<'a> FieldDefinition<'a> {
    /// The node that is viewed.
    pub closed spec fn node(&self) -> SyntaxNode<'a> {
        self.syntax
    }

    #[verifier::type_invariant]
    pub closed spec fn inv(self) -> bool {
        self.syntax.spec_kind() == SyntaxKind::FieldDefinition
    }

    /// The node that is viewed is of the kind of the view.
    pub proof fn lemma_kind(&self)
        requires
            self.inv(),
        ensures
            self.node().spec_kind() == SyntaxKind::FieldDefinition,
    {
    }

    /// The view of a node, if the node is of this kind.
    pub fn cast(node: SyntaxNode<'a>) -> (r: Option<FieldDefinition<'a>>)
        ensures
            r is Some <==> node.spec_kind() == SyntaxKind::FieldDefinition,
            r matches Some(x) ==> x.node() == node,
    {
        if node.kind() == SyntaxKind::FieldDefinition {
            Some(FieldDefinition { syntax: node })
        } else {
            None
        }
    }

    pub fn syntax(&self) -> (r: SyntaxNode<'a>)
        ensures
            r == self.node(),
    {
        self.syntax
    }

    /// The views of the children of `parent` that are of this kind, in
    /// document order.
    pub fn all_in(parent: SyntaxNode<'a>) -> (r: Vec<FieldDefinition<'a>>)
        ensures
            r@.len() == parent.spec_children(SyntaxKind::FieldDefinition).len(),
            forall|j: int|
                0 <= j < r@.len() ==> (#[trigger] r@[j]).node() == parent.spec_children(
                    SyntaxKind::FieldDefinition,
                )[j],
    {
        let nodes = parent.child_nodes(SyntaxKind::FieldDefinition);
        let mut r: Vec<FieldDefinition<'a>> = Vec::new();
        let mut j: usize = 0;
        while j < nodes.len()
            invariant
                j <= nodes@.len(),
                r@.len() == j,
                forall|k: int| 0 <= k < j ==> (#[trigger] r@[k]).node() == nodes@[k],
                forall|k: int|
                    0 <= k < nodes@.len() ==> (#[trigger] nodes@[k]).spec_kind()
                        == SyntaxKind::FieldDefinition,
            decreases nodes@.len() - j,
        {
            r.push(FieldDefinition { syntax: nodes[j] });
            j = j + 1;
        }
        r
    }

    /// The first Description among the children.
    pub fn description(&self) -> (r: Option<Description<'a>>)
        ensures
            r is Some <==> self.node().spec_child(SyntaxKind::Description) is Some,
            r matches Some(x) ==> Some(x.node()) == self.node().spec_child(SyntaxKind::Description),
    {
        match self.syntax.child(SyntaxKind::Description) {
            Some(n) => Some(Description { syntax: n }),
            None => None,
        }
    }

    /// The first Name among the children.
    pub fn name(&self) -> (r: Option<Name<'a>>)
        ensures
            r is Some <==> self.node().spec_child(SyntaxKind::Name) is Some,
            r matches Some(x) ==> Some(x.node()) == self.node().spec_child(SyntaxKind::Name),
    {
        match self.syntax.child(SyntaxKind::Name) {
            Some(n) => Some(Name { syntax: n }),
            None => None,
        }
    }

    /// The first ArgumentsDefinition among the children.
    pub fn arguments_definition(&self) -> (r: Option<ArgumentsDefinition<'a>>)
        ensures
            r is Some <==> self.node().spec_child(SyntaxKind::ArgumentsDefinition) is Some,
            r matches Some(x) ==> Some(x.node()) == self.node().spec_child(
                SyntaxKind::ArgumentsDefinition,
            ),
    {
        match self.syntax.child(SyntaxKind::ArgumentsDefinition) {
            Some(n) => Some(ArgumentsDefinition { syntax: n }),
            None => None,
        }
    }

    /// The first Type among the children.
    pub fn ty(&self) -> (r: Option<Type<'a>>)
        ensures
            r is Some <==> self.node().spec_first_among(KindSet::Type) is Some,
            r matches Some(x) ==> Some(x.node()) == self.node().spec_first_among(
                KindSet::Type,
            ),
    {
        match self.syntax.first_among(KindSet::Type) {
            Some(n) => Type::cast(n),
            None => None,
        }
    }

    /// The first Directives among the children.
    pub fn directives(&self) -> (r: Option<Directives<'a>>)
        ensures
            r is Some <==> self.node().spec_child(SyntaxKind::Directives) is Some,
            r matches Some(x) ==> Some(x.node()) == self.node().spec_child(SyntaxKind::Directives),
    {
        match self.syntax.child(SyntaxKind::Directives) {
            Some(n) => Some(Directives { syntax: n }),
            None => None,
        }
    }
}

impl<'a> ArgumentsDefinition<'a> {
    /// The node that is viewed.
    pub closed spec fn node(&self) -> SyntaxNode<'a> {
        self.syntax
    }

    #[verifier::type_invariant]
    pub closed spec fn inv(self) -> bool {
        self.syntax.spec_kind() == SyntaxKind::ArgumentsDefinition
    }

    /// The node that is viewed is of the kind of the view.
    pub proof fn lemma_kind(&self)
        requires
            self.inv(),
        ensures
            self.node().spec_kind() == SyntaxKind::ArgumentsDefinition,
    {
    }

    /// The view of a node, if the node is of this kind.
    pub fn cast(node: SyntaxNode<'a>) -> (r: Option<ArgumentsDefinition<'a>>)
        ensures
            r is Some <==> node.spec_kind() == SyntaxKind::ArgumentsDefinition,
            r matches Some(x) ==> x.node() == node,
    {
        if node.kind() == SyntaxKind::ArgumentsDefinition {
            Some(ArgumentsDefinition { syntax: node })
        } else {
            None
        }
    }

    pub fn syntax(&self) -> (r: SyntaxNode<'a>)
        ensures
            r == self.node(),
    {
        self.syntax
    }

    /// Every InputValueDefinition among the children, in document order.
    pub fn input_value_definitions(&self) -> (r: Vec<InputValueDefinition<'a>>)
        ensures
            r@.len() == self.node().spec_children(SyntaxKind::InputValueDefinition).len(),
            forall|j: int|
                0 <= j < r@.len() ==> (#[trigger] r@[j]).node() == self.node().spec_children(
                    SyntaxKind::InputValueDefinition,
                )[j],
    {
        InputValueDefinition::all_in(self.syntax)
    }
}

impl<'a> InputValueDefinition<'a> {
    /// The node that is viewed.
    pub closed spec fn node(&self) -> SyntaxNode<'a> {
        self.syntax
    }

    #[verifier::type_invariant]
    pub closed spec fn inv(self) -> bool {
        self.syntax.spec_kind() == SyntaxKind::InputValueDefinition
    }

    /// The node that is viewed is of the kind of the view.
    pub proof fn lemma_kind(&self)
        requires
            self.inv(),
        ensures
            self.node().spec_kind() == SyntaxKind::InputValueDefinition,
    {
    }

    /// The view of a node, if the node is of this kind.
    pub fn cast(node: SyntaxNode<'a>) -> (r: Option<InputValueDefinition<'a>>)
        ensures
            r is Some <==> node.spec_kind() == SyntaxKind::InputValueDefinition,
            r matches Some(x) ==> x.node() == node,
    {
        if node.kind() == SyntaxKind::InputValueDefinition {
            Some(InputValueDefinition { syntax: node })
        } else {
            None
        }
    }

    pub fn syntax(&self) -> (r: SyntaxNode<'a>)
        ensures
            r == self.node(),
    {
        self.syntax
    }

    /// The views of the children of `parent` that are of this kind, in
    /// document order.
    pub fn all_in(parent: SyntaxNode<'a>) -> (r: Vec<InputValueDefinition<'a>>)
        ensures
            r@.len() == parent.spec_children(SyntaxKind::InputValueDefinition).len(),
            forall|j: int|
                0 <= j < r@.len() ==> (#[trigger] r@[j]).node() == parent.spec_children(
                    SyntaxKind::InputValueDefinition,
                )[j],
    {
        let nodes = parent.child_nodes(SyntaxKind::InputValueDefinition);
        let mut r: Vec<InputValueDefinition<'a>> = Vec::new();
        let mut j: usize = 0;
        while j < nodes.len()
            invariant
                j <= nodes@.len(),
                r@.len() == j,
                forall|k: int| 0 <= k < j ==> (#[trigger] r@[k]).node() == nodes@[k],
                forall|k: int|
                    0 <= k < nodes@.len() ==> (#[trigger] nodes@[k]).spec_kind()
                        == SyntaxKind::InputValueDefinition,
            decreases nodes@.len() - j,
        {
            r.push(InputValueDefinition { syntax: nodes[j] });
            j = j + 1;
        }
        r
    }

    /// The first Description among the children.
    pub fn description(&self) -> (r: Option<Description<'a>>)
        ensures
            r is Some <==> self.node().spec_child(SyntaxKind::Description) is Some,
            r matches Some(x) ==> Some(x.node()) == self.node().spec_child(SyntaxKind::Description),
    {
        match self.syntax.child(SyntaxKind::Description) {
            Some(n) => Some(Description { syntax: n }),
            None => None,
        }
    }

    /// The first Name among the children.
    pub fn name(&self) -> (r: Option<Name<'a>>)
        ensures
            r is Some <==> self.node().spec_child(SyntaxKind::Name) is Some,
            r matches Some(x) ==> Some(x.node()) == self.node().spec_child(SyntaxKind::Name),
    {
        match self.syntax.child(SyntaxKind::Name) {
            Some(n) => Some(Name { syntax: n }),
            None => None,
        }
    }

    /// The first Type among the children.
    pub fn ty(&self) -> (r: Option<Type<'a>>)
        ensures
            r is Some <==> self.node().spec_first_among(KindSet::Type) is Some,
            r matches Some(x) ==> Some(x.node()) == self.node().spec_first_among(
                KindSet::Type,
            ),
    {
        match self.syntax.first_among(KindSet::Type) {
            Some(n) => Type::cast(n),
            None => None,
        }
    }

    /// The first DefaultValue among the children.
    pub fn default_value(&self) -> (r: Option<DefaultValue<'a>>)
        ensures
            r is Some <==> self.node().spec_child(SyntaxKind::DefaultValue) is Some,
            r matches Some(x) ==> Some(x.node()) == self.node().spec_child(
                SyntaxKind::DefaultValue,
            ),
    {
        match self.syntax.child(SyntaxKind::DefaultValue) {
            Some(n) => Some(DefaultValue { syntax: n }),
            None => None,
        }
    }

    /// The first Directives among the children.
    pub fn directives(&self) -> (r: Option<Directives<'a>>)
        ensures
            r is Some <==> self.node().spec_child(SyntaxKind::Directives) is Some,
            r matches Some(x) ==> Some(x.node()) == self.node().spec_child(SyntaxKind::Directives),
    {
        match self.syntax.child(SyntaxKind::Directives) {
            Some(n) => Some(Directives { syntax: n }),
            None => None,
        }
    }
}

impl<'a> InterfaceTypeDefinition<'a> {
    /// The node that is viewed.
    pub closed spec fn node(&self) -> SyntaxNode<'a> {
        self.syntax
    }

    #[verifier::type_invariant]
    pub closed spec fn inv(self) -> bool {
        self.syntax.spec_kind() == SyntaxKind::InterfaceTypeDefinition
    }

    /// The node that is viewed is of the kind of the view.
    pub proof fn lemma_kind(&self)
        requires
            self.inv(),
        ensures
            self.node().spec_kind() == SyntaxKind::InterfaceTypeDefinition,
    {
    }

    /// The view of a node, if the node is of this kind.
    pub fn cast(node: SyntaxNode<'a>) -> (r: Option<InterfaceTypeDefinition<'a>>)
        ensures
            r is Some <==> node.spec_kind() == SyntaxKind::InterfaceTypeDefinition,
            r matches Some(x) ==> x.node() == node,
    {
        if node.kind() == SyntaxKind::InterfaceTypeDefinition {
            Some(InterfaceTypeDefinition { syntax: node })
        } else {
            None
        }
    }

    pub fn syntax(&self) -> (r: SyntaxNode<'a>)
        ensures
            r == self.node(),
    {
        self.syntax
    }

    /// The first Description among the children.
    pub fn description(&self) -> (r: Option<Description<'a>>)
        ensures
            r is Some <==> self.node().spec_child(SyntaxKind::Description) is Some,
            r matches Some(x) ==> Some(x.node()) == self.node().spec_child(SyntaxKind::Description),
    {
        match self.syntax.child(SyntaxKind::Description) {
            Some(n) => Some(Description { syntax: n }),
            None => None,
        }
    }

    /// The first Name among the children.
    pub fn name(&self) -> (r: Option<Name<'a>>)
        ensures
            r is Some <==> self.node().spec_child(SyntaxKind::Name) is Some,
            r matches Some(x) ==> Some(x.node()) == self.node().spec_child(SyntaxKind::Name),
    {
        match self.syntax.child(SyntaxKind::Name) {
            Some(n) => Some(Name { syntax: n }),
            None => None,
        }
    }

    /// The first ImplementsInterfaces among the children.
    pub fn implements_interfaces(&self) -> (r: Option<ImplementsInterfaces<'a>>)
        ensures
            r is Some <==> self.node().spec_child(SyntaxKind::ImplementsInterfaces) is Some,
            r matches Some(x) ==> Some(x.node()) == self.node().spec_child(
                SyntaxKind::ImplementsInterfaces,
            ),
    {
        match self.syntax.child(SyntaxKind::ImplementsInterfaces) {
            Some(n) => Some(ImplementsInterfaces { syntax: n }),
            None => None,
        }
    }

    /// The first Directives among the children.
    pub fn directives(&self) -> (r: Option<Directives<'a>>)
        ensures
            r is Some <==> self.node().spec_child(SyntaxKind::Directives) is Some,
            r matches Some(x) ==> Some(x.node()) == self.node().spec_child(SyntaxKind::Directives),
    {
        match self.syntax.child(SyntaxKind::Directives) {
            Some(n) => Some(Directives { syntax: n }),
            None => None,
        }
    }

    /// The first FieldsDefinition among the children.
    pub fn fields_definition(&self) -> (r: Option<FieldsDefinition<'a>>)
        ensures
            r is Some <==> self.node().spec_child(SyntaxKind::FieldsDefinition) is Some,
            r matches Some(x) ==> Some(x.node()) == self.node().spec_child(
                SyntaxKind::FieldsDefinition,
            ),
    {
        match self.syntax.child(SyntaxKind::FieldsDefinition) {
            Some(n) => Some(FieldsDefinition { syntax: n }),
            None => None,
        }
    }
}

impl<'a> UnionTypeDefinition<'a> {
    /// The node that is viewed.
    pub closed spec fn node(&self) -> SyntaxNode<'a> {
        self.syntax
    }

    #[verifier::type_invariant]
    pub closed spec fn inv(self) -> bool {
        self.syntax.spec_kind() == SyntaxKind::UnionTypeDefinition
    }

    /// The node that is viewed is of the kind of the view.
    pub proof fn lemma_kind(&self)
        requires
            self.inv(),
        ensures
            self.node().spec_kind() == SyntaxKind::UnionTypeDefinition,
    {
    }

    /// The view of a node, if the node is of this kind.
    pub fn cast(node: SyntaxNode<'a>) -> (r: Option<UnionTypeDefinition<'a>>)
        ensures
            r is Some <==> node.spec_kind() == SyntaxKind::UnionTypeDefinition,
            r matches Some(x) ==> x.node() == node,
    {
        if node.kind() == SyntaxKind::UnionTypeDefinition {
            Some(UnionTypeDefinition { syntax: node })
        } else {
            None
        }
    }

    pub fn syntax(&self) -> (r: SyntaxNode<'a>)
        ensures
            r == self.node(),
    {
        self.syntax
    }

    /// The first Description among the children.
    pub fn description(&self) -> (r: Option<Description<'a>>)
        ensures
            r is Some <==> self.node().spec_child(SyntaxKind::Description) is Some,
            r matches Some(x) ==> Some(x.node()) == self.node().spec_child(SyntaxKind::Description),
    {
        match self.syntax.child(SyntaxKind::Description) {
            Some(n) => Some(Description { syntax: n }),
            None => None,
        }
    }

    /// The first Name among the children.
    pub fn name(&self) -> (r: Option<Name<'a>>)
        ensures
            r is Some <==> self.node().spec_child(SyntaxKind::Name) is Some,
            r matches Some(x) ==> Some(x.node()) == self.node().spec_child(SyntaxKind::Name),
    {
        match self.syntax.child(SyntaxKind::Name) {
            Some(n) => Some(Name { syntax: n }),
            None => None,
        }
    }

    /// The first Directives among the children.
    pub fn directives(&self) -> (r: Option<Directives<'a>>)
        ensures
            r is Some <==> self.node().spec_child(SyntaxKind::Directives) is Some,
            r matches Some(x) ==> Some(x.node()) == self.node().spec_child(SyntaxKind::Directives),
    {
        match self.syntax.child(SyntaxKind::Directives) {
            Some(n) => Some(Directives { syntax: n }),
            None => None,
        }
    }

    /// The first UnionMemberTypes among the children.
    pub fn union_member_types(&self) -> (r: Option<UnionMemberTypes<'a>>)
        ensures
            r is Some <==> self.node().spec_child(SyntaxKind::UnionMemberTypes) is Some,
            r matches Some(x) ==> Some(x.node()) == self.node().spec_child(
                SyntaxKind::UnionMemberTypes,
            ),
    {
        match self.syntax.child(SyntaxKind::UnionMemberTypes) {
            Some(n) => Some(UnionMemberTypes { syntax: n }),
            None => None,
        }
    }
}

impl<'a> UnionMemberTypes<'a> {
    /// The node that is viewed.
    pub closed spec fn node(&self) -> SyntaxNode<'a> {
        self.syntax
    }

    #[verifier::type_invariant]
    pub closed spec fn inv(self) -> bool {
        self.syntax.spec_kind() == SyntaxKind::UnionMemberTypes
    }

    /// The node that is viewed is of the kind of the view.
    pub proof fn lemma_kind(&self)
        requires
            self.inv(),
        ensures
            self.node().spec_kind() == SyntaxKind::UnionMemberTypes,
    {
    }

    /// The view of a node, if the node is of this kind.
    pub fn cast(node: SyntaxNode<'a>) -> (r: Option<UnionMemberTypes<'a>>)
        ensures
            r is Some <==> node.spec_kind() == SyntaxKind::UnionMemberTypes,
            r matches Some(x) ==> x.node() == node,
    {
        if node.kind() == SyntaxKind::UnionMemberTypes {
            Some(UnionMemberTypes { syntax: node })
        } else {
            None
        }
    }

    pub fn syntax(&self) -> (r: SyntaxNode<'a>)
        ensures
            r == self.node(),
    {
        self.syntax
    }

    /// Every NamedType among the children, in document order.
    pub fn named_types(&self) -> (r: Vec<NamedType<'a>>)
        ensures
            r@.len() == self.node().spec_children(SyntaxKind::NamedType).len(),
            forall|j: int|
                0 <= j < r@.len() ==> (#[trigger] r@[j]).node() == self.node().spec_children(
                    SyntaxKind::NamedType,
                )[j],
    {
        NamedType::all_in(self.syntax)
    }
}

impl<'a> EnumTypeDefinition<'a> {
    /// The node that is viewed.
    pub closed spec fn node(&self) -> SyntaxNode<'a> {
        self.syntax
    }

    #[verifier::type_invariant]
    pub closed spec fn inv(self) -> bool {
        self.syntax.spec_kind() == SyntaxKind::EnumTypeDefinition
    }

    /// The node that is viewed is of the kind of the view.
    pub proof fn lemma_kind(&self)
        requires
            self.inv(),
        ensures
            self.node().spec_kind() == SyntaxKind::EnumTypeDefinition,
    {
    }

    /// The view of a node, if the node is of this kind.
    pub fn cast(node: SyntaxNode<'a>) -> (r: Option<EnumTypeDefinition<'a>>)
        ensures
            r is Some <==> node.spec_kind() == SyntaxKind::EnumTypeDefinition,
            r matches Some(x) ==> x.node() == node,
    {
        if node.kind() == SyntaxKind::EnumTypeDefinition {
            Some(EnumTypeDefinition { syntax: node })
        } else {
            None
        }
    }

    pub fn syntax(&self) -> (r: SyntaxNode<'a>)
        ensures
            r == self.node(),
    {
        self.syntax
    }

    /// The first Description among the children.
    pub fn description(&self) -> (r: Option<Description<'a>>)
        ensures
            r is Some <==> self.node().spec_child(SyntaxKind::Description) is Some,
            r matches Some(x) ==> Some(x.node()) == self.node().spec_child(SyntaxKind::Description),
    {
        match self.syntax.child(SyntaxKind::Description) {
            Some(n) => Some(Description { syntax: n }),
            None => None,
        }
    }

    /// The first Name among the children.
    pub fn name(&self) -> (r: Option<Name<'a>>)
        ensures
            r is Some <==> self.node().spec_child(SyntaxKind::Name) is Some,
            r matches Some(x) ==> Some(x.node()) == self.node().spec_child(SyntaxKind::Name),
    {
        match self.syntax.child(SyntaxKind::Name) {
            Some(n) => Some(Name { syntax: n }),
            None => None,
        }
    }

    /// The first Directives among the children.
    pub fn directives(&self) -> (r: Option<Directives<'a>>)
        ensures
            r is Some <==> self.node().spec_child(SyntaxKind::Directives) is Some,
            r matches Some(x) ==> Some(x.node()) == self.node().spec_child(SyntaxKind::Directives),
    {
        match self.syntax.child(SyntaxKind::Directives) {
            Some(n) => Some(Directives { syntax: n }),
            None => None,
        }
    }

    /// The first EnumValuesDefinition among the children.
    pub fn enum_values_definition(&self) -> (r: Option<EnumValuesDefinition<'a>>)
        ensures
            r is Some <==> self.node().spec_child(SyntaxKind::EnumValuesDefinition) is Some,
            r matches Some(x) ==> Some(x.node()) == self.node().spec_child(
                SyntaxKind::EnumValuesDefinition,
            ),
    {
        match self.syntax.child(SyntaxKind::EnumValuesDefinition) {
            Some(n) => Some(EnumValuesDefinition { syntax: n }),
            None => None,
        }
    }
}

impl<'a> EnumValuesDefinition<'a> {
    /// The node that is viewed.
    pub closed spec fn node(&self) -> SyntaxNode<'a> {
        self.syntax
    }

    #[verifier::type_invariant]
    pub closed spec fn inv(self) -> bool {
        self.syntax.spec_kind() == SyntaxKind::EnumValuesDefinition
    }

    /// The node that is viewed is of the kind of the view.
    pub proof fn lemma_kind(&self)
        requires
            self.inv(),
        ensures
            self.node().spec_kind() == SyntaxKind::EnumValuesDefinition,
    {
    }

    /// The view of a node, if the node is of this kind.
    pub fn cast(node: SyntaxNode<'a>) -> (r: Option<EnumValuesDefinition<'a>>)
        ensures
            r is Some <==> node.spec_kind() == SyntaxKind::EnumValuesDefinition,
            r matches Some(x) ==> x.node() == node,
    {
        if node.kind() == SyntaxKind::EnumValuesDefinition {
            Some(EnumValuesDefinition { syntax: node })
        } else {
            None
        }
    }

    pub fn syntax(&self) -> (r: SyntaxNode<'a>)
        ensures
            r == self.node(),
    {
        self.syntax
    }

    /// Every EnumValueDefinition among the children, in document order.
    pub fn enum_value_definitions(&self) -> (r: Vec<EnumValueDefinition<'a>>)
        ensures
            r@.len() == self.node().spec_children(SyntaxKind::EnumValueDefinition).len(),
            forall|j: int|
                0 <= j < r@.len() ==> (#[trigger] r@[j]).node() == self.node().spec_children(
                    SyntaxKind::EnumValueDefinition,
                )[j],
    {
        EnumValueDefinition::all_in(self.syntax)
    }
}

impl<'a> EnumValueDefinition<'a> {
    /// The node that is viewed.
    pub closed spec fn node(&self) -> SyntaxNode<'a> {
        self.syntax
    }

    #[verifier::type_invariant]
    pub closed spec fn inv(self) -> bool {
        self.syntax.spec_kind() == SyntaxKind::EnumValueDefinition
    }

    /// The node that is viewed is of the kind of the view.
    pub proof fn lemma_kind(&self)
        requires
            self.inv(),
        ensures
            self.node().spec_kind() == SyntaxKind::EnumValueDefinition,
    {
    }

    /// The view of a node, if the node is of this kind.
    pub fn cast(node: SyntaxNode<'a>) -> (r: Option<EnumValueDefinition<'a>>)
        ensures
            r is Some <==> node.spec_kind() == SyntaxKind::EnumValueDefinition,
            r matches Some(x) ==> x.node() == node,
    {
        if node.kind() == SyntaxKind::EnumValueDefinition {
            Some(EnumValueDefinition { syntax: node })
        } else {
            None
        }
    }

    pub fn syntax(&self) -> (r: SyntaxNode<'a>)
        ensures
            r == self.node(),
    {
        self.syntax
    }

    /// The views of the children of `parent` that are of this kind, in
    /// document order.
    pub fn all_in(parent: SyntaxNode<'a>) -> (r: Vec<EnumValueDefinition<'a>>)
        ensures
            r@.len() == parent.spec_children(SyntaxKind::EnumValueDefinition).len(),
            forall|j: int|
                0 <= j < r@.len() ==> (#[trigger] r@[j]).node() == parent.spec_children(
                    SyntaxKind::EnumValueDefinition,
                )[j],
    {
        let nodes = parent.child_nodes(SyntaxKind::EnumValueDefinition);
        let mut r: Vec<EnumValueDefinition<'a>> = Vec::new();
        let mut j: usize = 0;
        while j < nodes.len()
            invariant
                j <= nodes@.len(),
                r@.len() == j,
                forall|k: int| 0 <= k < j ==> (#[trigger] r@[k]).node() == nodes@[k],
                forall|k: int|
                    0 <= k < nodes@.len() ==> (#[trigger] nodes@[k]).spec_kind()
                        == SyntaxKind::EnumValueDefinition,
            decreases nodes@.len() - j,
        {
            r.push(EnumValueDefinition { syntax: nodes[j] });
            j = j + 1;
        }
        r
    }

    /// The first Description among the children.
    pub fn description(&self) -> (r: Option<Description<'a>>)
        ensures
            r is Some <==> self.node().spec_child(SyntaxKind::Description) is Some,
            r matches Some(x) ==> Some(x.node()) == self.node().spec_child(SyntaxKind::Description),
    {
        match self.syntax.child(SyntaxKind::Description) {
            Some(n) => Some(Description { syntax: n }),
            None => None,
        }
    }

    /// The first EnumValue among the children.
    pub fn enum_value(&self) -> (r: Option<EnumValue<'a>>)
        ensures
            r is Some <==> self.node().spec_child(SyntaxKind::EnumValue) is Some,
            r matches Some(x) ==> Some(x.node()) == self.node().spec_child(SyntaxKind::EnumValue),
    {
        match self.syntax.child(SyntaxKind::EnumValue) {
            Some(n) => Some(EnumValue { syntax: n }),
            None => None,
        }
    }

    /// The first Directives among the children.
    pub fn directives(&self) -> (r: Option<Directives<'a>>)
        ensures
            r is Some <==> self.node().spec_child(SyntaxKind::Directives) is Some,
            r matches Some(x) ==> Some(x.node()) == self.node().spec_child(SyntaxKind::Directives),
    {
        match self.syntax.child(SyntaxKind::Directives) {
            Some(n) => Some(Directives { syntax: n }),
            None => None,
        }
    }
}

impl<'a> InputObjectTypeDefinition<'a> {
    /// The node that is viewed.
    pub closed spec fn node(&self) -> SyntaxNode<'a> {
        self.syntax
    }

    #[verifier::type_invariant]
    pub closed spec fn inv(self) -> bool {
        self.syntax.spec_kind() == SyntaxKind::InputObjectTypeDefinition
    }

    /// The node that is viewed is of the kind of the view.
    pub proof fn lemma_kind(&self)
        requires
            self.inv(),
        ensures
            self.node().spec_kind() == SyntaxKind::InputObjectTypeDefinition,
    {
    }

    /// The view of a node, if the node is of this kind.
    pub fn cast(node: SyntaxNode<'a>) -> (r: Option<InputObjectTypeDefinition<'a>>)
        ensures
            r is Some <==> node.spec_kind() == SyntaxKind::InputObjectTypeDefinition,
            r matches Some(x) ==> x.node() == node,
    {
        if node.kind() == SyntaxKind::InputObjectTypeDefinition {
            Some(InputObjectTypeDefinition { syntax: node })
        } else {
            None
        }
    }

    pub fn syntax(&self) -> (r: SyntaxNode<'a>)
        ensures
            r == self.node(),
    {
        self.syntax
    }

    /// The first Description among the children.
    pub fn description(&self) -> (r: Option<Description<'a>>)
        ensures
            r is Some <==> self.node().spec_child(SyntaxKind::Description) is Some,
            r matches Some(x) ==> Some(x.node()) == self.node().spec_child(SyntaxKind::Description),
    {
        match self.syntax.child(SyntaxKind::Description) {
            Some(n) => Some(Description { syntax: n }),
            None => None,
        }
    }

    /// The first Name among the children.
    pub fn name(&self) -> (r: Option<Name<'a>>)
        ensures
            r is Some <==> self.node().spec_child(SyntaxKind::Name) is Some,
            r matches Some(x) ==> Some(x.node()) == self.node().spec_child(SyntaxKind::Name),
    {
        match self.syntax.child(SyntaxKind::Name) {
            Some(n) => Some(Name { syntax: n }),
            None => None,
        }
    }

    /// The first Directives among the children.
    pub fn directives(&self) -> (r: Option<Directives<'a>>)
        ensures
            r is Some <==> self.node().spec_child(SyntaxKind::Directives) is Some,
            r matches Some(x) ==> Some(x.node()) == self.node().spec_child(SyntaxKind::Directives),
    {
        match self.syntax.child(SyntaxKind::Directives) {
            Some(n) => Some(Directives { syntax: n }),
            None => None,
        }
    }

    /// The first InputFieldsDefinition among the children.
    pub fn input_fields_definition(&self) -> (r: Option<InputFieldsDefinition<'a>>)
        ensures
            r is Some <==> self.node().spec_child(SyntaxKind::InputFieldsDefinition) is Some,
            r matches Some(x) ==> Some(x.node()) == self.node().spec_child(
                SyntaxKind::InputFieldsDefinition,
            ),
    {
        match self.syntax.child(SyntaxKind::InputFieldsDefinition) {
            Some(n) => Some(InputFieldsDefinition { syntax: n }),
            None => None,
        }
    }
}

impl<'a> InputFieldsDefinition<'a> {
    /// The node that is viewed.
    pub closed spec fn node(&self) -> SyntaxNode<'a> {
        self.syntax
    }

    #[verifier::type_invariant]
    pub closed spec fn inv(self) -> bool {
        self.syntax.spec_kind() == SyntaxKind::InputFieldsDefinition
    }

    /// The node that is viewed is of the kind of the view.
    pub proof fn lemma_kind(&self)
        requires
            self.inv(),
        ensures
            self.node().spec_kind() == SyntaxKind::InputFieldsDefinition,
    {
    }

    /// The view of a node, if the node is of this kind.
    pub fn cast(node: SyntaxNode<'a>) -> (r: Option<InputFieldsDefinition<'a>>)
        ensures
            r is Some <==> node.spec_kind() == SyntaxKind::InputFieldsDefinition,
            r matches Some(x) ==> x.node() == node,
    {
        if node.kind() == SyntaxKind::InputFieldsDefinition {
            Some(InputFieldsDefinition { syntax: node })
        } else {
            None
        }
    }

    pub fn syntax(&self) -> (r: SyntaxNode<'a>)
        ensures
            r == self.node(),
    {
        self.syntax
    }

    /// Every InputValueDefinition among the children, in document order.
    pub fn input_value_definitions(&self) -> (r: Vec<InputValueDefinition<'a>>)
        ensures
            r@.len() == self.node().spec_children(SyntaxKind::InputValueDefinition).len(),
            forall|j: int|
                0 <= j < r@.len() ==> (#[trigger] r@[j]).node() == self.node().spec_children(
                    SyntaxKind::InputValueDefinition,
                )[j],
    {
        InputValueDefinition::all_in(self.syntax)
    }
}

impl<'a> DirectiveDefinition<'a> {
    /// The node that is viewed.
    pub closed spec fn node(&self) -> SyntaxNode<'a> {
        self.syntax
    }

    #[verifier::type_invariant]
    pub closed spec fn inv(self) -> bool {
        self.syntax.spec_kind() == SyntaxKind::DirectiveDefinition
    }

    /// The node that is viewed is of the kind of the view.
    pub proof fn lemma_kind(&self)
        requires
            self.inv(),
        ensures
            self.node().spec_kind() == SyntaxKind::DirectiveDefinition,
    {
    }

    /// The view of a node, if the node is of this kind.
    pub fn cast(node: SyntaxNode<'a>) -> (r: Option<DirectiveDefinition<'a>>)
        ensures
            r is Some <==> node.spec_kind() == SyntaxKind::DirectiveDefinition,
            r matches Some(x) ==> x.node() == node,
    {
        if node.kind() == SyntaxKind::DirectiveDefinition {
            Some(DirectiveDefinition { syntax: node })
        } else {
            None
        }
    }

    pub fn syntax(&self) -> (r: SyntaxNode<'a>)
        ensures
            r == self.node(),
    {
        self.syntax
    }

    /// The first Description among the children.
    pub fn description(&self) -> (r: Option<Description<'a>>)
        ensures
            r is Some <==> self.node().spec_child(SyntaxKind::Description) is Some,
            r matches Some(x) ==> Some(x.node()) == self.node().spec_child(SyntaxKind::Description),
    {
        match self.syntax.child(SyntaxKind::Description) {
            Some(n) => Some(Description { syntax: n }),
            None => None,
        }
    }

    /// The first Name among the children.
    pub fn name(&self) -> (r: Option<Name<'a>>)
        ensures
            r is Some <==> self.node().spec_child(SyntaxKind::Name) is Some,
            r matches Some(x) ==> Some(x.node()) == self.node().spec_child(SyntaxKind::Name),
    {
        match self.syntax.child(SyntaxKind::Name) {
            Some(n) => Some(Name { syntax: n }),
            None => None,
        }
    }

    /// The first ArgumentsDefinition among the children.
    pub fn arguments_definition(&self) -> (r: Option<ArgumentsDefinition<'a>>)
        ensures
            r is Some <==> self.node().spec_child(SyntaxKind::ArgumentsDefinition) is Some,
            r matches Some(x) ==> Some(x.node()) == self.node().spec_child(
                SyntaxKind::ArgumentsDefinition,
            ),
    {
        match self.syntax.child(SyntaxKind::ArgumentsDefinition) {
            Some(n) => Some(ArgumentsDefinition { syntax: n }),
            None => None,
        }
    }

    /// The first token of kind `RepeatableKw` among the children.
    pub fn repeatable_token(&self) -> (r: Option<SyntaxToken<'a>>)
        ensures
            r == self.node().spec_token(SyntaxKind::RepeatableKw),
    {
        self.syntax.token(SyntaxKind::RepeatableKw)
    }

    /// The first DirectiveLocations among the children.
    pub fn directive_locations(&self) -> (r: Option<DirectiveLocations<'a>>)
        ensures
            r is Some <==> self.node().spec_child(SyntaxKind::DirectiveLocations) is Some,
            r matches Some(x) ==> Some(x.node()) == self.node().spec_child(
                SyntaxKind::DirectiveLocations,
            ),
    {
        match self.syntax.child(SyntaxKind::DirectiveLocations) {
            Some(n) => Some(DirectiveLocations { syntax: n }),
            None => None,
        }
    }
}

impl<'a> DirectiveLocations<'a> {
    /// The node that is viewed.
    pub closed spec fn node(&self) -> SyntaxNode<'a> {
        self.syntax
    }

    #[verifier::type_invariant]
    pub closed spec fn inv(self) -> bool {
        self.syntax.spec_kind() == SyntaxKind::DirectiveLocations
    }

    /// The node that is viewed is of the kind of the view.
    pub proof fn lemma_kind(&self)
        requires
            self.inv(),
        ensures
            self.node().spec_kind() == SyntaxKind::DirectiveLocations,
    {
    }

    /// The view of a node, if the node is of this kind.
    pub fn cast(node: SyntaxNode<'a>) -> (r: Option<DirectiveLocations<'a>>)
        ensures
            r is Some <==> node.spec_kind() == SyntaxKind::DirectiveLocations,
            r matches Some(x) ==> x.node() == node,
    {
        if node.kind() == SyntaxKind::DirectiveLocations {
            Some(DirectiveLocations { syntax: node })
        } else {
            None
        }
    }

    pub fn syntax(&self) -> (r: SyntaxNode<'a>)
        ensures
            r == self.node(),
    {
        self.syntax
    }

    /// Every DirectiveLocation among the children, in document order.
    pub fn directive_locations(&self) -> (r: Vec<DirectiveLocation<'a>>)
        ensures
            r@.len() == self.node().spec_children(SyntaxKind::DirectiveLocation).len(),
            forall|j: int|
                0 <= j < r@.len() ==> (#[trigger] r@[j]).node() == self.node().spec_children(
                    SyntaxKind::DirectiveLocation,
                )[j],
    {
        DirectiveLocation::all_in(self.syntax)
    }
}

impl<'a> DirectiveLocation<'a> {
    /// The node that is viewed.
    pub closed spec fn node(&self) -> SyntaxNode<'a> {
        self.syntax
    }

    #[verifier::type_invariant]
    pub closed spec fn inv(self) -> bool {
        self.syntax.spec_kind() == SyntaxKind::DirectiveLocation
    }

    /// The node that is viewed is of the kind of the view.
    pub proof fn lemma_kind(&self)
        requires
            self.inv(),
        ensures
            self.node().spec_kind() == SyntaxKind::DirectiveLocation,
    {
    }

    /// The view of a node, if the node is of this kind.
    pub fn cast(node: SyntaxNode<'a>) -> (r: Option<DirectiveLocation<'a>>)
        ensures
            r is Some <==> node.spec_kind() == SyntaxKind::DirectiveLocation,
            r matches Some(x) ==> x.node() == node,
    {
        if node.kind() == SyntaxKind::DirectiveLocation {
            Some(DirectiveLocation { syntax: node })
        } else {
            None
        }
    }

    pub fn syntax(&self) -> (r: SyntaxNode<'a>)
        ensures
            r == self.node(),
    {
        self.syntax
    }

    /// The views of the children of `parent` that are of this kind, in
    /// document order.
    pub fn all_in(parent: SyntaxNode<'a>) -> (r: Vec<DirectiveLocation<'a>>)
        ensures
            r@.len() == parent.spec_children(SyntaxKind::DirectiveLocation).len(),
            forall|j: int|
                0 <= j < r@.len() ==> (#[trigger] r@[j]).node() == parent.spec_children(
                    SyntaxKind::DirectiveLocation,
                )[j],
    {
        let nodes = parent.child_nodes(SyntaxKind::DirectiveLocation);
        let mut r: Vec<DirectiveLocation<'a>> = Vec::new();
        let mut j: usize = 0;
        while j < nodes.len()
            invariant
                j <= nodes@.len(),
                r@.len() == j,
                forall|k: int| 0 <= k < j ==> (#[trigger] r@[k]).node() == nodes@[k],
                forall|k: int|
                    0 <= k < nodes@.len() ==> (#[trigger] nodes@[k]).spec_kind()
                        == SyntaxKind::DirectiveLocation,
            decreases nodes@.len() - j,
        {
            r.push(DirectiveLocation { syntax: nodes[j] });
            j = j + 1;
        }
        r
    }

    /// The first token of kind `Ident` among the children.
    pub fn ident_token(&self) -> (r: Option<SyntaxToken<'a>>)
        ensures
            r == self.node().spec_token(SyntaxKind::Ident),
    {
        self.syntax.token(SyntaxKind::Ident)
    }

    /// The text of the first token of kind `Ident` among the children; the
    /// empty text where there is none.
    pub fn text(&self) -> (r: &'a str)
        ensures
            r@ == match self.node().spec_token(SyntaxKind::Ident) {
                Some(t) => t.spec_text(),
                None => Seq::empty(),
            },
    {
        match self.syntax.token(SyntaxKind::Ident) {
            Some(t) => t.text(),
            None => {
                proof {
                    reveal_strlit("");
                }
                ""
            },
        }
    }
}

impl<'a> SchemaExtension<'a> {
    /// The node that is viewed.
    pub closed spec fn node(&self) -> SyntaxNode<'a> {
        self.syntax
    }

    #[verifier::type_invariant]
    pub closed spec fn inv(self) -> bool {
        self.syntax.spec_kind() == SyntaxKind::SchemaExtension
    }

    /// The node that is viewed is of the kind of the view.
    pub proof fn lemma_kind(&self)
        requires
            self.inv(),
        ensures
            self.node().spec_kind() == SyntaxKind::SchemaExtension,
    {
    }

    /// The view of a node, if the node is of this kind.
    pub fn cast(node: SyntaxNode<'a>) -> (r: Option<SchemaExtension<'a>>)
        ensures
            r is Some <==> node.spec_kind() == SyntaxKind::SchemaExtension,
            r matches Some(x) ==> x.node() == node,
    {
        if node.kind() == SyntaxKind::SchemaExtension {
            Some(SchemaExtension { syntax: node })
        } else {
            None
        }
    }

    pub fn syntax(&self) -> (r: SyntaxNode<'a>)
        ensures
            r == self.node(),
    {
        self.syntax
    }

    /// The first Directives among the children.
    pub fn directives(&self) -> (r: Option<Directives<'a>>)
        ensures
            r is Some <==> self.node().spec_child(SyntaxKind::Directives) is Some,
            r matches Some(x) ==> Some(x.node()) == self.node().spec_child(SyntaxKind::Directives),
    {
        match self.syntax.child(SyntaxKind::Directives) {
            Some(n) => Some(Directives { syntax: n }),
            None => None,
        }
    }

    /// Every RootOperationTypeDefinition among the children, in document order.
    pub fn root_operation_type_definitions(&self) -> (r: Vec<RootOperationTypeDefinition<'a>>)
        ensures
            r@.len() == self.node().spec_children(SyntaxKind::RootOperationTypeDefinition).len(),
            forall|j: int|
                0 <= j < r@.len() ==> (#[trigger] r@[j]).node() == self.node().spec_children(
                    SyntaxKind::RootOperationTypeDefinition,
                )[j],
    {
        RootOperationTypeDefinition::all_in(self.syntax)
    }
}

impl<'a> ScalarTypeExtension<'a> {
    /// The node that is viewed.
    pub closed spec fn node(&self) -> SyntaxNode<'a> {
        self.syntax
    }

    #[verifier::type_invariant]
    pub closed spec fn inv(self) -> bool {
        self.syntax.spec_kind() == SyntaxKind::ScalarTypeExtension
    }

    /// The node that is viewed is of the kind of the view.
    pub proof fn lemma_kind(&self)
        requires
            self.inv(),
        ensures
            self.node().spec_kind() == SyntaxKind::ScalarTypeExtension,
    {
    }

    /// The view of a node, if the node is of this kind.
    pub fn cast(node: SyntaxNode<'a>) -> (r: Option<ScalarTypeExtension<'a>>)
        ensures
            r is Some <==> node.spec_kind() == SyntaxKind::ScalarTypeExtension,
            r matches Some(x) ==> x.node() == node,
    {
        if node.kind() == SyntaxKind::ScalarTypeExtension {
            Some(ScalarTypeExtension { syntax: node })
        } else {
            None
        }
    }

    pub fn syntax(&self) -> (r: SyntaxNode<'a>)
        ensures
            r == self.node(),
    {
        self.syntax
    }

    /// The first Name among the children.
    pub fn name(&self) -> (r: Option<Name<'a>>)
        ensures
            r is Some <==> self.node().spec_child(SyntaxKind::Name) is Some,
            r matches Some(x) ==> Some(x.node()) == self.node().spec_child(SyntaxKind::Name),
    {
        match self.syntax.child(SyntaxKind::Name) {
            Some(n) => Some(Name { syntax: n }),
            None => None,
        }
    }

    /// The first Directives among the children.
    pub fn directives(&self) -> (r: Option<Directives<'a>>)
        ensures
            r is Some <==> self.node().spec_child(SyntaxKind::Directives) is Some,
            r matches Some(x) ==> Some(x.node()) == self.node().spec_child(SyntaxKind::Directives),
    {
        match self.syntax.child(SyntaxKind::Directives) {
            Some(n) => Some(Directives { syntax: n }),
            None => None,
        }
    }
}

impl<'a> ObjectTypeExtension<'a> {
    /// The node that is viewed.
    pub closed spec fn node(&self) -> SyntaxNode<'a> {
        self.syntax
    }

    #[verifier::type_invariant]
    pub closed spec fn inv(self) -> bool {
        self.syntax.spec_kind() == SyntaxKind::ObjectTypeExtension
    }

    /// The node that is viewed is of the kind of the view.
    pub proof fn lemma_kind(&self)
        requires
            self.inv(),
        ensures
            self.node().spec_kind() == SyntaxKind::ObjectTypeExtension,
    {
    }

    /// The view of a node, if the node is of this kind.
    pub fn cast(node: SyntaxNode<'a>) -> (r: Option<ObjectTypeExtension<'a>>)
        ensures
            r is Some <==> node.spec_kind() == SyntaxKind::ObjectTypeExtension,
            r matches Some(x) ==> x.node() == node,
    {
        if node.kind() == SyntaxKind::ObjectTypeExtension {
            Some(ObjectTypeExtension { syntax: node })
        } else {
            None
        }
    }

    pub fn syntax(&self) -> (r: SyntaxNode<'a>)
        ensures
            r == self.node(),
    {
        self.syntax
    }

    /// The first Name among the children.
    pub fn name(&self) -> (r: Option<Name<'a>>)
        ensures
            r is Some <==> self.node().spec_child(SyntaxKind::Name) is Some,
            r matches Some(x) ==> Some(x.node()) == self.node().spec_child(SyntaxKind::Name),
    {
        match self.syntax.child(SyntaxKind::Name) {
            Some(n) => Some(Name { syntax: n }),
            None => None,
        }
    }

    /// The first ImplementsInterfaces among the children.
    pub fn implements_interfaces(&self) -> (r: Option<ImplementsInterfaces<'a>>)
        ensures
            r is Some <==> self.node().spec_child(SyntaxKind::ImplementsInterfaces) is Some,
            r matches Some(x) ==> Some(x.node()) == self.node().spec_child(
                SyntaxKind::ImplementsInterfaces,
            ),
    {
        match self.syntax.child(SyntaxKind::ImplementsInterfaces) {
            Some(n) => Some(ImplementsInterfaces { syntax: n }),
            None => None,
        }
    }

    /// The first Directives among the children.
    pub fn directives(&self) -> (r: Option<Directives<'a>>)
        ensures
            r is Some <==> self.node().spec_child(SyntaxKind::Directives) is Some,
            r matches Some(x) ==> Some(x.node()) == self.node().spec_child(SyntaxKind::Directives),
    {
        match self.syntax.child(SyntaxKind::Directives) {
            Some(n) => Some(Directives { syntax: n }),
            None => None,
        }
    }

    /// The first FieldsDefinition among the children.
    pub fn fields_definition(&self) -> (r: Option<FieldsDefinition<'a>>)
        ensures
            r is Some <==> self.node().spec_child(SyntaxKind::FieldsDefinition) is Some,
            r matches Some(x) ==> Some(x.node()) == self.node().spec_child(
                SyntaxKind::FieldsDefinition,
            ),
    {
        match self.syntax.child(SyntaxKind::FieldsDefinition) {
            Some(n) => Some(FieldsDefinition { syntax: n }),
            None => None,
        }
    }
}

impl<'a> InterfaceTypeExtension<'a> {
    /// The node that is viewed.
    pub closed spec fn node(&self) -> SyntaxNode<'a> {
        self.syntax
    }

    #[verifier::type_invariant]
    pub closed spec fn inv(self) -> bool {
        self.syntax.spec_kind() == SyntaxKind::InterfaceTypeExtension
    }

    /// The node that is viewed is of the kind of the view.
    pub proof fn lemma_kind(&self)
        requires
            self.inv(),
        ensures
            self.node().spec_kind() == SyntaxKind::InterfaceTypeExtension,
    {
    }

    /// The view of a node, if the node is of this kind.
    pub fn cast(node: SyntaxNode<'a>) -> (r: Option<InterfaceTypeExtension<'a>>)
        ensures
            r is Some <==> node.spec_kind() == SyntaxKind::InterfaceTypeExtension,
            r matches Some(x) ==> x.node() == node,
    {
        if node.kind() == SyntaxKind::InterfaceTypeExtension {
            Some(InterfaceTypeExtension { syntax: node })
        } else {
            None
        }
    }

    pub fn syntax(&self) -> (r: SyntaxNode<'a>)
        ensures
            r == self.node(),
    {
        self.syntax
    }

    /// The first Name among the children.
    pub fn name(&self) -> (r: Option<Name<'a>>)
        ensures
            r is Some <==> self.node().spec_child(SyntaxKind::Name) is Some,
            r matches Some(x) ==> Some(x.node()) == self.node().spec_child(SyntaxKind::Name),
    {
        match self.syntax.child(SyntaxKind::Name) {
            Some(n) => Some(Name { syntax: n }),
            None => None,
        }
    }

    /// The first ImplementsInterfaces among the children.
    pub fn implements_interfaces(&self) -> (r: Option<ImplementsInterfaces<'a>>)
        ensures
            r is Some <==> self.node().spec_child(SyntaxKind::ImplementsInterfaces) is Some,
            r matches Some(x) ==> Some(x.node()) == self.node().spec_child(
                SyntaxKind::ImplementsInterfaces,
            ),
    {
        match self.syntax.child(SyntaxKind::ImplementsInterfaces) {
            Some(n) => Some(ImplementsInterfaces { syntax: n }),
            None => None,
        }
    }

    /// The first Directives among the children.
    pub fn directives(&self) -> (r: Option<Directives<'a>>)
        ensures
            r is Some <==> self.node().spec_child(SyntaxKind::Directives) is Some,
            r matches Some(x) ==> Some(x.node()) == self.node().spec_child(SyntaxKind::Directives),
    {
        match self.syntax.child(SyntaxKind::Directives) {
            Some(n) => Some(Directives { syntax: n }),
            None => None,
        }
    }

    /// The first FieldsDefinition among the children.
    pub fn fields_definition(&self) -> (r: Option<FieldsDefinition<'a>>)
        ensures
            r is Some <==> self.node().spec_child(SyntaxKind::FieldsDefinition) is Some,
            r matches Some(x) ==> Some(x.node()) == self.node().spec_child(
                SyntaxKind::FieldsDefinition,
            ),
    {
        match self.syntax.child(SyntaxKind::FieldsDefinition) {
            Some(n) => Some(FieldsDefinition { syntax: n }),
            None => None,
        }
    }
}

impl<'a> UnionTypeExtension<'a> {
    /// The node that is viewed.
    pub closed spec fn node(&self) -> SyntaxNode<'a> {
        self.syntax
    }

    #[verifier::type_invariant]
    pub closed spec fn inv(self) -> bool {
        self.syntax.spec_kind() == SyntaxKind::UnionTypeExtension
    }

    /// The node that is viewed is of the kind of the view.
    pub proof fn lemma_kind(&self)
        requires
            self.inv(),
        ensures
            self.node().spec_kind() == SyntaxKind::UnionTypeExtension,
    {
    }

    /// The view of a node, if the node is of this kind.
    pub fn cast(node: SyntaxNode<'a>) -> (r: Option<UnionTypeExtension<'a>>)
        ensures
            r is Some <==> node.spec_kind() == SyntaxKind::UnionTypeExtension,
            r matches Some(x) ==> x.node() == node,
    {
        if node.kind() == SyntaxKind::UnionTypeExtension {
            Some(UnionTypeExtension { syntax: node })
        } else {
            None
        }
    }

    pub fn syntax(&self) -> (r: SyntaxNode<'a>)
        ensures
            r == self.node(),
    {
        self.syntax
    }

    /// The first Name among the children.
    pub fn name(&self) -> (r: Option<Name<'a>>)
        ensures
            r is Some <==> self.node().spec_child(SyntaxKind::Name) is Some,
            r matches Some(x) ==> Some(x.node()) == self.node().spec_child(SyntaxKind::Name),
    {
        match self.syntax.child(SyntaxKind::Name) {
            Some(n) => Some(Name { syntax: n }),
            None => None,
        }
    }

    /// The first Directives among the children.
    pub fn directives(&self) -> (r: Option<Directives<'a>>)
        ensures
            r is Some <==> self.node().spec_child(SyntaxKind::Directives) is Some,
            r matches Some(x) ==> Some(x.node()) == self.node().spec_child(SyntaxKind::Directives),
    {
        match self.syntax.child(SyntaxKind::Directives) {
            Some(n) => Some(Directives { syntax: n }),
            None => None,
        }
    }

    /// The first UnionMemberTypes among the children.
    pub fn union_member_types(&self) -> (r: Option<UnionMemberTypes<'a>>)
        ensures
            r is Some <==> self.node().spec_child(SyntaxKind::UnionMemberTypes) is Some,
            r matches Some(x) ==> Some(x.node()) == self.node().spec_child(
                SyntaxKind::UnionMemberTypes,
            ),
    {
        match self.syntax.child(SyntaxKind::UnionMemberTypes) {
            Some(n) => Some(UnionMemberTypes { syntax: n }),
            None => None,
        }
    }
}

impl<'a> EnumTypeExtension<'a> {
    /// The node that is viewed.
    pub closed spec fn node(&self) -> SyntaxNode<'a> {
        self.syntax
    }

    #[verifier::type_invariant]
    pub closed spec fn inv(self) -> bool {
        self.syntax.spec_kind() == SyntaxKind::EnumTypeExtension
    }

    /// The node that is viewed is of the kind of the view.
    pub proof fn lemma_kind(&self)
        requires
            self.inv(),
        ensures
            self.node().spec_kind() == SyntaxKind::EnumTypeExtension,
    {
    }

    /// The view of a node, if the node is of this kind.
    pub fn cast(node: SyntaxNode<'a>) -> (r: Option<EnumTypeExtension<'a>>)
        ensures
            r is Some <==> node.spec_kind() == SyntaxKind::EnumTypeExtension,
            r matches Some(x) ==> x.node() == node,
    {
        if node.kind() == SyntaxKind::EnumTypeExtension {
            Some(EnumTypeExtension { syntax: node })
        } else {
            None
        }
    }

    pub fn syntax(&self) -> (r: SyntaxNode<'a>)
        ensures
            r == self.node(),
    {
        self.syntax
    }

    /// The first Name among the children.
    pub fn name(&self) -> (r: Option<Name<'a>>)
        ensures
            r is Some <==> self.node().spec_child(SyntaxKind::Name) is Some,
            r matches Some(x) ==> Some(x.node()) == self.node().spec_child(SyntaxKind::Name),
    {
        match self.syntax.child(SyntaxKind::Name) {
            Some(n) => Some(Name { syntax: n }),
            None => None,
        }
    }

    /// The first Directives among the children.
    pub fn directives(&self) -> (r: Option<Directives<'a>>)
        ensures
            r is Some <==> self.node().spec_child(SyntaxKind::Directives) is Some,
            r matches Some(x) ==> Some(x.node()) == self.node().spec_child(SyntaxKind::Directives),
    {
        match self.syntax.child(SyntaxKind::Directives) {
            Some(n) => Some(Directives { syntax: n }),
            None => None,
        }
    }

    /// The first EnumValuesDefinition among the children.
    pub fn enum_values_definition(&self) -> (r: Option<EnumValuesDefinition<'a>>)
        ensures
            r is Some <==> self.node().spec_child(SyntaxKind::EnumValuesDefinition) is Some,
            r matches Some(x) ==> Some(x.node()) == self.node().spec_child(
                SyntaxKind::EnumValuesDefinition,
            ),
    {
        match self.syntax.child(SyntaxKind::EnumValuesDefinition) {
            Some(n) => Some(EnumValuesDefinition { syntax: n }),
            None => None,
        }
    }
}

impl<'a> InputObjectTypeExtension<'a> {
    /// The node that is viewed.
    pub closed spec fn node(&self) -> SyntaxNode<'a> {
        self.syntax
    }

    #[verifier::type_invariant]
    pub closed spec fn inv(self) -> bool {
        self.syntax.spec_kind() == SyntaxKind::InputObjectTypeExtension
    }

    /// The node that is viewed is of the kind of the view.
    pub proof fn lemma_kind(&self)
        requires
            self.inv(),
        ensures
            self.node().spec_kind() == SyntaxKind::InputObjectTypeExtension,
    {
    }

    /// The view of a node, if the node is of this kind.
    pub fn cast(node: SyntaxNode<'a>) -> (r: Option<InputObjectTypeExtension<'a>>)
        ensures
            r is Some <==> node.spec_kind() == SyntaxKind::InputObjectTypeExtension,
            r matches Some(x) ==> x.node() == node,
    {
        if node.kind() == SyntaxKind::InputObjectTypeExtension {
            Some(InputObjectTypeExtension { syntax: node })
        } else {
            None
        }
    }

    pub fn syntax(&self) -> (r: SyntaxNode<'a>)
        ensures
            r == self.node(),
    {
        self.syntax
    }

    /// The first Name among the children.
    pub fn name(&self) -> (r: Option<Name<'a>>)
        ensures
            r is Some <==> self.node().spec_child(SyntaxKind::Name) is Some,
            r matches Some(x) ==> Some(x.node()) == self.node().spec_child(SyntaxKind::Name),
    {
        match self.syntax.child(SyntaxKind::Name) {
            Some(n) => Some(Name { syntax: n }),
            None => None,
        }
    }

    /// The first Directives among the children.
    pub fn directives(&self) -> (r: Option<Directives<'a>>)
        ensures
            r is Some <==> self.node().spec_child(SyntaxKind::Directives) is Some,
            r matches Some(x) ==> Some(x.node()) == self.node().spec_child(SyntaxKind::Directives),
    {
        match self.syntax.child(SyntaxKind::Directives) {
            Some(n) => Some(Directives { syntax: n }),
            None => None,
        }
    }

    /// The first InputFieldsDefinition among the children.
    pub fn input_fields_definition(&self) -> (r: Option<InputFieldsDefinition<'a>>)
        ensures
            r is Some <==> self.node().spec_child(SyntaxKind::InputFieldsDefinition) is Some,
            r matches Some(x) ==> Some(x.node()) == self.node().spec_child(
                SyntaxKind::InputFieldsDefinition,
            ),
    {
        match self.syntax.child(SyntaxKind::InputFieldsDefinition) {
            Some(n) => Some(InputFieldsDefinition { syntax: n }),
            None => None,
        }
    }
}

impl<'a> Definition<'a> {
    /// The node that is viewed.
    pub open spec fn node(&self) -> SyntaxNode<'a> {
        match self {
            Definition::OperationDefinition(x) => x.node(),
            Definition::FragmentDefinition(x) => x.node(),
            Definition::DirectiveDefinition(x) => x.node(),
            Definition::SchemaDefinition(x) => x.node(),
            Definition::ScalarTypeDefinition(x) => x.node(),
            Definition::ObjectTypeDefinition(x) => x.node(),
            Definition::InterfaceTypeDefinition(x) => x.node(),
            Definition::UnionTypeDefinition(x) => x.node(),
            Definition::EnumTypeDefinition(x) => x.node(),
            Definition::InputObjectTypeDefinition(x) => x.node(),
            Definition::SchemaExtension(x) => x.node(),
            Definition::ScalarTypeExtension(x) => x.node(),
            Definition::ObjectTypeExtension(x) => x.node(),
            Definition::InterfaceTypeExtension(x) => x.node(),
            Definition::UnionTypeExtension(x) => x.node(),
            Definition::EnumTypeExtension(x) => x.node(),
            Definition::InputObjectTypeExtension(x) => x.node(),
        }
    }

    /// The view of a node, if the node is of one of the kinds.
    pub fn cast(node: SyntaxNode<'a>) -> (r: Option<Definition<'a>>)
        ensures
            r is Some <==> node.spec_kind().is_in(KindSet::Definition),
            r matches Some(x) ==> x.node() == node,
    {
        match node.kind() {
            SyntaxKind::OperationDefinition => Some(
                Definition::OperationDefinition(OperationDefinition { syntax: node }),
            ),
            SyntaxKind::FragmentDefinition => Some(
                Definition::FragmentDefinition(FragmentDefinition { syntax: node }),
            ),
            SyntaxKind::DirectiveDefinition => Some(
                Definition::DirectiveDefinition(DirectiveDefinition { syntax: node }),
            ),
            SyntaxKind::SchemaDefinition => Some(
                Definition::SchemaDefinition(SchemaDefinition { syntax: node }),
            ),
            SyntaxKind::ScalarTypeDefinition => Some(
                Definition::ScalarTypeDefinition(ScalarTypeDefinition { syntax: node }),
            ),
            SyntaxKind::ObjectTypeDefinition => Some(
                Definition::ObjectTypeDefinition(ObjectTypeDefinition { syntax: node }),
            ),
            SyntaxKind::InterfaceTypeDefinition => Some(
                Definition::InterfaceTypeDefinition(InterfaceTypeDefinition { syntax: node }),
            ),
            SyntaxKind::UnionTypeDefinition => Some(
                Definition::UnionTypeDefinition(UnionTypeDefinition { syntax: node }),
            ),
            SyntaxKind::EnumTypeDefinition => Some(
                Definition::EnumTypeDefinition(EnumTypeDefinition { syntax: node }),
            ),
            SyntaxKind::InputObjectTypeDefinition => Some(
                Definition::InputObjectTypeDefinition(InputObjectTypeDefinition { syntax: node }),
            ),
            SyntaxKind::SchemaExtension => Some(
                Definition::SchemaExtension(SchemaExtension { syntax: node }),
            ),
            SyntaxKind::ScalarTypeExtension => Some(
                Definition::ScalarTypeExtension(ScalarTypeExtension { syntax: node }),
            ),
            SyntaxKind::ObjectTypeExtension => Some(
                Definition::ObjectTypeExtension(ObjectTypeExtension { syntax: node }),
            ),
            SyntaxKind::InterfaceTypeExtension => Some(
                Definition::InterfaceTypeExtension(InterfaceTypeExtension { syntax: node }),
            ),
            SyntaxKind::UnionTypeExtension => Some(
                Definition::UnionTypeExtension(UnionTypeExtension { syntax: node }),
            ),
            SyntaxKind::EnumTypeExtension => Some(
                Definition::EnumTypeExtension(EnumTypeExtension { syntax: node }),
            ),
            SyntaxKind::InputObjectTypeExtension => Some(
                Definition::InputObjectTypeExtension(InputObjectTypeExtension { syntax: node }),
            ),
            _ => None,
        }
    }

    pub fn syntax(&self) -> (r: SyntaxNode<'a>)
        ensures
            r == self.node(),
    {
        match self {
            Definition::OperationDefinition(x) => x.syntax(),
            Definition::FragmentDefinition(x) => x.syntax(),
            Definition::DirectiveDefinition(x) => x.syntax(),
            Definition::SchemaDefinition(x) => x.syntax(),
            Definition::ScalarTypeDefinition(x) => x.syntax(),
            Definition::ObjectTypeDefinition(x) => x.syntax(),
            Definition::InterfaceTypeDefinition(x) => x.syntax(),
            Definition::UnionTypeDefinition(x) => x.syntax(),
            Definition::EnumTypeDefinition(x) => x.syntax(),
            Definition::InputObjectTypeDefinition(x) => x.syntax(),
            Definition::SchemaExtension(x) => x.syntax(),
            Definition::ScalarTypeExtension(x) => x.syntax(),
            Definition::ObjectTypeExtension(x) => x.syntax(),
            Definition::InterfaceTypeExtension(x) => x.syntax(),
            Definition::UnionTypeExtension(x) => x.syntax(),
            Definition::EnumTypeExtension(x) => x.syntax(),
            Definition::InputObjectTypeExtension(x) => x.syntax(),
        }
    }
}

/// The views of the children of `parent` that belong to the group, in
/// document order.
pub fn definition_views<'a>(parent: SyntaxNode<'a>) -> (r: Vec<Definition<'a>>)
    ensures
        r@.len() == parent.spec_among(KindSet::Definition).len(),
        forall|j: int|
            0 <= j < r@.len() ==> (#[trigger] r@[j]).node() == parent.spec_among(
                KindSet::Definition,
            )[j],
{
    let nodes = parent.among(KindSet::Definition);
    let mut r: Vec<Definition<'a>> = Vec::new();
    let mut j: usize = 0;
    while j < nodes.len()
        invariant
            j <= nodes@.len(),
            r@.len() == j,
            forall|k: int|
                0 <= k < nodes@.len() ==> (#[trigger] nodes@[k]).spec_kind().is_in(
                    KindSet::Definition,
                ),
            forall|k: int| 0 <= k < j ==> (#[trigger] r@[k]).node() == nodes@[k],
        decreases nodes@.len() - j,
    {
        match Definition::cast(nodes[j]) {
            Some(x) => {
                r.push(x);
            },
            None => {},
        }
        j = j + 1;
    }
    r
}

impl<'a> Selection<'a> {
    /// The node that is viewed.
    pub open spec fn node(&self) -> SyntaxNode<'a> {
        match self {
            Selection::Field(x) => x.node(),
            Selection::FragmentSpread(x) => x.node(),
            Selection::InlineFragment(x) => x.node(),
        }
    }

    /// The view of a node, if the node is of one of the kinds.
    pub fn cast(node: SyntaxNode<'a>) -> (r: Option<Selection<'a>>)
        ensures
            r is Some <==> node.spec_kind().is_in(KindSet::Selection),
            r matches Some(x) ==> x.node() == node,
    {
        match node.kind() {
            SyntaxKind::Field => Some(Selection::Field(Field { syntax: node })),
            SyntaxKind::FragmentSpread => Some(
                Selection::FragmentSpread(FragmentSpread { syntax: node }),
            ),
            SyntaxKind::InlineFragment => Some(
                Selection::InlineFragment(InlineFragment { syntax: node }),
            ),
            _ => None,
        }
    }

    pub fn syntax(&self) -> (r: SyntaxNode<'a>)
        ensures
            r == self.node(),
    {
        match self {
            Selection::Field(x) => x.syntax(),
            Selection::FragmentSpread(x) => x.syntax(),
            Selection::InlineFragment(x) => x.syntax(),
        }
    }
}

/// The views of the children of `parent` that belong to the group, in
/// document order.
pub fn selection_views<'a>(parent: SyntaxNode<'a>) -> (r: Vec<Selection<'a>>)
    ensures
        r@.len() == parent.spec_among(KindSet::Selection).len(),
        forall|j: int|
            0 <= j < r@.len() ==> (#[trigger] r@[j]).node() == parent.spec_among(
                KindSet::Selection,
            )[j],
{
    let nodes = parent.among(KindSet::Selection);
    let mut r: Vec<Selection<'a>> = Vec::new();
    let mut j: usize = 0;
    while j < nodes.len()
        invariant
            j <= nodes@.len(),
            r@.len() == j,
            forall|k: int|
                0 <= k < nodes@.len() ==> (#[trigger] nodes@[k]).spec_kind().is_in(
                    KindSet::Selection,
                ),
            forall|k: int| 0 <= k < j ==> (#[trigger] r@[k]).node() == nodes@[k],
        decreases nodes@.len() - j,
    {
        match Selection::cast(nodes[j]) {
            Some(x) => {
                r.push(x);
            },
            None => {},
        }
        j = j + 1;
    }
    r
}

impl<'a> Value<'a> {
    /// The node that is viewed.
    pub open spec fn node(&self) -> SyntaxNode<'a> {
        match self {
            Value::Variable(x) => x.node(),
            Value::StringValue(x) => x.node(),
            Value::FloatValue(x) => x.node(),
            Value::IntValue(x) => x.node(),
            Value::BooleanValue(x) => x.node(),
            Value::NullValue(x) => x.node(),
            Value::EnumValue(x) => x.node(),
            Value::ListValue(x) => x.node(),
            Value::ObjectValue(x) => x.node(),
        }
    }

    /// The view of a node, if the node is of one of the kinds.
    pub fn cast(node: SyntaxNode<'a>) -> (r: Option<Value<'a>>)
        ensures
            r is Some <==> node.spec_kind().is_in(KindSet::Value),
            r matches Some(x) ==> x.node() == node,
    {
        match node.kind() {
            SyntaxKind::Variable => Some(Value::Variable(Variable { syntax: node })),
            SyntaxKind::StringValue => Some(Value::StringValue(StringValue { syntax: node })),
            SyntaxKind::FloatValue => Some(Value::FloatValue(FloatValue { syntax: node })),
            SyntaxKind::IntValue => Some(Value::IntValue(IntValue { syntax: node })),
            SyntaxKind::BooleanValue => Some(Value::BooleanValue(BooleanValue { syntax: node })),
            SyntaxKind::NullValue => Some(Value::NullValue(NullValue { syntax: node })),
            SyntaxKind::EnumValue => Some(Value::EnumValue(EnumValue { syntax: node })),
            SyntaxKind::ListValue => Some(Value::ListValue(ListValue { syntax: node })),
            SyntaxKind::ObjectValue => Some(Value::ObjectValue(ObjectValue { syntax: node })),
            _ => None,
        }
    }

    pub fn syntax(&self) -> (r: SyntaxNode<'a>)
        ensures
            r == self.node(),
    {
        match self {
            Value::Variable(x) => x.syntax(),
            Value::StringValue(x) => x.syntax(),
            Value::FloatValue(x) => x.syntax(),
            Value::IntValue(x) => x.syntax(),
            Value::BooleanValue(x) => x.syntax(),
            Value::NullValue(x) => x.syntax(),
            Value::EnumValue(x) => x.syntax(),
            Value::ListValue(x) => x.syntax(),
            Value::ObjectValue(x) => x.syntax(),
        }
    }
}

/// The views of the children of `parent` that belong to the group, in
/// document order.
pub fn value_views<'a>(parent: SyntaxNode<'a>) -> (r: Vec<Value<'a>>)
    ensures
        r@.len() == parent.spec_among(KindSet::Value).len(),
        forall|j: int|
            0 <= j < r@.len() ==> (#[trigger] r@[j]).node() == parent.spec_among(
                KindSet::Value,
            )[j],
{
    let nodes = parent.among(KindSet::Value);
    let mut r: Vec<Value<'a>> = Vec::new();
    let mut j: usize = 0;
    while j < nodes.len()
        invariant
            j <= nodes@.len(),
            r@.len() == j,
            forall|k: int|
                0 <= k < nodes@.len() ==> (#[trigger] nodes@[k]).spec_kind().is_in(
                    KindSet::Value,
                ),
            forall|k: int| 0 <= k < j ==> (#[trigger] r@[k]).node() == nodes@[k],
        decreases nodes@.len() - j,
    {
        match Value::cast(nodes[j]) {
            Some(x) => {
                r.push(x);
            },
            None => {},
        }
        j = j + 1;
    }
    r
}

impl<'a> Type<'a> {
    /// The node that is viewed.
    pub open spec fn node(&self) -> SyntaxNode<'a> {
        match self {
            Type::NamedType(x) => x.node(),
            Type::ListType(x) => x.node(),
            Type::NonNullType(x) => x.node(),
        }
    }

    /// The view of a node, if the node is of one of the kinds.
    pub fn cast(node: SyntaxNode<'a>) -> (r: Option<Type<'a>>)
        ensures
            r is Some <==> node.spec_kind().is_in(KindSet::Type),
            r matches Some(x) ==> x.node() == node,
    {
        match node.kind() {
            SyntaxKind::NamedType => Some(Type::NamedType(NamedType { syntax: node })),
            SyntaxKind::ListType => Some(Type::ListType(ListType { syntax: node })),
            SyntaxKind::NonNullType => Some(Type::NonNullType(NonNullType { syntax: node })),
            _ => None,
        }
    }

    pub fn syntax(&self) -> (r: SyntaxNode<'a>)
        ensures
            r == self.node(),
    {
        match self {
            Type::NamedType(x) => x.syntax(),
            Type::ListType(x) => x.syntax(),
            Type::NonNullType(x) => x.syntax(),
        }
    }
}

/// The views of the children of `parent` that belong to the group, in
/// document order.
pub fn type_views<'a>(parent: SyntaxNode<'a>) -> (r: Vec<Type<'a>>)
    ensures
        r@.len() == parent.spec_among(KindSet::Type).len(),
        forall|j: int|
            0 <= j < r@.len() ==> (#[trigger] r@[j]).node() == parent.spec_among(
                KindSet::Type,
            )[j],
{
    let nodes = parent.among(KindSet::Type);
    let mut r: Vec<Type<'a>> = Vec::new();
    let mut j: usize = 0;
    while j < nodes.len()
        invariant
            j <= nodes@.len(),
            r@.len() == j,
            forall|k: int|
                0 <= k < nodes@.len() ==> (#[trigger] nodes@[k]).spec_kind().is_in(
                    KindSet::Type,
                ),
            forall|k: int| 0 <= k < j ==> (#[trigger] r@[k]).node() == nodes@[k],
        decreases nodes@.len() - j,
    {
        match Type::cast(nodes[j]) {
            Some(x) => {
                r.push(x);
            },
            None => {},
        }
        j = j + 1;
    }
    r
}

/// A parsed document: the typed view of the root of a tree. It owns the
/// tree.
pub struct Document {
    tree: SyntaxTree,
}

impl Document {
    /// The tree of the document.
    pub closed spec fn tree(&self) -> SyntaxTree {
        self.tree
    }

    pub(crate) fn of(tree: SyntaxTree) -> (d: Document)
        ensures
            d.tree() == tree,
    {
        Document { tree }
    }

    /// The root node.
    pub fn syntax(&self) -> (r: SyntaxNode<'_>)
        ensures
            r.tree() == &self.tree(),
            r.index() == 0,
    {
        self.tree.root()
    }

    /// The tree of the document.
    pub fn syntax_tree(&self) -> (r: &SyntaxTree)
        ensures
            *r == self.tree(),
    {
        &self.tree
    }

    /// The definitions of the document, in document order.
    pub fn definitions(&self) -> (r: Vec<Definition<'_>>)
        ensures
            r@.len() == self.tree().spec_root().spec_among(KindSet::Definition).len(),
            forall|j: int|
                0 <= j < r@.len() ==> (#[trigger] r@[j]).node()
                    == self.tree().spec_root().spec_among(KindSet::Definition)[j],
    {
        definition_views(self.tree.root())
    }
}

} // verus!
