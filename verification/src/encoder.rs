//! The encoder of `apollo_encoder`, which writes an operation as text. What
//! this module states of it is taken on trust from the encoder's source.

use crate::operation::OperationType;
use apollo_encoder::OperationDefinition as EncoderOperation;
use apollo_encoder::SelectionSet as EncoderSelections;
use vstd::prelude::*;

verus! {

/// `apollo_encoder::OperationDefinition`, of which Verus sees nothing but
/// what the functions below state.
#[verifier::external_type_specification]
#[verifier::external_body]
pub struct ExEncoderOperation(EncoderOperation);

/// `apollo_encoder::SelectionSet`, of which Verus sees nothing but what the
/// functions below state.
#[verifier::external_type_specification]
#[verifier::external_body]
pub struct ExEncoderSelections(EncoderSelections);

/// Whether a selection set of the encoder is plain: it holds nothing but
/// fields, each with a name and nothing else.
pub uninterp spec fn set_plain(s: EncoderSelections) -> bool;

/// The names of the fields that a selection set of the encoder holds.
pub uninterp spec fn set_fields(s: EncoderSelections) -> Seq<Seq<char>>;

/// Whether an operation of the encoder is plain: its selection set is
/// plain, its variables are of named types and have neither default values
/// nor directives, and its directives have no arguments. What a plain
/// operation holds is told by the names below.
pub uninterp spec fn op_plain(op: EncoderOperation) -> bool;

/// The kind of an operation of the encoder: 0 for a query, 1 for a
/// mutation, 2 for a subscription.
pub uninterp spec fn op_kind(op: EncoderOperation) -> int;

/// The name of an operation of the encoder.
pub uninterp spec fn op_name(op: EncoderOperation) -> Option<Seq<char>>;

/// The variables of an operation of the encoder, each with the name of its
/// type.
pub uninterp spec fn op_variables(op: EncoderOperation) -> Seq<
    (Seq<char>, Seq<char>),
>;

/// The names of the directives of an operation of the encoder.
pub uninterp spec fn op_directives(op: EncoderOperation) -> Seq<Seq<char>>;

/// The names of the fields that an operation of the encoder selects.
pub uninterp spec fn op_fields(op: EncoderOperation) -> Seq<Seq<char>>;

/// Whether an operation of the encoder is written in the short form.
pub uninterp spec fn op_shorthand(op: EncoderOperation) -> bool;

/// The text that the encoder writes for an operation with these parts.
pub uninterp spec fn rendered(
    kind: int,
    name: Option<Seq<char>>,
    variables: Seq<(Seq<char>, Seq<char>)>,
    directives: Seq<Seq<char>>,
    fields: Seq<Seq<char>>,
    shorthand: bool,
) -> Seq<char>;

/// The number of an operation type.
pub open spec fn kind_code(t: OperationType) -> int {
    match t {
        OperationType::Query => 0,
        OperationType::Mutation => 1,
        OperationType::Subscription => 2,
    }
}

/// Calls `SelectionSet::new`: a selection set without selections.
#[verifier::external_body]
pub(crate) fn new_selection_set() -> (s: EncoderSelections)
    ensures
        set_fields(s) == Seq::<Seq<char>>::empty(),
        set_plain(s),
{
    EncoderSelections::new()
}

/// Calls `SelectionSet::selection` with a field made by `Field::new`: the
/// field is added behind the others.
#[verifier::external_body]
pub(crate) fn add_field(s: &mut EncoderSelections, name: &str)
    ensures
        set_fields(*final(s)) == set_fields(*old(s)).push(name@),
        set_plain(*final(s)) == set_plain(*old(s)),
{
    s.selection(apollo_encoder::Selection::Field(apollo_encoder::Field::new(name.to_string())))
}

/// Calls `OperationDefinition::new`: an operation of the type with the
/// selection set, without a name, variables or directives, in the long form.
#[verifier::external_body]
pub(crate) fn new_operation(t: OperationType, s: EncoderSelections) -> (op: EncoderOperation)
    ensures
        op_kind(op) == kind_code(t),
        op_name(op) == None::<Seq<char>>,
        op_variables(op) == Seq::<(Seq<char>, Seq<char>)>::empty(),
        op_directives(op) == Seq::<Seq<char>>::empty(),
        op_fields(op) == set_fields(s),
        op_shorthand(op) == false,
        op_plain(op) == set_plain(s),
{
    let kind = match t {
        OperationType::Query => apollo_encoder::OperationType::Query,
        OperationType::Mutation => apollo_encoder::OperationType::Mutation,
        OperationType::Subscription => apollo_encoder::OperationType::Subscription,
    };
    EncoderOperation::new(kind, s)
}

/// Calls `OperationDefinition::name`, which sets the name and leaves the
/// rest.
#[verifier::external_body]
pub(crate) fn set_name(op: &mut EncoderOperation, name: &str)
    ensures
        op_name(*final(op)) == Some(name@),
        op_kind(*final(op)) == op_kind(*old(op)),
        op_variables(*final(op)) == op_variables(*old(op)),
        op_directives(*final(op)) == op_directives(*old(op)),
        op_fields(*final(op)) == op_fields(*old(op)),
        op_shorthand(*final(op)) == op_shorthand(*old(op)),
        op_plain(*final(op)) == op_plain(*old(op)),
{
    op.name(Some(name.to_string()))
}

/// Calls `OperationDefinition::variable_definition` with a variable of a
/// named type, made by `VariableDefinition::new`: the variable is added
/// behind the others.
#[verifier::external_body]
pub(crate) fn add_variable(op: &mut EncoderOperation, name: &str, ty: &str)
    ensures
        op_variables(*final(op)) == op_variables(*old(op)).push((name@, ty@)),
        op_kind(*final(op)) == op_kind(*old(op)),
        op_name(*final(op)) == op_name(*old(op)),
        op_directives(*final(op)) == op_directives(*old(op)),
        op_fields(*final(op)) == op_fields(*old(op)),
        op_shorthand(*final(op)) == op_shorthand(*old(op)),
        op_plain(*final(op)) == op_plain(*old(op)),
{
    let ty = apollo_encoder::Type_::NamedType { name: ty.to_string() };
    op.variable_definition(apollo_encoder::VariableDefinition::new(name.to_string(), ty))
}

/// Calls `OperationDefinition::directive` with a directive without
/// arguments, made by `Directive::new`: the directive is added behind the
/// others.
#[verifier::external_body]
pub(crate) fn add_directive(op: &mut EncoderOperation, name: &str)
    ensures
        op_directives(*final(op)) == op_directives(*old(op)).push(name@),
        op_kind(*final(op)) == op_kind(*old(op)),
        op_name(*final(op)) == op_name(*old(op)),
        op_variables(*final(op)) == op_variables(*old(op)),
        op_fields(*final(op)) == op_fields(*old(op)),
        op_shorthand(*final(op)) == op_shorthand(*old(op)),
        op_plain(*final(op)) == op_plain(*old(op)),
{
    op.directive(apollo_encoder::Directive::new(name.to_string()))
}

/// Calls `OperationDefinition::shorthand`, which marks the operation as
/// written in the short form and leaves the rest.
#[verifier::external_body]
pub(crate) fn set_shorthand(op: &mut EncoderOperation)
    ensures
        op_shorthand(*final(op)) == true,
        op_kind(*final(op)) == op_kind(*old(op)),
        op_name(*final(op)) == op_name(*old(op)),
        op_variables(*final(op)) == op_variables(*old(op)),
        op_directives(*final(op)) == op_directives(*old(op)),
        op_fields(*final(op)) == op_fields(*old(op)),
        op_plain(*final(op)) == op_plain(*old(op)),
{
    op.shorthand()
}

/// Calls `to_string` on a plain operation of the encoder: the text that
/// the encoder writes for its parts.
#[verifier::external_body]
pub(crate) fn render(op: &EncoderOperation) -> (text: String)
    requires
        op_plain(*op),
    ensures
        text@ == rendered(
            op_kind(*op),
            op_name(*op),
            op_variables(*op),
            op_directives(*op),
            op_fields(*op),
            op_shorthand(*op),
        ),
{
    op.to_string()
}

} // verus!
