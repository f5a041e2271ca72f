//! The closed sets of kinds shared by the lexer, the tree builder and the
//! typed layer.

use vstd::prelude::*;

verus! {

/// Lexical category of a token.
#[derive(Clone, Copy, Debug, PartialEq, Eq, Structural)]
pub enum TokenKind {
    Whitespace,
    Comment,
    Comma,
    Bang,
    Dollar,
    Amp,
    Spread,
    Colon,
    Eq,
    At,
    LParen,
    RParen,
    LBracket,
    RBracket,
    LCurly,
    RCurly,
    Pipe,
    Name,
    StringValue,
    Int,
    Float,
    Error,
}

impl TokenKind {
    /// Whitespace, comments and commas carry no grammatical meaning.
    pub open spec fn is_trivia(self) -> bool {
        self == TokenKind::Whitespace || self == TokenKind::Comment || self == TokenKind::Comma
    }

    pub fn trivia(self) -> (r: bool)
        ensures
            r == self.is_trivia(),
    {
        self == TokenKind::Whitespace || self == TokenKind::Comment || self == TokenKind::Comma
    }

    /// The structural kind under which a token of this lexical kind stands
    /// in the tree, unless the grammar reads it as a keyword.
    pub open spec fn plain_kind(self) -> SyntaxKind {
        match self {
            TokenKind::Whitespace => SyntaxKind::Whitespace,
            TokenKind::Comment => SyntaxKind::Comment,
            TokenKind::Comma => SyntaxKind::Comma,
            TokenKind::Bang => SyntaxKind::Bang,
            TokenKind::Dollar => SyntaxKind::Dollar,
            TokenKind::Amp => SyntaxKind::Amp,
            TokenKind::Spread => SyntaxKind::Spread,
            TokenKind::Colon => SyntaxKind::Colon,
            TokenKind::Eq => SyntaxKind::Eq,
            TokenKind::At => SyntaxKind::At,
            TokenKind::LParen => SyntaxKind::LParen,
            TokenKind::RParen => SyntaxKind::RParen,
            TokenKind::LBracket => SyntaxKind::LBracket,
            TokenKind::RBracket => SyntaxKind::RBracket,
            TokenKind::LCurly => SyntaxKind::LCurly,
            TokenKind::RCurly => SyntaxKind::RCurly,
            TokenKind::Pipe => SyntaxKind::Pipe,
            TokenKind::Name => SyntaxKind::Ident,
            TokenKind::StringValue => SyntaxKind::String,
            TokenKind::Int => SyntaxKind::Int,
            TokenKind::Float => SyntaxKind::Float,
            TokenKind::Error => SyntaxKind::Error,
        }
    }

    pub fn to_syntax_kind(self) -> (r: SyntaxKind)
        ensures
            r == self.plain_kind(),
    {
        match self {
            TokenKind::Whitespace => SyntaxKind::Whitespace,
            TokenKind::Comment => SyntaxKind::Comment,
            TokenKind::Comma => SyntaxKind::Comma,
            TokenKind::Bang => SyntaxKind::Bang,
            TokenKind::Dollar => SyntaxKind::Dollar,
            TokenKind::Amp => SyntaxKind::Amp,
            TokenKind::Spread => SyntaxKind::Spread,
            TokenKind::Colon => SyntaxKind::Colon,
            TokenKind::Eq => SyntaxKind::Eq,
            TokenKind::At => SyntaxKind::At,
            TokenKind::LParen => SyntaxKind::LParen,
            TokenKind::RParen => SyntaxKind::RParen,
            TokenKind::LBracket => SyntaxKind::LBracket,
            TokenKind::RBracket => SyntaxKind::RBracket,
            TokenKind::LCurly => SyntaxKind::LCurly,
            TokenKind::RCurly => SyntaxKind::RCurly,
            TokenKind::Pipe => SyntaxKind::Pipe,
            TokenKind::Name => SyntaxKind::Ident,
            TokenKind::StringValue => SyntaxKind::String,
            TokenKind::Int => SyntaxKind::Int,
            TokenKind::Float => SyntaxKind::Float,
            TokenKind::Error => SyntaxKind::Error,
        }
    }
}

/// Structural kind of a token or a node of the tree. The token kinds come
/// first, then the keywords, then the nodes.
#[derive(Clone, Copy, Debug, PartialEq, Eq, Structural, PartialOrd, Ord, Hash)]
pub enum SyntaxKind {
    Whitespace,
    Comment,
    Comma,
    Bang,
    Dollar,
    Amp,
    Spread,
    Colon,
    Eq,
    At,
    LParen,
    RParen,
    LBracket,
    RBracket,
    LCurly,
    RCurly,
    Pipe,
    Ident,
    String,
    Int,
    Float,
    Error,
    QueryKw,
    MutationKw,
    SubscriptionKw,
    FragmentKw,
    OnKw,
    SchemaKw,
    ScalarKw,
    TypeKw,
    InterfaceKw,
    UnionKw,
    EnumKw,
    InputKw,
    DirectiveKw,
    ExtendKw,
    ImplementsKw,
    RepeatableKw,
    TrueKw,
    FalseKw,
    NullKw,
    Document,
    OperationDefinition,
    OperationType,
    Name,
    VariableDefinitions,
    VariableDefinition,
    Variable,
    DefaultValue,
    Directives,
    Directive,
    Arguments,
    Argument,
    SelectionSet,
    Field,
    Alias,
    FragmentSpread,
    InlineFragment,
    FragmentDefinition,
    FragmentName,
    TypeCondition,
    NamedType,
    ListType,
    NonNullType,
    StringValue,
    IntValue,
    FloatValue,
    BooleanValue,
    NullValue,
    EnumValue,
    ListValue,
    ObjectValue,
    ObjectField,
    Description,
    SchemaDefinition,
    RootOperationTypeDefinition,
    ScalarTypeDefinition,
    ObjectTypeDefinition,
    ImplementsInterfaces,
    FieldsDefinition,
    FieldDefinition,
    ArgumentsDefinition,
    InputValueDefinition,
    InterfaceTypeDefinition,
    UnionTypeDefinition,
    UnionMemberTypes,
    EnumTypeDefinition,
    EnumValuesDefinition,
    EnumValueDefinition,
    InputObjectTypeDefinition,
    InputFieldsDefinition,
    DirectiveDefinition,
    DirectiveLocations,
    DirectiveLocation,
    SchemaExtension,
    ScalarTypeExtension,
    ObjectTypeExtension,
    InterfaceTypeExtension,
    UnionTypeExtension,
    EnumTypeExtension,
    InputObjectTypeExtension,
}

impl SyntaxKind {
    /// The number under which the kind is handed to a green tree.
    pub open spec fn raw(self) -> u16 {
        match self {
            SyntaxKind::Whitespace => 0,
            SyntaxKind::Comment => 1,
            SyntaxKind::Comma => 2,
            SyntaxKind::Bang => 3,
            SyntaxKind::Dollar => 4,
            SyntaxKind::Amp => 5,
            SyntaxKind::Spread => 6,
            SyntaxKind::Colon => 7,
            SyntaxKind::Eq => 8,
            SyntaxKind::At => 9,
            SyntaxKind::LParen => 10,
            SyntaxKind::RParen => 11,
            SyntaxKind::LBracket => 12,
            SyntaxKind::RBracket => 13,
            SyntaxKind::LCurly => 14,
            SyntaxKind::RCurly => 15,
            SyntaxKind::Pipe => 16,
            SyntaxKind::Ident => 17,
            SyntaxKind::String => 18,
            SyntaxKind::Int => 19,
            SyntaxKind::Float => 20,
            SyntaxKind::Error => 21,
            SyntaxKind::QueryKw => 22,
            SyntaxKind::MutationKw => 23,
            SyntaxKind::SubscriptionKw => 24,
            SyntaxKind::FragmentKw => 25,
            SyntaxKind::OnKw => 26,
            SyntaxKind::SchemaKw => 27,
            SyntaxKind::ScalarKw => 28,
            SyntaxKind::TypeKw => 29,
            SyntaxKind::InterfaceKw => 30,
            SyntaxKind::UnionKw => 31,
            SyntaxKind::EnumKw => 32,
            SyntaxKind::InputKw => 33,
            SyntaxKind::DirectiveKw => 34,
            SyntaxKind::ExtendKw => 35,
            SyntaxKind::ImplementsKw => 36,
            SyntaxKind::RepeatableKw => 37,
            SyntaxKind::TrueKw => 38,
            SyntaxKind::FalseKw => 39,
            SyntaxKind::NullKw => 40,
            SyntaxKind::Document => 41,
            SyntaxKind::OperationDefinition => 42,
            SyntaxKind::OperationType => 43,
            SyntaxKind::Name => 44,
            SyntaxKind::VariableDefinitions => 45,
            SyntaxKind::VariableDefinition => 46,
            SyntaxKind::Variable => 47,
            SyntaxKind::DefaultValue => 48,
            SyntaxKind::Directives => 49,
            SyntaxKind::Directive => 50,
            SyntaxKind::Arguments => 51,
            SyntaxKind::Argument => 52,
            SyntaxKind::SelectionSet => 53,
            SyntaxKind::Field => 54,
            SyntaxKind::Alias => 55,
            SyntaxKind::FragmentSpread => 56,
            SyntaxKind::InlineFragment => 57,
            SyntaxKind::FragmentDefinition => 58,
            SyntaxKind::FragmentName => 59,
            SyntaxKind::TypeCondition => 60,
            SyntaxKind::NamedType => 61,
            SyntaxKind::ListType => 62,
            SyntaxKind::NonNullType => 63,
            SyntaxKind::StringValue => 64,
            SyntaxKind::IntValue => 65,
            SyntaxKind::FloatValue => 66,
            SyntaxKind::BooleanValue => 67,
            SyntaxKind::NullValue => 68,
            SyntaxKind::EnumValue => 69,
            SyntaxKind::ListValue => 70,
            SyntaxKind::ObjectValue => 71,
            SyntaxKind::ObjectField => 72,
            SyntaxKind::Description => 73,
            SyntaxKind::SchemaDefinition => 74,
            SyntaxKind::RootOperationTypeDefinition => 75,
            SyntaxKind::ScalarTypeDefinition => 76,
            SyntaxKind::ObjectTypeDefinition => 77,
            SyntaxKind::ImplementsInterfaces => 78,
            SyntaxKind::FieldsDefinition => 79,
            SyntaxKind::FieldDefinition => 80,
            SyntaxKind::ArgumentsDefinition => 81,
            SyntaxKind::InputValueDefinition => 82,
            SyntaxKind::InterfaceTypeDefinition => 83,
            SyntaxKind::UnionTypeDefinition => 84,
            SyntaxKind::UnionMemberTypes => 85,
            SyntaxKind::EnumTypeDefinition => 86,
            SyntaxKind::EnumValuesDefinition => 87,
            SyntaxKind::EnumValueDefinition => 88,
            SyntaxKind::InputObjectTypeDefinition => 89,
            SyntaxKind::InputFieldsDefinition => 90,
            SyntaxKind::DirectiveDefinition => 91,
            SyntaxKind::DirectiveLocations => 92,
            SyntaxKind::DirectiveLocation => 93,
            SyntaxKind::SchemaExtension => 94,
            SyntaxKind::ScalarTypeExtension => 95,
            SyntaxKind::ObjectTypeExtension => 96,
            SyntaxKind::InterfaceTypeExtension => 97,
            SyntaxKind::UnionTypeExtension => 98,
            SyntaxKind::EnumTypeExtension => 99,
            SyntaxKind::InputObjectTypeExtension => 100,
        }
    }

    pub fn to_raw(self) -> (r: u16)
        ensures
            r == self.raw(),
    {
        match self {
            SyntaxKind::Whitespace => 0,
            SyntaxKind::Comment => 1,
            SyntaxKind::Comma => 2,
            SyntaxKind::Bang => 3,
            SyntaxKind::Dollar => 4,
            SyntaxKind::Amp => 5,
            SyntaxKind::Spread => 6,
            SyntaxKind::Colon => 7,
            SyntaxKind::Eq => 8,
            SyntaxKind::At => 9,
            SyntaxKind::LParen => 10,
            SyntaxKind::RParen => 11,
            SyntaxKind::LBracket => 12,
            SyntaxKind::RBracket => 13,
            SyntaxKind::LCurly => 14,
            SyntaxKind::RCurly => 15,
            SyntaxKind::Pipe => 16,
            SyntaxKind::Ident => 17,
            SyntaxKind::String => 18,
            SyntaxKind::Int => 19,
            SyntaxKind::Float => 20,
            SyntaxKind::Error => 21,
            SyntaxKind::QueryKw => 22,
            SyntaxKind::MutationKw => 23,
            SyntaxKind::SubscriptionKw => 24,
            SyntaxKind::FragmentKw => 25,
            SyntaxKind::OnKw => 26,
            SyntaxKind::SchemaKw => 27,
            SyntaxKind::ScalarKw => 28,
            SyntaxKind::TypeKw => 29,
            SyntaxKind::InterfaceKw => 30,
            SyntaxKind::UnionKw => 31,
            SyntaxKind::EnumKw => 32,
            SyntaxKind::InputKw => 33,
            SyntaxKind::DirectiveKw => 34,
            SyntaxKind::ExtendKw => 35,
            SyntaxKind::ImplementsKw => 36,
            SyntaxKind::RepeatableKw => 37,
            SyntaxKind::TrueKw => 38,
            SyntaxKind::FalseKw => 39,
            SyntaxKind::NullKw => 40,
            SyntaxKind::Document => 41,
            SyntaxKind::OperationDefinition => 42,
            SyntaxKind::OperationType => 43,
            SyntaxKind::Name => 44,
            SyntaxKind::VariableDefinitions => 45,
            SyntaxKind::VariableDefinition => 46,
            SyntaxKind::Variable => 47,
            SyntaxKind::DefaultValue => 48,
            SyntaxKind::Directives => 49,
            SyntaxKind::Directive => 50,
            SyntaxKind::Arguments => 51,
            SyntaxKind::Argument => 52,
            SyntaxKind::SelectionSet => 53,
            SyntaxKind::Field => 54,
            SyntaxKind::Alias => 55,
            SyntaxKind::FragmentSpread => 56,
            SyntaxKind::InlineFragment => 57,
            SyntaxKind::FragmentDefinition => 58,
            SyntaxKind::FragmentName => 59,
            SyntaxKind::TypeCondition => 60,
            SyntaxKind::NamedType => 61,
            SyntaxKind::ListType => 62,
            SyntaxKind::NonNullType => 63,
            SyntaxKind::StringValue => 64,
            SyntaxKind::IntValue => 65,
            SyntaxKind::FloatValue => 66,
            SyntaxKind::BooleanValue => 67,
            SyntaxKind::NullValue => 68,
            SyntaxKind::EnumValue => 69,
            SyntaxKind::ListValue => 70,
            SyntaxKind::ObjectValue => 71,
            SyntaxKind::ObjectField => 72,
            SyntaxKind::Description => 73,
            SyntaxKind::SchemaDefinition => 74,
            SyntaxKind::RootOperationTypeDefinition => 75,
            SyntaxKind::ScalarTypeDefinition => 76,
            SyntaxKind::ObjectTypeDefinition => 77,
            SyntaxKind::ImplementsInterfaces => 78,
            SyntaxKind::FieldsDefinition => 79,
            SyntaxKind::FieldDefinition => 80,
            SyntaxKind::ArgumentsDefinition => 81,
            SyntaxKind::InputValueDefinition => 82,
            SyntaxKind::InterfaceTypeDefinition => 83,
            SyntaxKind::UnionTypeDefinition => 84,
            SyntaxKind::UnionMemberTypes => 85,
            SyntaxKind::EnumTypeDefinition => 86,
            SyntaxKind::EnumValuesDefinition => 87,
            SyntaxKind::EnumValueDefinition => 88,
            SyntaxKind::InputObjectTypeDefinition => 89,
            SyntaxKind::InputFieldsDefinition => 90,
            SyntaxKind::DirectiveDefinition => 91,
            SyntaxKind::DirectiveLocations => 92,
            SyntaxKind::DirectiveLocation => 93,
            SyntaxKind::SchemaExtension => 94,
            SyntaxKind::ScalarTypeExtension => 95,
            SyntaxKind::ObjectTypeExtension => 96,
            SyntaxKind::InterfaceTypeExtension => 97,
            SyntaxKind::UnionTypeExtension => 98,
            SyntaxKind::EnumTypeExtension => 99,
            SyntaxKind::InputObjectTypeExtension => 100,
        }
    }

    /// The kind that a number stands for, if it stands for one.
    pub open spec fn of_raw(raw: u16) -> Option<SyntaxKind> {
        if raw == 0 {
            Some(SyntaxKind::Whitespace)
        } else if raw == 1 {
            Some(SyntaxKind::Comment)
        } else if raw == 2 {
            Some(SyntaxKind::Comma)
        } else if raw == 3 {
            Some(SyntaxKind::Bang)
        } else if raw == 4 {
            Some(SyntaxKind::Dollar)
        } else if raw == 5 {
            Some(SyntaxKind::Amp)
        } else if raw == 6 {
            Some(SyntaxKind::Spread)
        } else if raw == 7 {
            Some(SyntaxKind::Colon)
        } else if raw == 8 {
            Some(SyntaxKind::Eq)
        } else if raw == 9 {
            Some(SyntaxKind::At)
        } else if raw == 10 {
            Some(SyntaxKind::LParen)
        } else if raw == 11 {
            Some(SyntaxKind::RParen)
        } else if raw == 12 {
            Some(SyntaxKind::LBracket)
        } else if raw == 13 {
            Some(SyntaxKind::RBracket)
        } else if raw == 14 {
            Some(SyntaxKind::LCurly)
        } else if raw == 15 {
            Some(SyntaxKind::RCurly)
        } else if raw == 16 {
            Some(SyntaxKind::Pipe)
        } else if raw == 17 {
            Some(SyntaxKind::Ident)
        } else if raw == 18 {
            Some(SyntaxKind::String)
        } else if raw == 19 {
            Some(SyntaxKind::Int)
        } else if raw == 20 {
            Some(SyntaxKind::Float)
        } else if raw == 21 {
            Some(SyntaxKind::Error)
        } else if raw == 22 {
            Some(SyntaxKind::QueryKw)
        } else if raw == 23 {
            Some(SyntaxKind::MutationKw)
        } else if raw == 24 {
            Some(SyntaxKind::SubscriptionKw)
        } else if raw == 25 {
            Some(SyntaxKind::FragmentKw)
        } else if raw == 26 {
            Some(SyntaxKind::OnKw)
        } else if raw == 27 {
            Some(SyntaxKind::SchemaKw)
        } else if raw == 28 {
            Some(SyntaxKind::ScalarKw)
        } else if raw == 29 {
            Some(SyntaxKind::TypeKw)
        } else if raw == 30 {
            Some(SyntaxKind::InterfaceKw)
        } else if raw == 31 {
            Some(SyntaxKind::UnionKw)
        } else if raw == 32 {
            Some(SyntaxKind::EnumKw)
        } else if raw == 33 {
            Some(SyntaxKind::InputKw)
        } else if raw == 34 {
            Some(SyntaxKind::DirectiveKw)
        } else if raw == 35 {
            Some(SyntaxKind::ExtendKw)
        } else if raw == 36 {
            Some(SyntaxKind::ImplementsKw)
        } else if raw == 37 {
            Some(SyntaxKind::RepeatableKw)
        } else if raw == 38 {
            Some(SyntaxKind::TrueKw)
        } else if raw == 39 {
            Some(SyntaxKind::FalseKw)
        } else if raw == 40 {
            Some(SyntaxKind::NullKw)
        } else if raw == 41 {
            Some(SyntaxKind::Document)
        } else if raw == 42 {
            Some(SyntaxKind::OperationDefinition)
        } else if raw == 43 {
            Some(SyntaxKind::OperationType)
        } else if raw == 44 {
            Some(SyntaxKind::Name)
        } else if raw == 45 {
            Some(SyntaxKind::VariableDefinitions)
        } else if raw == 46 {
            Some(SyntaxKind::VariableDefinition)
        } else if raw == 47 {
            Some(SyntaxKind::Variable)
        } else if raw == 48 {
            Some(SyntaxKind::DefaultValue)
        } else if raw == 49 {
            Some(SyntaxKind::Directives)
        } else if raw == 50 {
            Some(SyntaxKind::Directive)
        } else if raw == 51 {
            Some(SyntaxKind::Arguments)
        } else if raw == 52 {
            Some(SyntaxKind::Argument)
        } else if raw == 53 {
            Some(SyntaxKind::SelectionSet)
        } else if raw == 54 {
            Some(SyntaxKind::Field)
        } else if raw == 55 {
            Some(SyntaxKind::Alias)
        } else if raw == 56 {
            Some(SyntaxKind::FragmentSpread)
        } else if raw == 57 {
            Some(SyntaxKind::InlineFragment)
        } else if raw == 58 {
            Some(SyntaxKind::FragmentDefinition)
        } else if raw == 59 {
            Some(SyntaxKind::FragmentName)
        } else if raw == 60 {
            Some(SyntaxKind::TypeCondition)
        } else if raw == 61 {
            Some(SyntaxKind::NamedType)
        } else if raw == 62 {
            Some(SyntaxKind::ListType)
        } else if raw == 63 {
            Some(SyntaxKind::NonNullType)
        } else if raw == 64 {
            Some(SyntaxKind::StringValue)
        } else if raw == 65 {
            Some(SyntaxKind::IntValue)
        } else if raw == 66 {
            Some(SyntaxKind::FloatValue)
        } else if raw == 67 {
            Some(SyntaxKind::BooleanValue)
        } else if raw == 68 {
            Some(SyntaxKind::NullValue)
        } else if raw == 69 {
            Some(SyntaxKind::EnumValue)
        } else if raw == 70 {
            Some(SyntaxKind::ListValue)
        } else if raw == 71 {
            Some(SyntaxKind::ObjectValue)
        } else if raw == 72 {
            Some(SyntaxKind::ObjectField)
        } else if raw == 73 {
            Some(SyntaxKind::Description)
        } else if raw == 74 {
            Some(SyntaxKind::SchemaDefinition)
        } else if raw == 75 {
            Some(SyntaxKind::RootOperationTypeDefinition)
        } else if raw == 76 {
            Some(SyntaxKind::ScalarTypeDefinition)
        } else if raw == 77 {
            Some(SyntaxKind::ObjectTypeDefinition)
        } else if raw == 78 {
            Some(SyntaxKind::ImplementsInterfaces)
        } else if raw == 79 {
            Some(SyntaxKind::FieldsDefinition)
        } else if raw == 80 {
            Some(SyntaxKind::FieldDefinition)
        } else if raw == 81 {
            Some(SyntaxKind::ArgumentsDefinition)
        } else if raw == 82 {
            Some(SyntaxKind::InputValueDefinition)
        } else if raw == 83 {
            Some(SyntaxKind::InterfaceTypeDefinition)
        } else if raw == 84 {
            Some(SyntaxKind::UnionTypeDefinition)
        } else if raw == 85 {
            Some(SyntaxKind::UnionMemberTypes)
        } else if raw == 86 {
            Some(SyntaxKind::EnumTypeDefinition)
        } else if raw == 87 {
            Some(SyntaxKind::EnumValuesDefinition)
        } else if raw == 88 {
            Some(SyntaxKind::EnumValueDefinition)
        } else if raw == 89 {
            Some(SyntaxKind::InputObjectTypeDefinition)
        } else if raw == 90 {
            Some(SyntaxKind::InputFieldsDefinition)
        } else if raw == 91 {
            Some(SyntaxKind::DirectiveDefinition)
        } else if raw == 92 {
            Some(SyntaxKind::DirectiveLocations)
        } else if raw == 93 {
            Some(SyntaxKind::DirectiveLocation)
        } else if raw == 94 {
            Some(SyntaxKind::SchemaExtension)
        } else if raw == 95 {
            Some(SyntaxKind::ScalarTypeExtension)
        } else if raw == 96 {
            Some(SyntaxKind::ObjectTypeExtension)
        } else if raw == 97 {
            Some(SyntaxKind::InterfaceTypeExtension)
        } else if raw == 98 {
            Some(SyntaxKind::UnionTypeExtension)
        } else if raw == 99 {
            Some(SyntaxKind::EnumTypeExtension)
        } else if raw == 100 {
            Some(SyntaxKind::InputObjectTypeExtension)
        } else {
            None
        }
    }

    pub fn from_raw(raw: u16) -> (r: Option<SyntaxKind>)
        ensures
            r == SyntaxKind::of_raw(raw),
            r matches Some(k) ==> k.raw() == raw,
    {
        if raw == 0 {
            Some(SyntaxKind::Whitespace)
        } else if raw == 1 {
            Some(SyntaxKind::Comment)
        } else if raw == 2 {
            Some(SyntaxKind::Comma)
        } else if raw == 3 {
            Some(SyntaxKind::Bang)
        } else if raw == 4 {
            Some(SyntaxKind::Dollar)
        } else if raw == 5 {
            Some(SyntaxKind::Amp)
        } else if raw == 6 {
            Some(SyntaxKind::Spread)
        } else if raw == 7 {
            Some(SyntaxKind::Colon)
        } else if raw == 8 {
            Some(SyntaxKind::Eq)
        } else if raw == 9 {
            Some(SyntaxKind::At)
        } else if raw == 10 {
            Some(SyntaxKind::LParen)
        } else if raw == 11 {
            Some(SyntaxKind::RParen)
        } else if raw == 12 {
            Some(SyntaxKind::LBracket)
        } else if raw == 13 {
            Some(SyntaxKind::RBracket)
        } else if raw == 14 {
            Some(SyntaxKind::LCurly)
        } else if raw == 15 {
            Some(SyntaxKind::RCurly)
        } else if raw == 16 {
            Some(SyntaxKind::Pipe)
        } else if raw == 17 {
            Some(SyntaxKind::Ident)
        } else if raw == 18 {
            Some(SyntaxKind::String)
        } else if raw == 19 {
            Some(SyntaxKind::Int)
        } else if raw == 20 {
            Some(SyntaxKind::Float)
        } else if raw == 21 {
            Some(SyntaxKind::Error)
        } else if raw == 22 {
            Some(SyntaxKind::QueryKw)
        } else if raw == 23 {
            Some(SyntaxKind::MutationKw)
        } else if raw == 24 {
            Some(SyntaxKind::SubscriptionKw)
        } else if raw == 25 {
            Some(SyntaxKind::FragmentKw)
        } else if raw == 26 {
            Some(SyntaxKind::OnKw)
        } else if raw == 27 {
            Some(SyntaxKind::SchemaKw)
        } else if raw == 28 {
            Some(SyntaxKind::ScalarKw)
        } else if raw == 29 {
            Some(SyntaxKind::TypeKw)
        } else if raw == 30 {
            Some(SyntaxKind::InterfaceKw)
        } else if raw == 31 {
            Some(SyntaxKind::UnionKw)
        } else if raw == 32 {
            Some(SyntaxKind::EnumKw)
        } else if raw == 33 {
            Some(SyntaxKind::InputKw)
        } else if raw == 34 {
            Some(SyntaxKind::DirectiveKw)
        } else if raw == 35 {
            Some(SyntaxKind::ExtendKw)
        } else if raw == 36 {
            Some(SyntaxKind::ImplementsKw)
        } else if raw == 37 {
            Some(SyntaxKind::RepeatableKw)
        } else if raw == 38 {
            Some(SyntaxKind::TrueKw)
        } else if raw == 39 {
            Some(SyntaxKind::FalseKw)
        } else if raw == 40 {
            Some(SyntaxKind::NullKw)
        } else if raw == 41 {
            Some(SyntaxKind::Document)
        } else if raw == 42 {
            Some(SyntaxKind::OperationDefinition)
        } else if raw == 43 {
            Some(SyntaxKind::OperationType)
        } else if raw == 44 {
            Some(SyntaxKind::Name)
        } else if raw == 45 {
            Some(SyntaxKind::VariableDefinitions)
        } else if raw == 46 {
            Some(SyntaxKind::VariableDefinition)
        } else if raw == 47 {
            Some(SyntaxKind::Variable)
        } else if raw == 48 {
            Some(SyntaxKind::DefaultValue)
        } else if raw == 49 {
            Some(SyntaxKind::Directives)
        } else if raw == 50 {
            Some(SyntaxKind::Directive)
        } else if raw == 51 {
            Some(SyntaxKind::Arguments)
        } else if raw == 52 {
            Some(SyntaxKind::Argument)
        } else if raw == 53 {
            Some(SyntaxKind::SelectionSet)
        } else if raw == 54 {
            Some(SyntaxKind::Field)
        } else if raw == 55 {
            Some(SyntaxKind::Alias)
        } else if raw == 56 {
            Some(SyntaxKind::FragmentSpread)
        } else if raw == 57 {
            Some(SyntaxKind::InlineFragment)
        } else if raw == 58 {
            Some(SyntaxKind::FragmentDefinition)
        } else if raw == 59 {
            Some(SyntaxKind::FragmentName)
        } else if raw == 60 {
            Some(SyntaxKind::TypeCondition)
        } else if raw == 61 {
            Some(SyntaxKind::NamedType)
        } else if raw == 62 {
            Some(SyntaxKind::ListType)
        } else if raw == 63 {
            Some(SyntaxKind::NonNullType)
        } else if raw == 64 {
            Some(SyntaxKind::StringValue)
        } else if raw == 65 {
            Some(SyntaxKind::IntValue)
        } else if raw == 66 {
            Some(SyntaxKind::FloatValue)
        } else if raw == 67 {
            Some(SyntaxKind::BooleanValue)
        } else if raw == 68 {
            Some(SyntaxKind::NullValue)
        } else if raw == 69 {
            Some(SyntaxKind::EnumValue)
        } else if raw == 70 {
            Some(SyntaxKind::ListValue)
        } else if raw == 71 {
            Some(SyntaxKind::ObjectValue)
        } else if raw == 72 {
            Some(SyntaxKind::ObjectField)
        } else if raw == 73 {
            Some(SyntaxKind::Description)
        } else if raw == 74 {
            Some(SyntaxKind::SchemaDefinition)
        } else if raw == 75 {
            Some(SyntaxKind::RootOperationTypeDefinition)
        } else if raw == 76 {
            Some(SyntaxKind::ScalarTypeDefinition)
        } else if raw == 77 {
            Some(SyntaxKind::ObjectTypeDefinition)
        } else if raw == 78 {
            Some(SyntaxKind::ImplementsInterfaces)
        } else if raw == 79 {
            Some(SyntaxKind::FieldsDefinition)
        } else if raw == 80 {
            Some(SyntaxKind::FieldDefinition)
        } else if raw == 81 {
            Some(SyntaxKind::ArgumentsDefinition)
        } else if raw == 82 {
            Some(SyntaxKind::InputValueDefinition)
        } else if raw == 83 {
            Some(SyntaxKind::InterfaceTypeDefinition)
        } else if raw == 84 {
            Some(SyntaxKind::UnionTypeDefinition)
        } else if raw == 85 {
            Some(SyntaxKind::UnionMemberTypes)
        } else if raw == 86 {
            Some(SyntaxKind::EnumTypeDefinition)
        } else if raw == 87 {
            Some(SyntaxKind::EnumValuesDefinition)
        } else if raw == 88 {
            Some(SyntaxKind::EnumValueDefinition)
        } else if raw == 89 {
            Some(SyntaxKind::InputObjectTypeDefinition)
        } else if raw == 90 {
            Some(SyntaxKind::InputFieldsDefinition)
        } else if raw == 91 {
            Some(SyntaxKind::DirectiveDefinition)
        } else if raw == 92 {
            Some(SyntaxKind::DirectiveLocations)
        } else if raw == 93 {
            Some(SyntaxKind::DirectiveLocation)
        } else if raw == 94 {
            Some(SyntaxKind::SchemaExtension)
        } else if raw == 95 {
            Some(SyntaxKind::ScalarTypeExtension)
        } else if raw == 96 {
            Some(SyntaxKind::ObjectTypeExtension)
        } else if raw == 97 {
            Some(SyntaxKind::InterfaceTypeExtension)
        } else if raw == 98 {
            Some(SyntaxKind::UnionTypeExtension)
        } else if raw == 99 {
            Some(SyntaxKind::EnumTypeExtension)
        } else if raw == 100 {
            Some(SyntaxKind::InputObjectTypeExtension)
        } else {
            None
        }
    }

    /// Every kind is the kind that its number stands for.
    pub proof fn lemma_raw(self)
        ensures
            SyntaxKind::of_raw(self.raw()) == Some(self),
    {
    }

    /// The kind's name as it is printed.
    pub open spec fn name(self) -> Seq<char> {
        match self {
            SyntaxKind::Whitespace => "WHITESPACE"@,
            SyntaxKind::Comment => "COMMENT"@,
            SyntaxKind::Comma => "COMMA"@,
            SyntaxKind::Bang => "BANG"@,
            SyntaxKind::Dollar => "DOLLAR"@,
            SyntaxKind::Amp => "AMP"@,
            SyntaxKind::Spread => "SPREAD"@,
            SyntaxKind::Colon => "COLON"@,
            SyntaxKind::Eq => "EQ"@,
            SyntaxKind::At => "AT"@,
            SyntaxKind::LParen => "L_PAREN"@,
            SyntaxKind::RParen => "R_PAREN"@,
            SyntaxKind::LBracket => "L_BRACKET"@,
            SyntaxKind::RBracket => "R_BRACKET"@,
            SyntaxKind::LCurly => "L_CURLY"@,
            SyntaxKind::RCurly => "R_CURLY"@,
            SyntaxKind::Pipe => "PIPE"@,
            SyntaxKind::Ident => "IDENT"@,
            SyntaxKind::String => "STRING"@,
            SyntaxKind::Int => "INT"@,
            SyntaxKind::Float => "FLOAT"@,
            SyntaxKind::Error => "ERROR"@,
            SyntaxKind::QueryKw => "query_KW"@,
            SyntaxKind::MutationKw => "mutation_KW"@,
            SyntaxKind::SubscriptionKw => "subscription_KW"@,
            SyntaxKind::FragmentKw => "fragment_KW"@,
            SyntaxKind::OnKw => "on_KW"@,
            SyntaxKind::SchemaKw => "schema_KW"@,
            SyntaxKind::ScalarKw => "scalar_KW"@,
            SyntaxKind::TypeKw => "type_KW"@,
            SyntaxKind::InterfaceKw => "interface_KW"@,
            SyntaxKind::UnionKw => "union_KW"@,
            SyntaxKind::EnumKw => "enum_KW"@,
            SyntaxKind::InputKw => "input_KW"@,
            SyntaxKind::DirectiveKw => "directive_KW"@,
            SyntaxKind::ExtendKw => "extend_KW"@,
            SyntaxKind::ImplementsKw => "implements_KW"@,
            SyntaxKind::RepeatableKw => "repeatable_KW"@,
            SyntaxKind::TrueKw => "true_KW"@,
            SyntaxKind::FalseKw => "false_KW"@,
            SyntaxKind::NullKw => "null_KW"@,
            SyntaxKind::Document => "DOCUMENT"@,
            SyntaxKind::OperationDefinition => "OPERATION_DEFINITION"@,
            SyntaxKind::OperationType => "OPERATION_TYPE"@,
            SyntaxKind::Name => "NAME"@,
            SyntaxKind::VariableDefinitions => "VARIABLE_DEFINITIONS"@,
            SyntaxKind::VariableDefinition => "VARIABLE_DEFINITION"@,
            SyntaxKind::Variable => "VARIABLE"@,
            SyntaxKind::DefaultValue => "DEFAULT_VALUE"@,
            SyntaxKind::Directives => "DIRECTIVES"@,
            SyntaxKind::Directive => "DIRECTIVE"@,
            SyntaxKind::Arguments => "ARGUMENTS"@,
            SyntaxKind::Argument => "ARGUMENT"@,
            SyntaxKind::SelectionSet => "SELECTION_SET"@,
            SyntaxKind::Field => "FIELD"@,
            SyntaxKind::Alias => "ALIAS"@,
            SyntaxKind::FragmentSpread => "FRAGMENT_SPREAD"@,
            SyntaxKind::InlineFragment => "INLINE_FRAGMENT"@,
            SyntaxKind::FragmentDefinition => "FRAGMENT_DEFINITION"@,
            SyntaxKind::FragmentName => "FRAGMENT_NAME"@,
            SyntaxKind::TypeCondition => "TYPE_CONDITION"@,
            SyntaxKind::NamedType => "NAMED_TYPE"@,
            SyntaxKind::ListType => "LIST_TYPE"@,
            SyntaxKind::NonNullType => "NON_NULL_TYPE"@,
            SyntaxKind::StringValue => "STRING_VALUE"@,
            SyntaxKind::IntValue => "INT_VALUE"@,
            SyntaxKind::FloatValue => "FLOAT_VALUE"@,
            SyntaxKind::BooleanValue => "BOOLEAN_VALUE"@,
            SyntaxKind::NullValue => "NULL_VALUE"@,
            SyntaxKind::EnumValue => "ENUM_VALUE"@,
            SyntaxKind::ListValue => "LIST_VALUE"@,
            SyntaxKind::ObjectValue => "OBJECT_VALUE"@,
            SyntaxKind::ObjectField => "OBJECT_FIELD"@,
            SyntaxKind::Description => "DESCRIPTION"@,
            SyntaxKind::SchemaDefinition => "SCHEMA_DEFINITION"@,
            SyntaxKind::RootOperationTypeDefinition => "ROOT_OPERATION_TYPE_DEFINITION"@,
            SyntaxKind::ScalarTypeDefinition => "SCALAR_TYPE_DEFINITION"@,
            SyntaxKind::ObjectTypeDefinition => "OBJECT_TYPE_DEFINITION"@,
            SyntaxKind::ImplementsInterfaces => "IMPLEMENTS_INTERFACES"@,
            SyntaxKind::FieldsDefinition => "FIELDS_DEFINITION"@,
            SyntaxKind::FieldDefinition => "FIELD_DEFINITION"@,
            SyntaxKind::ArgumentsDefinition => "ARGUMENTS_DEFINITION"@,
            SyntaxKind::InputValueDefinition => "INPUT_VALUE_DEFINITION"@,
            SyntaxKind::InterfaceTypeDefinition => "INTERFACE_TYPE_DEFINITION"@,
            SyntaxKind::UnionTypeDefinition => "UNION_TYPE_DEFINITION"@,
            SyntaxKind::UnionMemberTypes => "UNION_MEMBER_TYPES"@,
            SyntaxKind::EnumTypeDefinition => "ENUM_TYPE_DEFINITION"@,
            SyntaxKind::EnumValuesDefinition => "ENUM_VALUES_DEFINITION"@,
            SyntaxKind::EnumValueDefinition => "ENUM_VALUE_DEFINITION"@,
            SyntaxKind::InputObjectTypeDefinition => "INPUT_OBJECT_TYPE_DEFINITION"@,
            SyntaxKind::InputFieldsDefinition => "INPUT_FIELDS_DEFINITION"@,
            SyntaxKind::DirectiveDefinition => "DIRECTIVE_DEFINITION"@,
            SyntaxKind::DirectiveLocations => "DIRECTIVE_LOCATIONS"@,
            SyntaxKind::DirectiveLocation => "DIRECTIVE_LOCATION"@,
            SyntaxKind::SchemaExtension => "SCHEMA_EXTENSION"@,
            SyntaxKind::ScalarTypeExtension => "SCALAR_TYPE_EXTENSION"@,
            SyntaxKind::ObjectTypeExtension => "OBJECT_TYPE_EXTENSION"@,
            SyntaxKind::InterfaceTypeExtension => "INTERFACE_TYPE_EXTENSION"@,
            SyntaxKind::UnionTypeExtension => "UNION_TYPE_EXTENSION"@,
            SyntaxKind::EnumTypeExtension => "ENUM_TYPE_EXTENSION"@,
            SyntaxKind::InputObjectTypeExtension => "INPUT_OBJECT_TYPE_EXTENSION"@,
        }
    }

    pub fn as_str(self) -> (r: &'static str)
        ensures
            r@ == self.name(),
    {
        match self {
            SyntaxKind::Whitespace => "WHITESPACE",
            SyntaxKind::Comment => "COMMENT",
            SyntaxKind::Comma => "COMMA",
            SyntaxKind::Bang => "BANG",
            SyntaxKind::Dollar => "DOLLAR",
            SyntaxKind::Amp => "AMP",
            SyntaxKind::Spread => "SPREAD",
            SyntaxKind::Colon => "COLON",
            SyntaxKind::Eq => "EQ",
            SyntaxKind::At => "AT",
            SyntaxKind::LParen => "L_PAREN",
            SyntaxKind::RParen => "R_PAREN",
            SyntaxKind::LBracket => "L_BRACKET",
            SyntaxKind::RBracket => "R_BRACKET",
            SyntaxKind::LCurly => "L_CURLY",
            SyntaxKind::RCurly => "R_CURLY",
            SyntaxKind::Pipe => "PIPE",
            SyntaxKind::Ident => "IDENT",
            SyntaxKind::String => "STRING",
            SyntaxKind::Int => "INT",
            SyntaxKind::Float => "FLOAT",
            SyntaxKind::Error => "ERROR",
            SyntaxKind::QueryKw => "query_KW",
            SyntaxKind::MutationKw => "mutation_KW",
            SyntaxKind::SubscriptionKw => "subscription_KW",
            SyntaxKind::FragmentKw => "fragment_KW",
            SyntaxKind::OnKw => "on_KW",
            SyntaxKind::SchemaKw => "schema_KW",
            SyntaxKind::ScalarKw => "scalar_KW",
            SyntaxKind::TypeKw => "type_KW",
            SyntaxKind::InterfaceKw => "interface_KW",
            SyntaxKind::UnionKw => "union_KW",
            SyntaxKind::EnumKw => "enum_KW",
            SyntaxKind::InputKw => "input_KW",
            SyntaxKind::DirectiveKw => "directive_KW",
            SyntaxKind::ExtendKw => "extend_KW",
            SyntaxKind::ImplementsKw => "implements_KW",
            SyntaxKind::RepeatableKw => "repeatable_KW",
            SyntaxKind::TrueKw => "true_KW",
            SyntaxKind::FalseKw => "false_KW",
            SyntaxKind::NullKw => "null_KW",
            SyntaxKind::Document => "DOCUMENT",
            SyntaxKind::OperationDefinition => "OPERATION_DEFINITION",
            SyntaxKind::OperationType => "OPERATION_TYPE",
            SyntaxKind::Name => "NAME",
            SyntaxKind::VariableDefinitions => "VARIABLE_DEFINITIONS",
            SyntaxKind::VariableDefinition => "VARIABLE_DEFINITION",
            SyntaxKind::Variable => "VARIABLE",
            SyntaxKind::DefaultValue => "DEFAULT_VALUE",
            SyntaxKind::Directives => "DIRECTIVES",
            SyntaxKind::Directive => "DIRECTIVE",
            SyntaxKind::Arguments => "ARGUMENTS",
            SyntaxKind::Argument => "ARGUMENT",
            SyntaxKind::SelectionSet => "SELECTION_SET",
            SyntaxKind::Field => "FIELD",
            SyntaxKind::Alias => "ALIAS",
            SyntaxKind::FragmentSpread => "FRAGMENT_SPREAD",
            SyntaxKind::InlineFragment => "INLINE_FRAGMENT",
            SyntaxKind::FragmentDefinition => "FRAGMENT_DEFINITION",
            SyntaxKind::FragmentName => "FRAGMENT_NAME",
            SyntaxKind::TypeCondition => "TYPE_CONDITION",
            SyntaxKind::NamedType => "NAMED_TYPE",
            SyntaxKind::ListType => "LIST_TYPE",
            SyntaxKind::NonNullType => "NON_NULL_TYPE",
            SyntaxKind::StringValue => "STRING_VALUE",
            SyntaxKind::IntValue => "INT_VALUE",
            SyntaxKind::FloatValue => "FLOAT_VALUE",
            SyntaxKind::BooleanValue => "BOOLEAN_VALUE",
            SyntaxKind::NullValue => "NULL_VALUE",
            SyntaxKind::EnumValue => "ENUM_VALUE",
            SyntaxKind::ListValue => "LIST_VALUE",
            SyntaxKind::ObjectValue => "OBJECT_VALUE",
            SyntaxKind::ObjectField => "OBJECT_FIELD",
            SyntaxKind::Description => "DESCRIPTION",
            SyntaxKind::SchemaDefinition => "SCHEMA_DEFINITION",
            SyntaxKind::RootOperationTypeDefinition => "ROOT_OPERATION_TYPE_DEFINITION",
            SyntaxKind::ScalarTypeDefinition => "SCALAR_TYPE_DEFINITION",
            SyntaxKind::ObjectTypeDefinition => "OBJECT_TYPE_DEFINITION",
            SyntaxKind::ImplementsInterfaces => "IMPLEMENTS_INTERFACES",
            SyntaxKind::FieldsDefinition => "FIELDS_DEFINITION",
            SyntaxKind::FieldDefinition => "FIELD_DEFINITION",
            SyntaxKind::ArgumentsDefinition => "ARGUMENTS_DEFINITION",
            SyntaxKind::InputValueDefinition => "INPUT_VALUE_DEFINITION",
            SyntaxKind::InterfaceTypeDefinition => "INTERFACE_TYPE_DEFINITION",
            SyntaxKind::UnionTypeDefinition => "UNION_TYPE_DEFINITION",
            SyntaxKind::UnionMemberTypes => "UNION_MEMBER_TYPES",
            SyntaxKind::EnumTypeDefinition => "ENUM_TYPE_DEFINITION",
            SyntaxKind::EnumValuesDefinition => "ENUM_VALUES_DEFINITION",
            SyntaxKind::EnumValueDefinition => "ENUM_VALUE_DEFINITION",
            SyntaxKind::InputObjectTypeDefinition => "INPUT_OBJECT_TYPE_DEFINITION",
            SyntaxKind::InputFieldsDefinition => "INPUT_FIELDS_DEFINITION",
            SyntaxKind::DirectiveDefinition => "DIRECTIVE_DEFINITION",
            SyntaxKind::DirectiveLocations => "DIRECTIVE_LOCATIONS",
            SyntaxKind::DirectiveLocation => "DIRECTIVE_LOCATION",
            SyntaxKind::SchemaExtension => "SCHEMA_EXTENSION",
            SyntaxKind::ScalarTypeExtension => "SCALAR_TYPE_EXTENSION",
            SyntaxKind::ObjectTypeExtension => "OBJECT_TYPE_EXTENSION",
            SyntaxKind::InterfaceTypeExtension => "INTERFACE_TYPE_EXTENSION",
            SyntaxKind::UnionTypeExtension => "UNION_TYPE_EXTENSION",
            SyntaxKind::EnumTypeExtension => "ENUM_TYPE_EXTENSION",
            SyntaxKind::InputObjectTypeExtension => "INPUT_OBJECT_TYPE_EXTENSION",
        }
    }

    /// Kinds of leaves: the lexical kinds and the keywords.
    pub open spec fn is_token(self) -> bool {
        self.raw() < 41
    }

    pub fn token(self) -> (r: bool)
        ensures
            r == self.is_token(),
    {
        self.to_raw() < 41
    }
}

/// The groups of node kinds between which the grammar chooses.
#[derive(Clone, Copy, Debug, PartialEq, Eq, Structural)]
pub enum KindSet {
    /// What can stand at the top of a document.
    Definition,
    /// What can stand in a selection set.
    Selection,
    /// The forms of a value.
    Value,
    /// The forms of a type reference.
    Type,
}

impl SyntaxKind {
    /// Whether the kind belongs to the group.
    pub open spec fn is_in(self, set: KindSet) -> bool {
        match set {
            KindSet::Definition =>
                self == SyntaxKind::OperationDefinition
                || self == SyntaxKind::FragmentDefinition
                || self == SyntaxKind::DirectiveDefinition
                || self == SyntaxKind::SchemaDefinition
                || self == SyntaxKind::ScalarTypeDefinition
                || self == SyntaxKind::ObjectTypeDefinition
                || self == SyntaxKind::InterfaceTypeDefinition
                || self == SyntaxKind::UnionTypeDefinition
                || self == SyntaxKind::EnumTypeDefinition
                || self == SyntaxKind::InputObjectTypeDefinition
                || self == SyntaxKind::SchemaExtension
                || self == SyntaxKind::ScalarTypeExtension
                || self == SyntaxKind::ObjectTypeExtension
                || self == SyntaxKind::InterfaceTypeExtension
                || self == SyntaxKind::UnionTypeExtension
                || self == SyntaxKind::EnumTypeExtension
                || self == SyntaxKind::InputObjectTypeExtension,
            KindSet::Selection =>
                self == SyntaxKind::Field
                || self == SyntaxKind::FragmentSpread
                || self == SyntaxKind::InlineFragment,
            KindSet::Value =>
                self == SyntaxKind::Variable
                || self == SyntaxKind::StringValue
                || self == SyntaxKind::FloatValue
                || self == SyntaxKind::IntValue
                || self == SyntaxKind::BooleanValue
                || self == SyntaxKind::NullValue
                || self == SyntaxKind::EnumValue
                || self == SyntaxKind::ListValue
                || self == SyntaxKind::ObjectValue,
            KindSet::Type =>
                self == SyntaxKind::NamedType
                || self == SyntaxKind::ListType
                || self == SyntaxKind::NonNullType,
        }
    }

    pub fn within(self, set: KindSet) -> (r: bool)
        ensures
            r == self.is_in(set),
    {
        match set {
            KindSet::Definition =>
                self == SyntaxKind::OperationDefinition
                || self == SyntaxKind::FragmentDefinition
                || self == SyntaxKind::DirectiveDefinition
                || self == SyntaxKind::SchemaDefinition
                || self == SyntaxKind::ScalarTypeDefinition
                || self == SyntaxKind::ObjectTypeDefinition
                || self == SyntaxKind::InterfaceTypeDefinition
                || self == SyntaxKind::UnionTypeDefinition
                || self == SyntaxKind::EnumTypeDefinition
                || self == SyntaxKind::InputObjectTypeDefinition
                || self == SyntaxKind::SchemaExtension
                || self == SyntaxKind::ScalarTypeExtension
                || self == SyntaxKind::ObjectTypeExtension
                || self == SyntaxKind::InterfaceTypeExtension
                || self == SyntaxKind::UnionTypeExtension
                || self == SyntaxKind::EnumTypeExtension
                || self == SyntaxKind::InputObjectTypeExtension,
            KindSet::Selection =>
                self == SyntaxKind::Field
                || self == SyntaxKind::FragmentSpread
                || self == SyntaxKind::InlineFragment,
            KindSet::Value =>
                self == SyntaxKind::Variable
                || self == SyntaxKind::StringValue
                || self == SyntaxKind::FloatValue
                || self == SyntaxKind::IntValue
                || self == SyntaxKind::BooleanValue
                || self == SyntaxKind::NullValue
                || self == SyntaxKind::EnumValue
                || self == SyntaxKind::ListValue
                || self == SyntaxKind::ObjectValue,
            KindSet::Type =>
                self == SyntaxKind::NamedType
                || self == SyntaxKind::ListType
                || self == SyntaxKind::NonNullType,
        }
    }
}

} // verus!
