use graphql_cst::ast::Definition;
use graphql_cst::entropy::BuildError;
use graphql_cst::operation::{
    Body, Directive, DirectiveLocation, DocumentBuilder, Name, OperationDef, OperationParts,
    OperationType, SchemaDef, SelectionSet, VariableDef,
};
use graphql_cst::parser::parse;

fn body(directive: &str, field: &str) -> Body {
    Body {
        directives: vec![Directive { name: Name::new(directive) }],
        selection_set: SelectionSet { fields: vec![Name::new(field)] },
    }
}

fn parts() -> OperationParts {
    OperationParts {
        name: Name::new("op"),
        query: body("q", "a"),
        mutation: body("m", "b"),
        subscription: body("s", "c"),
        variable_definitions: vec![VariableDef { name: Name::new("v"), ty: Name::new("Int") }],
    }
}

#[test]
fn operation_type_shares_the_numbers_in_equal_parts() {
    assert_eq!(OperationType::pick(0), OperationType::Query);
    assert_eq!(OperationType::pick(0x5555_5555), OperationType::Query);
    assert_eq!(OperationType::pick(0x5555_5556), OperationType::Mutation);
    assert_eq!(OperationType::pick(0xAAAA_AAAA), OperationType::Mutation);
    assert_eq!(OperationType::pick(0xAAAA_AAAB), OperationType::Subscription);
    assert_eq!(OperationType::pick(u32::MAX), OperationType::Subscription);
}

#[test]
fn directive_location_follows_the_type() {
    assert_eq!(OperationType::Query.directive_location(), DirectiveLocation::Query);
    assert_eq!(OperationType::Mutation.directive_location(), DirectiveLocation::Mutation);
    assert_eq!(OperationType::Subscription.directive_location(), DirectiveLocation::Subscription);
}

#[test]
fn builder_makes_a_named_query_in_short_form() {
    // yes to the name; 0 as the number: a query; yes to the short form.
    let data = [1u8, 0, 0, 0, 0, 1];
    let mut b = DocumentBuilder::new(&data);
    let op = b.operation_definition(parts()).unwrap();
    assert_eq!(op.operation_type, OperationType::Query);
    assert_eq!(op.name.as_ref().unwrap().name, "op");
    assert!(op.shorthand);
    assert_eq!(op.directives[0].name.name, "q");
    assert_eq!(op.selection_set.fields[0].name, "a");
    assert_eq!(op.variable_definitions.len(), 1);
}

#[test]
fn builder_makes_a_mutation_without_a_name() {
    // no to the name; 0x80000000, lowest byte first: a mutation.
    let data = [0u8, 0, 0, 0, 0x80, 1];
    let mut b = DocumentBuilder::new(&data);
    let op = b.operation_definition(parts()).unwrap();
    assert_eq!(op.operation_type, OperationType::Mutation);
    assert!(op.name.is_none());
    assert!(!op.shorthand);
    assert_eq!(op.directives[0].name.name, "m");
    assert_eq!(op.selection_set.fields[0].name, "b");
}

#[test]
fn only_the_first_operation_can_be_short() {
    let data = [1u8, 0, 0, 0, 0, 1, 1, 0, 0, 0, 0, 1];
    let mut b = DocumentBuilder::new(&data);
    let first = b.operation_definition(parts()).unwrap();
    assert!(first.shorthand);
    b.push_operation(first);
    let second = b.operation_definition(parts()).unwrap();
    assert_eq!(second.operation_type, OperationType::Query);
    assert!(!second.shorthand);
}

#[test]
fn empty_source_gives_a_plain_query() {
    let data: [u8; 0] = [];
    let mut b = DocumentBuilder::new(&data);
    let op = b.operation_definition(parts()).unwrap();
    assert_eq!(op.operation_type, OperationType::Query);
    assert!(op.name.is_none());
    assert!(!op.shorthand);
}

#[test]
fn operation_from_a_schema_with_one_root_type() {
    let data = [1u8, 7, 7, 7];
    let mut b = DocumentBuilder::new(&data);
    b.push_schema(SchemaDef { query: None, mutation: Some(Name::new("M")), subscription: None });
    let op = b.operation_definition_from_schema(parts()).unwrap();
    assert_eq!(op.operation_type, OperationType::Mutation);
    assert_eq!(op.name.as_ref().unwrap().name, "op");
    assert_eq!(op.variable_definitions.len(), 0);
    assert_eq!(op.selection_set.fields[0].name, "b");
    assert!(!op.shorthand);
}

#[test]
fn operation_from_a_schema_chooses_among_the_root_types() {
    // no to the name; one byte for the choice among three: 4 % 3 = 1.
    let data = [0u8, 4];
    let mut b = DocumentBuilder::new(&data);
    b.push_schema(SchemaDef {
        query: Some(Name::new("Q")),
        mutation: Some(Name::new("M")),
        subscription: Some(Name::new("S")),
    });
    let op = b.operation_definition_from_schema(parts()).unwrap();
    assert_eq!(op.operation_type, OperationType::Mutation);
}

#[test]
fn operation_from_a_schema_without_root_types_is_an_error() {
    let data = [1u8, 2, 3];
    let mut b = DocumentBuilder::new(&data);
    b.push_schema(SchemaDef { query: None, mutation: None, subscription: None });
    let r = b.operation_definition_from_schema(parts());
    assert_eq!(r.err(), Some(BuildError::EmptyChoose));
}

fn sample() -> OperationDef {
    OperationDef {
        operation_type: OperationType::Query,
        name: Some(Name::new("Pets")),
        variable_definitions: vec![VariableDef { name: Name::new("first"), ty: Name::new("Int") }],
        directives: vec![Directive { name: Name::new("cached") }],
        selection_set: SelectionSet { fields: vec![Name::new("pet"), Name::new("faveSnack")] },
        shorthand: false,
    }
}

#[test]
fn encoder_writes_the_operation() {
    assert_eq!(sample().to_text(), "query Pets($first: Int) @cached {\n  pet\n  faveSnack\n}\n");
    let mut short = sample();
    short.shorthand = true;
    assert_eq!(short.to_text(), "{\n  pet\n  faveSnack\n}\n");
    let mut sub = sample();
    sub.operation_type = OperationType::Subscription;
    sub.name = None;
    sub.directives = Vec::new();
    sub.variable_definitions = Vec::new();
    assert_eq!(sub.to_text(), "subscription {\n  pet\n  faveSnack\n}\n");
}

fn read_back(text: &str) -> OperationDef {
    let tree = parse(text);
    assert_eq!(tree.errors().len(), 0);
    let doc = tree.document();
    let defs = doc.definitions();
    assert_eq!(defs.len(), 1);
    match defs[0] {
        Definition::OperationDefinition(op) => OperationDef::from_ast(op).unwrap(),
        _ => panic!("expected an operation"),
    }
}

#[test]
fn written_operation_parses_back_without_diagnostics() {
    let op = sample();
    let text = op.to_text();
    let back = read_back(&text);
    assert_eq!(back.operation_type, op.operation_type);
    assert_eq!(back.name.unwrap().name, "Pets");
    assert!(!back.shorthand);
    let directives: Vec<String> = back.directives.into_iter().map(|d| d.name.name).collect();
    assert_eq!(directives, vec!["cached".to_string()]);
    let fields: Vec<String> = back.selection_set.fields.into_iter().map(|f| f.name).collect();
    assert_eq!(fields, vec!["pet".to_string(), "faveSnack".to_string()]);
    // Writing what was read gives a text that parses to the same again.
    let again = read_back(&text);
    assert_eq!(read_back(&again.to_text()).to_text(), again.to_text());
}

#[test]
fn short_form_is_read_back_as_a_query() {
    let mut op = sample();
    op.shorthand = true;
    let back = read_back(&op.to_text());
    assert!(back.shorthand);
    assert_eq!(back.operation_type, OperationType::Query);
    assert!(back.name.is_none());
}

#[test]
fn operation_without_a_selection_set_is_not_read() {
    let tree = parse("mutation M @d");
    let doc = tree.document();
    match doc.definitions()[0] {
        Definition::OperationDefinition(op) => assert!(OperationDef::from_ast(op).is_none()),
        _ => panic!("expected an operation"),
    }
}

#[test]
fn operation_type_is_read_from_its_keyword() {
    for (text, t) in [
        ("query { a }", OperationType::Query),
        ("mutation { a }", OperationType::Mutation),
        ("subscription { a }", OperationType::Subscription),
    ] {
        let tree = parse(text);
        let doc = tree.document();
        match doc.definitions()[0] {
            Definition::OperationDefinition(op) => {
                assert_eq!(OperationType::from_ast(op.operation_type().unwrap()), t);
            }
            _ => panic!("expected an operation"),
        }
    }
}

#[test]
fn repeated_directives_are_read_once() {
    let tree = parse("query @a @b @a @c @b { x }");
    assert_eq!(tree.errors().len(), 0);
    let doc = tree.document();
    match doc.definitions()[0] {
        Definition::OperationDefinition(op) => {
            let read = OperationDef::from_ast(op).unwrap();
            let names: Vec<String> = read.directives.into_iter().map(|d| d.name.name).collect();
            assert_eq!(names, vec!["a".to_string(), "b".to_string(), "c".to_string()]);
        }
        _ => panic!("expected an operation"),
    }
}

#[test]
fn directive_without_a_name_stops_the_reading() {
    let tree = parse("query @ { x }");
    let doc = tree.document();
    match doc.definitions()[0] {
        Definition::OperationDefinition(op) => assert!(OperationDef::from_ast(op).is_none()),
        _ => panic!("expected an operation"),
    }
}
