use graphql_cst::ast::{Definition, Selection, Type, Value};
use graphql_cst::parser::parse;

fn one(text: &str) -> graphql_cst::ast::Document {
    let tree = parse(text);
    assert_eq!(tree.errors().len(), 0, "{}", tree.dump());
    let doc = tree.document();
    assert_eq!(doc.definitions().len(), 1);
    doc
}

#[test]
fn operation_with_variables() {
    let doc = one("query Q($a: Int = 1, $b: [T!]!, $c: U! @d) @e { f }");
    let op = match doc.definitions()[0] {
        Definition::OperationDefinition(op) => op,
        _ => panic!(),
    };
    assert!(op.operation_type().unwrap().query_token().is_some());
    assert!(op.operation_type().unwrap().mutation_token().is_none());
    assert_eq!(op.name().unwrap().text(), "Q");
    assert_eq!(op.directives().unwrap().directives()[0].name().unwrap().text(), "e");
    let vars = op.variable_definitions().unwrap().variable_definitions();
    assert_eq!(vars.len(), 3);
    assert_eq!(vars[0].variable().unwrap().name().unwrap().text(), "a");
    match vars[0].ty().unwrap() {
        Type::NamedType(t) => assert_eq!(t.name().unwrap().text(), "Int"),
        _ => panic!(),
    }
    match vars[0].default_value().unwrap().value().unwrap() {
        Value::IntValue(v) => assert_eq!(v.text(), "1"),
        _ => panic!(),
    }
    match vars[1].ty().unwrap() {
        Type::ListType(list) => {
            assert!(list.bang_token().is_some());
            match list.ty().unwrap() {
                Type::NonNullType(inner) => {
                    assert_eq!(inner.named_type().unwrap().name().unwrap().text(), "T")
                }
                _ => panic!(),
            }
        }
        _ => panic!(),
    }
    match vars[2].ty().unwrap() {
        Type::NonNullType(t) => assert_eq!(t.named_type().unwrap().name().unwrap().text(), "U"),
        _ => panic!(),
    }
    assert_eq!(vars[2].directives().unwrap().directives().len(), 1);
    assert!(vars[1].default_value().is_none());
}

#[test]
fn values_of_every_form() {
    let doc = one("{ f(a: $v, b: 1, c: 1.5, d: \"s\", e: true, f: false, g: null, h: RED, i: [1, [2]], j: {k: 1, l: {m: 2}}) }");
    let op = match doc.definitions()[0] {
        Definition::OperationDefinition(op) => op,
        _ => panic!(),
    };
    let field = match op.selection_set().unwrap().selections()[0] {
        Selection::Field(f) => f,
        _ => panic!(),
    };
    let args = field.arguments().unwrap().arguments();
    let names: Vec<&str> = args.iter().map(|a| a.name().unwrap().text()).collect();
    assert_eq!(names, vec!["a", "b", "c", "d", "e", "f", "g", "h", "i", "j"]);
    let values: Vec<Value> = args.iter().map(|a| a.value().unwrap()).collect();
    match values[0] {
        Value::Variable(v) => assert_eq!(v.name().unwrap().text(), "v"),
        _ => panic!(),
    }
    assert!(matches!(values[1], Value::IntValue(_)));
    match values[2] {
        Value::FloatValue(v) => assert_eq!(v.text(), "1.5"),
        _ => panic!(),
    }
    match values[3] {
        Value::StringValue(v) => assert_eq!(v.text(), "\"s\""),
        _ => panic!(),
    }
    match values[4] {
        Value::BooleanValue(v) => assert!(v.true_token().is_some() && v.false_token().is_none()),
        _ => panic!(),
    }
    match values[5] {
        Value::BooleanValue(v) => assert!(v.false_token().is_some()),
        _ => panic!(),
    }
    match values[6] {
        Value::NullValue(v) => assert!(v.null_token().is_some()),
        _ => panic!(),
    }
    match values[7] {
        Value::EnumValue(v) => assert_eq!(v.name().unwrap().text(), "RED"),
        _ => panic!(),
    }
    match values[8] {
        Value::ListValue(v) => {
            let items = v.values();
            assert_eq!(items.len(), 2);
            match items[1] {
                Value::ListValue(inner) => assert_eq!(inner.values().len(), 1),
                _ => panic!(),
            }
        }
        _ => panic!(),
    }
    match values[9] {
        Value::ObjectValue(v) => {
            let fields = v.object_fields();
            assert_eq!(fields.len(), 2);
            assert_eq!(fields[1].name().unwrap().text(), "l");
            assert!(matches!(fields[1].value().unwrap(), Value::ObjectValue(_)));
        }
        _ => panic!(),
    }
}

#[test]
fn selections_of_every_form() {
    let doc = one("{ a: b @x { c } ...F @y ... on T { d } ... { e } }");
    let op = match doc.definitions()[0] {
        Definition::OperationDefinition(op) => op,
        _ => panic!(),
    };
    let selections = op.selection_set().unwrap().selections();
    assert_eq!(selections.len(), 4);
    match selections[0] {
        Selection::Field(f) => {
            assert_eq!(f.alias().unwrap().name().unwrap().text(), "a");
            assert_eq!(f.name().unwrap().text(), "b");
            assert_eq!(f.selection_set().unwrap().selections().len(), 1);
            assert_eq!(f.directives().unwrap().directives().len(), 1);
        }
        _ => panic!(),
    }
    match selections[1] {
        Selection::FragmentSpread(s) => {
            assert_eq!(s.fragment_name().unwrap().name().unwrap().text(), "F");
            assert!(s.directives().is_some());
        }
        _ => panic!(),
    }
    match selections[2] {
        Selection::InlineFragment(i) => {
            let on = i.type_condition().unwrap();
            assert_eq!(on.named_type().unwrap().name().unwrap().text(), "T");
            assert_eq!(i.selection_set().unwrap().selections().len(), 1);
        }
        _ => panic!(),
    }
    match selections[3] {
        Selection::InlineFragment(i) => assert!(i.type_condition().is_none()),
        _ => panic!(),
    }
}

#[test]
fn fragment_definition() {
    let doc = one("fragment F on T @d { a }");
    match doc.definitions()[0] {
        Definition::FragmentDefinition(f) => {
            assert_eq!(f.fragment_name().unwrap().name().unwrap().text(), "F");
            assert_eq!(f.type_condition().unwrap().named_type().unwrap().name().unwrap().text(), "T");
            assert!(f.directives().is_some());
            assert!(f.selection_set().is_some());
        }
        _ => panic!(),
    }
}

#[test]
fn schema_and_scalar() {
    let doc = one("\"the schema\" schema @a { query: Q mutation: M subscription: S }");
    match doc.definitions()[0] {
        Definition::SchemaDefinition(s) => {
            assert_eq!(s.description().unwrap().text(), "\"the schema\"");
            let roots = s.root_operation_type_definitions();
            assert_eq!(roots.len(), 3);
            assert!(roots[1].operation_type().unwrap().mutation_token().is_some());
            assert_eq!(roots[2].named_type().unwrap().name().unwrap().text(), "S");
        }
        _ => panic!(),
    }
    let doc = one("scalar Date @specifiedBy(url: \"x\")");
    match doc.definitions()[0] {
        Definition::ScalarTypeDefinition(s) => {
            assert_eq!(s.name().unwrap().text(), "Date");
            assert!(s.description().is_none());
        }
        _ => panic!(),
    }
}

#[test]
fn object_interface_union_enum_input() {
    let doc = one("type T implements A & B @d { \"f\" a(x: Int = 1, y: [S]): [T!] @e b: Int }");
    match doc.definitions()[0] {
        Definition::ObjectTypeDefinition(t) => {
            let names: Vec<&str> = t
                .implements_interfaces()
                .unwrap()
                .named_types()
                .iter()
                .map(|n| n.name().unwrap().text())
                .collect();
            assert_eq!(names, vec!["A", "B"]);
            let fields = t.fields_definition().unwrap().field_definitions();
            assert_eq!(fields.len(), 2);
            assert_eq!(fields[0].description().unwrap().text(), "\"f\"");
            let args = fields[0].arguments_definition().unwrap().input_value_definitions();
            assert_eq!(args.len(), 2);
            assert!(args[0].default_value().is_some());
            assert!(matches!(args[1].ty().unwrap(), Type::ListType(_)));
            assert!(matches!(fields[0].ty().unwrap(), Type::ListType(_)));
            assert!(matches!(fields[1].ty().unwrap(), Type::NamedType(_)));
        }
        _ => panic!(),
    }
    let doc = one("interface I implements J { a: Int }");
    match doc.definitions()[0] {
        Definition::InterfaceTypeDefinition(i) => {
            assert_eq!(i.name().unwrap().text(), "I");
            assert_eq!(i.fields_definition().unwrap().field_definitions().len(), 1);
        }
        _ => panic!(),
    }
    let doc = one("union U @d = | A | B | C");
    match doc.definitions()[0] {
        Definition::UnionTypeDefinition(u) => {
            assert_eq!(u.union_member_types().unwrap().named_types().len(), 3);
        }
        _ => panic!(),
    }
    let doc = one("enum E { \"red\" RED @x GREEN }");
    match doc.definitions()[0] {
        Definition::EnumTypeDefinition(e) => {
            let values = e.enum_values_definition().unwrap().enum_value_definitions();
            assert_eq!(values.len(), 2);
            assert_eq!(values[0].enum_value().unwrap().name().unwrap().text(), "RED");
            assert!(values[0].description().is_some());
            assert!(values[1].directives().is_none());
        }
        _ => panic!(),
    }
    let doc = one("input In @d { a: Int = 1 b: [T!]! }");
    match doc.definitions()[0] {
        Definition::InputObjectTypeDefinition(i) => {
            let fields = i.input_fields_definition().unwrap().input_value_definitions();
            assert_eq!(fields.len(), 2);
            assert_eq!(fields[1].name().unwrap().text(), "b");
        }
        _ => panic!(),
    }
}

#[test]
fn directive_definition_with_repeatable() {
    let doc = one("\"d\" directive @d(a: Int) repeatable on | QUERY | FIELD");
    match doc.definitions()[0] {
        Definition::DirectiveDefinition(d) => {
            assert!(d.repeatable_token().is_some());
            assert_eq!(d.description().unwrap().text(), "\"d\"");
            assert_eq!(d.directive_locations().unwrap().directive_locations().len(), 2);
        }
        _ => panic!(),
    }
}

#[test]
fn extensions() {
    let tree = parse(
        "extend schema @a { query: Q }\nextend scalar S @b\nextend type T implements I { a: Int }\n\
         extend interface I @c\nextend union U = A\nextend enum E { X }\nextend input In { a: Int }",
    );
    assert_eq!(tree.errors().len(), 0, "{}", tree.dump());
    let doc = tree.document();
    let defs = doc.definitions();
    assert_eq!(defs.len(), 7);
    match defs[0] {
        Definition::SchemaExtension(s) => {
            assert_eq!(s.root_operation_type_definitions().len(), 1)
        }
        _ => panic!(),
    }
    match defs[1] {
        Definition::ScalarTypeExtension(s) => assert_eq!(s.name().unwrap().text(), "S"),
        _ => panic!(),
    }
    match defs[2] {
        Definition::ObjectTypeExtension(t) => {
            assert!(t.implements_interfaces().is_some());
            assert_eq!(t.fields_definition().unwrap().field_definitions().len(), 1);
        }
        _ => panic!(),
    }
    assert!(matches!(defs[3], Definition::InterfaceTypeExtension(_)));
    match defs[4] {
        Definition::UnionTypeExtension(u) => {
            assert_eq!(u.union_member_types().unwrap().named_types().len(), 1)
        }
        _ => panic!(),
    }
    match defs[5] {
        Definition::EnumTypeExtension(e) => {
            assert_eq!(e.enum_values_definition().unwrap().enum_value_definitions().len(), 1)
        }
        _ => panic!(),
    }
    match defs[6] {
        Definition::InputObjectTypeExtension(i) => {
            assert_eq!(i.input_fields_definition().unwrap().input_value_definitions().len(), 1)
        }
        _ => panic!(),
    }
}

#[test]
fn accessors_find_nothing_where_a_part_is_missing() {
    let tree = parse("query ($: ) { a(b: ) ... on }");
    assert!(tree.errors().len() > 0);
    let doc = tree.document();
    let defs = doc.definitions();
    assert_eq!(defs.len(), 1);
    match defs[0] {
        Definition::OperationDefinition(op) => {
            assert!(op.name().is_none());
            let vars = op.variable_definitions().unwrap().variable_definitions();
            assert_eq!(vars.len(), 1);
            assert!(vars[0].variable().unwrap().name().is_none());
            assert!(vars[0].ty().is_none());
            let selections = op.selection_set().unwrap().selections();
            match selections[0] {
                Selection::Field(f) => {
                    let args = f.arguments().unwrap().arguments();
                    assert_eq!(args.len(), 1);
                    assert!(args[0].value().is_none());
                }
                _ => panic!(),
            }
            match selections[1] {
                Selection::InlineFragment(i) => {
                    assert!(i.type_condition().unwrap().named_type().is_none());
                    assert!(i.selection_set().is_none());
                }
                _ => panic!(),
            }
        }
        _ => panic!(),
    }
}

#[test]
fn lone_extend_is_an_error() {
    let tree = parse("extend { a }");
    assert_eq!(tree.errors().len(), 1);
    let doc = tree.document();
    assert_eq!(doc.definitions().len(), 1);
}
