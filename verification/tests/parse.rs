use graphql_cst::ast::{Definition, Selection};
use graphql_cst::error::{ErrorKind, Expected};
use graphql_cst::kind::SyntaxKind;
use graphql_cst::parser::{parse, Parser};
use graphql_cst::tree::{SyntaxElement, SyntaxNode};

#[test]
fn directive_name() {
    let input = "directive @example(isTreat: Boolean, treatKind: String) on FIELD | MUTATION";
    let parser = Parser::new(input);
    let ast = parser.parse();
    let doc = ast.document();

    for def in doc.definitions() {
        if let Definition::DirectiveDefinition(directive) = def {
            assert_eq!(directive.name().unwrap().text(), "example");
        }
    }
}

#[test]
fn object_type_definition() {
    let input = "
        type ProductDimension {
          size: String
          weight: Float @tag(name: \"hi from inventory value type field\")
        }
        ";
    let parser = Parser::new(input);
    let ast = parser.parse();
    assert_eq!(0, ast.errors().len());

    let doc = ast.document();

    for def in doc.definitions() {
        if let Definition::ObjectTypeDefinition(object_type) = def {
            assert_eq!(object_type.name().unwrap().text(), "ProductDimension");
            for field_def in object_type.fields_definition().unwrap().field_definitions() {
                println!("{}", field_def.name().unwrap().text()); // size weight
            }
        }
    }
}

#[test]
fn directive_definition_is_the_one_definition() {
    let input = "directive @example(isTreat: Boolean, treatKind: String) on FIELD | MUTATION";
    let tree = parse(input);
    assert_eq!(tree.errors().len(), 0);
    let doc = tree.document();
    let defs = doc.definitions();
    assert_eq!(defs.len(), 1);
    match defs[0] {
        Definition::DirectiveDefinition(d) => {
            assert_eq!(d.name().unwrap().text(), "example");
            let args = d.arguments_definition().unwrap().input_value_definitions();
            assert_eq!(args.len(), 2);
            assert_eq!(args[0].name().unwrap().text(), "isTreat");
            assert_eq!(args[1].name().unwrap().text(), "treatKind");
            let locations = d.directive_locations().unwrap().directive_locations();
            assert_eq!(locations.len(), 2);
            assert_eq!(locations[0].text(), "FIELD");
            assert_eq!(locations[1].text(), "MUTATION");
        }
        _ => panic!("expected a directive definition"),
    }
}

#[test]
fn object_type_fields_are_read() {
    let input = "type ProductDimension {\n  size: String\n  weight: Float @tag(name: \"hi\")\n}\n";
    let tree = parse(input);
    assert_eq!(tree.errors().len(), 0);
    let doc = tree.document();
    let defs = doc.definitions();
    assert_eq!(defs.len(), 1);
    match defs[0] {
        Definition::ObjectTypeDefinition(object_type) => {
            let fields = object_type.fields_definition().unwrap().field_definitions();
            assert_eq!(fields.len(), 2);
            assert_eq!(fields[0].name().unwrap().text(), "size");
            assert_eq!(fields[1].name().unwrap().text(), "weight");
            let directives = fields[1].directives().unwrap().directives();
            assert_eq!(directives.len(), 1);
            assert_eq!(directives[0].name().unwrap().text(), "tag");
        }
        _ => panic!("expected an object type definition"),
    }
}

#[test]
fn shorthand_query_with_two_fields() {
    let tree = parse("{ pet faveSnack }");
    assert_eq!(tree.errors().len(), 0);
    let doc = tree.document();
    let defs = doc.definitions();
    assert_eq!(defs.len(), 1);
    match defs[0] {
        Definition::OperationDefinition(op) => {
            assert!(op.operation_type().is_none());
            let selections = op.selection_set().unwrap().selections();
            assert_eq!(selections.len(), 2);
            let mut names = Vec::new();
            for s in selections {
                match s {
                    Selection::Field(f) => names.push(f.name().unwrap().text().to_string()),
                    _ => panic!("expected a field"),
                }
            }
            assert_eq!(names, vec!["pet".to_string(), "faveSnack".to_string()]);
        }
        _ => panic!("expected an operation"),
    }
}

#[test]
fn stray_token_before_a_selection_set() {
    let input = "uasdf21230jkdw\n\n{ pet faveSnack }";
    let tree = parse(input);
    assert_eq!(tree.errors().len(), 1);
    let e = tree.errors()[0];
    assert_eq!(e.kind(), ErrorKind::Unexpected);
    assert_eq!(e.expected, Expected::Definition);
    assert_eq!(e.span(), (0, 14));
    assert_eq!(tree.text(), input);
    let doc = tree.document();
    assert_eq!(doc.definitions().len(), 1);
}

#[test]
fn documentation_example_with_surrounding_blank_lines() {
    let input = "\nuasdf21230jkdw\n\n{\n  pet\n  faveSnack\n}\n";
    let tree = parse(input);
    assert_eq!(tree.errors().len(), 1);
    let doc = tree.document();
    assert_eq!(doc.definitions().len(), 1);
}

#[test]
fn empty_input() {
    let tree = parse("");
    assert_eq!(tree.errors().len(), 0);
    assert_eq!(tree.text(), "");
    let root = tree.root();
    assert_eq!(root.kind(), SyntaxKind::Document);
    assert_eq!(root.children().len(), 0);
    assert_eq!(root.span(), (0, 0));
    let doc = tree.document();
    assert_eq!(doc.definitions().len(), 0);
}

#[test]
fn single_stray_token() {
    let tree = parse("!");
    assert_eq!(tree.errors().len(), 1);
    let root = tree.root();
    let children = root.children();
    assert_eq!(children.len(), 1);
    match children[0] {
        SyntaxElement::Token(t) => {
            assert_eq!(t.kind(), SyntaxKind::Error);
            assert_eq!(t.text(), "!");
        }
        SyntaxElement::Node(_) => panic!("expected a leaf"),
    }
    let doc = tree.document();
    assert_eq!(doc.definitions().len(), 0);
}

#[test]
fn unterminated_string() {
    let input = "{ a(b: \"abc) }";
    let tree = parse(input);
    assert_eq!(tree.text(), input);
    let errors = tree.errors();
    assert!(errors.len() >= 1);
    let lexical: Vec<_> = errors.iter().filter(|e| e.kind() == ErrorKind::Lexical).collect();
    assert_eq!(lexical.len(), 1);
    assert_eq!(lexical[0].span(), (7, 14));
    assert_eq!(lexical[0].message(), "unexpected character");
    assert!(has_error_leaf(tree.root(), "\"abc) }"));
}

fn has_error_leaf(node: SyntaxNode<'_>, text: &str) -> bool {
    for child in node.children() {
        match child {
            SyntaxElement::Token(t) => {
                if t.kind() == SyntaxKind::Error && t.text() == text {
                    return true;
                }
            }
            SyntaxElement::Node(n) => {
                if has_error_leaf(n, text) {
                    return true;
                }
            }
        }
    }
    false
}

const SAMPLES: [&str; 14] = [
    "",
    " ",
    "{ pet faveSnack }",
    "query Q($a: [Int!]! = [1, 2] @d) @e(x: {y: $z, w: null}) { a: b(c: 1.5e3) { ...F ... on T { d } ... @i { e } } }",
    "fragment F on T @x { a }",
    "schema @a { query: Q mutation: M }",
    "\"desc\" type T implements A & B @d { \"f\" a(x: Int = 1): [T!] @e }",
    "\"\"\"block \\\"\"\" still\"\"\" scalar S @s",
    "interface I { a: Int } union U = | A | B enum E { A @x B } input In { a: Int = 1 }",
    "extend type T { b: Int } extend schema @x extend scalar S @y extend enum E { C } extend union U = C extend input In { b: T } extend interface I @k",
    "directive @d(a: Int) repeatable on QUERY | FIELD",
    "uasdf21230jkdw\n\n{ pet faveSnack }",
    "query { a( } ] ) \u{00e9} \"open",
    "{ a ^ b } type 12ab -- .. ... \u{feff} #comment\n,,, extend oops { x }",
];

#[test]
fn every_sample_is_reproduced_by_its_tree() {
    for input in SAMPLES {
        let tree = parse(input);
        assert_eq!(tree.text(), input);
        assert_eq!(tree.green().to_string(), input);
    }
}

#[test]
fn valid_samples_have_no_diagnostics() {
    for input in &SAMPLES[..11] {
        let tree = parse(input);
        assert_eq!(tree.errors().len(), 0, "{}", input);
    }
}

fn check_spans(node: SyntaxNode<'_>) {
    let (start, end) = node.span();
    assert!(start <= end);
    let mut at = start;
    for child in node.children() {
        let (s, e) = match child {
            SyntaxElement::Node(n) => {
                check_spans(n);
                n.span()
            }
            SyntaxElement::Token(t) => {
                let (s, e) = t.span();
                assert_eq!(e - s, t.text().len());
                (s, e)
            }
        };
        assert_eq!(s, at);
        assert!(s <= e);
        at = e;
    }
    assert_eq!(at, end);
}

#[test]
fn spans_of_children_tile_the_span_of_their_node() {
    for input in SAMPLES {
        let tree = parse(input);
        let root = tree.root();
        assert_eq!(root.span(), (0, input.len()));
        check_spans(root);
    }
}

#[test]
fn diagnostics_come_in_source_order_and_stay_inside_the_text() {
    for input in SAMPLES {
        let tree = parse(input);
        // No recovery loops: there are never more diagnostics than bytes,
        // but for the one that the end of the input can get.
        assert!(tree.errors().len() <= input.len() + 1);
        let mut last = 0;
        for e in tree.errors() {
            let (s, t) = e.span();
            assert!(s <= t && t <= input.len());
            assert!(last <= s);
            last = s;
        }
    }
}

#[test]
fn missing_selection_set_is_reported_at_the_end() {
    let tree = parse("query Q");
    assert_eq!(tree.errors().len(), 1);
    let e = tree.errors()[0];
    assert_eq!(e.kind(), ErrorKind::Missing);
    assert_eq!(e.expected, Expected::SelectionSet);
    assert_eq!(e.span(), (7, 7));
    assert_eq!(e.message(), "expected a selection set");
}

#[test]
fn stray_token_in_a_selection_set_is_skipped() {
    let tree = parse("{ a = b }");
    assert_eq!(tree.errors().len(), 1);
    let e = tree.errors()[0];
    assert_eq!(e.kind(), ErrorKind::Unexpected);
    assert_eq!(e.expected, Expected::Selection);
    assert_eq!(e.span(), (4, 5));
    let doc = tree.document();
    match doc.definitions()[0] {
        Definition::OperationDefinition(op) => {
            assert_eq!(op.selection_set().unwrap().selections().len(), 2);
        }
        _ => panic!("expected an operation"),
    }
}

#[test]
fn unknown_tokens_are_synced_to_the_next_definition() {
    let tree = parse("foo bar ( query { a }");
    assert_eq!(tree.errors().len(), 1);
    assert_eq!(tree.errors()[0].span(), (0, 3));
    let doc = tree.document();
    assert_eq!(doc.definitions().len(), 1);
}

#[test]
fn green_tree_has_the_kinds_of_the_tree() {
    let tree = parse("{ pet }");
    let green = tree.green();
    assert_eq!(green.kind(), rowan::SyntaxKind(SyntaxKind::Document.to_raw()));
    let first = green.children().next().unwrap();
    assert_eq!(first.kind(), rowan::SyntaxKind(SyntaxKind::OperationDefinition.to_raw()));
    assert_eq!(u32::from(green.text_len()), 7);
}

fn first_error(input: &str) -> (ErrorKind, Expected, (usize, usize)) {
    let tree = parse(input);
    assert_eq!(tree.text(), input);
    let e = tree.errors()[0];
    (e.kind(), e.expected, e.span())
}

#[test]
fn each_expectation_has_an_input_that_misses_it() {
    assert_eq!(first_error("^"), (ErrorKind::Lexical, Expected::Token, (0, 1)));
    assert_eq!(first_error(")"), (ErrorKind::Unexpected, Expected::Definition, (0, 1)));
    assert_eq!(first_error("{ a(b: 1) @ }"), (ErrorKind::Missing, Expected::Name, (12, 13)));
    assert_eq!(first_error("{ a(1) }"), (ErrorKind::Unexpected, Expected::Name, (4, 5)));
    assert_eq!(first_error("{ ! }"), (ErrorKind::Unexpected, Expected::Selection, (2, 3)));
    assert_eq!(first_error("fragment F on T"), (ErrorKind::Missing, Expected::SelectionSet, (15, 15)));
    assert_eq!(first_error("{ a(b: ) }"), (ErrorKind::Missing, Expected::Value, (7, 8)));
    assert_eq!(first_error("{ a(b: [ @ ]) }"), (ErrorKind::Unexpected, Expected::Value, (9, 10)));
    assert_eq!(first_error("query($a: ) { b }"), (ErrorKind::Missing, Expected::Type, (10, 11)));
    assert_eq!(first_error("query(a) { b }"), (ErrorKind::Unexpected, Expected::Variable, (6, 7)));
    assert_eq!(first_error("{ a(b 1) }"), (ErrorKind::Missing, Expected::Colon, (6, 7)));
    assert_eq!(first_error("fragment F { a }"), (ErrorKind::Missing, Expected::On, (11, 12)));
    assert_eq!(first_error("directive d on FIELD"), (ErrorKind::Missing, Expected::At, (10, 11)));
    assert_eq!(first_error("{ a"), (ErrorKind::Missing, Expected::ClosingBrace, (3, 3)));
    assert_eq!(first_error("{ a(b: 1 }"), (ErrorKind::Missing, Expected::ClosingParen, (9, 10)));
    assert_eq!(first_error("{ a(b: [1) }"), (ErrorKind::Missing, Expected::ClosingBracket, (9, 10)));
    assert_eq!(first_error("schema { a: Q }"), (ErrorKind::Unexpected, Expected::OperationType, (9, 10)));
    assert_eq!(
        first_error("directive @d on"),
        (ErrorKind::Missing, Expected::DirectiveLocation, (15, 15))
    );
    assert_eq!(first_error("type T { ! }"), (ErrorKind::Unexpected, Expected::Fields, (9, 10)));
    assert_eq!(first_error("schema @d"), (ErrorKind::Missing, Expected::Fields, (9, 9)));
    assert_eq!(
        first_error("extend oops"),
        (ErrorKind::Unexpected, Expected::TypeSystemDefinition, (0, 6))
    );
}

#[test]
fn messages_of_the_diagnostics() {
    let tree = parse(") { a(b 1) }");
    let messages: Vec<&str> = tree.errors().iter().map(|e| e.message()).collect();
    assert_eq!(messages, vec!["expected a definition", "expected a colon"]);
}
