use graphql_cst::parser::{parse, parse_checked, WEIGHT};
use graphql_cst::lexer::lex;
use graphql_cst::kind::SyntaxKind;

#[test]
fn printed_tree_of_a_short_query() {
    let tree = parse("{ pet }");
    let expected = "\
- DOCUMENT@0..7
    - OPERATION_DEFINITION@0..7
        - SELECTION_SET@0..7
            - L_CURLY@0..1 \"{\"
            - WHITESPACE@1..2 \" \"
            - FIELD@2..6
                - NAME@2..6
                    - IDENT@2..5 \"pet\"
                    - WHITESPACE@5..6 \" \"
            - R_CURLY@6..7 \"}\"
";
    assert_eq!(tree.dump(), expected);
}

#[test]
fn printed_tree_with_a_diagnostic() {
    let tree = parse("query\n");
    let expected = "\
- DOCUMENT@0..6
    - OPERATION_DEFINITION@0..6
        - OPERATION_TYPE@0..6
            - query_KW@0..5 \"query\"
            - WHITESPACE@5..6 \"\\n\"
- ERROR@6..6 expected a selection set
";
    assert_eq!(tree.dump(), expected);
}

#[test]
fn printed_empty_tree() {
    assert_eq!(parse("").dump(), "- DOCUMENT@0..0\n");
}

#[test]
fn equal_texts_give_equal_trees() {
    let a = parse("{ pet faveSnack }");
    let b = parse("{ pet faveSnack }");
    let c = parse("{ pet  faveSnack }");
    let d = parse("{ pet faveSnack ");
    assert!(a.equals(&b));
    assert!(!a.equals(&c));
    assert!(!a.equals(&d));
    assert!(a == b);
    assert!(a != c);
    assert!(a != d);
    let copy = a.clone();
    assert!(copy.equals(&a));
    assert_eq!(copy.dump(), a.dump());
    assert_eq!(copy.green().to_string(), "{ pet faveSnack }");
}

#[test]
fn output_is_linear_in_the_tokens() {
    let mut deep = String::new();
    for _ in 0..200 {
        deep.push_str("{ a ");
    }
    let mut stray = String::new();
    for _ in 0..300 {
        stray.push_str(") ^ ");
    }
    for input in [deep.as_str(), stray.as_str(), "query Q(", "[[[[", "extend extend extend"] {
        let tokens = lex(input.as_bytes()).len();
        let tree = parse(input);
        let mut events = 0;
        let mut stack = vec![tree.root()];
        while let Some(node) = stack.pop() {
            events += 2;
            for child in node.children() {
                match child {
                    graphql_cst::tree::SyntaxElement::Node(n) => stack.push(n),
                    graphql_cst::tree::SyntaxElement::Token(_) => events += 1,
                }
            }
        }
        assert!(events + tree.errors().len() <= WEIGHT * tokens + 2);
        assert_eq!(tree.text(), input);
    }
}

#[test]
fn parse_checked_parses_what_parse_parses() {
    let tree = parse_checked("{ a }").unwrap();
    assert!(tree.equals(&parse("{ a }")));
}

#[test]
fn kinds_and_their_numbers() {
    assert_eq!(SyntaxKind::from_raw(SyntaxKind::Document.to_raw()), Some(SyntaxKind::Document));
    assert_eq!(SyntaxKind::from_raw(SyntaxKind::Whitespace.to_raw()), Some(SyntaxKind::Whitespace));
    assert_eq!(SyntaxKind::Whitespace.to_raw(), 0);
    assert_eq!(SyntaxKind::from_raw(60000), None);
}
