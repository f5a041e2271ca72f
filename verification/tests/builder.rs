use graphql_cst::builder::SyntaxTreeBuilder;
use graphql_cst::error::{Error, ErrorKind, Expected};
use graphql_cst::kind::SyntaxKind;
use graphql_cst::tree::SyntaxElement;

#[test]
fn builder_assembles_nested_nodes() {
    let mut b = SyntaxTreeBuilder::new();
    b.start_node(SyntaxKind::Document);
    b.start_node(SyntaxKind::Name);
    b.token(SyntaxKind::Ident, "pet");
    b.finish_node();
    b.token(SyntaxKind::Whitespace, " ");
    b.start_node(SyntaxKind::Directives);
    b.finish_node();
    b.finish_node();
    let error = Error { kind: ErrorKind::Missing, expected: Expected::Name, start: 4, end: 4 };
    let tree = b.finish(vec![error]);
    assert_eq!(tree.text(), "pet ");
    assert_eq!(tree.errors(), &[error]);
    assert_eq!(tree.green().to_string(), "pet ");

    let root = tree.root();
    assert_eq!(root.kind(), SyntaxKind::Document);
    assert_eq!(root.span(), (0, 4));
    let children = root.children();
    assert_eq!(children.len(), 3);
    match children[0] {
        SyntaxElement::Node(n) => {
            assert_eq!(n.kind(), SyntaxKind::Name);
            assert_eq!(n.span(), (0, 3));
            assert_eq!(n.token(SyntaxKind::Ident).unwrap().text(), "pet");
        }
        _ => panic!("expected a node"),
    }
    match children[1] {
        SyntaxElement::Token(t) => {
            assert_eq!(t.kind(), SyntaxKind::Whitespace);
            assert_eq!(t.span(), (3, 4));
        }
        _ => panic!("expected a token"),
    }
    match children[2] {
        SyntaxElement::Node(n) => {
            assert_eq!(n.kind(), SyntaxKind::Directives);
            assert_eq!(n.span(), (4, 4));
            assert_eq!(n.children().len(), 0);
        }
        _ => panic!("expected a node"),
    }
    assert!(root.child(SyntaxKind::Name).is_some());
    assert!(root.child(SyntaxKind::Field).is_none());
    assert_eq!(root.nodes().len(), 2);
    assert_eq!(root.child_tokens(SyntaxKind::Whitespace).len(), 1);
}

#[test]
fn green_tree_has_the_shape_that_was_built() {
    let mut b = SyntaxTreeBuilder::new();
    b.start_node(SyntaxKind::Document);
    b.start_node(SyntaxKind::Field);
    b.token(SyntaxKind::Ident, "a");
    b.finish_node();
    b.token(SyntaxKind::Comma, ",");
    b.finish_node();
    let tree = b.finish(Vec::new());
    let green = tree.green();
    assert_eq!(green.kind(), rowan::SyntaxKind(SyntaxKind::Document.to_raw()));
    let kinds: Vec<u16> = green.children().map(|c| c.kind().0).collect();
    assert_eq!(kinds, vec![SyntaxKind::Field.to_raw(), SyntaxKind::Comma.to_raw()]);
    let field = green.children().next().unwrap().into_node().unwrap();
    let inner: Vec<String> =
        field.children().map(|c| c.into_token().unwrap().text().to_string()).collect();
    assert_eq!(inner, vec!["a".to_string()]);
}

#[test]
fn kind_names() {
    assert_eq!(SyntaxKind::Document.as_str(), "DOCUMENT");
    assert_eq!(SyntaxKind::SelectionSet.as_str(), "SELECTION_SET");
    assert_eq!(SyntaxKind::QueryKw.as_str(), "query_KW");
    assert!(SyntaxKind::Ident.token());
    assert!(!SyntaxKind::Document.token());
}
