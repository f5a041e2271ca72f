use graphql_cst::kind::TokenKind;
use graphql_cst::lexer::{lex, Token};

fn kinds(input: &str) -> Vec<(TokenKind, usize, usize)> {
    lex(input.as_bytes()).iter().map(|t: &Token| (t.kind, t.start, t.end)).collect()
}

#[test]
fn punctuators() {
    let all = "!$&()...:=@[]{|},";
    let got: Vec<TokenKind> = lex(all.as_bytes()).iter().map(|t| t.kind).collect();
    assert_eq!(
        got,
        vec![
            TokenKind::Bang,
            TokenKind::Dollar,
            TokenKind::Amp,
            TokenKind::LParen,
            TokenKind::RParen,
            TokenKind::Spread,
            TokenKind::Colon,
            TokenKind::Eq,
            TokenKind::At,
            TokenKind::LBracket,
            TokenKind::RBracket,
            TokenKind::LCurly,
            TokenKind::Pipe,
            TokenKind::RCurly,
            TokenKind::Comma,
        ]
    );
}

#[test]
fn names_and_blanks() {
    assert_eq!(
        kinds("ab_1 \t\r\n_x"),
        vec![(TokenKind::Name, 0, 4), (TokenKind::Whitespace, 4, 8), (TokenKind::Name, 8, 10)]
    );
}

#[test]
fn comment_ends_before_the_line_end() {
    assert_eq!(
        kinds("# hi\nx"),
        vec![(TokenKind::Comment, 0, 4), (TokenKind::Whitespace, 4, 5), (TokenKind::Name, 5, 6)]
    );
}

#[test]
fn numbers() {
    assert_eq!(kinds("0"), vec![(TokenKind::Int, 0, 1)]);
    assert_eq!(kinds("-12"), vec![(TokenKind::Int, 0, 3)]);
    assert_eq!(kinds("1.5"), vec![(TokenKind::Float, 0, 3)]);
    assert_eq!(kinds("1e10"), vec![(TokenKind::Float, 0, 4)]);
    assert_eq!(kinds("-1.25E-3"), vec![(TokenKind::Float, 0, 8)]);
    assert_eq!(kinds("1 2"), vec![(TokenKind::Int, 0, 1), (TokenKind::Whitespace, 1, 2), (TokenKind::Int, 2, 3)]);
}

#[test]
fn faulty_numbers_are_one_error_token() {
    assert_eq!(kinds("01"), vec![(TokenKind::Error, 0, 2)]);
    assert_eq!(kinds("-"), vec![(TokenKind::Error, 0, 1)]);
    assert_eq!(kinds("1."), vec![(TokenKind::Error, 0, 2)]);
    assert_eq!(kinds("1e"), vec![(TokenKind::Error, 0, 2)]);
    assert_eq!(kinds("12ab"), vec![(TokenKind::Error, 0, 4)]);
    assert_eq!(kinds("1.5.2"), vec![(TokenKind::Error, 0, 5)]);
}

#[test]
fn strings() {
    assert_eq!(kinds("\"\""), vec![(TokenKind::StringValue, 0, 2)]);
    assert_eq!(kinds("\"a b\""), vec![(TokenKind::StringValue, 0, 5)]);
    assert_eq!(kinds("\"a\\\"b\""), vec![(TokenKind::StringValue, 0, 6)]);
    assert_eq!(kinds("\"\"\"a\nb\"\"\""), vec![(TokenKind::StringValue, 0, 9)]);
    assert_eq!(kinds("\"\"\"a\\\"\"\"b\"\"\""), vec![(TokenKind::StringValue, 0, 12)]);
}

#[test]
fn unterminated_strings_are_error_tokens() {
    assert_eq!(kinds("\"abc"), vec![(TokenKind::Error, 0, 4)]);
    assert_eq!(
        kinds("\"abc\nx"),
        vec![(TokenKind::Error, 0, 4), (TokenKind::Whitespace, 4, 5), (TokenKind::Name, 5, 6)]
    );
    assert_eq!(kinds("\"\"\"abc\"\""), vec![(TokenKind::Error, 0, 8)]);
}

#[test]
fn dots_that_are_no_spread() {
    assert_eq!(kinds("."), vec![(TokenKind::Error, 0, 1)]);
    assert_eq!(kinds(".."), vec![(TokenKind::Error, 0, 2)]);
    assert_eq!(kinds("...."), vec![(TokenKind::Spread, 0, 3), (TokenKind::Error, 3, 4)]);
}

#[test]
fn bytes_outside_the_language() {
    // One token for the whole character, not one for each of its bytes.
    assert_eq!(kinds("\u{00e9}"), vec![(TokenKind::Error, 0, 2)]);
    assert_eq!(kinds("a\u{20ac}b"), vec![(TokenKind::Name, 0, 1), (TokenKind::Error, 1, 4), (TokenKind::Name, 4, 5)]);
    assert_eq!(kinds("^"), vec![(TokenKind::Error, 0, 1)]);
    assert_eq!(kinds("\u{feff}x"), vec![(TokenKind::Whitespace, 0, 3), (TokenKind::Name, 3, 4)]);
}

#[test]
fn arbitrary_bytes_are_covered_without_gaps() {
    let inputs: [&[u8]; 5] = [
        &[],
        &[0x80, 0x80, 0x41],
        &[0xff, 0xfe, 0x00, 0x22],
        &[0x22, 0x5c],
        &[0x2d, 0x2e, 0x2e, 0x2e, 0xc3],
    ];
    for bytes in inputs {
        let tokens = lex(bytes);
        let mut at = 0;
        for t in &tokens {
            assert_eq!(t.start, at);
            assert!(t.start < t.end);
            at = t.end;
        }
        assert_eq!(at, bytes.len());
    }
}
