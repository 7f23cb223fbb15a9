use relix::lexer::{tokenize, TokenKind};

#[test]
fn test_basic_expression() {
    let tokens = tokenize("x = 1 + 2;").unwrap();
    let kinds: Vec<_> = tokens.iter().map(|t| &t.kind).collect();
    assert!(matches!(kinds[0], TokenKind::Identifier));
    assert!(matches!(kinds[1], TokenKind::Assignment));
    assert!(matches!(kinds[2], TokenKind::Number));
    assert!(matches!(kinds[3], TokenKind::Plus));
    assert!(matches!(kinds[4], TokenKind::Number));
    assert!(matches!(kinds[5], TokenKind::SemiColon));
    assert!(matches!(kinds[6], TokenKind::Eof));
}

#[test]
fn test_string_literal() {
    let tokens = tokenize(r#""hello""#).unwrap();
    assert!(matches!(tokens[0].kind, TokenKind::String));
    assert_eq!(tokens[0].value, r#""hello""#);
}

#[test]
fn test_keywords() {
    let tokens = tokenize("let x = null;").unwrap();
    assert!(matches!(tokens[0].kind, TokenKind::Let));
    assert!(matches!(tokens[1].kind, TokenKind::Identifier));
    assert!(matches!(tokens[2].kind, TokenKind::Assignment));
    assert!(matches!(tokens[3].kind, TokenKind::Null));
}

#[test]
fn test_comment_skipped() {
    let tokens = tokenize("x // this is a comment\ny").unwrap();
    let kinds: Vec<_> = tokens.iter().map(|t| &t.kind).collect();
    assert_eq!(kinds.len(), 3);
    assert!(matches!(kinds[0], TokenKind::Identifier));
    assert!(matches!(kinds[1], TokenKind::Identifier));
    assert!(matches!(kinds[2], TokenKind::Eof));
}

#[test]
fn test_float_number() {
    let tokens = tokenize("3.14").unwrap();
    assert!(matches!(tokens[0].kind, TokenKind::Number));
    assert_eq!(tokens[0].value, "3.14");
}

#[test]
fn test_compound_operators() {
    let src = "a++ b-- c += 1 d -= 2 e != f e == f";
    let tokens = tokenize(src).unwrap();
    let kinds: Vec<_> = tokens.iter().map(|t| &t.kind).collect();
    assert!(matches!(kinds[1], TokenKind::PlusPlus));
    assert!(matches!(kinds[3], TokenKind::MinusMinus));
    assert!(matches!(kinds[5], TokenKind::PlusEquals));
    assert!(matches!(kinds[8], TokenKind::MinusEquals));
    assert!(matches!(kinds[11], TokenKind::NotEquals));
    assert!(matches!(kinds[14], TokenKind::Equals));
}
