use relix::lexer::{Token, TokenKind};

#[test]
fn test_as_str_roundtrip() {
    assert_eq!(TokenKind::Eof.as_str(), "eof");
    assert_eq!(TokenKind::NullishAssignment.as_str(), "nullish_assignment");
    assert_eq!(TokenKind::Foreach.as_str(), "foreach");
}

#[test]
fn test_keyword_lookup() {
    assert_eq!(TokenKind::from_keyword("let"), Some(TokenKind::Let));
    assert_eq!(TokenKind::from_keyword("foreach"), Some(TokenKind::Foreach));
    assert_eq!(TokenKind::from_keyword("typeof"), Some(TokenKind::Typeof));
    assert_eq!(TokenKind::from_keyword("unknown"), None);
}

#[test]
fn test_is_one_of_many() {
    let tok = Token::new(TokenKind::Plus, "+");
    assert!(tok.is_one_of_many(&[TokenKind::Plus, TokenKind::Dash]));
    assert!(!tok.is_one_of_many(&[TokenKind::Star, TokenKind::Slash]));
}

#[test]
fn test_display() {
    assert_eq!(TokenKind::OpenBracket.as_str(), "open_bracket");
    assert_eq!(TokenKind::In.as_str(), "in");
}

#[test]
fn test_token_new() {
    let tok = Token::new(TokenKind::Identifier, "foo");
    assert_eq!(tok.kind, TokenKind::Identifier);
    assert_eq!(tok.value, "foo");
}
