use relix::ast::{BinaryExpr, Expr, NumberExpr, PrefixExpr, SymbolExpr};
use relix::exprs::{parse_binary_expr, parse_expr};
use relix::lexer::{
    select_rule, text_eq, tokenize, tokens_for, LexAction, Token, TokenKind,
};
use relix::lookups::{
    create_token_lookups, create_type_token_lookups, BindingPower, LedHandler, Lookups,
    NudHandler, StmtHandler, TypeNudHandler,
};
use relix::parser::{parse, Parser};
use relix::stmts::parse_stmt;
use relix::RelixError;

fn standard_tables() -> Lookups {
    let mut lu = Lookups::new();
    create_token_lookups(&mut lu);
    create_type_token_lookups(&mut lu);
    lu
}

fn parser_for(source: &str) -> Parser {
    Parser { tokens: tokenize(source).unwrap(), pos: 0 }
}

fn sym(name: &str) -> Expr {
    Expr::Symbol(SymbolExpr { value: name.to_string() })
}

#[test]
fn error_keeps_its_message() {
    assert_eq!(RelixError::new("boom").message(), "boom");
    assert_eq!(RelixError::from_message("bang".to_string()).message(), "bang");
    assert_eq!(RelixError::from("owned".to_string()).message(), "owned");
    assert_eq!(RelixError::from("borrowed").message(), "borrowed");
}

#[test]
fn binding_power_levels_are_ordered() {
    assert_eq!(BindingPower::Default.numeric_level(), 0);
    assert_eq!(BindingPower::Additive.numeric_level(), 5);
    assert_eq!(BindingPower::Primary.numeric_level(), 10);
    assert!(BindingPower::Multiplicative.binds_tighter_than(BindingPower::Additive));
    assert!(!BindingPower::Additive.binds_tighter_than(BindingPower::Additive));
    assert!(!BindingPower::Comma.binds_tighter_than(BindingPower::Member));
    assert_eq!(BindingPower::default(), BindingPower::Default);
    assert!(BindingPower::Call < BindingPower::Member);
}

#[test]
fn every_keyword_round_trips_through_its_label() {
    let keywords = [
        TokenKind::True,
        TokenKind::False,
        TokenKind::Null,
        TokenKind::Let,
        TokenKind::Const,
        TokenKind::Class,
        TokenKind::New,
        TokenKind::Import,
        TokenKind::From,
        TokenKind::Fn,
        TokenKind::If,
        TokenKind::Else,
        TokenKind::Foreach,
        TokenKind::While,
        TokenKind::For,
        TokenKind::Export,
        TokenKind::Typeof,
        TokenKind::In,
        TokenKind::Return,
    ];
    for k in keywords {
        assert_eq!(TokenKind::from_keyword(k.as_str()), Some(k));
    }
    assert_eq!(TokenKind::from_keyword("plus"), None);
    assert_eq!(TokenKind::from_keyword("Let"), None);
    assert_eq!(TokenKind::from_keyword(""), None);
}

#[test]
fn ordinal_indices_are_distinct() {
    assert_eq!(TokenKind::Eof.ordinal_index(), 0);
    assert_ne!(TokenKind::Plus.ordinal_index(), TokenKind::Dash.ordinal_index());
    assert!(TokenKind::Return.ordinal_index() < 55);
}

#[test]
fn token_debug_text() {
    assert_eq!(Token::new(TokenKind::Identifier, "foo").debug_text(), "identifier(foo)");
    assert_eq!(Token::new(TokenKind::Number, "3.14").debug_text(), "number(3.14)");
    assert_eq!(Token::new(TokenKind::String, "\"s\"").debug_text(), "string(\"s\")");
    assert_eq!(Token::new(TokenKind::Plus, "+").debug_text(), "plus()");
    assert_eq!(Token::new(TokenKind::Eof, "EOF").debug_text(), "eof()");
}

#[test]
fn token_duplicate_and_text_eq() {
    let t = Token::new(TokenKind::Identifier, "abc");
    assert_eq!(t.duplicate(), t);
    assert!(text_eq("abc", "abc"));
    assert!(!text_eq("abc", "abd"));
    assert!(!text_eq("abc", "ab"));
    assert!(text_eq("", ""));
}

#[test]
fn token_stream_ends_with_a_single_eof() {
    for source in ["", "   ", "let x = 1;", "a.b(c)[d]", "// comment only"] {
        let tokens = tokenize(source).unwrap();
        let last = tokens.last().unwrap();
        assert_eq!(last, &Token::new(TokenKind::Eof, "EOF"));
        assert!(tokens[..tokens.len() - 1].iter().all(|t| t.kind != TokenKind::Eof));
    }
}

#[test]
fn first_matching_rule_wins() {
    let kinds: Vec<TokenKind> =
        tokenize("== = != ! <= < >= > ?? ??= ? .. . ++ += + -- -= - && ||")
            .unwrap()
            .iter()
            .map(|t| t.kind)
            .collect();
    assert_eq!(
        kinds,
        vec![
            TokenKind::Equals,
            TokenKind::Assignment,
            TokenKind::NotEquals,
            TokenKind::Not,
            TokenKind::LessEquals,
            TokenKind::Less,
            TokenKind::GreaterEquals,
            TokenKind::Greater,
            TokenKind::Question,
            TokenKind::Question,
            TokenKind::NullishAssignment,
            TokenKind::Question,
            TokenKind::DotDot,
            TokenKind::Dot,
            TokenKind::PlusPlus,
            TokenKind::PlusEquals,
            TokenKind::Plus,
            TokenKind::MinusMinus,
            TokenKind::MinusEquals,
            TokenKind::Dash,
            TokenKind::And,
            TokenKind::Or,
            TokenKind::Eof,
        ]
    );
}

#[test]
fn keywords_and_identifiers_are_told_apart() {
    let tokens = tokenize("letter let _x9 true").unwrap();
    assert_eq!(tokens[0], Token::new(TokenKind::Identifier, "letter"));
    assert_eq!(tokens[1], Token::new(TokenKind::Let, "let"));
    assert_eq!(tokens[2], Token::new(TokenKind::Identifier, "_x9"));
    assert_eq!(tokens[3], Token::new(TokenKind::True, "true"));
}

#[test]
fn numbers_strings_and_brackets() {
    let tokens = tokenize("[12.5]{\"a b\"}(7)").unwrap();
    let expected = vec![
        Token::new(TokenKind::OpenBracket, "["),
        Token::new(TokenKind::Number, "12.5"),
        Token::new(TokenKind::CloseBracket, "]"),
        Token::new(TokenKind::OpenCurly, "{"),
        Token::new(TokenKind::String, "\"a b\""),
        Token::new(TokenKind::CloseCurly, "}"),
        Token::new(TokenKind::OpenParen, "("),
        Token::new(TokenKind::Number, "7"),
        Token::new(TokenKind::CloseParen, ")"),
        Token::new(TokenKind::Eof, "EOF"),
    ];
    assert_eq!(tokens, expected);
}

#[test]
fn unrecognized_input_is_an_error() {
    assert_eq!(
        tokenize("x # y").unwrap_err().message(),
        "lexer error: unrecognized token near '# y'"
    );
    assert_eq!(
        tokenize("$abcdefghijklmnopqrstuvwxyz").unwrap_err().message(),
        "lexer error: unrecognized token near '$abcdefghijklmnopqrs'"
    );
    assert_eq!(
        tokenize("\"unterminated").unwrap_err().message(),
        "lexer error: unrecognized token near '\"unterminated'"
    );
}

#[test]
fn non_ascii_text_inside_strings_is_kept() {
    let tokens = tokenize("\"héllo\" x").unwrap();
    assert_eq!(tokens[0], Token::new(TokenKind::String, "\"héllo\""));
    assert_eq!(tokens[1], Token::new(TokenKind::Identifier, "x"));
}

#[test]
fn registration_is_read_back() {
    let mut lu = Lookups::new();
    assert_eq!(lu.binding_power(TokenKind::Plus), None);
    assert_eq!(lu.led_handler(TokenKind::Plus), None);
    lu.led(TokenKind::Plus, BindingPower::Additive, LedHandler::Binary);
    assert_eq!(lu.binding_power(TokenKind::Plus), Some(BindingPower::Additive));
    assert_eq!(lu.led_handler(TokenKind::Plus), Some(LedHandler::Binary));
    lu.nud(TokenKind::Plus, BindingPower::Unary, NudHandler::Prefix);
    assert_eq!(lu.nud_handler(TokenKind::Plus), Some(NudHandler::Prefix));
    assert_eq!(lu.binding_power(TokenKind::Plus), Some(BindingPower::Primary));
    assert_eq!(lu.led_handler(TokenKind::Plus), Some(LedHandler::Binary));
    lu.stmt(TokenKind::Plus, StmtHandler::Block);
    assert_eq!(lu.stmt_handler(TokenKind::Plus), Some(StmtHandler::Block));
    assert_eq!(lu.binding_power(TokenKind::Plus), Some(BindingPower::Default));
    lu.type_nud(TokenKind::Plus, BindingPower::Member, TypeNudHandler::Symbol);
    assert_eq!(lu.type_nud_handler(TokenKind::Plus), Some(TypeNudHandler::Symbol));
    assert_eq!(lu.type_binding_power(TokenKind::Plus), Some(BindingPower::Primary));
    assert_eq!(lu.binding_power(TokenKind::Dash), None);
}

#[test]
fn standard_tables_hold_the_language() {
    let lu = standard_tables();
    assert_eq!(lu.binding_power(TokenKind::Star), Some(BindingPower::Multiplicative));
    assert_eq!(lu.binding_power(TokenKind::Dash), Some(BindingPower::Additive));
    assert_eq!(lu.binding_power(TokenKind::Plus), Some(BindingPower::Additive));
    assert_eq!(lu.binding_power(TokenKind::OpenParen), Some(BindingPower::Call));
    assert_eq!(lu.binding_power(TokenKind::NullishAssignment), Some(BindingPower::Assignment));
    assert_eq!(lu.led_handler(TokenKind::NullishAssignment), Some(LedHandler::Assignment));
    assert_eq!(lu.binding_power(TokenKind::Identifier), Some(BindingPower::Primary));
    assert_eq!(lu.binding_power(TokenKind::OpenBracket), Some(BindingPower::Member));
    assert_eq!(lu.binding_power(TokenKind::Fn), Some(BindingPower::Default));
    assert_eq!(lu.binding_power(TokenKind::SemiColon), None);
    assert_eq!(lu.nud_handler(TokenKind::New), Some(NudHandler::New));
    assert_eq!(lu.led_handler(TokenKind::DotDot), Some(LedHandler::Range));
    assert_eq!(lu.stmt_handler(TokenKind::Foreach), Some(StmtHandler::Foreach));
    assert_eq!(lu.stmt_handler(TokenKind::Return), Some(StmtHandler::Return));
    assert_eq!(lu.type_nud_handler(TokenKind::OpenBracket), Some(TypeNudHandler::List));
    assert_eq!(lu.type_binding_power(TokenKind::Identifier), Some(BindingPower::Primary));
}

#[test]
fn parser_cursor_moves_over_the_stream() {
    let mut p = parser_for("a + b");
    assert!(p.has_tokens());
    assert_eq!(p.current_token_kind(), TokenKind::Identifier);
    assert_eq!(p.next_token(), &Token::new(TokenKind::Plus, "+"));
    assert_eq!(p.advance(), Token::new(TokenKind::Identifier, "a"));
    assert_eq!(p.previous_token(), &Token::new(TokenKind::Identifier, "a"));
    assert_eq!(p.current_token(), &Token::new(TokenKind::Plus, "+"));
    p.advance();
    p.advance();
    assert!(!p.has_tokens());
    assert_eq!(p.pos, 3);
}

#[test]
fn expect_reports_what_it_found() {
    let mut p = parser_for("a ;");
    assert_eq!(
        p.expect(TokenKind::SemiColon).unwrap_err().message(),
        "Expected semi_colon but received identifier instead\n"
    );
    assert_eq!(p.pos, 0);
    assert_eq!(
        p.expect_error(TokenKind::Number, Some("custom".to_string())).unwrap_err().message(),
        "custom"
    );
    assert_eq!(p.pos, 0);
    assert_eq!(p.expect(TokenKind::Identifier).unwrap(), Token::new(TokenKind::Identifier, "a"));
    assert_eq!(p.expect_error(TokenKind::SemiColon, None).unwrap().kind, TokenKind::SemiColon);
    assert_eq!(p.pos, 2);
}

#[test]
fn parse_expr_stops_at_weaker_operators() {
    let lu = standard_tables();
    let mut p = parser_for("a * b + c");
    let e = parse_expr(&mut p, &lu, BindingPower::Additive).unwrap();
    assert_eq!(
        e,
        Expr::Binary(BinaryExpr {
            left: Box::new(sym("a")),
            operator: Token::new(TokenKind::Star, "*"),
            right: Box::new(sym("b")),
        })
    );
    assert_eq!(p.pos, 3);
    let mut q = parser_for("a + b");
    assert_eq!(parse_expr(&mut q, &lu, BindingPower::Additive).unwrap(), sym("a"));
    assert_eq!(q.pos, 1);
}

#[test]
fn binary_handler_parses_its_operand_at_its_own_power() {
    let lu = standard_tables();
    let mut p = parser_for("1 * 2 + 3;");
    p.pos = 1;
    let left = Expr::Number(NumberExpr { value: "1".to_string() });
    let e = parse_binary_expr(&mut p, &lu, left, BindingPower::Default).unwrap();
    assert_eq!(
        e,
        Expr::Binary(BinaryExpr {
            left: Box::new(Expr::Number(NumberExpr { value: "1".to_string() })),
            operator: Token::new(TokenKind::Star, "*"),
            right: Box::new(Expr::Number(NumberExpr { value: "2".to_string() })),
        })
    );
    assert_eq!(p.pos, 3);
}

#[test]
fn prefix_minus_binds_tighter_than_binary_minus() {
    let lu = standard_tables();
    let mut p = parser_for("-a - 1");
    assert_eq!(
        parse_expr(&mut p, &lu, BindingPower::Default).unwrap(),
        Expr::Binary(BinaryExpr {
            left: Box::new(Expr::Prefix(PrefixExpr {
                operator: Token::new(TokenKind::Dash, "-"),
                right: Box::new(sym("a")),
            })),
            operator: Token::new(TokenKind::Dash, "-"),
            right: Box::new(Expr::Number(NumberExpr { value: "1".to_string() })),
        })
    );
}

#[test]
fn errors_leave_the_cursor_where_they_arise() {
    let lu = standard_tables();
    let mut p = parser_for(";");
    assert_eq!(
        parse_expr(&mut p, &lu, BindingPower::Default).unwrap_err().message(),
        "NUD Handler expected for token semi_colon\n"
    );
    assert_eq!(p.pos, 0);
    let mut q = parser_for("let z;");
    assert_eq!(
        parse_stmt(&mut q, &lu).unwrap_err().message(),
        "Missing explicit type for variable declaration."
    );
    assert_eq!(q.pos, 2);
    let mut r = parser_for("new Point;");
    assert_eq!(
        parse_stmt(&mut r, &lu).unwrap_err().message(),
        "Expected call expression after `new`"
    );
    assert_eq!(r.pos, 2);
    let mut t = parser_for("let x: number number;");
    assert_eq!(
        parse_stmt(&mut t, &lu).unwrap_err().message(),
        "type: LED Handler expected for token identifier\n"
    );
    assert_eq!(t.pos, 4);
}

#[test]
fn select_rule_takes_the_first_match_at_the_start() {
    let found = vec![None, Some((2, 4)), Some((0, 0)), Some((0, 3)), Some((0, 5))];
    assert_eq!(select_rule(&found, 10), Some((3, 3)));
    assert_eq!(select_rule(&found, 2), None);
    assert_eq!(select_rule(&vec![None, Some((0, 9))], 9), Some((1, 9)));
    assert_eq!(select_rule(&vec![], 4), None);
}

#[test]
fn tokens_for_each_action() {
    assert!(tokens_for(LexAction::Skip, "", "  ").is_empty());
    assert!(tokens_for(LexAction::Comment, "", "// x").is_empty());
    assert_eq!(
        tokens_for(LexAction::StringLiteral, "", "\"s\""),
        vec![Token::new(TokenKind::String, "\"s\"")]
    );
    assert_eq!(
        tokens_for(LexAction::NumberLiteral, "", "42"),
        vec![Token::new(TokenKind::Number, "42")]
    );
    assert_eq!(
        tokens_for(LexAction::Symbol, "", "while"),
        vec![Token::new(TokenKind::While, "while")]
    );
    assert_eq!(
        tokens_for(LexAction::Symbol, "", "whiles"),
        vec![Token::new(TokenKind::Identifier, "whiles")]
    );
    assert_eq!(
        tokens_for(LexAction::Fixed(TokenKind::PlusEquals), "+=", "+="),
        vec![Token::new(TokenKind::PlusEquals, "+=")]
    );
}

#[test]
fn every_kind_has_its_own_label() {
    let all = [
        TokenKind::Eof, TokenKind::Null, TokenKind::True, TokenKind::False, TokenKind::Number,
        TokenKind::String, TokenKind::Identifier, TokenKind::OpenBracket, TokenKind::CloseBracket,
        TokenKind::OpenCurly, TokenKind::CloseCurly, TokenKind::OpenParen, TokenKind::CloseParen,
        TokenKind::Assignment, TokenKind::Equals, TokenKind::NotEquals, TokenKind::Not,
        TokenKind::Less, TokenKind::LessEquals, TokenKind::Greater, TokenKind::GreaterEquals,
        TokenKind::Or, TokenKind::And, TokenKind::Dot, TokenKind::DotDot, TokenKind::SemiColon,
        TokenKind::Colon, TokenKind::Question, TokenKind::Comma, TokenKind::PlusPlus,
        TokenKind::MinusMinus, TokenKind::PlusEquals, TokenKind::MinusEquals,
        TokenKind::NullishAssignment, TokenKind::Plus, TokenKind::Dash, TokenKind::Slash,
        TokenKind::Star, TokenKind::Percent, TokenKind::Let, TokenKind::Const, TokenKind::Class,
        TokenKind::New, TokenKind::Import, TokenKind::From, TokenKind::Fn, TokenKind::If,
        TokenKind::Else, TokenKind::Foreach, TokenKind::While, TokenKind::For, TokenKind::Export,
        TokenKind::Typeof, TokenKind::In, TokenKind::Return,
    ];
    assert_eq!(all.len(), 55);
    for a in all {
        for b in all {
            assert_eq!(a.as_str() == b.as_str(), a == b);
        }
    }
}

#[test]
fn parse_stmt_dispatches_on_the_first_token() {
    let lu = standard_tables();
    let mut p = parser_for("{ x; } y;");
    let first = parse_stmt(&mut p, &lu).unwrap();
    assert!(matches!(first, relix::ast::Stmt::Block(_)));
    assert_eq!(p.pos, 4);
    let second = parse_stmt(&mut p, &lu).unwrap();
    assert!(matches!(second, relix::ast::Stmt::Expression(_)));
    assert!(!p.has_tokens());
}

#[test]
fn parse_is_deterministic() {
    let source = "let a = [1, 2][0] + f(x, y).z;";
    assert_eq!(parse(source), parse(source));
    assert!(parse(source).is_ok());
}
