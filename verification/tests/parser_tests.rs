use relix::ast::{
    ArrayLiteral, AssignmentExpr, BinaryExpr, BlockStmt, CallExpr, ComputedExpr, Expr,
    ExpressionStmt, ImportStmt, ListType, MemberExpr, NewExpr, NumberExpr, PrefixExpr,
    RangeExpr, ReturnStmt, Stmt, StringExpr, SymbolExpr, SymbolType, Type, VarDeclarationStmt,
};
use relix::lexer::{Token, TokenKind};
use relix::parser::parse;

fn num(text: &str) -> Expr {
    Expr::Number(NumberExpr { value: text.to_string() })
}

fn sym(name: &str) -> Expr {
    Expr::Symbol(SymbolExpr { value: name.to_string() })
}

fn binary(left: Expr, kind: TokenKind, op: &str, right: Expr) -> Expr {
    Expr::Binary(BinaryExpr {
        left: Box::new(left),
        operator: Token::new(kind, op),
        right: Box::new(right),
    })
}

fn symbol_type(name: &str) -> Type {
    Type::Symbol(SymbolType { value: name.to_string() })
}

fn single_stmt(source: &str) -> Stmt {
    let mut block = parse(source).unwrap();
    assert_eq!(block.body.len(), 1);
    block.body.pop().unwrap()
}

fn single_expr(source: &str) -> Expr {
    match single_stmt(source) {
        Stmt::Expression(ExpressionStmt { expression }) => expression,
        other => panic!("expected an expression statement, got {:?}", other),
    }
}

fn error_of(source: &str) -> String {
    parse(source).unwrap_err().message().to_string()
}

#[test]
fn parse_empty_program() {
    assert_eq!(parse("").unwrap(), BlockStmt { body: vec![] });
    assert_eq!(parse("  // only a comment\n").unwrap(), BlockStmt { body: vec![] });
}

#[test]
fn parse_let_with_value() {
    assert_eq!(
        single_stmt("let x = 10;"),
        Stmt::VarDecl(VarDeclarationStmt {
            identifier: "x".to_string(),
            constant: false,
            assigned_value: Some(num("10")),
            explicit_type: None,
        })
    );
}

#[test]
fn parse_const_string() {
    assert_eq!(
        single_stmt("const name = \"hello\";"),
        Stmt::VarDecl(VarDeclarationStmt {
            identifier: "name".to_string(),
            constant: true,
            assigned_value: Some(Expr::String(StringExpr { value: "\"hello\"".to_string() })),
            explicit_type: None,
        })
    );
}

#[test]
fn parse_let_with_type_only() {
    assert_eq!(
        single_stmt("let z: string;"),
        Stmt::VarDecl(VarDeclarationStmt {
            identifier: "z".to_string(),
            constant: false,
            assigned_value: None,
            explicit_type: Some(symbol_type("string")),
        })
    );
}

#[test]
fn parse_list_type_annotation() {
    assert_eq!(
        single_stmt("let xs: []number = [1, 2];"),
        Stmt::VarDecl(VarDeclarationStmt {
            identifier: "xs".to_string(),
            constant: false,
            assigned_value: Some(Expr::Array(ArrayLiteral { contents: vec![num("1"), num("2")] })),
            explicit_type: Some(Type::List(ListType {
                underlying: Box::new(symbol_type("number")),
            })),
        })
    );
}

#[test]
fn declaration_without_type_or_value_is_refused() {
    assert_eq!(error_of("let z;"), "Missing explicit type for variable declaration.");
}

#[test]
fn constant_without_value_is_refused() {
    assert_eq!(
        error_of("const c: number;"),
        "Cannot define constant variable without providing default value."
    );
}

#[test]
fn declaration_without_name_is_refused() {
    assert_eq!(
        error_of("let 5 = 3;"),
        "Following let expected variable name however instead received number instead\n"
    );
    assert_eq!(
        error_of("const = 3;"),
        "Following const expected variable name however instead received assignment instead\n"
    );
}

#[test]
fn missing_semicolon_is_reported() {
    assert_eq!(
        error_of("let x = 1"),
        "Expected semi_colon but received eof instead\n"
    );
}

#[test]
fn parse_import_with_and_without_from() {
    assert_eq!(
        single_stmt("import foo from \"bar\";"),
        Stmt::Import(ImportStmt { name: "foo".to_string(), from: "\"bar\"".to_string() })
    );
    assert_eq!(
        single_stmt("import baz;"),
        Stmt::Import(ImportStmt { name: "baz".to_string(), from: "baz".to_string() })
    );
}

#[test]
fn parse_foreach_with_index() {
    match single_stmt("foreach item, index in items { print(item); }") {
        Stmt::Foreach(f) => {
            assert_eq!(f.value, "item");
            assert!(f.index);
            assert_eq!(f.iterable, sym("items"));
            assert_eq!(
                f.body,
                vec![Stmt::Expression(ExpressionStmt {
                    expression: Expr::Call(CallExpr {
                        method: Box::new(sym("print")),
                        arguments: vec![sym("item")],
                    }),
                })]
            );
        }
        other => panic!("expected foreach, got {:?}", other),
    }
}

#[test]
fn parse_foreach_without_index() {
    match single_stmt("foreach item in items { }") {
        Stmt::Foreach(f) => {
            assert_eq!(f.value, "item");
            assert!(!f.index);
            assert!(f.body.is_empty());
        }
        other => panic!("expected foreach, got {:?}", other),
    }
}

#[test]
fn parse_class_declaration() {
    match single_stmt("class Point { let x: number; let y: number; }") {
        Stmt::ClassDecl(c) => {
            assert_eq!(c.name, "Point");
            assert_eq!(c.body.len(), 2);
            assert_eq!(
                c.body[1],
                Stmt::VarDecl(VarDeclarationStmt {
                    identifier: "y".to_string(),
                    constant: false,
                    assigned_value: None,
                    explicit_type: Some(symbol_type("number")),
                })
            );
        }
        other => panic!("expected class, got {:?}", other),
    }
}

#[test]
fn parse_if_else_if_else() {
    match single_stmt("if x > 5 { a; } else if x > 0 { b; } else { c; }") {
        Stmt::If(s) => {
            assert_eq!(s.condition, binary(sym("x"), TokenKind::Greater, ">", num("5")));
            assert!(matches!(*s.consequent, Stmt::Block(_)));
            match s.alternate.map(|b| *b) {
                Some(Stmt::If(inner)) => {
                    assert_eq!(inner.condition, binary(sym("x"), TokenKind::Greater, ">", num("0")));
                    assert!(matches!(inner.alternate.as_deref(), Some(Stmt::Block(_))));
                }
                other => panic!("expected else if, got {:?}", other),
            }
        }
        other => panic!("expected if, got {:?}", other),
    }
}

#[test]
fn parse_function_declaration() {
    match single_stmt("fn add(a: number, b: number): number { a + b; }") {
        Stmt::FunctionDecl(f) => {
            assert_eq!(f.name, "add");
            assert_eq!(f.parameters.len(), 2);
            assert_eq!(f.parameters[0].name, "a");
            assert_eq!(f.parameters[1].ty, symbol_type("number"));
            assert_eq!(f.return_type, Some(symbol_type("number")));
            assert_eq!(
                f.body,
                vec![Stmt::Expression(ExpressionStmt {
                    expression: binary(sym("a"), TokenKind::Plus, "+", sym("b")),
                })]
            );
        }
        other => panic!("expected function, got {:?}", other),
    }
}

#[test]
fn parse_return_statements() {
    match single_stmt("fn add(a: number, b: number): number { return a + b; }") {
        Stmt::FunctionDecl(f) => {
            assert_eq!(f.name, "add");
            assert_eq!(f.parameters.len(), 2);
            assert_eq!(f.return_type, Some(symbol_type("number")));
            assert_eq!(
                f.body,
                vec![Stmt::Return(ReturnStmt {
                    value: Some(binary(sym("a"), TokenKind::Plus, "+", sym("b"))),
                })]
            );
        }
        other => panic!("expected function, got {:?}", other),
    }
    assert_eq!(single_stmt("return;"), Stmt::Return(ReturnStmt { value: None }));
    assert_eq!(
        error_of("return 1"),
        "Expected semi_colon but received eof instead\n"
    );
}

#[test]
fn parse_nullish_assignment() {
    assert_eq!(
        single_expr("x ??= y;"),
        Expr::Assignment(AssignmentExpr {
            assignee: Box::new(sym("x")),
            assigned_value: Box::new(sym("y")),
        })
    );
}

#[test]
fn parse_function_expression() {
    match single_stmt("let f = fn(x: number) { x; };") {
        Stmt::VarDecl(d) => match d.assigned_value {
            Some(Expr::Function(f)) => {
                assert_eq!(f.parameters.len(), 1);
                assert_eq!(f.return_type, None);
                assert_eq!(f.body.len(), 1);
            }
            other => panic!("expected a function expression, got {:?}", other),
        },
        other => panic!("expected a declaration, got {:?}", other),
    }
}

#[test]
fn parse_new_wraps_call() {
    assert_eq!(
        single_expr("new Point(1);"),
        Expr::New(NewExpr {
            instantiation: CallExpr { method: Box::new(sym("Point")), arguments: vec![num("1")] },
        })
    );
}

#[test]
fn new_without_call_is_refused() {
    assert_eq!(error_of("new Point;"), "Expected call expression after `new`");
}

#[test]
fn parse_member_and_computed_access() {
    assert_eq!(
        single_expr("obj.field;"),
        Expr::Member(MemberExpr { member: Box::new(sym("obj")), property: "field".to_string() })
    );
    assert_eq!(
        single_expr("arr[0];"),
        Expr::Computed(ComputedExpr { member: Box::new(sym("arr")), property: Box::new(num("0")) })
    );
}

#[test]
fn parse_assignment_and_range() {
    assert_eq!(
        single_expr("x = 3.5;"),
        Expr::Assignment(AssignmentExpr {
            assignee: Box::new(sym("x")),
            assigned_value: Box::new(num("3.5")),
        })
    );
    assert_eq!(
        single_expr("1..10;"),
        Expr::Range(RangeExpr { lower: Box::new(num("1")), upper: Box::new(num("10")) })
    );
}

#[test]
fn parse_prefix_and_grouping() {
    assert_eq!(
        single_expr("typeof (x);"),
        Expr::Prefix(PrefixExpr {
            operator: Token::new(TokenKind::Typeof, "typeof"),
            right: Box::new(sym("x")),
        })
    );
}

#[test]
fn multiplication_groups_before_addition() {
    assert_eq!(
        single_expr("2 * 3 + 4;"),
        binary(binary(num("2"), TokenKind::Star, "*", num("3")), TokenKind::Plus, "+", num("4"))
    );
    assert_eq!(
        single_expr("1 + 2 * 3;"),
        binary(num("1"), TokenKind::Plus, "+", binary(num("2"), TokenKind::Star, "*", num("3")))
    );
}

#[test]
fn equal_powers_group_to_the_left() {
    assert_eq!(
        single_expr("a - b - c;"),
        binary(binary(sym("a"), TokenKind::Dash, "-", sym("b")), TokenKind::Dash, "-", sym("c"))
    );
}

#[test]
fn comparison_binds_tighter_than_logical() {
    assert_eq!(
        single_expr("a < b && c;"),
        binary(binary(sym("a"), TokenKind::Less, "<", sym("b")), TokenKind::And, "&&", sym("c"))
    );
}

#[test]
fn prefix_operators_bind_tighter_than_binary() {
    assert_eq!(
        single_expr("!x - 1;"),
        binary(
            Expr::Prefix(PrefixExpr {
                operator: Token::new(TokenKind::Not, "!"),
                right: Box::new(sym("x")),
            }),
            TokenKind::Dash,
            "-",
            num("1"),
        )
    );
}

#[test]
fn grouping_binds_its_contents_first() {
    assert_eq!(
        single_expr("(2 * 3) + 4;"),
        binary(binary(num("2"), TokenKind::Star, "*", num("3")), TokenKind::Plus, "+", num("4"))
    );
}

#[test]
fn adjacent_identifiers_need_a_led_handler() {
    assert_eq!(error_of("x y;"), "LED Handler expected for token identifier\n");
}

#[test]
fn lone_semicolon_has_no_nud_handler() {
    assert_eq!(error_of(";"), "NUD Handler expected for token semi_colon\n");
}

#[test]
fn type_errors_are_reported() {
    assert_eq!(error_of("let x: 5;"), "type: NUD Handler expected for token number\n");
    assert_eq!(
        error_of("let x: number number;"),
        "type: LED Handler expected for token identifier\n"
    );
}

#[test]
fn lexer_errors_reach_the_parser() {
    assert_eq!(error_of("let x = @;"), "lexer error: unrecognized token near '@;'");
}

#[test]
fn parse_readme_program() {
    let source = r#"
// Variable declarations
let x = 10;
const name = "hello";

// Functions
fn add(a: number, b: number): number {
    return a + b;
}

// Conditionals
if x > 5 {
    let y = x * 2;
} else {
    let y = 0;
}

// Loops
foreach item in items {
    print(item);
}

// Classes
class Point {
    let x: number;
    let y: number;
}

// Expressions
let result = add(1, 2) + 3 * 4;
let arr = [1, 2, 3];
let p = new Point();
"#;
    let block = parse(source).unwrap();
    assert_eq!(block.body.len(), 9);
    assert!(matches!(block.body[2], Stmt::FunctionDecl(_)));
    assert!(matches!(block.body[3], Stmt::If(_)));
    assert!(matches!(block.body[4], Stmt::Foreach(_)));
    assert!(matches!(block.body[5], Stmt::ClassDecl(_)));
    match &block.body[6] {
        Stmt::VarDecl(d) => assert_eq!(
            d.assigned_value,
            Some(binary(
                Expr::Call(CallExpr {
                    method: Box::new(sym("add")),
                    arguments: vec![num("1"), num("2")],
                }),
                TokenKind::Plus,
                "+",
                binary(num("3"), TokenKind::Star, "*", num("4")),
            ))
        ),
        other => panic!("expected a declaration, got {:?}", other),
    }
}
