//! Tests of the whole front end: source text through `lex` and
//! `parse_tokens` to a `Program`, with exact expected trees.

use butter::ast::BlockOrIf;
use butter::ast::Expr;
use butter::ast::InfixOp;
use butter::ast::ParseError;
use butter::ast::PrefixOp;
use butter::ast::Program;
use butter::ast::Stmt;
use butter::ast::Type;
use butter::lexer::lex;
use butter::parser::parse_tokens;
use butter::parser::Parser;
use butter::token::TokenKind;

fn parse_src(src: &str) -> Result<Program, ParseError> {
    parse_tokens(lex(src).expect("lexing failed"))
}

fn program(stmts: Vec<Stmt>) -> Program {
    Program { stmts }
}

#[test]
fn precedence_add_mul() {
    let got = parse_src("1 + 2 * 3;").unwrap();
    let expected = program(vec![Stmt::ExprStmt(Expr::Infix {
        op: InfixOp::Add,
        lhs: Box::new(Expr::Int(1)),
        rhs: Box::new(Expr::Infix {
            op: InfixOp::Mul,
            lhs: Box::new(Expr::Int(2)),
            rhs: Box::new(Expr::Int(3)),
        }),
    })]);
    assert_eq!(got, expected);
}

#[test]
fn assignment_is_right_associative() {
    let got = parse_src("a = b = 3;").unwrap();
    let expected = program(vec![Stmt::ExprStmt(Expr::Infix {
        op: InfixOp::Assign,
        lhs: Box::new(Expr::Ident(String::from("a"))),
        rhs: Box::new(Expr::Infix {
            op: InfixOp::Assign,
            lhs: Box::new(Expr::Ident(String::from("b"))),
            rhs: Box::new(Expr::Int(3)),
        }),
    })]);
    assert_eq!(got, expected);
}

#[test]
fn postfix_chain_is_left_associative() {
    let got = parse_src("a.b(1)[2].c;").unwrap();
    let expected = program(vec![Stmt::ExprStmt(Expr::FieldAccess {
        target: Box::new(Expr::Index {
            target: Box::new(Expr::Call {
                callee: Box::new(Expr::FieldAccess {
                    target: Box::new(Expr::Ident(String::from("a"))),
                    field: String::from("b"),
                }),
                args: vec![Expr::Int(1)],
            }),
            index: Box::new(Expr::Int(2)),
        }),
        field: String::from("c"),
    })]);
    assert_eq!(got, expected);
}

#[test]
fn struct_literal_with_ordered_fields() {
    let got = parse_src("Person { name = \"liam\", age = 20 };").unwrap();
    let expected = program(vec![Stmt::ExprStmt(Expr::StructLiteral {
        name: String::from("Person"),
        fields: vec![
            (String::from("name"), Expr::Str(String::from("liam"))),
            (String::from("age"), Expr::Int(20)),
        ],
    })]);
    assert_eq!(got, expected);
}

#[test]
fn else_if_nests_recursively() {
    let got = parse_src("if a {1;} else if b {2;} else {3;}").unwrap();
    let expected = program(vec![Stmt::If {
        cond: Expr::Ident(String::from("a")),
        then_branch: vec![Stmt::ExprStmt(Expr::Int(1))],
        else_branch: Some(BlockOrIf::If(Box::new(Stmt::If {
            cond: Expr::Ident(String::from("b")),
            then_branch: vec![Stmt::ExprStmt(Expr::Int(2))],
            else_branch: Some(BlockOrIf::Block(vec![Stmt::ExprStmt(Expr::Int(3))])),
        }))),
    }]);
    assert_eq!(got, expected);
}

#[test]
fn missing_declared_type_is_a_parse_error() {
    let toks = lex("let x = ;").unwrap();
    let got = parse_tokens(toks);
    assert_eq!(
        got,
        Err(ParseError::UnexpectedToken {
            expected: TokenKind::Colon,
            found: TokenKind::Equal,
            context: String::from("expected ':' after variable name"),
        })
    );
}

#[test]
fn missing_initializer_expression_is_a_parse_error() {
    let toks = lex("let x : Int = ;").unwrap();
    let got = parse_tokens(toks);
    assert_eq!(
        got,
        Err(ParseError::UnexpectedPrimary { found: TokenKind::Semicolon })
    );
}

#[test]
fn while_with_bare_identifier_condition() {
    let got = parse_src("while a { out; }").unwrap();
    let expected = program(vec![Stmt::While {
        cond: Expr::Ident(String::from("a")),
        body: vec![Stmt::Out],
    }]);
    assert_eq!(got, expected);
}

#[test]
fn struct_declaration_with_typed_fields() {
    let got = parse_src("struct P { x : Int, y : Float }").unwrap();
    let expected = program(vec![Stmt::Struct {
        name: String::from("P"),
        fields: vec![
            (String::from("x"), Type::Int),
            (String::from("y"), Type::Float),
        ],
    }]);
    assert_eq!(got, expected);
}

#[test]
fn function_declaration_with_params_and_return_type() {
    let got = parse_src("fn add(a : Int, b : Int) => Int { return a + b; }").unwrap();
    let expected = program(vec![Stmt::Func {
        name: String::from("add"),
        params: vec![
            (String::from("a"), Type::Int),
            (String::from("b"), Type::Int),
        ],
        returntype: Type::Int,
        body: vec![Stmt::Return(Some(Expr::Infix {
            op: InfixOp::Add,
            lhs: Box::new(Expr::Ident(String::from("a"))),
            rhs: Box::new(Expr::Ident(String::from("b"))),
        }))],
    }]);
    assert_eq!(got, expected);
}

#[test]
fn const_forces_non_mutable() {
    let got = parse_src("const mut x : Bool = true;").unwrap();
    let expected = program(vec![Stmt::Let {
        name: String::from("x"),
        mutable: false,
        valuetype: Type::Bool,
        value: Some(Expr::Bool(true)),
    }]);
    assert_eq!(got, expected);
}

#[test]
fn let_mut_without_initializer() {
    let got = parse_src("let mut y : String;").unwrap();
    let expected = program(vec![Stmt::Let {
        name: String::from("y"),
        mutable: true,
        valuetype: Type::Str,
        value: None,
    }]);
    assert_eq!(got, expected);
}

#[test]
fn custom_and_nil_types() {
    let got = parse_src("let p : Person; let n : nil;").unwrap();
    let expected = program(vec![
        Stmt::Let {
            name: String::from("p"),
            mutable: false,
            valuetype: Type::Custom(String::from("Person")),
            value: None,
        },
        Stmt::Let {
            name: String::from("n"),
            mutable: false,
            valuetype: Type::Nil,
            value: None,
        },
    ]);
    assert_eq!(got, expected);
}

#[test]
fn grouping_overrides_precedence() {
    let got = parse_src("(1 + 2) * 3;").unwrap();
    let expected = program(vec![Stmt::ExprStmt(Expr::Infix {
        op: InfixOp::Mul,
        lhs: Box::new(Expr::Group(Box::new(Expr::Infix {
            op: InfixOp::Add,
            lhs: Box::new(Expr::Int(1)),
            rhs: Box::new(Expr::Int(2)),
        }))),
        rhs: Box::new(Expr::Int(3)),
    })]);
    assert_eq!(got, expected);
}

#[test]
fn unary_prefix_is_right_associative() {
    let got = parse_src("- - 1;").unwrap();
    let expected = program(vec![Stmt::ExprStmt(Expr::Prefix {
        op: PrefixOp::Neg,
        rhs: Box::new(Expr::Prefix {
            op: PrefixOp::Neg,
            rhs: Box::new(Expr::Int(1)),
        }),
    })]);
    assert_eq!(got, expected);
}

#[test]
fn logical_operators_left_associative() {
    let got = parse_src("a || b && !c;").unwrap();
    let expected = program(vec![Stmt::ExprStmt(Expr::Infix {
        op: InfixOp::Or,
        lhs: Box::new(Expr::Ident(String::from("a"))),
        rhs: Box::new(Expr::Infix {
            op: InfixOp::And,
            lhs: Box::new(Expr::Ident(String::from("b"))),
            rhs: Box::new(Expr::Prefix {
                op: PrefixOp::Not,
                rhs: Box::new(Expr::Ident(String::from("c"))),
            }),
        }),
    })]);
    assert_eq!(got, expected);
}

#[test]
fn call_with_no_arguments() {
    let got = parse_src("f();").unwrap();
    let expected = program(vec![Stmt::ExprStmt(Expr::Call {
        callee: Box::new(Expr::Ident(String::from("f"))),
        args: vec![],
    })]);
    assert_eq!(got, expected);
}

#[test]
fn struct_literal_trailing_comma() {
    let got = parse_src("P { a = 1, };").unwrap();
    let expected = program(vec![Stmt::ExprStmt(Expr::StructLiteral {
        name: String::from("P"),
        fields: vec![(String::from("a"), Expr::Int(1))],
    })]);
    assert_eq!(got, expected);
}

#[test]
fn return_without_expression_and_jump_statements() {
    let got = parse_src("return; out; skip;").unwrap();
    let expected = program(vec![Stmt::Return(None), Stmt::Out, Stmt::Skip]);
    assert_eq!(got, expected);
}

#[test]
fn nil_and_bool_literals() {
    let got = parse_src("nil; false;").unwrap();
    let expected = program(vec![
        Stmt::ExprStmt(Expr::Nil),
        Stmt::ExprStmt(Expr::Bool(false)),
    ]);
    assert_eq!(got, expected);
}

#[test]
fn empty_source_parses_to_empty_program() {
    let got = parse_src("").unwrap();
    assert_eq!(got, program(vec![]));
}

#[test]
fn reserved_keyword_for_has_no_production() {
    let toks = lex("for;").unwrap();
    let got = parse_tokens(toks);
    assert_eq!(got, Err(ParseError::UnexpectedPrimary { found: TokenKind::KwFor }));
}

#[test]
fn comparison_chain_left_associative() {
    let got = parse_src("1 < 2 == true;").unwrap();
    let expected = program(vec![Stmt::ExprStmt(Expr::Infix {
        op: InfixOp::Eq,
        lhs: Box::new(Expr::Infix {
            op: InfixOp::Lt,
            lhs: Box::new(Expr::Int(1)),
            rhs: Box::new(Expr::Int(2)),
        }),
        rhs: Box::new(Expr::Bool(true)),
    })]);
    assert_eq!(got, expected);
}

#[test]
fn parser_struct_drives_a_parse() {
    let toks = lex("x;").unwrap();
    let mut parser = Parser::new(toks);
    let got = parser.parse_program().unwrap();
    assert_eq!(
        got,
        program(vec![Stmt::ExprStmt(Expr::Ident(String::from("x")))])
    );
}

#[test]
fn float_literal_keeps_its_lexeme() {
    let got = parse_src("1.50;").unwrap();
    let expected = program(vec![Stmt::ExprStmt(Expr::Float(String::from("1.50")))]);
    assert_eq!(got, expected);
}

#[test]
fn missing_block_brace_is_a_parse_error() {
    let toks = lex("while a out;").unwrap();
    let got = parse_tokens(toks);
    assert_eq!(
        got,
        Err(ParseError::UnexpectedToken {
            expected: TokenKind::LBrace,
            found: TokenKind::KwOut,
            context: String::from("expected '{' to start block"),
        })
    );
}

#[test]
fn expected_identifier_error_names_its_context() {
    let toks = lex("fn 1() => Int {}").unwrap();
    let got = parse_tokens(toks);
    assert_eq!(
        got,
        Err(ParseError::ExpectedIdent {
            found: TokenKind::IntLiteral(1),
            context: String::from("function name"),
        })
    );
}

#[test]
fn expected_type_error_names_the_found_token() {
    let toks = lex("let x : 3;").unwrap();
    let got = parse_tokens(toks);
    assert_eq!(got, Err(ParseError::ExpectedType { found: TokenKind::IntLiteral(3) }));
}
