use monkey_ast::{Expr, Program, Stmt, Token};

fn ident(name: &str) -> Expr {
    Expr::Ident(name.to_string())
}

fn program_of(stmts: Vec<Stmt>) -> Program {
    let mut program = Program::new();
    for stmt in stmts {
        program.push_stmt(stmt);
    }
    program
}

#[test]
fn to_string_works() {
    let program = program_of(vec![Stmt::Let(ident("a"), ident("b"))]);

    assert_eq!(program.to_string(), "let a = b;".to_string());
}

#[test]
fn nested_infix_is_fully_parenthesised() {
    let e = Expr::Infix(
        Token::Plus,
        Box::new(Expr::Infix(Token::Asterisk, Box::new(ident("a")), Box::new(ident("b")))),
        Box::new(Expr::Int(2)),
    );
    assert_eq!(e.to_string(), "((a*b)+2)");
}

#[test]
fn nested_infix_on_the_right() {
    let e = Expr::Infix(
        Token::Minus,
        Box::new(ident("x")),
        Box::new(Expr::Infix(Token::Slash, Box::new(Expr::Int(10)), Box::new(ident("y")))),
    );
    assert_eq!(e.to_string(), "(x-(10/y))");
}

#[test]
fn prefix_renders_glued_and_parenthesised() {
    let e = Expr::Prefix(Token::Minus, Box::new(Expr::Int(5)));
    assert_eq!(e.to_string(), "(-5)");
}

#[test]
fn prefix_of_prefix() {
    let e = Expr::Prefix(Token::Bang, Box::new(Expr::Prefix(Token::Bang, Box::new(ident("ok")))));
    assert_eq!(e.to_string(), "(!(!ok))");
}

#[test]
fn two_character_operators() {
    let eq = Expr::Infix(Token::Eq, Box::new(Expr::Int(1)), Box::new(Expr::Int(2)));
    let ne = Expr::Infix(Token::NotEq, Box::new(Expr::Int(1)), Box::new(Expr::Int(2)));
    let lt = Expr::Infix(Token::Lt, Box::new(ident("a")), Box::new(ident("b")));
    let gt = Expr::Infix(Token::Gt, Box::new(ident("a")), Box::new(ident("b")));
    assert_eq!(eq.to_string(), "(1==2)");
    assert_eq!(ne.to_string(), "(1!=2)");
    assert_eq!(lt.to_string(), "(a<b)");
    assert_eq!(gt.to_string(), "(a>b)");
}

#[test]
fn token_text() {
    assert_eq!(Token::Plus.to_string(), "+");
    assert_eq!(Token::Asterisk.as_str(), "*");
    assert_eq!(Token::NotEq.to_string(), "!=");
}

#[test]
fn integers_render_in_decimal() {
    assert_eq!(Expr::Int(0).to_string(), "0");
    assert_eq!(Expr::Int(7).to_string(), "7");
    assert_eq!(Expr::Int(120).to_string(), "120");
    assert_eq!(Expr::Int(-45).to_string(), "-45");
    assert_eq!(Expr::Int(i64::MAX).to_string(), "9223372036854775807");
    assert_eq!(Expr::Int(i64::MIN).to_string(), "-9223372036854775808");
}

#[test]
fn identifier_renders_verbatim() {
    assert_eq!(ident("foo_bar").to_string(), "foo_bar");
    assert_eq!(ident("").to_string(), "");
}

#[test]
fn let_statement_terminator() {
    assert_eq!(Stmt::Let(ident("x"), Expr::Int(5)).to_string(), "let x = 5;");
}

#[test]
fn return_statement_terminator() {
    assert_eq!(Stmt::Ret(Expr::Int(0)).to_string(), "return 0;");
}

#[test]
fn expression_statement_has_no_terminator() {
    assert_eq!(Stmt::Expr(ident("x")).to_string(), "x");
}

#[test]
fn let_target_may_be_any_expression() {
    let s = Stmt::Let(Expr::Int(1), Expr::Prefix(Token::Minus, Box::new(ident("y"))));
    assert_eq!(s.to_string(), "let 1 = (-y);");
}

#[test]
fn empty_program_renders_empty() {
    let program = Program::new();
    assert!(program.stmts().is_empty());
    assert!(program.errors().is_empty());
    assert_eq!(program.to_string(), "");
}

#[test]
fn statements_concatenate_without_separator() {
    let program = program_of(vec![
        Stmt::Let(ident("a"), Expr::Int(1)),
        Stmt::Ret(ident("a")),
    ]);
    assert_eq!(program.to_string(), "let a = 1;return a;");
    let program = program_of(vec![Stmt::Expr(ident("x")), Stmt::Expr(ident("y"))]);
    assert_eq!(program.to_string(), "xy");
}

#[test]
fn errors_do_not_change_rendering() {
    let mut program = program_of(vec![Stmt::Let(ident("a"), ident("b"))]);
    let before = program.to_string();
    program.push_error("expected `=`".to_string());
    program.push_error("unexpected token".to_string());
    assert_eq!(program.to_string(), before);
    assert_eq!(program.to_string(), "let a = b;");
    assert_eq!(program.stmts().len(), 1);
}

#[test]
fn appends_keep_their_order() {
    let mut program = Program::new();
    program.push_stmt(Stmt::Expr(ident("b")));
    program.push_error("second".to_string());
    program.push_stmt(Stmt::Expr(ident("a")));
    program.push_error("first".to_string());
    program.push_stmt(Stmt::Expr(ident("b")));
    program.push_error("second".to_string());
    assert_eq!(
        program.stmts(),
        &vec![Stmt::Expr(ident("b")), Stmt::Expr(ident("a")), Stmt::Expr(ident("b"))]
    );
    assert_eq!(
        program.errors(),
        &vec!["second".to_string(), "first".to_string(), "second".to_string()]
    );
    assert_eq!(program.to_string(), "bab");
}

#[test]
fn rendering_is_repeatable_and_equal_trees_render_alike() {
    let build = || {
        Expr::Infix(
            Token::Asterisk,
            Box::new(Expr::Prefix(Token::Minus, Box::new(ident("n")))),
            Box::new(Expr::Int(3)),
        )
    };
    let a = build();
    let b = build();
    assert_eq!(a, b);
    assert_eq!(a.to_string(), a.to_string());
    assert_eq!(a.to_string(), b.to_string());
    assert_eq!(a.clone().to_string(), "((-n)*3)");
}

#[test]
fn structural_equality() {
    let a = Expr::Infix(Token::Plus, Box::new(ident("a")), Box::new(Expr::Int(1)));
    let b = Expr::Infix(Token::Minus, Box::new(ident("a")), Box::new(Expr::Int(1)));
    let c = Expr::Infix(Token::Plus, Box::new(ident("a")), Box::new(Expr::Int(2)));
    assert_eq!(a, a.clone());
    assert_ne!(a, b);
    assert_ne!(a, c);
    assert_ne!(ident("a"), ident("b"));
    assert_ne!(Expr::Int(1), ident("1"));
    assert_eq!(Expr::Value, Expr::Value);
    assert_eq!(Stmt::Ret(a.clone()), Stmt::Ret(a.clone()));
    assert_ne!(Stmt::Ret(a.clone()), Stmt::Expr(a.clone()));
    assert_eq!(Stmt::Let(ident("x"), c.clone()).clone(), Stmt::Let(ident("x"), c));
}
