//! Parsing of expressions: literals, prefix and infix forms, operator
//! precedence, if expressions, function literals and calls.

use monkey_lang::ast::{Expression, Identifier, IntegerLiteral, Literal, Node, Statement};
use monkey_lang::lexer::Lexer;
use monkey_lang::parser::Parser;
use monkey_lang::test_helper::{
    test_identifier, test_infix_expression, test_integer_literal, test_literal_expression,
};
use monkey_lang::token::{Token, TokenType};

fn parse(input: &str) -> (monkey_lang::ast::Program, usize) {
    let lexer = Lexer::new(input.to_string());
    let mut parser = Parser::new(lexer);
    let program = parser.parse_program();
    let n_errors = parser.errors().len();
    (program, n_errors)
}

fn lit_int(value: i64) -> Literal {
    Literal::Integer(IntegerLiteral {
        token: Token::new(TokenType::INT, value.to_string(), 1, 1),
        value,
    })
}

fn lit_ident(name: &str) -> Literal {
    Literal::Identifier(Identifier {
        token: Token::new(TokenType::IDENT, name.to_string(), 1, 1),
        value: name.to_string(),
    })
}

fn single_expression(input: &str) -> Expression {
    let (program, n_errors) = parse(input);
    assert_eq!(n_errors, 0, "parser reported errors for {:?}", input);
    assert_eq!(
        program.statements.len(),
        1,
        "program.statements does not contain 1 statement. got={}",
        program.statements.len()
    );
    match &program.statements[0] {
        Statement::Expression(expr_stmt) => expr_stmt.value.clone(),
        other => panic!("stmt is not an ExpressionStatement. got={:?}", other),
    }
}

fn check_identifier_expression() {
    let expr = single_expression("foobar;");
    match &expr {
        Expression::Identifier(ident) => {
            assert_eq!(ident.value, "foobar", "ident.value is not foobar. got={}", ident.value);
            assert_eq!(
                ident.token_literal(),
                "foobar",
                "ident.token_literal() is not foobar. got={}",
                ident.token_literal()
            );
        },
        other => panic!("expr is not an Identifier. got={:?}", other),
    }
}

#[test]
fn lib_test_parsing_identifier_expression() {
    check_identifier_expression();
}

#[test]
fn expression_tests_test_parsing_identifier_expression() {
    check_identifier_expression();
}

#[test]
fn parser_expression_tests_test_parsing_identifier_expression() {
    check_identifier_expression();
}

fn check_integer_literal_expression() {
    let expr = single_expression("5;");
    match &expr {
        Expression::IntegerLiteral(int_lit) => {
            assert_eq!(int_lit.value, 5, "int_lit.value is not 5. got={}", int_lit.value);
            assert_eq!(
                int_lit.token_literal(),
                "5",
                "int_lit.token_literal() is not 5. got={}",
                int_lit.token_literal()
            );
        },
        other => panic!("expr is not an IntegerLiteral. got={:?}", other),
    }
}

#[test]
fn lib_test_parsing_integer_literal_expression() {
    check_integer_literal_expression();
}

#[test]
fn expression_tests_test_parsing_integer_literal_expression() {
    check_integer_literal_expression();
}

#[test]
fn parser_expression_tests_test_parsing_integer_literal_expression() {
    check_integer_literal_expression();
}

fn check_prefix_expressions() {
    let cases: [(&str, &str, Literal); 4] = [
        ("!5;", "!", lit_int(5)),
        ("-15;", "-", lit_int(15)),
        ("!foobar;", "!", lit_ident("foobar")),
        ("-foobar;", "-", lit_ident("foobar")),
    ];
    for (input, operator, expected) in cases {
        let expr = single_expression(input);
        match expr {
            Expression::PrefixExpression(prefix_expr) => {
                assert_eq!(
                    prefix_expr.operator, operator,
                    "prefix_expr.operator is not '{}'. got={}",
                    operator, prefix_expr.operator
                );
                assert!(
                    test_literal_expression(*prefix_expr.right, expected),
                    "prefix_expr.right is not the expected literal for {:?}",
                    input
                );
            },
            other => panic!("expr is not a PrefixExpression. got={:?}", other),
        }
    }
}

#[test]
fn lib_test_parsing_prefix_expressions() {
    check_prefix_expressions();
}

#[test]
fn expression_tests_test_parsing_prefix_expressions() {
    check_prefix_expressions();
}

#[test]
fn parser_expression_tests_test_parsing_prefix_expressions() {
    check_prefix_expressions();
}

fn check_infix_expressions_all() {
    let cases: [(&str, Literal, &str, Literal); 8] = [
        ("5 + 5;", lit_int(5), "+", lit_int(5)),
        ("5 - 5;", lit_int(5), "-", lit_int(5)),
        ("5 * 5;", lit_int(5), "*", lit_int(5)),
        ("5 / 5;", lit_int(5), "/", lit_int(5)),
        ("5 > 5;", lit_int(5), ">", lit_int(5)),
        ("5 < 5;", lit_int(5), "<", lit_int(5)),
        ("5 == 5;", lit_int(5), "==", lit_int(5)),
        ("5 != 5;", lit_int(5), "!=", lit_int(5)),
    ];
    for (input, left, operator, right) in cases {
        let expr = single_expression(input);
        assert!(
            test_infix_expression(expr, left, operator, right),
            "infix expression mismatch for {:?}",
            input
        );
    }
}

#[test]
fn lib_test_parsing_infix_expression() {
    check_infix_expressions_all();
}

#[test]
fn expression_tests_test_parsing_infix_expression() {
    check_infix_expressions_all();
}

#[test]
fn parser_expression_tests_test_parsing_infix_expression() {
    check_infix_expressions_all();
}

#[test]
fn test_infix_expressions() {
    let cases: [(&str, Literal, &str, Literal); 5] = [
        ("5 + 5;", lit_int(5), "+", lit_int(5)),
        ("5 - 5;", lit_int(5), "-", lit_int(5)),
        ("5 * 5;", lit_int(5), "*", lit_int(5)),
        ("5 / 5;", lit_int(5), "/", lit_int(5)),
        ("alice * bob;", lit_ident("alice"), "*", lit_ident("bob")),
    ];
    for (input, left, operator, right) in cases {
        let expr = single_expression(input);
        assert!(test_infix_expression(expr, left, operator, right));
    }
}

fn check_operator_precedence() {
    let cases: [(&str, &str); 17] = [
        ("-a * b;", "((-a) * b)"),
        ("!-a;", "(!(-a))"),
        ("a + b + c;", "((a + b) + c)"),
        ("a + b - c;", "((a + b) - c)"),
        ("a * b * c;", "((a * b) * c)"),
        ("a * b / c;", "((a * b) / c)"),
        ("a + b / c;", "(a + (b / c))"),
        ("a + b * c + d / e - f;", "(((a + (b * c)) + (d / e)) - f)"),
        ("3 + 4; -5 * 5;", "(3 + 4)((-5) * 5)"),
        ("5 > 4 == 3 < 4;", "((5 > 4) == (3 < 4))"),
        ("5 < 4 != 3 > 4;", "((5 < 4) != (3 > 4))"),
        ("3 + 4 * 5 == 3 * 1 + 4 * 5;", "((3 + (4 * 5)) == ((3 * 1) + (4 * 5)))"),
        ("true;", "true"),
        ("false;", "false"),
        ("3 > 5 == false;", "((3 > 5) == false)"),
        ("3 < 5 == true;", "((3 < 5) == true)"),
        ("!(true == true);", "(!(true == true))"),
    ];
    for (input, expected) in cases {
        let (program, n_errors) = parse(input);
        assert_eq!(n_errors, 0, "parser reported errors for {:?}", input);
        let actual = program.to_string();
        assert_eq!(actual, expected, "expected={:?}, got={:?}", expected, actual);
    }
}

#[test]
fn lib_test_operator_precedence_parsing() {
    check_operator_precedence();
}

#[test]
fn parser_expression_tests_test_operator_precedence_parsing() {
    check_operator_precedence();
}

#[test]
fn precedence_tests_test_operator_precedence_parsing() {
    check_operator_precedence();
}

#[test]
fn test_parsing_if_expression() {
    let expr = single_expression("if (x < y) { x }");
    let if_expr = match &expr {
        Expression::IfExpression(if_expr) => if_expr,
        other => panic!("expr is not an IfExpression. got={:?}", other),
    };
    assert!(test_infix_expression(
        (*if_expr.condition).clone(),
        lit_ident("x"),
        "<",
        lit_ident("y")
    ));
    let consequence_block = &if_expr.consequence;
    assert_eq!(
        consequence_block.statements.len(),
        1,
        "consequence is not 1 statement. got={}",
        consequence_block.statements.len()
    );
    let consequence_expr = match &consequence_block.statements[0] {
        Statement::Expression(expr_stmt) => expr_stmt.value.clone(),
        other => panic!("consequence_stmt is not an ExpressionStatement. got={:?}", other),
    };
    assert!(test_identifier(consequence_expr, "x"));
    assert!(if_expr.alternative.is_none(), "alternative is not nil. got={:?}", if_expr.alternative);
}

#[test]
fn test_parsing_if_else_expression() {
    let expr = single_expression("if (x < y) { x } else { y }");
    let if_expr = match &expr {
        Expression::IfExpression(if_expr) => if_expr,
        other => panic!("expr is not an IfExpression. got={:?}", other),
    };
    assert!(test_infix_expression(
        (*if_expr.condition).clone(),
        lit_ident("x"),
        "<",
        lit_ident("y")
    ));
    let consequence_block = &if_expr.consequence;
    assert_eq!(
        consequence_block.statements.len(),
        1,
        "consequence is not 1 statement. got={}",
        consequence_block.statements.len()
    );
    let consequence_expr = match &consequence_block.statements[0] {
        Statement::Expression(expr_stmt) => expr_stmt.value.clone(),
        other => panic!("consequence_stmt is not an ExpressionStatement. got={:?}", other),
    };
    assert!(test_identifier(consequence_expr, "x"));
    let alternative_block = match &if_expr.alternative {
        Some(block) => block,
        None => panic!("alternative is None"),
    };
    assert_eq!(
        alternative_block.statements.len(),
        1,
        "alternative is not 1 statement. got={}",
        alternative_block.statements.len()
    );
    let alternative_expr = match &alternative_block.statements[0] {
        Statement::Expression(expr_stmt) => expr_stmt.value.clone(),
        other => panic!("alternative_stmt is not an ExpressionStatement. got={:?}", other),
    };
    assert!(test_identifier(alternative_expr, "y"));
}

fn check_function_literal() {
    let expr = single_expression("fn(x, y) { x + y; }");
    let func_lit = match &expr {
        Expression::FunctionLiteral(func_lit) => func_lit,
        other => panic!("expr_stmt.value is not FunctionLiteral. got={:?}", other),
    };
    assert_eq!(
        func_lit.parameters.len(),
        2,
        "func_lit.parameters does not contain 2 parameters. got={}",
        func_lit.parameters.len()
    );
    assert_eq!(func_lit.parameters[0].value, "x");
    assert_eq!(func_lit.parameters[1].value, "y");
    assert_eq!(
        func_lit.body.statements.len(),
        1,
        "function body does not contain 1 statement. got={}",
        func_lit.body.statements.len()
    );
    let body_expr = match &func_lit.body.statements[0] {
        Statement::Expression(expr_stmt) => expr_stmt.value.clone(),
        other => panic!("body_stmt is not ExpressionStatement. got={:?}", other),
    };
    assert!(test_infix_expression(body_expr, lit_ident("x"), "+", lit_ident("y")));
}

#[test]
fn literals_tests_test_parsing_function_literal() {
    check_function_literal();
}

#[test]
fn parser_expression_tests_test_parsing_function_literal() {
    check_function_literal();
}

fn check_function_parameter() {
    let expr = single_expression("fn(x, y) { x + y; }");
    let func_lit = match &expr {
        Expression::FunctionLiteral(func_lit) => func_lit,
        other => panic!("expr_stmt.value is not FunctionLiteral. got={:?}", other),
    };
    assert_eq!(
        func_lit.parameters.len(),
        2,
        "func_lit.parameters does not contain 2 parameters. got={}",
        func_lit.parameters.len()
    );
    assert!(test_identifier(
        Expression::Identifier(func_lit.parameters[0].clone()),
        "x"
    ));
    assert!(test_identifier(
        Expression::Identifier(func_lit.parameters[1].clone()),
        "y"
    ));
}

#[test]
fn literals_tests_test_parsing_function_parameter() {
    check_function_parameter();
}

#[test]
fn parser_expression_tests_test_parsing_function_parameter() {
    check_function_parameter();
}

#[test]
fn test_parsing_call_expression() {
    let expr = single_expression("add(1, 2 * 3, 4 + 5);");
    let call_expr = match &expr {
        Expression::CallExpression(call_expr) => call_expr,
        other => panic!("expr_stmt.value is not a CallExpression. got={:?}", other),
    };
    assert!(
        test_identifier((*call_expr.function).clone(), "add"),
        "call_expr.function is not 'add'. got={}",
        call_expr.function.to_string()
    );
    assert_eq!(
        call_expr.arguments.len(),
        3,
        "call_expr.arguments does not contain 3 arguments. got={}",
        call_expr.arguments.len()
    );
    assert!(test_integer_literal(call_expr.arguments[0].clone(), 1));
    assert!(test_infix_expression(call_expr.arguments[1].clone(), lit_int(2), "*", lit_int(3)));
    assert!(test_infix_expression(call_expr.arguments[2].clone(), lit_int(4), "+", lit_int(5)));
}
