//! Printed forms of hand-built AST nodes.

use monkey_lang::ast::{
    Expression, Identifier, InfixExpression, IntegerLiteral, LetStatement, PrefixExpression,
    ReturnStatement,
};
use monkey_lang::ast::Node;
use monkey_lang::token::{Token, TokenType};

fn ident(name: &str, line: usize, column: usize) -> Identifier {
    Identifier {
        token: Token::new(TokenType::IDENT, name.to_string(), line, column),
        value: name.to_string(),
    }
}

fn int_lit(value: i64, line: usize, column: usize) -> IntegerLiteral {
    IntegerLiteral {
        token: Token::new(TokenType::INT, value.to_string(), line, column),
        value,
    }
}

#[test]
fn expression_test_identifier_display() {
    let ident = ident("foobar", 1, 1);
    assert_eq!(ident.value, "foobar");
    assert_eq!(ident.token_literal(), "foobar");
    assert_eq!(ident.to_string(), "foobar");
}

#[test]
fn identifier_test_identifier_display() {
    let ident = ident("foobar", 1, 1);
    assert_eq!(ident.value, "foobar");
    assert_eq!(ident.token_literal(), "foobar");
    assert_eq!(ident.to_string(), "foobar");
}

#[test]
fn expression_test_prefix_expression_display_bang() {
    let ident = ident("foobar", 1, 2);
    let prefix = PrefixExpression {
        token: Token::new(TokenType::BANG, "!".to_string(), 1, 1),
        operator: "!".to_string(),
        right: Box::new(Expression::Identifier(ident)),
    };
    assert_eq!(prefix.token_literal(), "!");
    assert_eq!(prefix.to_string(), "(!foobar)");
}

#[test]
fn prefix_test_prefix_expression_display_bang() {
    let ident = ident("foobar", 1, 2);
    let prefix = PrefixExpression {
        token: Token::new(TokenType::BANG, "!".to_string(), 1, 1),
        operator: "!".to_string(),
        right: Box::new(Expression::Identifier(ident)),
    };
    assert_eq!(prefix.token_literal(), "!");
    assert_eq!(prefix.to_string(), "(!foobar)");
}

#[test]
fn expression_test_prefix_expression_display_minus() {
    let int_lit = int_lit(5, 1, 2);
    let prefix = PrefixExpression {
        token: Token::new(TokenType::MINUS, "-".to_string(), 1, 1),
        operator: "-".to_string(),
        right: Box::new(Expression::IntegerLiteral(int_lit)),
    };
    assert_eq!(prefix.token_literal(), "-");
    assert_eq!(prefix.to_string(), "(-5)");
}

#[test]
fn prefix_test_prefix_expression_display_minus() {
    let int_lit = int_lit(5, 1, 2);
    let prefix = PrefixExpression {
        token: Token::new(TokenType::MINUS, "-".to_string(), 1, 1),
        operator: "-".to_string(),
        right: Box::new(Expression::IntegerLiteral(int_lit)),
    };
    assert_eq!(prefix.token_literal(), "-");
    assert_eq!(prefix.to_string(), "(-5)");
}

#[test]
fn expression_test_infix_expression_display_plus() {
    let left = int_lit(5, 1, 1);
    let right = int_lit(3, 1, 5);
    let infix = InfixExpression {
        token: Token::new(TokenType::PLUS, "+".to_string(), 1, 3),
        left: Box::new(Expression::IntegerLiteral(left)),
        operator: "+".to_string(),
        right: Box::new(Expression::IntegerLiteral(right)),
    };
    assert_eq!(infix.token_literal(), "+");
    assert_eq!(infix.to_string(), "(5 + 3)");
}

#[test]
fn infix_test_infix_expression_display_plus() {
    let left = int_lit(5, 1, 1);
    let right = int_lit(3, 1, 5);
    let infix = InfixExpression {
        token: Token::new(TokenType::PLUS, "+".to_string(), 1, 3),
        left: Box::new(Expression::IntegerLiteral(left)),
        operator: "+".to_string(),
        right: Box::new(Expression::IntegerLiteral(right)),
    };
    assert_eq!(infix.token_literal(), "+");
    assert_eq!(infix.to_string(), "(5 + 3)");
}

#[test]
fn test_infix_expression_display_minus() {
    let left = int_lit(10, 1, 1);
    let right = int_lit(2, 1, 6);
    let infix = InfixExpression {
        token: Token::new(TokenType::MINUS, "-".to_string(), 1, 4),
        left: Box::new(Expression::IntegerLiteral(left)),
        operator: "-".to_string(),
        right: Box::new(Expression::IntegerLiteral(right)),
    };
    assert_eq!(infix.token_literal(), "-");
    assert_eq!(infix.to_string(), "(10 - 2)");
}

#[test]
fn expression_test_infix_expression_display_eq() {
    let left = ident("x", 1, 1);
    let right = ident("y", 1, 6);
    let infix = InfixExpression {
        token: Token::new(TokenType::EQ, "==".to_string(), 1, 3),
        left: Box::new(Expression::Identifier(left)),
        operator: "==".to_string(),
        right: Box::new(Expression::Identifier(right)),
    };
    assert_eq!(infix.token_literal(), "==");
    assert_eq!(infix.to_string(), "(x == y)");
}

#[test]
fn infix_test_infix_expression_display_eq() {
    let left = ident("x", 1, 1);
    let right = ident("y", 1, 6);
    let infix = InfixExpression {
        token: Token::new(TokenType::EQ, "==".to_string(), 1, 3),
        left: Box::new(Expression::Identifier(left)),
        operator: "==".to_string(),
        right: Box::new(Expression::Identifier(right)),
    };
    assert_eq!(infix.token_literal(), "==");
    assert_eq!(infix.to_string(), "(x == y)");
}

#[test]
fn let__test_let_statement_display_with_value() {
    let stmt = LetStatement {
        token: Token::new(TokenType::LET, "let".to_string(), 1, 1),
        name: ident("x", 1, 5),
        value: Some(Expression::IntegerLiteral(int_lit(5, 1, 9))),
    };
    assert_eq!(stmt.to_string(), "let x = 5;");
}

#[test]
fn statement_test_let_statement_display_with_value() {
    let stmt = LetStatement {
        token: Token::new(TokenType::LET, "let".to_string(), 1, 1),
        name: ident("x", 1, 5),
        value: Some(Expression::IntegerLiteral(int_lit(5, 1, 9))),
    };
    assert_eq!(stmt.to_string(), "let x = 5;");
}

#[test]
fn let__test_let_statement_display_without_value() {
    let stmt = LetStatement {
        token: Token::new(TokenType::LET, "let".to_string(), 1, 1),
        name: ident("y", 1, 5),
        value: None,
    };
    assert_eq!(stmt.to_string(), "let y = ;");
}

#[test]
fn statement_test_let_statement_display_without_value() {
    let stmt = LetStatement {
        token: Token::new(TokenType::LET, "let".to_string(), 1, 1),
        name: ident("y", 1, 5),
        value: None,
    };
    assert_eq!(stmt.to_string(), "let y = ;");
}

#[test]
fn test_let_statement_display_with_identifier_value() {
    let stmt = LetStatement {
        token: Token::new(TokenType::LET, "let".to_string(), 1, 1),
        name: ident("myVar", 1, 5),
        value: Some(Expression::Identifier(ident("anotherVar", 1, 13))),
    };
    assert_eq!(stmt.to_string(), "let myVar = anotherVar;");
}

#[test]
fn return__test_return_statement_display_with_value() {
    let stmt = ReturnStatement {
        token: Token::new(TokenType::RETURN, "return".to_string(), 1, 1),
        value: Some(Expression::IntegerLiteral(int_lit(5, 1, 8))),
    };
    assert_eq!(stmt.to_string(), "return 5;");
}

#[test]
fn statement_test_return_statement_display_with_value() {
    let stmt = ReturnStatement {
        token: Token::new(TokenType::RETURN, "return".to_string(), 1, 1),
        value: Some(Expression::IntegerLiteral(int_lit(5, 1, 8))),
    };
    assert_eq!(stmt.to_string(), "return 5;");
}

#[test]
fn return__test_return_statement_display_without_value() {
    let stmt = ReturnStatement {
        token: Token::new(TokenType::RETURN, "return".to_string(), 1, 1),
        value: None,
    };
    assert_eq!(stmt.to_string(), "return ;");
}

#[test]
fn statement_test_return_statement_display_without_value() {
    let stmt = ReturnStatement {
        token: Token::new(TokenType::RETURN, "return".to_string(), 1, 1),
        value: None,
    };
    assert_eq!(stmt.to_string(), "return ;");
}

#[test]
fn test_return_statement_display_with_expression() {
    let stmt = ReturnStatement {
        token: Token::new(TokenType::RETURN, "return".to_string(), 1, 1),
        value: Some(Expression::Identifier(ident("x", 1, 8))),
    };
    assert_eq!(stmt.to_string(), "return x;");
}
