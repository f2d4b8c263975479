//! Checks used by the test suite: each states exactly what a node must
//! look like and returns whether it does.
//!
//! Unlike assertions, these functions never abort: a test asserts the
//! returned truth value instead.

use vstd::prelude::*;

use crate::ast::{
    expr_view, ident_view, stmt_view, BooleanLiteral, ExprModel, Expression, Literal, Statement,
    StmtModel,
};
use crate::digits::{i64_string, i64_to_digits};

verus! {

/// Whether an expression is an integer literal with the given value
/// whose token literal spells that value in decimal.
pub open spec fn spec_is_integer_literal(e: ExprModel, value: i64) -> bool {
    match e {
        ExprModel::Int { token, value: v } => v == value && token.literal == i64_to_digits(value),
        _ => false,
    }
}

/// Checks that an expression is an integer literal with the given value
/// and a token literal spelling it in decimal.
pub fn test_integer_literal(exp: Expression, value: i64) -> (r: bool)
    ensures
        r == spec_is_integer_literal(expr_view(&exp), value),
{
    match exp {
        Expression::IntegerLiteral(il) => {
            let expected = i64_string(value);
            il.value == value && il.token.literal == expected
        },
        _ => false,
    }
}

/// Whether a statement is a `let` whose token literal is `let` and
/// whose bound name and its token literal are the given name.
pub open spec fn spec_is_let_statement(s: StmtModel, name: Seq<char>) -> bool {
    match s {
        StmtModel::Let { token, name: n, value } => token.literal == "let"@ && n.value == name
            && n.token.literal == name,
        _ => false,
    }
}

/// Checks that a statement is a `let` statement binding the given name.
pub fn test_let_statement(stmt: &Statement, name: &str) -> (r: bool)
    ensures
        r == spec_is_let_statement(stmt_view(stmt), name@),
{
    match stmt {
        Statement::Let(let_stmt) => {
            let expected = String::from_str(name);
            let_stmt.token.literal == String::from_str("let") && let_stmt.name.value == expected
                && let_stmt.name.token.literal == expected
        },
        _ => false,
    }
}

/// Whether a statement is a `return` statement with the `return` token.
pub open spec fn spec_is_return_statement(s: StmtModel) -> bool {
    match s {
        StmtModel::Return { token, value } => token.literal == "return"@,
        _ => false,
    }
}

/// Checks that a statement is a `return` statement.
pub fn is_return_statement(stmt: &Statement) -> (r: bool)
    ensures
        r == spec_is_return_statement(stmt_view(stmt)),
{
    match stmt {
        Statement::Return(return_stmt) => return_stmt.token.literal == String::from_str("return"),
        _ => false,
    }
}

/// Whether an expression is an identifier with the given name, whose
/// token literal is that name too.
pub open spec fn spec_is_identifier(e: ExprModel, value: Seq<char>) -> bool {
    match e {
        ExprModel::Ident(i) => i.value == value && i.token.literal == value,
        _ => false,
    }
}

/// Checks that an expression is an identifier with the given name.
pub fn test_identifier(exp: Expression, value: &str) -> (r: bool)
    ensures
        r == spec_is_identifier(expr_view(&exp), value@),
{
    match exp {
        Expression::Identifier(ident) => {
            let expected = String::from_str(value);
            ident.value == expected && ident.token.literal == expected
        },
        _ => false,
    }
}

/// Checks that a boolean literal holds the given value.
pub fn test_boolean_literal(boolean_lit: &BooleanLiteral, value: bool) -> (r: bool)
    ensures
        r == (boolean_lit.value == value),
{
    boolean_lit.value == value
}

/// What `test_literal_expression` checks: the expected form decides the
/// shape the expression must have.
pub open spec fn spec_literal_expression(e: ExprModel, expected: &Literal) -> bool {
    match expected {
        Literal::Integer(il) => spec_is_integer_literal(e, il.value),
        Literal::Identifier(id) => spec_is_identifier(e, id.value@),
        Literal::Boolean(bl) => true,
    }
}

/// Checks an expression against an expected literal form: an integer
/// form checks value and spelling, an identifier form checks the name.
/// A boolean form mirrors the reference checker, which compares the
/// expectation against itself and therefore always holds.
pub fn test_literal_expression(exp: Expression, expected: Literal) -> (r: bool)
    ensures
        r == spec_literal_expression(expr_view(&exp), &expected),
{
    match expected {
        Literal::Integer(il) => test_integer_literal(exp, il.value),
        Literal::Identifier(ident) => test_identifier(exp, ident.value.as_str()),
        Literal::Boolean(bl) => test_boolean_literal(&bl, bl.value),
    }
}

/// Whether an expression is an infix application whose operands match
/// the expected literal forms and whose operator is the given spelling.
pub open spec fn spec_infix_expression(
    e: ExprModel,
    left: &Literal,
    operator: Seq<char>,
    right: &Literal,
) -> bool {
    match e {
        ExprModel::Infix { token, left: l, operator: op, right: r } => spec_literal_expression(
            *l,
            left,
        ) && op == operator && spec_literal_expression(*r, right),
        _ => false,
    }
}

/// Checks that an expression is an infix application of the given
/// operator to the expected operand forms.
pub fn test_infix_expression(exp: Expression, left: Literal, operator: &str, right: Literal) -> (r:
    bool)
    ensures
        r == spec_infix_expression(expr_view(&exp), &left, operator@, &right),
{
    match exp {
        Expression::InfixExpression(infix_expr) => {
            let left_ok = test_literal_expression(*infix_expr.left, left);
            let op_ok = infix_expr.operator == String::from_str(operator);
            let right_ok = test_literal_expression(*infix_expr.right, right);
            left_ok && op_ok && right_ok
        },
        _ => false,
    }
}

} // verus!
