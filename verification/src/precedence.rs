//! Operator precedence levels for the Pratt parser.
//!
//! Higher values bind tighter.  The parser recurses into an infix
//! position only while the operator ahead binds strictly tighter than
//! the level it was called at.

use vstd::prelude::*;

use crate::token::TokenType;

verus! {

/// The precedence levels, from loosest to tightest binding.
#[allow(non_camel_case_types)]
#[derive(Debug, Clone, Copy, PartialEq, Eq, Structural)]
pub enum Precedence {
    /// The default level an expression is parsed at
    LOWEST,
    /// Equality operators `==` and `!=`
    EQUALS,
    /// Comparison operators `<` and `>`
    LESSGREATER,
    /// Addition and subtraction
    SUM,
    /// Multiplication and division
    PRODUCT,
    /// Prefix operators `-x` and `!x`
    PREFIX,
    /// Function calls `f(x)`
    CALL,
}

/// The numeric level of a precedence: strictly increasing from
/// `LOWEST` at 1 to `CALL` at 7.
pub open spec fn spec_precedence_value(p: Precedence) -> int {
    match p {
        Precedence::LOWEST => 1,
        Precedence::EQUALS => 2,
        Precedence::LESSGREATER => 3,
        Precedence::SUM => 4,
        Precedence::PRODUCT => 5,
        Precedence::PREFIX => 6,
        Precedence::CALL => 7,
    }
}

/// The binding level of the operator a token stands for: equality binds
/// loosest, then comparison, sums, products, and calls; every other
/// token sits at `LOWEST`.
pub open spec fn spec_token_precedence(t: TokenType) -> int {
    match t {
        TokenType::EQ => 2,
        TokenType::NOTEQ => 2,
        TokenType::LT => 3,
        TokenType::GT => 3,
        TokenType::PLUS => 4,
        TokenType::MINUS => 4,
        TokenType::SLASH => 5,
        TokenType::ASTERISK => 5,
        TokenType::LPAREN => 7,
        _ => 1,
    }
}

impl Precedence {
    /// The numeric value of this level.
    pub fn value(self) -> (r: i32)
        ensures
            r == spec_precedence_value(self),
    {
        match self {
            Precedence::LOWEST => 1,
            Precedence::EQUALS => 2,
            Precedence::LESSGREATER => 3,
            Precedence::SUM => 4,
            Precedence::PRODUCT => 5,
            Precedence::PREFIX => 6,
            Precedence::CALL => 7,
        }
    }

    /// The numeric value of the loosest level.
    pub fn lowest() -> (r: u8)
        ensures
            r == spec_precedence_value(Precedence::LOWEST),
    {
        1
    }

    /// The binding level of the operator the given token stands for.
    pub fn from_token_type(token_type: &TokenType) -> (r: i32)
        ensures
            r == spec_token_precedence(*token_type),
    {
        match token_type {
            TokenType::EQ => Precedence::EQUALS.value(),
            TokenType::NOTEQ => Precedence::EQUALS.value(),
            TokenType::LT => Precedence::LESSGREATER.value(),
            TokenType::GT => Precedence::LESSGREATER.value(),
            TokenType::PLUS => Precedence::SUM.value(),
            TokenType::MINUS => Precedence::SUM.value(),
            TokenType::SLASH => Precedence::PRODUCT.value(),
            TokenType::ASTERISK => Precedence::PRODUCT.value(),
            TokenType::LPAREN => Precedence::CALL.value(),
            _ => Precedence::LOWEST.value(),
        }
    }
}

} // verus!
