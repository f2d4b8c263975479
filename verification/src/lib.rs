//! A verified syntactic front-end for the Monkey scripting language.
//!
//! The crate contains a lexer that turns source text into a token stream,
//! a Pratt-style recursive-descent parser that builds an abstract syntax
//! tree with operator-precedence-correct structure, a pretty-printer that
//! canonicalizes parenthesization, and structured diagnostics.
//!
//! Every executable function is specified against a mathematical model:
//! the lexer against a functional scanner over the character sequence, and
//! the parser against a functional parser over the same model.

pub mod token;
pub mod digits;
pub mod lexer;
pub mod ast;
pub mod printer;
pub mod precedence;
pub mod error;
pub mod parser;
pub mod test_helper;
