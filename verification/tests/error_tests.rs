//! Formatting and collection of diagnostics.

use monkey_lang::error::{ParserError, ParserErrorType, ParserErrors, Span};
use monkey_lang::token::{Token, TokenType};

#[test]
fn test_error_display() {
    let error = ParserError::at(
        ParserErrorType::ExpectedToken {
            expected: TokenType::SEMICOLON,
            got: TokenType::RBRACE,
            literal: "}".to_string(),
        },
        1,
        10,
    );
    assert_eq!(error.to_string(), "[line 1:10] expected SEMICOLON, got RBRACE ('}')");
}

#[test]
fn test_parser_errors_collection() {
    let mut errors = ParserErrors::new();
    assert!(errors.is_empty());

    errors.add_at(ParserErrorType::UnexpectedEOF, 5, 1);
    assert_eq!(errors.len(), 1);

    let messages = errors.messages();
    assert_eq!(messages[0], "[line 5:1] unexpected end of file");
}

#[test]
fn test_error_at_token_span() {
    let token = Token::new(TokenType::IDENT, "foo".to_string(), 3, 7);
    let error = ParserError::at_token(
        ParserErrorType::InvalidIntegerLiteral { literal: "foo".to_string() },
        &token,
    );
    assert_eq!(error.span, Span::new(3, 7));
    assert_eq!(error.to_string(), "[line 3:7] invalid integer literal: foo");
}

#[test]
fn test_error_constructors_messages() {
    let token = Token::new(TokenType::RBRACE, "}".to_string(), 2, 4);
    assert_eq!(
        ParserError::expected_token(TokenType::IDENT, &token).to_string(),
        "[line 2:4] expected IDENT, got RBRACE ('}')"
    );
    assert_eq!(
        ParserError::missing_semicolon(&token).to_string(),
        "[line 2:4] missing semicolon, got RBRACE ('}')"
    );
    assert_eq!(
        ParserError::no_prefix_fn(&token).to_string(),
        "[line 2:4] no prefix parse function for RBRACE ('}')"
    );
    assert_eq!(
        ParserError::prefix_rhs_failed("-", &token).to_string(),
        "[line 2:4] failed to parse prefix rhs: -"
    );
    assert_eq!(
        ParserError::infix_rhs_failed("+", &token).to_string(),
        "[line 2:4] failed to parse right-hand side of infix expression: +"
    );
    assert_eq!(
        ParserError::expected_param_ident(&token).to_string(),
        "[line 2:4] expected parameter to be an identifier, got RBRACE ('}')"
    );
    assert_eq!(
        ParserError::unclosed_call(&token).to_string(),
        "[line 2:4] unclosed call arguments, got RBRACE ('}')"
    );
}

#[test]
fn test_errors_clear_and_push() {
    let mut errors = ParserErrors::new();
    let token = Token::new(TokenType::EOF, "".to_string(), 1, 1);
    errors.push(ParserError::missing_semicolon(&token));
    errors.add(ParserErrorType::UnexpectedEOF, &token);
    assert_eq!(errors.len(), 2);
    assert_eq!(errors.iter().len(), 2);
    errors.clear();
    assert!(errors.is_empty());
}

#[test]
fn test_error_position_constructors() {
    let e = ParserError::at_line(ParserErrorType::UnexpectedEOF, 4);
    assert_eq!(e.span, Span::new(4, 0));
    let e = ParserError::at_column(ParserErrorType::UnexpectedEOF, 9);
    assert_eq!(e.span, Span::new(0, 9));
    let e = ParserError::at_line_column(ParserErrorType::UnexpectedEOF, 4, 9);
    assert_eq!(e.span, Span::new(4, 9));
    assert_eq!(e.to_string(), "[line 4:9] unexpected end of file");
    let empty = ParserErrors::default();
    assert!(empty.is_empty());
}
