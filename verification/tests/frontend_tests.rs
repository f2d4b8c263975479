//! Boundary behaviors and end-to-end scenarios of the front-end: the
//! lexer's totality and token shapes, the parser's diagnostics, the
//! pretty-printer's exact output, and print/parse round trips.

use monkey_lang::digits::parse_i64_digits;
use monkey_lang::error::ParserErrorType;
use monkey_lang::lexer::Lexer;
use monkey_lang::parser::Parser;
use monkey_lang::precedence::Precedence;
use monkey_lang::token::{lookup_identifier, lookup_operator, Token, TokenType};

fn parse(input: &str) -> (monkey_lang::ast::Program, Vec<monkey_lang::error::ParserError>) {
    let lexer = Lexer::new(input.to_string());
    let mut parser = Parser::new(lexer);
    let program = parser.parse_program();
    let errors = parser.errors().clone();
    (program, errors)
}

#[test]
fn test_empty_input() {
    let mut lexer = Lexer::new(String::new());
    let token = lexer.next_token();
    assert_eq!(token.token_type, TokenType::EOF);
    assert_eq!(token.literal, "");

    let (program, errors) = parse("");
    assert!(program.statements.is_empty());
    assert!(errors.is_empty());
    assert_eq!(program.to_string(), "");
}

#[test]
fn test_eof_is_stable() {
    let mut lexer = Lexer::new("x".to_string());
    let first = lexer.next_token();
    assert_eq!(first.token_type, TokenType::IDENT);
    let eof = lexer.next_token();
    assert_eq!(eof.token_type, TokenType::EOF);
    for _ in 0..5 {
        let again = lexer.next_token();
        assert_eq!(again.token_type, TokenType::EOF);
        assert_eq!(again.literal, "");
        assert_eq!(again.line, eof.line);
        assert_eq!(again.column, eof.column);
    }
}

#[test]
fn test_two_char_operators_lex_as_single_tokens() {
    let mut lexer = Lexer::new("== !=".to_string());
    let eq = lexer.next_token();
    assert_eq!(eq.token_type, TokenType::EQ);
    assert_eq!(eq.literal, "==");
    let noteq = lexer.next_token();
    assert_eq!(noteq.token_type, TokenType::NOTEQ);
    assert_eq!(noteq.literal, "!=");
    assert_eq!(lexer.next_token().token_type, TokenType::EOF);
}

#[test]
fn test_minus_then_digits_lex_separately() {
    let mut lexer = Lexer::new("-123".to_string());
    let minus = lexer.next_token();
    assert_eq!(minus.token_type, TokenType::MINUS);
    assert_eq!(minus.literal, "-");
    let number = lexer.next_token();
    assert_eq!(number.token_type, TokenType::INT);
    assert_eq!(number.literal, "123");
}

#[test]
fn test_keyword_identifier_partition() {
    let keywords = [
        ("fn", TokenType::FUNCTION),
        ("let", TokenType::LET),
        ("if", TokenType::IF),
        ("else", TokenType::ELSE),
        ("return", TokenType::RETURN),
        ("true", TokenType::TRUE),
        ("false", TokenType::FALSE),
    ];
    for (word, kind) in keywords {
        assert_eq!(lookup_identifier(word), kind);
        let mut lexer = Lexer::new(word.to_string());
        let token = lexer.next_token();
        assert_eq!(token.token_type, kind);
        assert_eq!(token.literal, word);
    }
    for word in ["fns", "lets", "iff", "foo", "_", "truthy", "Fn", "LET"] {
        assert_eq!(lookup_identifier(word), TokenType::IDENT);
        let mut lexer = Lexer::new(word.to_string());
        let token = lexer.next_token();
        assert_eq!(token.token_type, TokenType::IDENT);
        assert_eq!(token.literal, word);
    }
}

#[test]
fn test_illegal_bytes_surface_as_illegal_tokens() {
    let mut lexer = Lexer::new("@#".to_string());
    let at = lexer.next_token();
    assert_eq!(at.token_type, TokenType::ILLEGAL);
    assert_eq!(at.literal, "@");
    let hash = lexer.next_token();
    assert_eq!(hash.token_type, TokenType::ILLEGAL);
    assert_eq!(hash.literal, "#");
}

#[test]
fn test_line_and_column_tracking() {
    let mut lexer = Lexer::new("let x\n  == y".to_string());
    let let_tok = lexer.next_token();
    assert_eq!((let_tok.line, let_tok.column), (1, 1));
    let x_tok = lexer.next_token();
    assert_eq!((x_tok.line, x_tok.column), (1, 5));
    let eq_tok = lexer.next_token();
    assert_eq!(eq_tok.token_type, TokenType::EQ);
    assert_eq!((eq_tok.line, eq_tok.column), (2, 3));
    let y_tok = lexer.next_token();
    assert_eq!((y_tok.line, y_tok.column), (2, 6));
}

#[test]
fn test_token_literals_reproduce_source() {
    let input = "let x = 1 + 2;";
    let mut lexer = Lexer::new(input.to_string());
    let mut rebuilt = String::new();
    let mut first = true;
    loop {
        let token = lexer.next_token();
        if token.token_type == TokenType::EOF {
            break;
        }
        if !first {
            rebuilt.push(' ');
        }
        first = false;
        rebuilt.push_str(&token.literal);
    }
    assert_eq!(rebuilt, "let x = 1 + 2 ;");
}

#[test]
fn test_scenario_let_statements_print() {
    let (program, errors) = parse("let x = 5; let y = 10; let foobar = 838383;");
    assert!(errors.is_empty());
    assert_eq!(program.to_string(), "let x = 5;let y = 10;let foobar = 838383;");
}

#[test]
fn test_scenario_return_statements_print() {
    let (program, errors) = parse("return 5; return 10; return 993322;");
    assert!(errors.is_empty());
    assert_eq!(program.to_string(), "return 5;return 10;return 993322;");
}

#[test]
fn test_scenario_if_else_print() {
    let (program, errors) = parse("if (x < y) { x } else { y }");
    assert!(errors.is_empty());
    assert_eq!(program.to_string(), "if(x < y)xelse y");
}

#[test]
fn test_scenario_function_literal_print() {
    let (program, errors) = parse("fn(x, y) { x + y; }");
    assert!(errors.is_empty());
    assert_eq!(program.to_string(), "fn(x, y) (x + y)");
}

#[test]
fn test_scenario_call_print() {
    let (program, errors) = parse("add(1, 2 * 3, 4 + 5);");
    assert!(errors.is_empty());
    assert_eq!(program.to_string(), "add(1, (2 * 3), (4 + 5))");
}

#[test]
fn test_print_parse_round_trip() {
    // Statement prints carry their own semicolons and reparse as they are;
    // an expression statement prints without its terminator, so the
    // terminator is put back before reparsing.
    let statement_inputs = [
        "let x = 5; let y = 10; let foobar = 838383;",
        "return 5; return 10; return 993322;",
    ];
    for input in statement_inputs {
        let (program, errors) = parse(input);
        assert!(errors.is_empty(), "parser reported errors for {:?}", input);
        let printed = program.to_string();
        let (reparsed, reparse_errors) = parse(&printed);
        assert!(reparse_errors.is_empty(), "reparse reported errors for {:?}", printed);
        assert_eq!(reparsed.to_string(), printed, "print not idempotent for {:?}", input);
    }
    let expression_inputs = [
        "-a * b;",
        "a + b * c + d / e - f;",
        "3 + 4 * 5 == 3 * 1 + 4 * 5;",
        "!(true == true);",
        "add(1, 2 * 3, 4 + 5);",
    ];
    for input in expression_inputs {
        let (program, errors) = parse(input);
        assert!(errors.is_empty(), "parser reported errors for {:?}", input);
        let printed = program.to_string();
        let reprinted_input = format!("{};", printed);
        let (reparsed, reparse_errors) = parse(&reprinted_input);
        assert!(reparse_errors.is_empty(), "reparse reported errors for {:?}", printed);
        assert_eq!(reparsed.to_string(), printed, "print not idempotent for {:?}", input);
    }
}

#[test]
fn test_unclosed_delimiters_produce_diagnostics() {
    let (_, errors) = parse("(5;");
    assert!(!errors.is_empty());

    let (_, errors) = parse("if (x < y) { x");
    assert!(!errors.is_empty());

    let (_, errors) = parse("add(1, 2;");
    assert!(!errors.is_empty());
    assert!(errors.iter().any(|e| matches!(
        e.kind,
        ParserErrorType::UnclosedCallArguments { .. }
    )));
}

#[test]
fn test_integer_overflow_produces_invalid_integer_diagnostic() {
    let (_, errors) = parse("9223372036854775808;");
    assert!(errors.iter().any(|e| matches!(
        e.kind,
        ParserErrorType::InvalidIntegerLiteral { .. }
    )));

    let (program, errors) = parse("9223372036854775807;");
    assert!(errors.is_empty());
    assert_eq!(program.to_string(), "9223372036854775807");
}

#[test]
fn test_let_missing_identifier_mentions_ident() {
    let (_, errors) = parse("let = 5;");
    assert!(!errors.is_empty());
    assert!(errors.iter().any(|e| matches!(
        e.kind,
        ParserErrorType::ExpectedToken { expected: TokenType::IDENT, .. }
    )));
    assert!(errors[0].to_string().contains("IDENT"));
}

#[test]
fn test_let_missing_assign_mentions_assign() {
    let (_, errors) = parse("let x 5;");
    assert!(!errors.is_empty());
    assert!(errors.iter().any(|e| matches!(
        e.kind,
        ParserErrorType::ExpectedToken { expected: TokenType::ASSIGN, .. }
    )));
    assert!(errors[0].to_string().contains("ASSIGN"));
}

#[test]
fn test_missing_semicolon_span_references_eof() {
    // An unterminated expression statement draws a missing-semicolon
    // diagnostic pointing at the trailing end-of-input token.
    let (program, errors) = parse("foobar");
    assert!(program.statements.is_empty());
    assert_eq!(errors.len(), 1);
    assert!(matches!(
        errors[0].kind,
        ParserErrorType::MissingSemicolon { got: TokenType::EOF, .. }
    ));
    assert_eq!(errors[0].span.line, 1);
    assert_eq!(errors[0].span.column, 7);
}

#[test]
fn test_let_missing_semicolon_is_diagnosed() {
    let (program, errors) = parse("let x = 5");
    assert!(program.statements.is_empty());
    assert_eq!(errors.len(), 1);
    assert!(matches!(
        errors[0].kind,
        ParserErrorType::MissingSemicolon { got: TokenType::EOF, .. }
    ));
    assert_eq!(errors[0].span.line, 1);
    assert_eq!(errors[0].span.column, 10);
}

#[test]
fn test_brace_statements_need_no_terminator() {
    // A brace ends these statements: the expression's own closing brace,
    // or the enclosing block's `}` after the inner `x` and `y`.
    let (program, errors) = parse("if (x < y) { x } else { y }");
    assert!(errors.is_empty());
    assert_eq!(program.statements.len(), 1);

    let (program, errors) = parse("fn(x, y) { x + y; }");
    assert!(errors.is_empty());
    assert_eq!(program.statements.len(), 1);
}

#[test]
fn test_no_prefix_parse_function_diagnostic() {
    let (_, errors) = parse("+ 5;");
    assert!(errors.iter().any(|e| matches!(
        e.kind,
        ParserErrorType::NoPrefixParseFunction { token_type: TokenType::PLUS, .. }
    )));
}

#[test]
fn test_prefix_rhs_failure_diagnostic() {
    let (_, errors) = parse("!;");
    assert!(!errors.is_empty());
    assert!(errors.iter().any(|e| matches!(
        e.kind,
        ParserErrorType::FailedToParsePrefixRHS { .. }
    )));
}

#[test]
fn test_negative_integer_prints_as_prefix_expression() {
    let (program, errors) = parse("-5;");
    assert!(errors.is_empty());
    assert_eq!(program.to_string(), "(-5)");
}

#[test]
fn test_parse_i64_digits_bounds() {
    assert_eq!(parse_i64_digits("0"), Some(0));
    assert_eq!(parse_i64_digits("9223372036854775807"), Some(i64::MAX));
    assert_eq!(parse_i64_digits("9223372036854775808"), None);
    assert_eq!(parse_i64_digits(""), None);
    assert_eq!(parse_i64_digits("12a"), None);
}

#[test]
fn test_token_helpers() {
    let token = Token::new(TokenType::EQ, "==".to_string(), 1, 1);
    assert_eq!(token.to_monkey_lang_token(), "==");
    let illegal = Token::new(TokenType::ILLEGAL, "@".to_string(), 1, 1);
    assert_eq!(illegal.to_monkey_lang_token(), "ILLEGAL");
    let name = Token::new(TokenType::IDENT, "abc".to_string(), 1, 1);
    assert_eq!(name.to_monkey_lang_token(), "abc");

    assert_eq!(lookup_operator("=="), TokenType::EQ);
    assert_eq!(lookup_operator("!="), TokenType::NOTEQ);
    assert_eq!(lookup_operator("{"), TokenType::LBRACE);
    assert_eq!(lookup_operator("@"), TokenType::ILLEGAL);
}

#[test]
fn test_precedence_table() {
    assert_eq!(Precedence::lowest(), 1);
    assert_eq!(Precedence::LOWEST.value(), 1);
    assert_eq!(Precedence::CALL.value(), 7);
    assert_eq!(Precedence::from_token_type(&TokenType::EQ), 2);
    assert_eq!(Precedence::from_token_type(&TokenType::LT), 3);
    assert_eq!(Precedence::from_token_type(&TokenType::PLUS), 4);
    assert_eq!(Precedence::from_token_type(&TokenType::ASTERISK), 5);
    assert_eq!(Precedence::from_token_type(&TokenType::LPAREN), 7);
    assert_eq!(Precedence::from_token_type(&TokenType::IDENT), 1);
}

#[test]
fn test_stacked_prefix_operators_are_right_associative() {
    let (program, errors) = parse("!-a;");
    assert!(errors.is_empty());
    assert_eq!(program.to_string(), "(!(-a))");
}
