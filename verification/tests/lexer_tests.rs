//! Token streams of the lexer.

use monkey_lang::lexer::Lexer;
use monkey_lang::token::TokenType;

fn check_token_stream(input: &str, tests: &[(TokenType, &str)]) {
    let mut lex = Lexer::new(input.to_string());
    for (i, (expected_type, expected_literal)) in tests.iter().enumerate() {
        let token = lex.next_token();
        assert_eq!(
            token.token_type, *expected_type,
            "tests[{}] - tokentype wrong. expected={:?}, got={:?}",
            i, expected_type, token.token_type
        );
        assert_eq!(
            token.literal, *expected_literal,
            "tests[{}] - literaltype wrong. expected={:?}, got={:?}",
            i, expected_literal, token.literal
        );
    }
}

fn next_token_case() -> (String, Vec<(TokenType, &'static str)>) {
    let input = "let five = 5;
        let ten = 10;
        let add = fn(x, y) {
        x + y;
        };
        let result = add(five, ten);
        !-/*5;
        5 < 10 > 5;
        if (5 < 10) {
        return true;
        } else {
        return false;
        }
        !=
        "
    .to_string();
    let tests = vec![
        (TokenType::LET, "let"),
        (TokenType::IDENT, "five"),
        (TokenType::ASSIGN, "="),
        (TokenType::INT, "5"),
        (TokenType::SEMICOLON, ";"),
        (TokenType::LET, "let"),
        (TokenType::IDENT, "ten"),
        (TokenType::ASSIGN, "="),
        (TokenType::INT, "10"),
        (TokenType::SEMICOLON, ";"),
        (TokenType::LET, "let"),
        (TokenType::IDENT, "add"),
        (TokenType::ASSIGN, "="),
        (TokenType::FUNCTION, "fn"),
        (TokenType::LPAREN, "("),
        (TokenType::IDENT, "x"),
        (TokenType::COMMA, ","),
        (TokenType::IDENT, "y"),
        (TokenType::RPAREN, ")"),
        (TokenType::LBRACE, "{"),
        (TokenType::IDENT, "x"),
        (TokenType::PLUS, "+"),
        (TokenType::IDENT, "y"),
        (TokenType::SEMICOLON, ";"),
        (TokenType::RBRACE, "}"),
        (TokenType::SEMICOLON, ";"),
        (TokenType::LET, "let"),
        (TokenType::IDENT, "result"),
        (TokenType::ASSIGN, "="),
        (TokenType::IDENT, "add"),
        (TokenType::LPAREN, "("),
        (TokenType::IDENT, "five"),
        (TokenType::COMMA, ","),
        (TokenType::IDENT, "ten"),
        (TokenType::RPAREN, ")"),
        (TokenType::SEMICOLON, ";"),
        (TokenType::BANG, "!"),
        (TokenType::MINUS, "-"),
        (TokenType::SLASH, "/"),
        (TokenType::ASTERISK, "*"),
        (TokenType::INT, "5"),
        (TokenType::SEMICOLON, ";"),
        (TokenType::INT, "5"),
        (TokenType::LT, "<"),
        (TokenType::INT, "10"),
        (TokenType::GT, ">"),
        (TokenType::INT, "5"),
        (TokenType::SEMICOLON, ";"),
        (TokenType::IF, "if"),
        (TokenType::LPAREN, "("),
        (TokenType::INT, "5"),
        (TokenType::LT, "<"),
        (TokenType::INT, "10"),
        (TokenType::RPAREN, ")"),
        (TokenType::LBRACE, "{"),
        (TokenType::RETURN, "return"),
        (TokenType::TRUE, "true"),
        (TokenType::SEMICOLON, ";"),
        (TokenType::RBRACE, "}"),
        (TokenType::ELSE, "else"),
        (TokenType::LBRACE, "{"),
        (TokenType::RETURN, "return"),
        (TokenType::FALSE, "false"),
        (TokenType::SEMICOLON, ";"),
        (TokenType::RBRACE, "}"),
        (TokenType::NOTEQ, "!="),
        (TokenType::EOF, ""),
    ];
    (input, tests)
}

#[test]
fn lib_test_next_token() {
    let (input, tests) = next_token_case();
    check_token_stream(&input, &tests);
}

#[test]
fn lexer_tests_test_next_token() {
    let (input, tests) = next_token_case();
    check_token_stream(&input, &tests);
}

#[test]
fn mod_test_next_token() {
    let (input, tests) = next_token_case();
    check_token_stream(&input, &tests);
}
