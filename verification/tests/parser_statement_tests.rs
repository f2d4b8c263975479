//! Parsing of let and return statements.

use monkey_lang::ast::{Identifier, IntegerLiteral, Literal, Statement};
use monkey_lang::lexer::Lexer;
use monkey_lang::parser::Parser;
use monkey_lang::test_helper::{is_return_statement, test_let_statement, test_literal_expression};
use monkey_lang::token::{Token, TokenType};

fn parse(input: &str) -> (monkey_lang::ast::Program, usize) {
    let lexer = Lexer::new(input.to_string());
    let mut parser = Parser::new(lexer);
    let program = parser.parse_program();
    let n_errors = parser.errors().len();
    (program, n_errors)
}

fn lit_int(value: i64) -> Literal {
    Literal::Integer(IntegerLiteral {
        token: Token::new(TokenType::INT, value.to_string(), 1, 1),
        value,
    })
}

fn lit_ident(name: &str) -> Literal {
    Literal::Identifier(Identifier {
        token: Token::new(TokenType::IDENT, name.to_string(), 1, 1),
        value: name.to_string(),
    })
}

fn check_let_statements(input: &str) {
    let (program, n_errors) = parse(input);
    assert_eq!(n_errors, 0);
    assert!(!program.statements.is_empty(), "ParseProgram() returned empty program");
    assert_eq!(
        program.statements.len(),
        3,
        "program.statements does not contain 3 statements. got={}",
        program.statements.len()
    );
    let expected_names = ["x", "y", "foobar"];
    for (i, name) in expected_names.iter().enumerate() {
        assert!(
            test_let_statement(&program.statements[i], name),
            "test_let_statement failed for statement {}",
            i
        );
    }
}

#[test]
fn lib_test_parsing_let_statements() {
    check_let_statements("\nlet x = 5;\nlet y = 10;\nlet foobar = 838383;\n");
}

#[test]
fn let_tests_test_parsing_let_statements() {
    check_let_statements("\nlet x = 5;\nlet y = 10;\nlet foobar = 838383;\n");
}

#[test]
fn statements_tests_test_parsing_let_statements() {
    check_let_statements("\nlet x = 5;\nlet y = 10;\nlet foobar = 838383;\n");
}

#[test]
fn parser_statement_tests_test_parsing_let_statements() {
    let input = "\nlet x = 5;\nlet y = 10;\nlet foobar = 838383;\n";
    let (program, n_errors) = parse(input);
    assert_eq!(n_errors, 0);
    assert_eq!(
        program.statements.len(),
        3,
        "program.statements does not contain 3 statements. got={}",
        program.statements.len()
    );
    let expected: [(&str, Literal); 3] =
        [("x", lit_int(5)), ("y", lit_int(10)), ("foobar", lit_int(838383))];
    for (i, (name, value)) in expected.into_iter().enumerate() {
        let stmt = &program.statements[i];
        assert!(test_let_statement(stmt, name), "test_let_statement failed at index {}", i);
        let let_stmt = match stmt {
            Statement::Let(let_stmt) => let_stmt,
            _ => panic!("stmt is not a LetStatement"),
        };
        let bound = let_stmt.value.clone().expect("let statement has no value");
        assert!(
            test_literal_expression(bound, value),
            "test_literal_expression failed at index {}",
            i
        );
    }
}

fn check_return_statements(input: &str) {
    let (program, n_errors) = parse(input);
    assert_eq!(n_errors, 0);
    assert!(!program.statements.is_empty(), "ParseProgram() returned empty program");
    assert_eq!(
        program.statements.len(),
        3,
        "program.statements does not contain 3 statements. got={}",
        program.statements.len()
    );
    for (i, stmt) in program.statements.iter().enumerate() {
        assert!(is_return_statement(stmt), "is_return_statement failed for statement {}", i);
    }
}

#[test]
fn lib_test_parsing_return_statements() {
    check_return_statements("\nreturn 5;\nreturn 10;\nreturn 993322;\n");
}

#[test]
fn parser_statement_tests_test_parsing_return_statements() {
    check_return_statements("\nreturn 5;\nreturn 10;\nreturn 993322;\n");
}

#[test]
fn return_tests_test_parsing_return_statements() {
    check_return_statements("\nreturn 5;\nreturn 10;\nreturn 993322;\n");
}

#[test]
fn statements_tests_test_parsing_return_statements() {
    check_return_statements("\nreturn 5;\nreturn 10;\nreturn 993322;\n");
}

fn check_single_return_statement(input: &str) {
    let (program, n_errors) = parse(input);
    assert_eq!(n_errors, 0);
    assert_eq!(
        program.statements.len(),
        1,
        "program.statements does not contain 1 statement. got={}",
        program.statements.len()
    );
    match &program.statements[0] {
        Statement::Return(_) => {},
        _ => panic!("statement is not a ReturnStatement"),
    }
}

#[test]
fn lib_test_parsing_return_statement() {
    check_single_return_statement("return 5;");
}

#[test]
fn parser_statement_tests_test_parsing_return_statement() {
    check_single_return_statement("return 5;");
}

#[test]
fn return_tests_test_parsing_return_statement() {
    check_single_return_statement("return 5;");
}

#[test]
fn statements_tests_test_parsing_return_statement() {
    check_single_return_statement("return 5;");
}

#[test]
fn test_parsing_let_statement_identifier_value() {
    let (program, n_errors) = parse("let myVar = anotherVar;");
    assert_eq!(n_errors, 0);
    assert_eq!(program.statements.len(), 1);
    assert!(test_let_statement(&program.statements[0], "myVar"));
    let let_stmt = match &program.statements[0] {
        Statement::Let(let_stmt) => let_stmt,
        _ => panic!("stmt is not a LetStatement"),
    };
    let bound = let_stmt.value.clone().expect("let statement has no value");
    assert!(test_literal_expression(bound, lit_ident("anotherVar")));
}
