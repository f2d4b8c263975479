//! Token kinds and the token record produced by the lexer.
//!
//! A token carries its kind, the exact source substring it was read from
//! (empty at end of input), and the 1-indexed line and column of its first
//! character.

use vstd::prelude::*;

verus! {

/// The kinds of lexical tokens of the Monkey language.
#[allow(non_camel_case_types)]
#[derive(Debug, PartialEq, Eq, Structural, Clone, Copy, Hash)]
pub enum TokenType {
    /// A byte that fits no other kind
    ILLEGAL,
    /// End of input
    EOF,
    /// Identifiers: variable names, function names, etc.
    IDENT,
    /// Integer literals
    INT,
    /// "="
    ASSIGN,
    /// "+"
    PLUS,
    /// "-"
    MINUS,
    /// "!"
    BANG,
    /// "/"
    SLASH,
    /// "*"
    ASTERISK,
    /// "<"
    LT,
    /// ">"
    GT,
    /// "!="
    NOTEQ,
    /// "=="
    EQ,
    /// ","
    COMMA,
    /// ";"
    SEMICOLON,
    /// "("
    LPAREN,
    /// ")"
    RPAREN,
    /// "{"
    LBRACE,
    /// "}"
    RBRACE,
    /// "fn"
    FUNCTION,
    /// "let"
    LET,
    /// "if"
    IF,
    /// "else"
    ELSE,
    /// "return"
    RETURN,
    /// "true"
    TRUE,
    /// "false"
    FALSE,
}

/// The mathematical model of a token: its kind, the characters of its
/// literal, and the position of its first character.
pub struct TokenModel {
    pub kind: TokenType,
    pub literal: Seq<char>,
    pub line: nat,
    pub column: nat,
}

/// A lexical token: a kind, the exact source substring, and the 1-indexed
/// position of its first character.
#[derive(Debug, PartialEq, Eq)]
pub struct Token {
    pub token_type: TokenType,
    pub literal: String,
    pub line: usize,
    pub column: usize,
}

impl View for Token {
    type V = TokenModel;

    open spec fn view(&self) -> TokenModel {
        TokenModel {
            kind: self.token_type,
            literal: self.literal@,
            line: self.line as nat,
            column: self.column as nat,
        }
    }
}

impl Clone for Token {
    /// Copies every field of the token.
    fn clone(&self) -> (r: Self)
        ensures
            r == *self,
    {
        Token {
            token_type: self.token_type,
            literal: self.literal.clone(),
            line: self.line,
            column: self.column,
        }
    }
}

impl Token {
    /// Creates a new token with the given kind, literal and position.
    pub fn new(token_type: TokenType, literal: String, line: usize, column: usize) -> (r: Self)
        ensures
            r.token_type == token_type,
            r.literal == literal,
            r.line == line,
            r.column == column,
    {
        Token { token_type, literal, line, column }
    }

    /// Renders the token in the surface syntax of the language: operator
    /// and keyword kinds print their fixed spelling, identifiers and
    /// integers print their literal, and the remaining kinds print
    /// "ILLEGAL".
    pub fn to_monkey_lang_token(&self) -> (r: String)
        ensures
            r@ == spec_monkey_lang_token(self@),
    {
        match self.token_type {
            TokenType::IDENT => self.literal.clone(),
            TokenType::INT => self.literal.clone(),
            TokenType::ASSIGN => String::from_str("="),
            TokenType::PLUS => String::from_str("+"),
            TokenType::MINUS => String::from_str("-"),
            TokenType::BANG => String::from_str("!"),
            TokenType::SLASH => String::from_str("/"),
            TokenType::ASTERISK => String::from_str("*"),
            TokenType::LT => String::from_str("<"),
            TokenType::GT => String::from_str(">"),
            TokenType::NOTEQ => String::from_str("!="),
            TokenType::EQ => String::from_str("=="),
            TokenType::COMMA => String::from_str(","),
            TokenType::SEMICOLON => String::from_str(";"),
            TokenType::LPAREN => String::from_str("("),
            TokenType::RPAREN => String::from_str(")"),
            TokenType::LBRACE => String::from_str("{"),
            TokenType::RBRACE => String::from_str("}"),
            TokenType::FUNCTION => String::from_str("fn"),
            TokenType::LET => String::from_str("let"),
            TokenType::IF => String::from_str("if"),
            TokenType::ELSE => String::from_str("else"),
            TokenType::RETURN => String::from_str("return"),
            TokenType::TRUE => String::from_str("true"),
            TokenType::FALSE => String::from_str("false"),
            _ => String::from_str("ILLEGAL"),
        }
    }
}

/// What `to_monkey_lang_token` returns for a token model.
pub open spec fn spec_monkey_lang_token(t: TokenModel) -> Seq<char> {
    match t.kind {
        TokenType::IDENT => t.literal,
        TokenType::INT => t.literal,
        TokenType::ASSIGN => "="@,
        TokenType::PLUS => "+"@,
        TokenType::MINUS => "-"@,
        TokenType::BANG => "!"@,
        TokenType::SLASH => "/"@,
        TokenType::ASTERISK => "*"@,
        TokenType::LT => "<"@,
        TokenType::GT => ">"@,
        TokenType::NOTEQ => "!="@,
        TokenType::EQ => "=="@,
        TokenType::COMMA => ","@,
        TokenType::SEMICOLON => ";"@,
        TokenType::LPAREN => "("@,
        TokenType::RPAREN => ")"@,
        TokenType::LBRACE => "{"@,
        TokenType::RBRACE => "}"@,
        TokenType::FUNCTION => "fn"@,
        TokenType::LET => "let"@,
        TokenType::IF => "if"@,
        TokenType::ELSE => "else"@,
        TokenType::RETURN => "return"@,
        TokenType::TRUE => "true"@,
        TokenType::FALSE => "false"@,
        _ => "ILLEGAL"@,
    }
}

/// The exact keyword table: the seven keyword spellings map to their
/// keyword kind; every other character run is an identifier.
pub open spec fn spec_lookup_identifier(s: Seq<char>) -> TokenType {
    if s == "fn"@ {
        TokenType::FUNCTION
    } else if s == "let"@ {
        TokenType::LET
    } else if s == "if"@ {
        TokenType::IF
    } else if s == "else"@ {
        TokenType::ELSE
    } else if s == "return"@ {
        TokenType::RETURN
    } else if s == "true"@ {
        TokenType::TRUE
    } else if s == "false"@ {
        TokenType::FALSE
    } else {
        TokenType::IDENT
    }
}

/// Looks up the token kind for an identifier character run: one of the
/// seven keyword kinds when the run is a keyword, `IDENT` otherwise.
pub fn lookup_identifier(ident: &str) -> (r: TokenType)
    ensures
        r == spec_lookup_identifier(ident@),
{
    let s = String::from_str(ident);
    if s == String::from_str("fn") {
        TokenType::FUNCTION
    } else if s == String::from_str("let") {
        TokenType::LET
    } else if s == String::from_str("if") {
        TokenType::IF
    } else if s == String::from_str("else") {
        TokenType::ELSE
    } else if s == String::from_str("return") {
        TokenType::RETURN
    } else if s == String::from_str("true") {
        TokenType::TRUE
    } else if s == String::from_str("false") {
        TokenType::FALSE
    } else {
        TokenType::IDENT
    }
}

/// The operator and delimiter spellings and their kinds.
pub open spec fn spec_lookup_operator(s: Seq<char>) -> TokenType {
    if s == "=="@ {
        TokenType::EQ
    } else if s == "!="@ {
        TokenType::NOTEQ
    } else if s == "<"@ {
        TokenType::LT
    } else if s == ">"@ {
        TokenType::GT
    } else if s == "("@ {
        TokenType::LPAREN
    } else if s == ")"@ {
        TokenType::RPAREN
    } else if s == "{"@ {
        TokenType::LBRACE
    } else if s == "}"@ {
        TokenType::RBRACE
    } else if s == ","@ {
        TokenType::COMMA
    } else if s == ";"@ {
        TokenType::SEMICOLON
    } else {
        TokenType::ILLEGAL
    }
}

/// Looks up the token kind for an operator or delimiter spelling, or
/// `ILLEGAL` when the string is no operator of the language.
pub fn lookup_operator(op: &str) -> (r: TokenType)
    ensures
        r == spec_lookup_operator(op@),
{
    let s = String::from_str(op);
    if s == String::from_str("==") {
        TokenType::EQ
    } else if s == String::from_str("!=") {
        TokenType::NOTEQ
    } else if s == String::from_str("<") {
        TokenType::LT
    } else if s == String::from_str(">") {
        TokenType::GT
    } else if s == String::from_str("(") {
        TokenType::LPAREN
    } else if s == String::from_str(")") {
        TokenType::RPAREN
    } else if s == String::from_str("{") {
        TokenType::LBRACE
    } else if s == String::from_str("}") {
        TokenType::RBRACE
    } else if s == String::from_str(",") {
        TokenType::COMMA
    } else if s == String::from_str(";") {
        TokenType::SEMICOLON
    } else {
        TokenType::ILLEGAL
    }
}

/// The spelling of a token kind, as diagnostics name it.
pub open spec fn spec_token_type_name(t: TokenType) -> Seq<char> {
    match t {
        TokenType::ILLEGAL => "ILLEGAL"@,
        TokenType::EOF => "EOF"@,
        TokenType::IDENT => "IDENT"@,
        TokenType::INT => "INT"@,
        TokenType::ASSIGN => "ASSIGN"@,
        TokenType::PLUS => "PLUS"@,
        TokenType::MINUS => "MINUS"@,
        TokenType::BANG => "BANG"@,
        TokenType::SLASH => "SLASH"@,
        TokenType::ASTERISK => "ASTERISK"@,
        TokenType::LT => "LT"@,
        TokenType::GT => "GT"@,
        TokenType::NOTEQ => "NOTEQ"@,
        TokenType::EQ => "EQ"@,
        TokenType::COMMA => "COMMA"@,
        TokenType::SEMICOLON => "SEMICOLON"@,
        TokenType::LPAREN => "LPAREN"@,
        TokenType::RPAREN => "RPAREN"@,
        TokenType::LBRACE => "LBRACE"@,
        TokenType::RBRACE => "RBRACE"@,
        TokenType::FUNCTION => "FUNCTION"@,
        TokenType::LET => "LET"@,
        TokenType::IF => "IF"@,
        TokenType::ELSE => "ELSE"@,
        TokenType::RETURN => "RETURN"@,
        TokenType::TRUE => "TRUE"@,
        TokenType::FALSE => "FALSE"@,
    }
}

/// Returns the name of a token kind, used when a diagnostic message
/// mentions the kind it expected or found.
pub fn token_type_name(t: TokenType) -> (r: String)
    ensures
        r@ == spec_token_type_name(t),
{
    match t {
        TokenType::ILLEGAL => String::from_str("ILLEGAL"),
        TokenType::EOF => String::from_str("EOF"),
        TokenType::IDENT => String::from_str("IDENT"),
        TokenType::INT => String::from_str("INT"),
        TokenType::ASSIGN => String::from_str("ASSIGN"),
        TokenType::PLUS => String::from_str("PLUS"),
        TokenType::MINUS => String::from_str("MINUS"),
        TokenType::BANG => String::from_str("BANG"),
        TokenType::SLASH => String::from_str("SLASH"),
        TokenType::ASTERISK => String::from_str("ASTERISK"),
        TokenType::LT => String::from_str("LT"),
        TokenType::GT => String::from_str("GT"),
        TokenType::NOTEQ => String::from_str("NOTEQ"),
        TokenType::EQ => String::from_str("EQ"),
        TokenType::COMMA => String::from_str("COMMA"),
        TokenType::SEMICOLON => String::from_str("SEMICOLON"),
        TokenType::LPAREN => String::from_str("LPAREN"),
        TokenType::RPAREN => String::from_str("RPAREN"),
        TokenType::LBRACE => String::from_str("LBRACE"),
        TokenType::RBRACE => String::from_str("RBRACE"),
        TokenType::FUNCTION => String::from_str("FUNCTION"),
        TokenType::LET => String::from_str("LET"),
        TokenType::IF => String::from_str("IF"),
        TokenType::ELSE => String::from_str("ELSE"),
        TokenType::RETURN => String::from_str("RETURN"),
        TokenType::TRUE => String::from_str("TRUE"),
        TokenType::FALSE => String::from_str("FALSE"),
    }
}

} // verus!
