//! The lexer: a character-driven scanner with one position of lookahead.
//!
//! The scanner is specified against a functional model: `lex_next_token`
//! maps a lexer state (the character sequence, the read position, and the
//! 1-indexed line and column of that position) to the token starting there
//! and the state after it.  `next_token` is proved to compute exactly that
//! function of its state.

use vstd::prelude::*;

use crate::digits::is_digit_char;
use crate::token::{lookup_identifier, spec_lookup_identifier, Token, TokenModel, TokenType};

verus! {

/// The mathematical model of the lexer: the source characters, the index
/// of the read head, and the 1-indexed line and column of that index.
pub struct LexerModel {
    pub input: Seq<char>,
    pub pos: nat,
    pub line: nat,
    pub col: nat,
}

/// Whether a character is whitespace to the scanner: space, tab,
/// carriage return or line feed.
pub open spec fn is_ws_char(c: char) -> bool {
    c == ' ' || c == '\t' || c == '\r' || c == '\n'
}

/// Whether a character can appear in an identifier: an ASCII letter or an
/// underscore.
pub open spec fn is_letter_char(c: char) -> bool {
    (65 <= c as u32 && c as u32 <= 90) || (97 <= c as u32 && c as u32 <= 122) || c == '_'
}

/// The character at a position, or NUL at or past the end of input.
pub open spec fn char_at(s: Seq<char>, pos: nat) -> char {
    if pos < s.len() {
        s[pos as int]
    } else {
        '\0'
    }
}

/// A count increased by one, capped at the largest machine word: line
/// and column tracking saturates rather than wrap.
pub open spec fn add_sat(n: nat, k: nat) -> nat {
    if n + k <= usize::MAX {
        n + k
    } else {
        usize::MAX as nat
    }
}

/// How many characters remain to be read.
pub open spec fn lex_rem(m: LexerModel) -> nat {
    if m.pos <= m.input.len() {
        (m.input.len() - m.pos) as nat
    } else {
        0
    }
}

/// The state after stepping over the current character: a line feed moves
/// to the start of the next line, any other character moves one column
/// right.  At the end of input the state is unchanged.
pub open spec fn lex_advance(m: LexerModel) -> LexerModel {
    if m.pos < m.input.len() {
        if m.input[m.pos as int] == '\n' {
            LexerModel { input: m.input, pos: m.pos + 1, line: add_sat(m.line, 1), col: 1 }
        } else {
            LexerModel { input: m.input, pos: m.pos + 1, line: m.line, col: add_sat(m.col, 1) }
        }
    } else {
        m
    }
}

/// The state after stepping over every whitespace character at the read
/// head.
pub open spec fn lex_skip_ws(m: LexerModel) -> LexerModel
    decreases lex_rem(m),
{
    if m.pos < m.input.len() && is_ws_char(m.input[m.pos as int]) {
        lex_skip_ws(lex_advance(m))
    } else {
        m
    }
}

/// The index just past the longest run of identifier characters starting
/// at `i`.
pub open spec fn word_end(s: Seq<char>, i: nat) -> nat
    decreases s.len() - i,
{
    if i < s.len() && is_letter_char(s[i as int]) {
        word_end(s, i + 1)
    } else {
        i
    }
}

/// The index just past the longest run of digit characters starting at
/// `i`.
pub open spec fn num_end(s: Seq<char>, i: nat) -> nat
    decreases s.len() - i,
{
    if i < s.len() && is_digit_char(s[i as int]) {
        num_end(s, i + 1)
    } else {
        i
    }
}

/// A token model for a single- or two-character token read at the head of
/// `m`, together with the state after it.
pub open spec fn lex_symbol(m: LexerModel, kind: TokenType, width: nat) -> (TokenModel, LexerModel) {
    (
        TokenModel {
            kind,
            literal: m.input.subrange(m.pos as int, m.pos + width as int),
            line: m.line,
            column: m.col,
        },
        if width == 2 {
            lex_advance(lex_advance(m))
        } else {
            lex_advance(m)
        },
    )
}

/// The functional scanner: the token starting at the head of `m` (after
/// whitespace) and the state after that token.
///
/// Whitespace is stepped over first; the token's position is the line and
/// column where its first character stands.  `=` and `!` look one
/// character ahead for `==` and `!=`; identifier and digit runs extend as
/// far as they can; NUL and the end of input give `EOF` and leave the
/// lexer at the end; any other character is an `ILLEGAL` token holding
/// that character.
pub open spec fn lex_next_token(m: LexerModel) -> (TokenModel, LexerModel) {
    let m1 = lex_skip_ws(m);
    let s = m1.input;
    let p = m1.pos;
    let c = char_at(s, p);
    if c == '\0' {
        (
            TokenModel { kind: TokenType::EOF, literal: Seq::empty(), line: m1.line, column: m1.col },
            LexerModel { input: s, pos: s.len(), line: m1.line, col: m1.col },
        )
    } else if c == '=' {
        if char_at(s, p + 1) == '=' {
            lex_symbol(m1, TokenType::EQ, 2)
        } else {
            lex_symbol(m1, TokenType::ASSIGN, 1)
        }
    } else if c == '!' {
        if char_at(s, p + 1) == '=' {
            lex_symbol(m1, TokenType::NOTEQ, 2)
        } else {
            lex_symbol(m1, TokenType::BANG, 1)
        }
    } else if c == '+' {
        lex_symbol(m1, TokenType::PLUS, 1)
    } else if c == '-' {
        lex_symbol(m1, TokenType::MINUS, 1)
    } else if c == '*' {
        lex_symbol(m1, TokenType::ASTERISK, 1)
    } else if c == '/' {
        lex_symbol(m1, TokenType::SLASH, 1)
    } else if c == '<' {
        lex_symbol(m1, TokenType::LT, 1)
    } else if c == '>' {
        lex_symbol(m1, TokenType::GT, 1)
    } else if c == ',' {
        lex_symbol(m1, TokenType::COMMA, 1)
    } else if c == ';' {
        lex_symbol(m1, TokenType::SEMICOLON, 1)
    } else if c == '(' {
        lex_symbol(m1, TokenType::LPAREN, 1)
    } else if c == ')' {
        lex_symbol(m1, TokenType::RPAREN, 1)
    } else if c == '{' {
        lex_symbol(m1, TokenType::LBRACE, 1)
    } else if c == '}' {
        lex_symbol(m1, TokenType::RBRACE, 1)
    } else if is_letter_char(c) {
        let e = word_end(s, p);
        (
            TokenModel {
                kind: spec_lookup_identifier(s.subrange(p as int, e as int)),
                literal: s.subrange(p as int, e as int),
                line: m1.line,
                column: m1.col,
            },
            LexerModel { input: s, pos: e, line: m1.line, col: add_sat(m1.col, (e - p) as nat) },
        )
    } else if is_digit_char(c) {
        let e = num_end(s, p);
        (
            TokenModel {
                kind: TokenType::INT,
                literal: s.subrange(p as int, e as int),
                line: m1.line,
                column: m1.col,
            },
            LexerModel { input: s, pos: e, line: m1.line, col: add_sat(m1.col, (e - p) as nat) },
        )
    } else {
        lex_symbol(m1, TokenType::ILLEGAL, 1)
    }
}

/// The lexer: an owned source buffer and a read head with line and column
/// tracking.
#[derive(Debug)]
pub struct Lexer {
    input: String,
    len: usize,
    pos: usize,
    line: usize,
    column: usize,
}

impl View for Lexer {
    type V = LexerModel;

    closed spec fn view(&self) -> LexerModel {
        LexerModel {
            input: self.input@,
            pos: self.pos as nat,
            line: self.line as nat,
            col: self.column as nat,
        }
    }
}

impl Clone for Lexer {
    /// Copies the lexer state.
    fn clone(&self) -> (r: Self)
        ensures
            r@ == self@,
    {
        proof {
            use_type_invariant(self);
        }
        Lexer {
            input: self.input.clone(),
            len: self.len,
            pos: self.pos,
            line: self.line,
            column: self.column,
        }
    }
}

impl Lexer {
    /// The private-field part of the lexer's internal consistency: the
    /// cached length is the length of the input, the read head is inside
    /// the input or just past it, and line and column are 1-indexed.
    pub closed spec fn wf_fields(&self) -> bool {
        &&& self.len == self.input@.len()
        &&& self.pos <= self.len
        &&& 1 <= self.line
        &&& 1 <= self.column
    }

    /// The lexer's internal consistency; in particular its read head
    /// never lies beyond its input.
    #[verifier::type_invariant]
    pub open spec fn wf(&self) -> bool {
        &&& self.wf_fields()
        &&& self@.pos <= self@.input.len()
    }

    /// Creates a lexer reading the given source from its beginning, at
    /// line 1 and column 1.
    pub fn new(input: String) -> (r: Self)
        ensures
            r@ == (LexerModel { input: input@, pos: 0, line: 1, col: 1 }),
    {
        let len = input.as_str().unicode_len();
        Lexer { input, len, pos: 0, line: 1, column: 1 }
    }

    /// The character at the read head, or NUL at the end of input.
    fn curr_char(&self) -> (c: char)
        ensures
            c == char_at(self@.input, self@.pos),
    {
        proof {
            use_type_invariant(self);
        }
        if self.pos < self.len {
            self.input.as_str().get_char(self.pos)
        } else {
            '\0'
        }
    }

    /// The character one past the read head, or NUL when none remains.
    fn peek_char(&self) -> (c: char)
        ensures
            c == char_at(self@.input, self@.pos + 1),
    {
        proof {
            use_type_invariant(self);
        }
        if self.len - self.pos > 1 {
            self.input.as_str().get_char(self.pos + 1)
        } else {
            '\0'
        }
    }

    /// Steps over the current character, updating line and column; at the
    /// end of input the lexer stays where it is.
    fn read_char(&mut self)
        ensures
            final(self)@ == lex_advance(old(self)@),
    {
        proof {
            use_type_invariant(&*self);
        }
        if self.pos < self.len {
            let c = self.input.as_str().get_char(self.pos);
            if c == '\n' {
                if self.line < usize::MAX {
                    self.line = self.line + 1;
                }
                self.column = 1;
            } else {
                if self.column < usize::MAX {
                    self.column = self.column + 1;
                }
            }
            self.pos = self.pos + 1;
        }
    }

    /// Whether the read head stands on a whitespace character.
    fn at_whitespace(&self) -> (b: bool)
        ensures
            b == (self@.pos < self@.input.len() && is_ws_char(self@.input[self@.pos as int])),
    {
        let c = self.curr_char();
        proof {
            use_type_invariant(self);
        }
        if self.pos >= self.len {
            false
        } else {
            c == ' ' || c == '\t' || c == '\r' || c == '\n'
        }
    }

    /// Steps over every whitespace character at the read head.
    fn skip_white_space(&mut self)
        ensures
            final(self)@ == lex_skip_ws(old(self)@),
    {
        while self.at_whitespace()
            invariant
                lex_skip_ws(old(self)@) == lex_skip_ws(self@),
            decreases lex_rem(self@),
        {
            proof {
                use_type_invariant(&*self);
            }
            self.read_char();
        }
    }

    /// Whether the read head stands on an identifier character (an ASCII
    /// letter or an underscore).
    fn is_letter(&self) -> (b: bool)
        ensures
            b == is_letter_char(char_at(self@.input, self@.pos)),
    {
        let c = self.curr_char();
        let u = c as u32;
        (65 <= u && u <= 90) || (97 <= u && u <= 122) || c == '_'
    }

    /// Whether the read head stands on an ASCII digit.
    fn is_digit(&self) -> (b: bool)
        ensures
            b == is_digit_char(char_at(self@.input, self@.pos)),
    {
        let c = self.curr_char();
        let u = c as u32;
        48 <= u && u <= 57
    }

    /// The current column, captured as the starting column of
    /// multi-character tokens.
    fn get_column(&self) -> (c: usize)
        ensures
            c == self@.col,
    {
        self.column
    }

    /// Reads the longest run of identifier characters at the read head
    /// and returns it; the head ends just past the run.
    fn read_identifier(&mut self) -> (r: String)
        ensures
            r@ == old(self)@.input.subrange(
                old(self)@.pos as int,
                word_end(old(self)@.input, old(self)@.pos) as int,
            ),
            final(self)@ == (LexerModel {
                input: old(self)@.input,
                pos: word_end(old(self)@.input, old(self)@.pos),
                line: old(self)@.line,
                col: add_sat(
                    old(self)@.col,
                    (word_end(old(self)@.input, old(self)@.pos) - old(self)@.pos) as nat,
                ),
            }),
    {
        proof {
            use_type_invariant(&*self);
        }
        let start = self.pos;
        while self.is_letter()
            invariant
                self@.input == old(self)@.input,
                start == old(self)@.pos,
                old(self)@.pos <= self@.pos <= self@.input.len(),
                word_end(self@.input, self@.pos) == word_end(old(self)@.input, old(self)@.pos),
                self@.line == old(self)@.line,
                self@.col == add_sat(old(self)@.col, (self@.pos - old(self)@.pos) as nat),
            decreases lex_rem(self@),
        {
            proof {
                use_type_invariant(&*self);
                assert(!is_ws_char(self@.input[self@.pos as int]));
            }
            self.read_char();
        }
        let end = self.pos;
        proof {
            use_type_invariant(&*self);
        }
        let lit = self.input.as_str().substring_char(start, end);
        String::from_str(lit)
    }

    /// Reads the longest run of digit characters at the read head and
    /// returns it; the head ends just past the run.
    fn read_number(&mut self) -> (r: String)
        ensures
            r@ == old(self)@.input.subrange(
                old(self)@.pos as int,
                num_end(old(self)@.input, old(self)@.pos) as int,
            ),
            final(self)@ == (LexerModel {
                input: old(self)@.input,
                pos: num_end(old(self)@.input, old(self)@.pos),
                line: old(self)@.line,
                col: add_sat(
                    old(self)@.col,
                    (num_end(old(self)@.input, old(self)@.pos) - old(self)@.pos) as nat,
                ),
            }),
    {
        proof {
            use_type_invariant(&*self);
        }
        let start = self.pos;
        while self.is_digit()
            invariant
                self@.input == old(self)@.input,
                start == old(self)@.pos,
                old(self)@.pos <= self@.pos <= self@.input.len(),
                num_end(self@.input, self@.pos) == num_end(old(self)@.input, old(self)@.pos),
                self@.line == old(self)@.line,
                self@.col == add_sat(old(self)@.col, (self@.pos - old(self)@.pos) as nat),
            decreases lex_rem(self@),
        {
            proof {
                use_type_invariant(&*self);
                assert(!is_ws_char(self@.input[self@.pos as int]));
            }
            self.read_char();
        }
        let end = self.pos;
        proof {
            use_type_invariant(&*self);
        }
        let lit = self.input.as_str().substring_char(start, end);
        String::from_str(lit)
    }

    /// The literal of a token of the given width starting at the read
    /// head.
    fn take_literal(&self, width: usize) -> (r: String)
        requires
            self@.pos + width <= self@.input.len(),
        ensures
            r@ == self@.input.subrange(self@.pos as int, self@.pos + width),
    {
        proof {
            use_type_invariant(self);
        }
        let lit = self.input.as_str().substring_char(self.pos, self.pos + width);
        String::from_str(lit)
    }

    /// Returns the next token of the input: exactly the token that the
    /// functional scanner `lex_next_token` reads at the current state,
    /// leaving the lexer in the scanner's resulting state.
    pub fn next_token(&mut self) -> (t: Token)
        ensures
            t@ == lex_next_token(old(self)@).0,
            final(self)@ == lex_next_token(old(self)@).1,
    {
        self.skip_white_space();
        proof {
            use_type_invariant(&*self);
        }
        let line = self.line;
        let column = self.column;
        let c = self.curr_char();
        match c {
            '\0' => {
                let t = Token::new(TokenType::EOF, String::new(), line, column);
                self.pos = self.len;
                t
            },
            '=' => {
                if self.peek_char() == '=' {
                    let lit = self.take_literal(2);
                    let t = Token::new(TokenType::EQ, lit, line, column);
                    self.read_char();
                    self.read_char();
                    t
                } else {
                    let lit = self.take_literal(1);
                    let t = Token::new(TokenType::ASSIGN, lit, line, column);
                    self.read_char();
                    t
                }
            },
            '!' => {
                if self.peek_char() == '=' {
                    let lit = self.take_literal(2);
                    let t = Token::new(TokenType::NOTEQ, lit, line, column);
                    self.read_char();
                    self.read_char();
                    t
                } else {
                    let lit = self.take_literal(1);
                    let t = Token::new(TokenType::BANG, lit, line, column);
                    self.read_char();
                    t
                }
            },
            '+' => self.single_char_token(TokenType::PLUS, line, column),
            '-' => self.single_char_token(TokenType::MINUS, line, column),
            '*' => self.single_char_token(TokenType::ASTERISK, line, column),
            '/' => self.single_char_token(TokenType::SLASH, line, column),
            '<' => self.single_char_token(TokenType::LT, line, column),
            '>' => self.single_char_token(TokenType::GT, line, column),
            ',' => self.single_char_token(TokenType::COMMA, line, column),
            ';' => self.single_char_token(TokenType::SEMICOLON, line, column),
            '(' => self.single_char_token(TokenType::LPAREN, line, column),
            ')' => self.single_char_token(TokenType::RPAREN, line, column),
            '{' => self.single_char_token(TokenType::LBRACE, line, column),
            '}' => self.single_char_token(TokenType::RBRACE, line, column),
            _ => {
                if self.is_letter() {
                    let start_col = self.get_column();
                    let literal = self.read_identifier();
                    let kind = lookup_identifier(literal.as_str());
                    Token::new(kind, literal, line, start_col)
                } else if self.is_digit() {
                    let start_col = self.get_column();
                    let literal = self.read_number();
                    Token::new(TokenType::INT, literal, line, start_col)
                } else {
                    self.single_char_token(TokenType::ILLEGAL, line, column)
                }
            },
        }
    }

    /// Emits a one-character token of the given kind at the read head and
    /// steps past it.
    fn single_char_token(&mut self, kind: TokenType, line: usize, column: usize) -> (t: Token)
        requires
            old(self)@.pos < old(self)@.input.len(),
        ensures
            t@ == (TokenModel {
                kind,
                literal: old(self)@.input.subrange(old(self)@.pos as int, old(self)@.pos + 1 as int),
                line: line as nat,
                column: column as nat,
            }),
            final(self)@ == lex_advance(old(self)@),
    {
        proof {
            use_type_invariant(&*self);
        }
        let lit = self.take_literal(1);
        let t = Token::new(kind, lit, line, column);
        self.read_char();
        t
    }
}


/// Skipping whitespace stays inside the input, moves only forward, steps
/// only over whitespace, and stops at the first non-whitespace character.
pub proof fn lemma_skip_ws_props(m: LexerModel)
    requires
        m.pos <= m.input.len(),
    ensures
        ({
            let m1 = lex_skip_ws(m);
            &&& m1.input == m.input
            &&& m.pos <= m1.pos <= m.input.len()
            &&& forall|i: int| m.pos <= i < m1.pos ==> is_ws_char(#[trigger] m.input[i])
            &&& !(m1.pos < m.input.len() && is_ws_char(m.input[m1.pos as int]))
        }),
    decreases lex_rem(m),
{
    if m.pos < m.input.len() && is_ws_char(m.input[m.pos as int]) {
        lemma_skip_ws_props(lex_advance(m));
    }
}

/// Skipping whitespace never lengthens the remaining input.
pub proof fn lemma_skip_ws_rem(m: LexerModel)
    ensures
        lex_skip_ws(m).input == m.input,
        lex_rem(lex_skip_ws(m)) <= lex_rem(m),
        lex_skip_ws(m).pos >= m.pos,
    decreases lex_rem(m),
{
    if m.pos < m.input.len() && is_ws_char(m.input[m.pos as int]) {
        lemma_skip_ws_rem(lex_advance(m));
    }
}

/// The end of an identifier run lies between its start and the end of
/// input; everything before it in the run is an identifier character, and
/// the character at the end (if any) is not.
pub proof fn lemma_word_end_props(s: Seq<char>, i: nat)
    requires
        i <= s.len(),
    ensures
        i <= word_end(s, i) <= s.len(),
        forall|j: int| i <= j < word_end(s, i) ==> is_letter_char(#[trigger] s[j]),
        word_end(s, i) < s.len() ==> !is_letter_char(s[word_end(s, i) as int]),
    decreases s.len() - i,
{
    if i < s.len() && is_letter_char(s[i as int]) {
        lemma_word_end_props(s, i + 1);
    }
}

/// The digit-run analogue of `lemma_word_end_props`.
pub proof fn lemma_num_end_props(s: Seq<char>, i: nat)
    requires
        i <= s.len(),
    ensures
        i <= num_end(s, i) <= s.len(),
        forall|j: int| i <= j < num_end(s, i) ==> is_digit_char(#[trigger] s[j]),
        num_end(s, i) < s.len() ==> !is_digit_char(s[num_end(s, i) as int]),
    decreases s.len() - i,
{
    if i < s.len() && is_digit_char(s[i as int]) {
        lemma_num_end_props(s, i + 1);
    }
}

/// Lexer totality, first half: every call moves the read head forward
/// within the input, strictly so unless it reports the end of input; an
/// `EOF` token leaves the head at the end.  Repeated calls therefore
/// reach `EOF` after at most as many calls as there are characters.
pub proof fn lemma_next_token_progress(m: LexerModel)
    requires
        m.pos <= m.input.len(),
    ensures
        ({
            let (t, m2) = lex_next_token(m);
            &&& m2.input == m.input
            &&& m.pos <= m2.pos <= m.input.len()
            &&& lex_skip_ws(m).pos <= m2.pos
            &&& (t.kind != TokenType::EOF ==> m.pos < m2.pos)
            &&& (t.kind == TokenType::EOF ==> m2.pos == m.input.len())
        }),
{
    let m1 = lex_skip_ws(m);
    lemma_skip_ws_props(m);
    let c = char_at(m1.input, m1.pos);
    if c != '\0' {
        assert(m1.pos < m1.input.len());
        if is_letter_char(c) {
            lemma_word_end_props(m1.input, m1.pos);
        } else if is_digit_char(c) {
            lemma_num_end_props(m1.input, m1.pos);
        }
    }
}

/// How a token call changes the amount of input left, with no assumption
/// on the state: it never grows, it strictly shrinks unless the token is
/// `EOF`, and after an `EOF` token nothing is left.
pub proof fn lemma_next_token_rem(m: LexerModel)
    ensures
        ({
            let (t, m2) = lex_next_token(m);
            &&& m2.input == m.input
            &&& lex_rem(m2) <= lex_rem(m)
            &&& (t.kind != TokenType::EOF ==> lex_rem(m2) < lex_rem(m))
            &&& (t.kind == TokenType::EOF ==> lex_rem(m2) == 0)
        }),
{
    let m1 = lex_skip_ws(m);
    lemma_skip_ws_rem(m);
    let c = char_at(m1.input, m1.pos);
    if c != '\0' {
        assert(m1.pos < m1.input.len());
        assert(lex_rem(m1) == m1.input.len() - m1.pos);
        if is_letter_char(c) {
            lemma_word_end_props(m1.input, m1.pos);
        } else if is_digit_char(c) {
            lemma_num_end_props(m1.input, m1.pos);
        }
    }
}

/// Lexer totality, second half: once `next_token` reports `EOF` the
/// state is a fixpoint, and every later call returns the same `EOF`
/// token again.
pub proof fn lemma_eof_stability(m: LexerModel)
    requires
        m.pos <= m.input.len(),
        lex_next_token(m).0.kind == TokenType::EOF,
    ensures
        ({
            let (t, m2) = lex_next_token(m);
            lex_next_token(m2) == (t, m2)
        }),
{
    let (t, m2) = lex_next_token(m);
    assert(lex_skip_ws(m2) == m2);
    assert(lex_next_token(m2).0 =~= t);
    assert(lex_next_token(m2).1 =~= m2);
}

/// Source reconstruction: a token's literal is exactly the slice of the
/// input it was read from, and only whitespace separates it from where
/// the previous token ended.  Concatenating the literals of the tokens of
/// an input without NUL characters, with the skipped whitespace put back,
/// therefore reproduces the input exactly.
pub proof fn lemma_token_covers_source(m: LexerModel)
    requires
        m.pos <= m.input.len(),
        forall|i: int| 0 <= i < m.input.len() ==> m.input[i] != '\0',
    ensures
        ({
            let (t, m2) = lex_next_token(m);
            let m1 = lex_skip_ws(m);
            &&& forall|i: int| m.pos <= i < m1.pos ==> is_ws_char(#[trigger] m.input[i])
            &&& (t.kind != TokenType::EOF ==> t.literal == m.input.subrange(
                m1.pos as int,
                m2.pos as int,
            ))
            &&& (t.kind != TokenType::EOF ==> forall|i: int|
                m1.pos <= i < m2.pos ==> !is_ws_char(#[trigger] m.input[i]))
            &&& (t.kind == TokenType::EOF ==> m1.pos == m.input.len() && t.literal
                =~= Seq::<char>::empty())
        }),
{
    let m1 = lex_skip_ws(m);
    lemma_skip_ws_props(m);
    let c = char_at(m1.input, m1.pos);
    if c == '\0' {
        assert(m1.pos == m.input.len());
    } else {
        assert(m1.pos < m1.input.len());
        if is_letter_char(c) {
            lemma_word_end_props(m1.input, m1.pos);
        } else if is_digit_char(c) {
            lemma_num_end_props(m1.input, m1.pos);
        }
    }
}


/// The tokens read from a state to the end of its input, `EOF` not
/// included.
pub open spec fn lex_all(m: LexerModel) -> Seq<TokenModel>
    decreases lex_rem(m),
{
    let (t, m2) = lex_next_token(m);
    if t.kind != TokenType::EOF && lex_rem(m2) < lex_rem(m) {
        seq![t] + lex_all(m2)
    } else {
        Seq::empty()
    }
}

/// The literals of a token sequence, concatenated in order.
pub open spec fn concat_literals(ts: Seq<TokenModel>) -> Seq<char>
    decreases ts,
{
    if ts.len() == 0 {
        Seq::empty()
    } else {
        ts[0].literal + concat_literals(ts.subrange(1, ts.len() as int))
    }
}

/// The characters of a sequence with its whitespace removed, order kept.
pub open spec fn drop_ws(s: Seq<char>) -> Seq<char>
    decreases s,
{
    if s.len() == 0 {
        Seq::empty()
    } else if is_ws_char(s[0]) {
        drop_ws(s.subrange(1, s.len() as int))
    } else {
        seq![s[0]] + drop_ws(s.subrange(1, s.len() as int))
    }
}

/// Removing whitespace from an all-whitespace sequence leaves nothing.
proof fn lemma_drop_ws_all_ws(s: Seq<char>)
    requires
        forall|i: int| 0 <= i < s.len() ==> is_ws_char(#[trigger] s[i]),
    ensures
        drop_ws(s) == Seq::<char>::empty(),
    decreases s.len(),
{
    if s.len() > 0 {
        lemma_drop_ws_all_ws(s.subrange(1, s.len() as int));
    }
}

/// Removing whitespace from a whitespace-free sequence changes nothing.
proof fn lemma_drop_ws_none_ws(s: Seq<char>)
    requires
        forall|i: int| 0 <= i < s.len() ==> !is_ws_char(#[trigger] s[i]),
    ensures
        drop_ws(s) == s,
    decreases s.len(),
{
    if s.len() > 0 {
        lemma_drop_ws_none_ws(s.subrange(1, s.len() as int));
        assert(drop_ws(s) =~= s);
    }
}

/// Whitespace removal distributes over concatenation.
proof fn lemma_drop_ws_concat(a: Seq<char>, b: Seq<char>)
    ensures
        drop_ws(a + b) == drop_ws(a) + drop_ws(b),
    decreases a.len(),
{
    if a.len() == 0 {
        assert(a + b =~= b);
        assert(drop_ws(a) + drop_ws(b) =~= drop_ws(b));
    } else {
        let rest = a.subrange(1, a.len() as int);
        lemma_drop_ws_concat(rest, b);
        assert((a + b).subrange(1, (a + b).len() as int) =~= rest + b);
        if !is_ws_char(a[0]) {
            assert(seq![a[0]] + (drop_ws(rest) + drop_ws(b)) =~= (seq![a[0]] + drop_ws(rest))
                + drop_ws(b));
        }
    }
}

/// Lexer totality, whole-stream form: reading every token of an input
/// without NUL characters and concatenating their literals in order
/// reproduces the input exactly, with only the skipped whitespace
/// removed — no character is lost, duplicated or reordered, so putting
/// the whitespace back at its places reproduces the source
/// byte-for-byte.
pub proof fn lemma_source_reconstruction(m: LexerModel)
    requires
        m.pos <= m.input.len(),
        forall|i: int| 0 <= i < m.input.len() ==> m.input[i] != '\0',
    ensures
        concat_literals(lex_all(m)) == drop_ws(
            m.input.subrange(m.pos as int, m.input.len() as int),
        ),
    decreases lex_rem(m),
{
    let (t, m2) = lex_next_token(m);
    let m1 = lex_skip_ws(m);
    let len = m.input.len() as int;
    lemma_next_token_rem(m);
    lemma_next_token_progress(m);
    lemma_skip_ws_props(m);
    lemma_token_covers_source(m);
    let suffix = m.input.subrange(m.pos as int, len);
    if t.kind == TokenType::EOF {
        assert(m1.pos == m.input.len());
        lemma_drop_ws_all_ws(suffix);
    } else {
        lemma_source_reconstruction(m2);
        let gap = m.input.subrange(m.pos as int, m1.pos as int);
        let lit = m.input.subrange(m1.pos as int, m2.pos as int);
        let rest = m.input.subrange(m2.pos as int, len);
        assert(suffix =~= (gap + lit) + rest);
        lemma_drop_ws_concat(gap + lit, rest);
        lemma_drop_ws_concat(gap, lit);
        lemma_drop_ws_all_ws(gap);
        lemma_drop_ws_none_ws(lit);
        assert(drop_ws(suffix) =~= t.literal + drop_ws(rest));
        assert(lex_all(m) == seq![t] + lex_all(m2));
        assert((seq![t] + lex_all(m2)).subrange(1, (seq![t] + lex_all(m2)).len() as int)
            =~= lex_all(m2));
        assert(concat_literals(lex_all(m)) == t.literal + concat_literals(lex_all(m2)));
    }
}

/// Keyword/identifier partition: scanning a non-empty run of ASCII
/// letters and underscores yields a single token holding the whole run,
/// whose kind is the keyword table's answer for the run: the mapped
/// keyword kind when the run is one of the seven keywords, and `IDENT`
/// otherwise.
pub proof fn lemma_keyword_identifier_partition(r: Seq<char>)
    requires
        r.len() > 0,
        forall|i: int| 0 <= i < r.len() ==> is_letter_char(#[trigger] r[i]),
    ensures
        ({
            let (t, m2) = lex_next_token(LexerModel { input: r, pos: 0, line: 1, col: 1 });
            &&& t.kind == spec_lookup_identifier(r)
            &&& t.literal == r
            &&& m2.pos == r.len()
        }),
{
    let m = LexerModel { input: r, pos: 0, line: 1, col: 1 };
    assert(is_letter_char(r[0]));
    assert(!is_ws_char(r[0]));
    assert(lex_skip_ws(m) == m);
    assert(char_at(r, 0) == r[0]);
    assert(r[0] != '\0' && r[0] != '=' && r[0] != '!');
    lemma_word_end_props(r, 0);
    if word_end(r, 0) < r.len() {
        assert(is_letter_char(r[word_end(r, 0) as int]));
        assert(false);
    }
    assert(r.subrange(0, word_end(r, 0) as int) =~= r);
}

} // verus!
