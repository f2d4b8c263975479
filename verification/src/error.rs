//! Structured diagnostics: a parser error carries a kind and the source
//! span it points at, and formats as `"[line L:C] <message>"`.

use vstd::prelude::*;

use crate::digits::{nat_to_digits, u64_string};
use crate::token::{spec_token_type_name, token_type_name, Token, TokenType};

verus! {

/// Model of a source span: a 1-indexed line and column.
pub struct SpanModel {
    pub line: nat,
    pub column: nat,
}

/// Model of a diagnostic kind, literals as character sequences.
pub enum ErrorKindModel {
    ExpectedToken { expected: TokenType, got: TokenType, literal: Seq<char> },
    MissingSemicolon { got: TokenType, literal: Seq<char> },
    NoPrefixParseFunction { token_type: TokenType, literal: Seq<char> },
    InvalidIntegerLiteral { literal: Seq<char> },
    FailedToParsePrefixRHS { operator: Seq<char> },
    FailedToParseInfixRHS { operator: Seq<char> },
    ExpectedParameterIdentifier { got: TokenType, literal: Seq<char> },
    UnclosedCallArguments { got: TokenType, literal: Seq<char> },
    FailedToParseCondition,
    FailedToParseGroupedExpression,
    FailedToParseIfConsequence,
    FailedToParseIfAlternative,
    FailedToParseFunctionParameters,
    FailedToParseFunctionBody,
    FailedToParseStatementInBlock,
    FailedToParseCallArgument,
    UnexpectedEOF,
}

/// Model of a diagnostic: its kind and the span it points at.
pub struct ErrorModel {
    pub kind: ErrorKindModel,
    pub span: SpanModel,
}

/// A location in the source: the line and column an error points at.
#[derive(Debug, Clone, Copy, PartialEq, Eq, Structural)]
pub struct Span {
    pub line: usize,
    pub column: usize,
}

/// The model of a span.
pub open spec fn span_view(s: &Span) -> SpanModel {
    SpanModel { line: s.line as nat, column: s.column as nat }
}

impl Span {
    /// A span at the given line and column.
    pub fn new(line: usize, column: usize) -> (r: Self)
        ensures
            r.line == line,
            r.column == column,
    {
        Span { line, column }
    }

    /// The span of a token: where its first character stands.
    pub fn from_token(token: &Token) -> (r: Self)
        ensures
            r.line == token.line,
            r.column == token.column,
    {
        Span { line: token.line, column: token.column }
    }
}

/// What went wrong: each variant records what the parser expected or
/// found, with the offending token's kind and literal where they matter.
#[derive(Debug, Clone)]
pub enum ParserErrorType {
    /// `expect_peek` found another kind than it required
    ExpectedToken { expected: TokenType, got: TokenType, literal: String },
    /// A statement was not terminated by `;`
    MissingSemicolon { got: TokenType, literal: String },
    /// A token appeared where an expression was expected and no prefix
    /// parser is registered for its kind
    NoPrefixParseFunction { token_type: TokenType, literal: String },
    /// An integer literal did not fit the signed 64-bit range
    InvalidIntegerLiteral { literal: String },
    /// The operand of a prefix operator failed to parse
    FailedToParsePrefixRHS { operator: String },
    /// The right operand of an infix operator failed to parse
    FailedToParseInfixRHS { operator: String },
    /// A function parameter was not an identifier.  The parser itself
    /// reads any token after `fn(` as a parameter name, so it never
    /// records this kind; it stands for callers that enforce the
    /// grammar's stricter form
    ExpectedParameterIdentifier { got: TokenType, literal: String },
    /// A call argument list was not closed by `)`
    UnclosedCallArguments { got: TokenType, literal: String },
    /// The condition of an `if` failed to parse
    FailedToParseCondition,
    /// A parenthesized expression failed to parse
    FailedToParseGroupedExpression,
    /// The consequence block of an `if` failed to parse
    FailedToParseIfConsequence,
    /// The alternative block of an `if` failed to parse
    FailedToParseIfAlternative,
    /// A function literal's parameter list failed to parse
    FailedToParseFunctionParameters,
    /// A function literal's body failed to parse
    FailedToParseFunctionBody,
    /// A statement inside a block failed to parse
    FailedToParseStatementInBlock,
    /// A call argument failed to parse
    FailedToParseCallArgument,
    /// The input ended where more was required
    UnexpectedEOF,
}

/// The model of a diagnostic kind.
pub open spec fn kind_view(k: &ParserErrorType) -> ErrorKindModel {
    match k {
        ParserErrorType::ExpectedToken { expected, got, literal } => ErrorKindModel::ExpectedToken {
            expected: *expected,
            got: *got,
            literal: literal@,
        },
        ParserErrorType::MissingSemicolon { got, literal } => ErrorKindModel::MissingSemicolon {
            got: *got,
            literal: literal@,
        },
        ParserErrorType::NoPrefixParseFunction { token_type, literal } =>
            ErrorKindModel::NoPrefixParseFunction { token_type: *token_type, literal: literal@ },
        ParserErrorType::InvalidIntegerLiteral { literal } =>
            ErrorKindModel::InvalidIntegerLiteral { literal: literal@ },
        ParserErrorType::FailedToParsePrefixRHS { operator } =>
            ErrorKindModel::FailedToParsePrefixRHS { operator: operator@ },
        ParserErrorType::FailedToParseInfixRHS { operator } =>
            ErrorKindModel::FailedToParseInfixRHS { operator: operator@ },
        ParserErrorType::ExpectedParameterIdentifier { got, literal } =>
            ErrorKindModel::ExpectedParameterIdentifier { got: *got, literal: literal@ },
        ParserErrorType::UnclosedCallArguments { got, literal } =>
            ErrorKindModel::UnclosedCallArguments { got: *got, literal: literal@ },
        ParserErrorType::FailedToParseCondition => ErrorKindModel::FailedToParseCondition,
        ParserErrorType::FailedToParseGroupedExpression =>
            ErrorKindModel::FailedToParseGroupedExpression,
        ParserErrorType::FailedToParseIfConsequence => ErrorKindModel::FailedToParseIfConsequence,
        ParserErrorType::FailedToParseIfAlternative => ErrorKindModel::FailedToParseIfAlternative,
        ParserErrorType::FailedToParseFunctionParameters =>
            ErrorKindModel::FailedToParseFunctionParameters,
        ParserErrorType::FailedToParseFunctionBody => ErrorKindModel::FailedToParseFunctionBody,
        ParserErrorType::FailedToParseStatementInBlock =>
            ErrorKindModel::FailedToParseStatementInBlock,
        ParserErrorType::FailedToParseCallArgument => ErrorKindModel::FailedToParseCallArgument,
        ParserErrorType::UnexpectedEOF => ErrorKindModel::UnexpectedEOF,
    }
}

/// The message a diagnostic kind formats as.
pub open spec fn kind_message(k: ErrorKindModel) -> Seq<char> {
    match k {
        ErrorKindModel::ExpectedToken { expected, got, literal } => "expected "@
            + spec_token_type_name(expected) + ", got "@ + spec_token_type_name(got) + " ('"@
            + literal + "')"@,
        ErrorKindModel::MissingSemicolon { got, literal } => "missing semicolon, got "@
            + spec_token_type_name(got) + " ('"@ + literal + "')"@,
        ErrorKindModel::NoPrefixParseFunction { token_type, literal } =>
            "no prefix parse function for "@ + spec_token_type_name(token_type) + " ('"@ + literal
            + "')"@,
        ErrorKindModel::InvalidIntegerLiteral { literal } => "invalid integer literal: "@ + literal,
        ErrorKindModel::FailedToParsePrefixRHS { operator } => "failed to parse prefix rhs: "@
            + operator,
        ErrorKindModel::FailedToParseInfixRHS { operator } =>
            "failed to parse right-hand side of infix expression: "@ + operator,
        ErrorKindModel::ExpectedParameterIdentifier { got, literal } =>
            "expected parameter to be an identifier, got "@ + spec_token_type_name(got) + " ('"@
            + literal + "')"@,
        ErrorKindModel::UnclosedCallArguments { got, literal } => "unclosed call arguments, got "@
            + spec_token_type_name(got) + " ('"@ + literal + "')"@,
        ErrorKindModel::FailedToParseCondition => "failed to parse if condition"@,
        ErrorKindModel::FailedToParseGroupedExpression => "failed to parse grouped expression"@,
        ErrorKindModel::FailedToParseIfConsequence => "failed to parse if block for consequence"@,
        ErrorKindModel::FailedToParseIfAlternative => "failed to parse if block for alternative"@,
        ErrorKindModel::FailedToParseFunctionParameters => "failed to parse function parameters"@,
        ErrorKindModel::FailedToParseFunctionBody => "failed to parse function body"@,
        ErrorKindModel::FailedToParseStatementInBlock => "failed to parse statement in block"@,
        ErrorKindModel::FailedToParseCallArgument => "failed to parse call argument"@,
        ErrorKindModel::UnexpectedEOF => "unexpected end of file"@,
    }
}

/// The full formatted form of a diagnostic:
/// `"[line L:C] <message>"`.
pub open spec fn error_message(e: ErrorModel) -> Seq<char> {
    "[line "@ + nat_to_digits(e.span.line) + ":"@ + nat_to_digits(e.span.column) + "] "@
        + kind_message(e.kind)
}


/// A diagnostic model pointing at a token model's position.
pub open spec fn m_at_token(kind: ErrorKindModel, t: crate::token::TokenModel) -> ErrorModel {
    ErrorModel { kind, span: SpanModel { line: t.line, column: t.column } }
}

/// A diagnostic: what went wrong and where.
#[derive(Debug, Clone)]
pub struct ParserError {
    pub kind: ParserErrorType,
    pub span: Span,
}

/// The model of a diagnostic.
pub open spec fn err_view(e: &ParserError) -> ErrorModel {
    ErrorModel { kind: kind_view(&e.kind), span: span_view(&e.span) }
}

impl ParserError {
    /// A diagnostic of the given kind at the given span.
    pub fn new(kind: ParserErrorType, span: Span) -> (r: Self)
        ensures
            err_view(&r) == (ErrorModel { kind: kind_view(&kind), span: span_view(&span) }),
    {
        ParserError { kind, span }
    }

    /// A diagnostic pointing at a token's position.
    pub fn at_token(kind: ParserErrorType, token: &Token) -> (r: Self)
        ensures
            err_view(&r) == (ErrorModel {
                kind: kind_view(&kind),
                span: SpanModel { line: token.line as nat, column: token.column as nat },
            }),
    {
        ParserError { kind, span: Span::from_token(token) }
    }

    /// A diagnostic at an explicit line and column.
    pub fn at(kind: ParserErrorType, line: usize, column: usize) -> (r: Self)
        ensures
            err_view(&r) == (ErrorModel {
                kind: kind_view(&kind),
                span: SpanModel { line: line as nat, column: column as nat },
            }),
    {
        ParserError { kind, span: Span::new(line, column) }
    }

    /// A diagnostic at the given line, with no meaningful column.
    pub fn at_line(kind: ParserErrorType, line: usize) -> (r: Self)
        ensures
            err_view(&r) == (ErrorModel {
                kind: kind_view(&kind),
                span: SpanModel { line: line as nat, column: 0 },
            }),
    {
        ParserError { kind, span: Span::new(line, 0) }
    }

    /// A diagnostic at the given column, with no meaningful line.
    pub fn at_column(kind: ParserErrorType, column: usize) -> (r: Self)
        ensures
            err_view(&r) == (ErrorModel {
                kind: kind_view(&kind),
                span: SpanModel { line: 0, column: column as nat },
            }),
    {
        ParserError { kind, span: Span::new(0, column) }
    }

    /// A diagnostic at the given line and column.
    pub fn at_line_column(kind: ParserErrorType, line: usize, column: usize) -> (r: Self)
        ensures
            err_view(&r) == (ErrorModel {
                kind: kind_view(&kind),
                span: SpanModel { line: line as nat, column: column as nat },
            }),
    {
        ParserError { kind, span: Span::new(line, column) }
    }

    /// An expected-token diagnostic against the offending token.
    pub fn expected_token(expected: TokenType, token: &Token) -> (r: Self)
        ensures
            err_view(&r) == (ErrorModel {
                kind: ErrorKindModel::ExpectedToken {
                    expected,
                    got: token.token_type,
                    literal: token.literal@,
                },
                span: SpanModel { line: token.line as nat, column: token.column as nat },
            }),
    {
        Self::at_token(
            ParserErrorType::ExpectedToken {
                expected,
                got: token.token_type,
                literal: token.literal.clone(),
            },
            token,
        )
    }

    /// A missing-semicolon diagnostic against the token found instead.
    pub fn missing_semicolon(token: &Token) -> (r: Self)
        ensures
            err_view(&r) == (ErrorModel {
                kind: ErrorKindModel::MissingSemicolon {
                    got: token.token_type,
                    literal: token.literal@,
                },
                span: SpanModel { line: token.line as nat, column: token.column as nat },
            }),
    {
        Self::at_token(
            ParserErrorType::MissingSemicolon {
                got: token.token_type,
                literal: token.literal.clone(),
            },
            token,
        )
    }

    /// A no-prefix-parse-function diagnostic against the unexpected
    /// token.
    pub fn no_prefix_fn(token: &Token) -> (r: Self)
        ensures
            err_view(&r) == (ErrorModel {
                kind: ErrorKindModel::NoPrefixParseFunction {
                    token_type: token.token_type,
                    literal: token.literal@,
                },
                span: SpanModel { line: token.line as nat, column: token.column as nat },
            }),
    {
        Self::at_token(
            ParserErrorType::NoPrefixParseFunction {
                token_type: token.token_type,
                literal: token.literal.clone(),
            },
            token,
        )
    }

    /// An invalid-integer-literal diagnostic against the literal's token.
    pub fn invalid_integer(token: &Token) -> (r: Self)
        ensures
            err_view(&r) == (ErrorModel {
                kind: ErrorKindModel::InvalidIntegerLiteral { literal: token.literal@ },
                span: SpanModel { line: token.line as nat, column: token.column as nat },
            }),
    {
        Self::at_token(
            ParserErrorType::InvalidIntegerLiteral { literal: token.literal.clone() },
            token,
        )
    }

    /// A diagnostic for a prefix operand that failed to parse.
    pub fn prefix_rhs_failed(operator: &str, token: &Token) -> (r: Self)
        ensures
            err_view(&r) == (ErrorModel {
                kind: ErrorKindModel::FailedToParsePrefixRHS { operator: operator@ },
                span: SpanModel { line: token.line as nat, column: token.column as nat },
            }),
    {
        Self::at_token(
            ParserErrorType::FailedToParsePrefixRHS { operator: String::from_str(operator) },
            token,
        )
    }

    /// A diagnostic for an infix right operand that failed to parse.
    pub fn infix_rhs_failed(operator: &str, token: &Token) -> (r: Self)
        ensures
            err_view(&r) == (ErrorModel {
                kind: ErrorKindModel::FailedToParseInfixRHS { operator: operator@ },
                span: SpanModel { line: token.line as nat, column: token.column as nat },
            }),
    {
        Self::at_token(
            ParserErrorType::FailedToParseInfixRHS { operator: String::from_str(operator) },
            token,
        )
    }

    /// A diagnostic for a function parameter that was not an identifier;
    /// see `ParserErrorType::ExpectedParameterIdentifier` for when this
    /// arises.
    pub fn expected_param_ident(token: &Token) -> (r: Self)
        ensures
            err_view(&r) == (ErrorModel {
                kind: ErrorKindModel::ExpectedParameterIdentifier {
                    got: token.token_type,
                    literal: token.literal@,
                },
                span: SpanModel { line: token.line as nat, column: token.column as nat },
            }),
    {
        Self::at_token(
            ParserErrorType::ExpectedParameterIdentifier {
                got: token.token_type,
                literal: token.literal.clone(),
            },
            token,
        )
    }

    /// A diagnostic for a call argument list that was never closed.
    pub fn unclosed_call(token: &Token) -> (r: Self)
        ensures
            err_view(&r) == (ErrorModel {
                kind: ErrorKindModel::UnclosedCallArguments {
                    got: token.token_type,
                    literal: token.literal@,
                },
                span: SpanModel { line: token.line as nat, column: token.column as nat },
            }),
    {
        Self::at_token(
            ParserErrorType::UnclosedCallArguments {
                got: token.token_type,
                literal: token.literal.clone(),
            },
            token,
        )
    }

    /// Formats the diagnostic as `"[line L:C] <message>"`.
    pub fn to_string(&self) -> (r: String)
        ensures
            r@ == error_message(err_view(self)),
    {
        let mut r = String::from_str("[line ");
        let line = u64_string(self.span.line as u64);
        r.append(line.as_str());
        r.append(":");
        let column = u64_string(self.span.column as u64);
        r.append(column.as_str());
        r.append("] ");
        let msg = self.kind.message();
        r.append(msg.as_str());
        r
    }
}

impl ParserErrorType {
    /// The message of this diagnostic kind alone, without the span.
    pub fn message(&self) -> (r: String)
        ensures
            r@ == kind_message(kind_view(self)),
    {
        match self {
            ParserErrorType::ExpectedToken { expected, got, literal } => {
                let mut r = String::from_str("expected ");
                let e = token_type_name(*expected);
                r.append(e.as_str());
                r.append(", got ");
                let g = token_type_name(*got);
                r.append(g.as_str());
                r.append(" ('");
                r.append(literal.as_str());
                r.append("')");
                r
            },
            ParserErrorType::MissingSemicolon { got, literal } => {
                let mut r = String::from_str("missing semicolon, got ");
                let g = token_type_name(*got);
                r.append(g.as_str());
                r.append(" ('");
                r.append(literal.as_str());
                r.append("')");
                r
            },
            ParserErrorType::NoPrefixParseFunction { token_type, literal } => {
                let mut r = String::from_str("no prefix parse function for ");
                let g = token_type_name(*token_type);
                r.append(g.as_str());
                r.append(" ('");
                r.append(literal.as_str());
                r.append("')");
                r
            },
            ParserErrorType::InvalidIntegerLiteral { literal } => {
                let mut r = String::from_str("invalid integer literal: ");
                r.append(literal.as_str());
                r
            },
            ParserErrorType::FailedToParsePrefixRHS { operator } => {
                let mut r = String::from_str("failed to parse prefix rhs: ");
                r.append(operator.as_str());
                r
            },
            ParserErrorType::FailedToParseInfixRHS { operator } => {
                let mut r = String::from_str(
                    "failed to parse right-hand side of infix expression: ",
                );
                r.append(operator.as_str());
                r
            },
            ParserErrorType::ExpectedParameterIdentifier { got, literal } => {
                let mut r = String::from_str("expected parameter to be an identifier, got ");
                let g = token_type_name(*got);
                r.append(g.as_str());
                r.append(" ('");
                r.append(literal.as_str());
                r.append("')");
                r
            },
            ParserErrorType::UnclosedCallArguments { got, literal } => {
                let mut r = String::from_str("unclosed call arguments, got ");
                let g = token_type_name(*got);
                r.append(g.as_str());
                r.append(" ('");
                r.append(literal.as_str());
                r.append("')");
                r
            },
            ParserErrorType::FailedToParseCondition => String::from_str(
                "failed to parse if condition",
            ),
            ParserErrorType::FailedToParseGroupedExpression => String::from_str(
                "failed to parse grouped expression",
            ),
            ParserErrorType::FailedToParseIfConsequence => String::from_str(
                "failed to parse if block for consequence",
            ),
            ParserErrorType::FailedToParseIfAlternative => String::from_str(
                "failed to parse if block for alternative",
            ),
            ParserErrorType::FailedToParseFunctionParameters => String::from_str(
                "failed to parse function parameters",
            ),
            ParserErrorType::FailedToParseFunctionBody => String::from_str(
                "failed to parse function body",
            ),
            ParserErrorType::FailedToParseStatementInBlock => String::from_str(
                "failed to parse statement in block",
            ),
            ParserErrorType::FailedToParseCallArgument => String::from_str(
                "failed to parse call argument",
            ),
            ParserErrorType::UnexpectedEOF => String::from_str("unexpected end of file"),
        }
    }
}

/// The models of a sequence of diagnostics, elementwise.
pub open spec fn errs_view(v: Seq<ParserError>) -> Seq<ErrorModel>
    decreases v,
{
    if v.len() == 0 {
        Seq::empty()
    } else {
        errs_view(v.subrange(0, v.len() - 1)).push(err_view(&v[v.len() - 1]))
    }
}

/// `errs_view` maps the sequence elementwise.
pub proof fn lemma_errs_view(v: Seq<ParserError>)
    ensures
        errs_view(v).len() == v.len(),
        forall|i: int| 0 <= i < v.len() ==> errs_view(v)[i] == err_view(&v[i]),
    decreases v.len(),
{
    if v.len() > 0 {
        lemma_errs_view(v.subrange(0, v.len() - 1));
    }
}

/// Pushing a diagnostic extends the modelled sequence by its model.
pub proof fn lemma_errs_view_push(v: Seq<ParserError>, e: ParserError)
    ensures
        errs_view(v.push(e)) == errs_view(v).push(err_view(&e)),
{
    assert(v.push(e).subrange(0, v.push(e).len() - 1) =~= v);
    assert(errs_view(v.push(e)) == errs_view(v).push(err_view(&v.push(e)[v.len() as int])));
}

/// A collection of diagnostics in the order they were recorded.
#[derive(Debug, Clone)]
pub struct ParserErrors {
    errors: Vec<ParserError>,
}

impl View for ParserErrors {
    type V = Seq<ErrorModel>;

    closed spec fn view(&self) -> Seq<ErrorModel> {
        errs_view(self.errors@)
    }
}

impl Default for ParserErrors {
    /// An empty collection.
    fn default() -> (r: Self)
        ensures
            r@ == Seq::<ErrorModel>::empty(),
    {
        ParserErrors { errors: Vec::new() }
    }
}

impl ParserErrors {
    /// An empty collection.
    pub fn new() -> (r: Self)
        ensures
            r@ == Seq::<ErrorModel>::empty(),
    {
        ParserErrors { errors: Vec::new() }
    }

    /// Appends a diagnostic.
    pub fn push(&mut self, error: ParserError)
        ensures
            final(self)@ == old(self)@.push(err_view(&error)),
    {
        proof {
            lemma_errs_view_push(self.errors@, error);
        }
        self.errors.push(error);
    }

    /// Records a diagnostic of the given kind at a token's position.
    pub fn add(&mut self, kind: ParserErrorType, token: &Token)
        ensures
            final(self)@ == old(self)@.push(
                ErrorModel {
                    kind: kind_view(&kind),
                    span: SpanModel { line: token.line as nat, column: token.column as nat },
                },
            ),
    {
        let e = ParserError::at_token(kind, token);
        self.push(e);
    }

    /// Records a diagnostic of the given kind at an explicit position.
    pub fn add_at(&mut self, kind: ParserErrorType, line: usize, column: usize)
        ensures
            final(self)@ == old(self)@.push(
                ErrorModel {
                    kind: kind_view(&kind),
                    span: SpanModel { line: line as nat, column: column as nat },
                },
            ),
    {
        let e = ParserError::at(kind, line, column);
        self.push(e);
    }

    /// Whether no diagnostic has been recorded.
    pub fn is_empty(&self) -> (r: bool)
        ensures
            r == (self@.len() == 0),
    {
        proof {
            lemma_errs_view(self.errors@);
        }
        self.errors.len() == 0
    }

    /// How many diagnostics have been recorded.
    pub fn len(&self) -> (r: usize)
        ensures
            r == self@.len(),
    {
        proof {
            lemma_errs_view(self.errors@);
        }
        self.errors.len()
    }

    /// The recorded diagnostics, in order, for iteration.
    pub fn iter(&self) -> (r: &Vec<ParserError>)
        ensures
            errs_view(r@) == self@,
    {
        &self.errors
    }

    /// The formatted form of every diagnostic, in order.
    pub fn messages(&self) -> (r: Vec<String>)
        ensures
            r@.len() == self@.len(),
            forall|i: int| 0 <= i < r@.len() ==> (#[trigger] r@[i])@ == error_message(self@[i]),
    {
        proof {
            lemma_errs_view(self.errors@);
        }
        let mut r: Vec<String> = Vec::new();
        let n = self.errors.len();
        let mut i: usize = 0;
        while i < n
            invariant
                n == self.errors@.len(),
                0 <= i <= n,
                r@.len() == i,
                errs_view(self.errors@).len() == n,
                forall|j: int|
                    0 <= j < i ==> (#[trigger] r@[j])@ == error_message(
                        errs_view(self.errors@)[j],
                    ),
                forall|j: int|
                    0 <= j < n ==> errs_view(self.errors@)[j] == err_view(&self.errors@[j]),
            decreases n - i,
        {
            let m = self.errors[i].to_string();
            r.push(m);
            i = i + 1;
        }
        r
    }

    /// Removes every recorded diagnostic.
    pub fn clear(&mut self)
        ensures
            final(self)@ == Seq::<ErrorModel>::empty(),
    {
        self.errors.clear();
    }
}

} // verus!
