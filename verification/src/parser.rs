//! The Pratt parser: tokens in, an abstract syntax tree and collected
//! diagnostics out.
//!
//! The parser holds the lexer, a two-token lookahead (current and peek),
//! and a list of diagnostics.  It is specified against a functional
//! model: each `sp_*` function maps a parser model (lexer model, the two
//! buffered tokens, the diagnostics recorded so far) to the model after
//! the corresponding parsing step together with the node parsed, and
//! every method is proved to compute exactly its model function.
//!
//! The model functions recurse along a measure of the unread input; each
//! recursion is guarded by the check that the measure shrank, which the
//! real token stream always satisfies, so the guards are proved away in
//! the method bodies.

use vstd::prelude::*;

use crate::ast::{
    expr_view, idents_view, let_stmt_view, program_view, return_stmt_view, stmt_view,
    stmts_view, BlockModel, BlockStatement, ExprModel, Expression, ExpressionStatement,
    FunctionLiteral, CallExpression, IdentModel, Identifier, IfExpression, InfixExpression,
    IntegerLiteral, BooleanLiteral, LetStatement, PrefixExpression, Program, ReturnStatement,
    Statement, StmtModel, block_view, expr_stmt_view,
};
use crate::digits::{all_digits, digits_val, parse_i64_digits};
use crate::error::{
    err_view, errs_view, kind_view, m_at_token, ErrorKindModel, ErrorModel, ParserError,
    ParserErrorType,
};
use crate::lexer::{lex_next_token, lex_rem, lemma_next_token_rem, Lexer, LexerModel};
use crate::precedence::{spec_token_precedence, Precedence};
use crate::token::{Token, TokenModel, TokenType};

verus! {

/// The mathematical model of the parser: the lexer's state, the current
/// and peek tokens, and the diagnostics recorded so far.
pub struct ParserModel {
    pub lexer: LexerModel,
    pub curr: TokenModel,
    pub peek: TokenModel,
    pub errors: Seq<ErrorModel>,
}

/// The measure the parser model recurses along: the unread input counted
/// twice, plus one for each buffered token that is not `EOF`.  Pulling a
/// token strictly shrinks it whenever the current token is not `EOF`.
pub open spec fn pm(ps: ParserModel) -> nat {
    2 * lex_rem(ps.lexer) + (if ps.curr.kind == TokenType::EOF {
        0nat
    } else {
        1nat
    }) + (if ps.peek.kind == TokenType::EOF {
        0nat
    } else {
        1nat
    })
}

/// Well-formedness of a parser state: the lexer's head is inside its
/// input, an `EOF` in the peek slot means the lexer is exhausted, and an
/// `EOF` in the current slot means the peek slot is `EOF` too (tokens
/// arrive in order, and the scanner emits only `EOF` once it has emitted
/// one).
pub open spec fn pwf(ps: ParserModel) -> bool {
    &&& ps.lexer.pos <= ps.lexer.input.len()
    &&& (ps.peek.kind == TokenType::EOF ==> lex_rem(ps.lexer) == 0)
    &&& (ps.curr.kind == TokenType::EOF ==> ps.peek.kind == TokenType::EOF)
}

/// The state after pulling one token: peek moves to current, the lexer
/// yields the new peek.
pub open spec fn sp_advance(ps: ParserModel) -> ParserModel {
    let (t, lx) = lex_next_token(ps.lexer);
    ParserModel { lexer: lx, curr: ps.peek, peek: t, errors: ps.errors }
}

/// The state with one more diagnostic recorded.
pub open spec fn sp_push(ps: ParserModel, e: ErrorModel) -> ParserModel {
    ParserModel { lexer: ps.lexer, curr: ps.curr, peek: ps.peek, errors: ps.errors.push(e) }
}

/// Pulling a token never grows the measure, shrinks it strictly when the
/// current token is not `EOF`, and preserves well-formedness.
pub proof fn lemma_sp_advance(ps: ParserModel)
    ensures
        pm(sp_advance(ps)) <= pm(ps),
        ps.curr.kind != TokenType::EOF ==> pm(sp_advance(ps)) < pm(ps),
        pwf(ps) ==> pwf(sp_advance(ps)),
        sp_advance(ps).errors == ps.errors,
{
    lemma_next_token_rem(ps.lexer);
    let (t, lx) = lex_next_token(ps.lexer);
    if pwf(ps) {
        crate::lexer::lemma_next_token_progress(ps.lexer);
        if ps.peek.kind == TokenType::EOF {
            assert(lex_rem(ps.lexer) == 0);
            assert(lex_next_token(ps.lexer).0.kind == TokenType::EOF);
        }
    }
}

/// `expect_peek`: advance past the peek token when it has the required
/// kind; record an expected-token diagnostic against it otherwise.
pub open spec fn sp_expect_peek(ps: ParserModel, tt: TokenType) -> (ParserModel, bool) {
    if ps.peek.kind == tt {
        (sp_advance(ps), true)
    } else {
        (
            sp_push(
                ps,
                m_at_token(
                    ErrorKindModel::ExpectedToken {
                        expected: tt,
                        got: ps.peek.kind,
                        literal: ps.peek.literal,
                    },
                    ps.peek,
                ),
            ),
            false,
        )
    }
}

/// Whether an infix parser is registered for a token kind: the eight
/// binary operators and the call parenthesis.
pub open spec fn sp_is_infix(k: TokenType) -> bool {
    ||| k == TokenType::PLUS
    ||| k == TokenType::MINUS
    ||| k == TokenType::SLASH
    ||| k == TokenType::ASTERISK
    ||| k == TokenType::EQ
    ||| k == TokenType::NOTEQ
    ||| k == TokenType::LT
    ||| k == TokenType::GT
    ||| k == TokenType::LPAREN
}

/// The identifier node read from a token: its literal as the name.
pub open spec fn sp_ident_of(t: TokenModel) -> IdentModel {
    IdentModel { token: t, value: t.literal }
}

/// Parses the whole program: statements until `EOF`, each successfully
/// parsed statement appended, with single-token resynchronization after
/// an errored statement.
pub open spec fn sp_parse_program(ps: ParserModel) -> (ParserModel, Seq<StmtModel>)
    decreases pm(ps), 8int,
{
    sp_program_loop(ps, Seq::empty())
}

/// The program driver loop: while the current token is not `EOF`, parse
/// one statement, keep it if it succeeded, and step one token onward.
pub open spec fn sp_program_loop(ps: ParserModel, acc: Seq<StmtModel>) -> (
    ParserModel,
    Seq<StmtModel>,
)
    decreases pm(ps), 7int,
{
    if ps.curr.kind != TokenType::EOF {
        let (ps1, st) = sp_parse_statement(ps);
        let acc1 = match st {
            Some(s) => acc.push(s),
            None => acc,
        };
        let ps2 = sp_advance(ps1);
        if pm(ps2) < pm(ps) {
            sp_program_loop(ps2, acc1)
        } else {
            (ps2, acc1)
        }
    } else {
        (ps, acc)
    }
}

/// Statement dispatch on the current token: `let`, `return`, or an
/// expression statement.
pub open spec fn sp_parse_statement(ps: ParserModel) -> (ParserModel, Option<StmtModel>)
    decreases pm(ps), 6int,
{
    if ps.curr.kind == TokenType::LET {
        sp_parse_let(ps)
    } else if ps.curr.kind == TokenType::RETURN {
        sp_parse_return(ps)
    } else {
        sp_parse_expr_stmt(ps)
    }
}

/// `let IDENT = <expression> ;`: a missing identifier or `=` records a
/// diagnostic and yields no statement; a missing trailing semicolon
/// records a diagnostic and discards the statement.
pub open spec fn sp_parse_let(ps: ParserModel) -> (ParserModel, Option<StmtModel>)
    decreases pm(ps), 5int,
{
    let tok = ps.curr;
    let (ps1, ok1) = sp_expect_peek(ps, TokenType::IDENT);
    if !ok1 {
        (ps1, None)
    } else {
        let name = sp_ident_of(ps1.curr);
        let (ps2, ok2) = sp_expect_peek(ps1, TokenType::ASSIGN);
        if !ok2 {
            (ps2, None)
        } else {
            let ps3 = sp_advance(ps2);
            let (ps4, value) = if pm(ps3) < pm(ps) {
                sp_parse_expression(ps3, 1)
            } else {
                (ps3, None)
            };
            if ps4.peek.kind != TokenType::SEMICOLON {
                (
                    sp_push(
                        ps4,
                        m_at_token(
                            ErrorKindModel::MissingSemicolon {
                                got: ps4.peek.kind,
                                literal: ps4.peek.literal,
                            },
                            ps4.peek,
                        ),
                    ),
                    None,
                )
            } else {
                (sp_advance(ps4), Some(StmtModel::Let { token: tok, name, value }))
            }
        }
    }
}

/// `return <expression> ;`, with the same semicolon discipline as `let`.
pub open spec fn sp_parse_return(ps: ParserModel) -> (ParserModel, Option<StmtModel>)
    decreases pm(ps), 5int,
{
    let tok = ps.curr;
    if ps.curr.kind != TokenType::RETURN {
        (ps, None)
    } else {
        let ps1 = sp_advance(ps);
        let (ps2, value) = if pm(ps1) < pm(ps) {
            sp_parse_expression(ps1, 1)
        } else {
            (ps1, None)
        };
        if ps2.peek.kind != TokenType::SEMICOLON {
            (
                sp_push(
                    ps2,
                    m_at_token(
                        ErrorKindModel::MissingSemicolon {
                            got: ps2.peek.kind,
                            literal: ps2.peek.literal,
                        },
                        ps2.peek,
                    ),
                ),
                None,
            )
        } else {
            (sp_advance(ps2), Some(StmtModel::Return { token: tok, value }))
        }
    }
}

/// Whether an expression carries its own closing brace: an `if`
/// expression or a function literal.  Such a statement needs no
/// semicolon after it.
pub open spec fn sp_ends_with_block(e: ExprModel) -> bool {
    match e {
        ExprModel::If { token, condition, consequence, alternative } => true,
        ExprModel::Fn { token, parameters, body } => true,
        _ => false,
    }
}

/// An expression standing as a statement, with its terminator: a `;` is
/// consumed; where a brace ends the statement instead — the `}` of the
/// enclosing block stands ahead, or the expression carries its own
/// closing brace (`if`, function literal) — none is required; otherwise
/// a missing-semicolon diagnostic is recorded against the token ahead
/// and the statement is discarded.  The statement's token is the last
/// token of the expression, as the parser stands there when it builds
/// the node.
pub open spec fn sp_parse_expr_stmt(ps: ParserModel) -> (ParserModel, Option<StmtModel>)
    decreases pm(ps), 5int,
{
    let (ps1, e) = sp_parse_expression(ps, 1);
    match e {
        None => (ps1, None),
        Some(expr) => {
            let stmt = StmtModel::Expr { token: ps1.curr, value: expr };
            if ps1.peek.kind == TokenType::SEMICOLON {
                (sp_advance(ps1), Some(stmt))
            } else if ps1.peek.kind == TokenType::RBRACE || sp_ends_with_block(expr) {
                (ps1, Some(stmt))
            } else {
                (
                    sp_push(
                        ps1,
                        m_at_token(
                            ErrorKindModel::MissingSemicolon {
                                got: ps1.peek.kind,
                                literal: ps1.peek.literal,
                            },
                            ps1.peek,
                        ),
                    ),
                    None,
                )
            }
        },
    }
}

/// The Pratt core: a prefix parser for the current token produces the
/// left operand (no registered prefix parser records a diagnostic), then
/// operators bind as long as the one ahead binds strictly tighter than
/// `prec`.
pub open spec fn sp_parse_expression(ps: ParserModel, prec: int) -> (ParserModel, Option<ExprModel>)
    decreases pm(ps), 4int,
{
    let k = ps.curr.kind;
    if k == TokenType::IDENT || k == TokenType::INT || k == TokenType::TRUE || k
        == TokenType::FALSE || k == TokenType::BANG || k == TokenType::MINUS || k
        == TokenType::LPAREN || k == TokenType::IF || k == TokenType::FUNCTION {
        let (ps1, left0) = if k == TokenType::IDENT {
            sp_parse_identifier(ps)
        } else if k == TokenType::INT {
            sp_parse_integer(ps)
        } else if k == TokenType::TRUE || k == TokenType::FALSE {
            sp_parse_boolean(ps)
        } else if k == TokenType::BANG || k == TokenType::MINUS {
            sp_parse_prefix(ps)
        } else if k == TokenType::LPAREN {
            sp_parse_grouped(ps)
        } else if k == TokenType::IF {
            sp_parse_if(ps)
        } else {
            sp_parse_function(ps)
        };
        match left0 {
            None => (ps1, None),
            Some(l) => if pm(ps1) <= pm(ps) {
                sp_infix_loop(ps1, l, prec)
            } else {
                (ps1, Some(l))
            },
        }
    } else {
        (
            sp_push(
                ps,
                m_at_token(
                    ErrorKindModel::NoPrefixParseFunction {
                        token_type: ps.curr.kind,
                        literal: ps.curr.literal,
                    },
                    ps.curr,
                ),
            ),
            None,
        )
    }
}

/// The infix loop: while the peek token is not `;` and its operator
/// binds strictly tighter than `prec`, pull it and fold the left operand
/// into an infix or call node.
pub open spec fn sp_infix_loop(ps: ParserModel, left: ExprModel, prec: int) -> (
    ParserModel,
    Option<ExprModel>,
)
    decreases pm(ps), 3int,
{
    if ps.peek.kind != TokenType::SEMICOLON && prec < spec_token_precedence(ps.peek.kind) {
        if sp_is_infix(ps.peek.kind) {
            let ps1 = sp_advance(ps);
            let (ps2, r) = if pm(ps1) < pm(ps) {
                if ps1.curr.kind == TokenType::LPAREN {
                    sp_parse_call(ps1, left)
                } else {
                    sp_parse_infix(ps1, left)
                }
            } else {
                (ps1, None)
            };
            match r {
                None => (ps2, None),
                Some(l2) => if pm(ps2) < pm(ps) {
                    sp_infix_loop(ps2, l2, prec)
                } else {
                    (ps2, Some(l2))
                },
            }
        } else {
            (ps, Some(left))
        }
    } else {
        (ps, Some(left))
    }
}

/// An identifier expression: the current token's literal as the name.
pub open spec fn sp_parse_identifier(ps: ParserModel) -> (ParserModel, Option<ExprModel>)
    decreases pm(ps), 3int,
{
    (ps, Some(ExprModel::Ident(sp_ident_of(ps.curr))))
}

/// An integer literal: the decimal value of the current token's literal
/// when it is a digit run fitting a signed 64-bit value; an
/// invalid-integer diagnostic otherwise.
pub open spec fn sp_parse_integer(ps: ParserModel) -> (ParserModel, Option<ExprModel>)
    decreases pm(ps), 3int,
{
    let t = ps.curr;
    if all_digits(t.literal) && t.literal.len() > 0 && digits_val(t.literal) <= i64::MAX {
        (ps, Some(ExprModel::Int { token: t, value: digits_val(t.literal) as i64 }))
    } else {
        (
            sp_push(
                ps,
                m_at_token(ErrorKindModel::InvalidIntegerLiteral { literal: t.literal }, t),
            ),
            None,
        )
    }
}

/// A boolean literal: true exactly when the current token kind is
/// `TRUE`.
pub open spec fn sp_parse_boolean(ps: ParserModel) -> (ParserModel, Option<ExprModel>)
    decreases pm(ps), 3int,
{
    (
        ps,
        Some(
            ExprModel::Bool { token: ps.curr, value: ps.curr.kind == TokenType::TRUE },
        ),
    )
}

/// A prefix application: capture the operator, step past it, and parse
/// the operand at the `PREFIX` level, which makes stacked prefixes
/// right-associative.
pub open spec fn sp_parse_prefix(ps: ParserModel) -> (ParserModel, Option<ExprModel>)
    decreases pm(ps), 3int,
{
    let tok = ps.curr;
    let op = ps.curr.literal;
    let ps1 = sp_advance(ps);
    let (ps2, r) = if pm(ps1) < pm(ps) {
        sp_parse_expression(ps1, 6)
    } else {
        (ps1, None)
    };
    match r {
        Some(rhs) => (
            ps2,
            Some(ExprModel::Prefix { token: tok, operator: op, right: Box::new(rhs) }),
        ),
        None => (
            sp_push(
                ps2,
                m_at_token(ErrorKindModel::FailedToParsePrefixRHS { operator: op }, ps2.curr),
            ),
            None,
        ),
    }
}

/// A parenthesized expression: step past `(`, parse at the lowest level,
/// and require `)`.
pub open spec fn sp_parse_grouped(ps: ParserModel) -> (ParserModel, Option<ExprModel>)
    decreases pm(ps), 3int,
{
    let ps1 = sp_advance(ps);
    let (ps2, r) = if pm(ps1) < pm(ps) {
        sp_parse_expression(ps1, 1)
    } else {
        (ps1, None)
    };
    match r {
        None => (
            sp_push(ps2, m_at_token(ErrorKindModel::FailedToParseGroupedExpression, ps2.curr)),
            None,
        ),
        Some(e) => {
            let (ps3, ok) = sp_expect_peek(ps2, TokenType::RPAREN);
            if ok {
                (ps3, Some(e))
            } else {
                (ps3, None)
            }
        },
    }
}

/// `if ( <condition> ) <consequence>` with an optional
/// `else <alternative>`.
pub open spec fn sp_parse_if(ps: ParserModel) -> (ParserModel, Option<ExprModel>)
    decreases pm(ps), 3int,
{
    let tok = ps.curr;
    let (ps1, ok1) = sp_expect_peek(ps, TokenType::LPAREN);
    if !ok1 {
        (ps1, None)
    } else {
        let ps2 = sp_advance(ps1);
        let (ps3, cond) = if pm(ps2) < pm(ps) {
            sp_parse_expression(ps2, 1)
        } else {
            (ps2, None)
        };
        match cond {
            None => (
                sp_push(ps3, m_at_token(ErrorKindModel::FailedToParseCondition, ps3.curr)),
                None,
            ),
            Some(c) => {
                let (ps4, ok4) = sp_expect_peek(ps3, TokenType::RPAREN);
                if !ok4 {
                    (ps4, None)
                } else {
                    let (ps5, ok5) = sp_expect_peek(ps4, TokenType::LBRACE);
                    if !ok5 {
                        (ps5, None)
                    } else {
                        let (ps6, cons) = if pm(ps5) < pm(ps) {
                            sp_parse_block(ps5)
                        } else {
                            (ps5, None)
                        };
                        match cons {
                            None => (
                                sp_push(
                                    ps6,
                                    m_at_token(ErrorKindModel::FailedToParseIfConsequence, ps6.curr),
                                ),
                                None,
                            ),
                            Some(consq) => {
                                if ps6.peek.kind == TokenType::ELSE {
                                    let ps7 = sp_advance(ps6);
                                    let (ps8, ok8) = sp_expect_peek(ps7, TokenType::LBRACE);
                                    if !ok8 {
                                        (ps8, None)
                                    } else {
                                        let (ps9, alt) = if pm(ps8) < pm(ps) {
                                            sp_parse_block(ps8)
                                        } else {
                                            (ps8, None)
                                        };
                                        match alt {
                                            None => (
                                                sp_push(
                                                    ps9,
                                                    m_at_token(
                                                        ErrorKindModel::FailedToParseIfAlternative,
                                                        ps9.curr,
                                                    ),
                                                ),
                                                None,
                                            ),
                                            Some(a) => (
                                                ps9,
                                                Some(
                                                    ExprModel::If {
                                                        token: tok,
                                                        condition: Box::new(c),
                                                        consequence: consq,
                                                        alternative: Some(a),
                                                    },
                                                ),
                                            ),
                                        }
                                    }
                                } else {
                                    (
                                        ps6,
                                        Some(
                                            ExprModel::If {
                                                token: tok,
                                                condition: Box::new(c),
                                                consequence: consq,
                                                alternative: None,
                                            },
                                        ),
                                    )
                                }
                            },
                        }
                    }
                }
            },
        }
    }
}

/// A block: statements until the closing brace or the end of input, a
/// diagnostic for each statement that failed, then a required `}`.
pub open spec fn sp_parse_block(ps: ParserModel) -> (ParserModel, Option<BlockModel>)
    decreases pm(ps), 2int,
{
    let tok = ps.curr;
    let (ps1, stmts) = sp_block_loop(ps, Seq::empty());
    let (ps2, ok) = sp_expect_peek(ps1, TokenType::RBRACE);
    if ok {
        (ps2, Some(BlockModel { token: tok, statements: stmts }))
    } else {
        (ps2, None)
    }
}

/// The block loop: while the peek token is neither `}` nor `EOF`, step
/// onto the next token and parse one statement, collecting successes and
/// recording a diagnostic for each failure.
pub open spec fn sp_block_loop(ps: ParserModel, acc: Seq<StmtModel>) -> (ParserModel, Seq<StmtModel>)
    decreases pm(ps), 1int,
{
    if ps.peek.kind != TokenType::RBRACE && ps.peek.kind != TokenType::EOF {
        let ps1 = sp_advance(ps);
        let (ps2, st) = if pm(ps1) < pm(ps) {
            sp_parse_statement(ps1)
        } else {
            (ps1, None)
        };
        let (ps3, acc1) = match st {
            Some(s) => (ps2, acc.push(s)),
            None => (
                sp_push(ps2, m_at_token(ErrorKindModel::FailedToParseStatementInBlock, ps2.curr)),
                acc,
            ),
        };
        if pm(ps3) < pm(ps) {
            sp_block_loop(ps3, acc1)
        } else {
            (ps3, acc1)
        }
    } else {
        (ps, acc)
    }
}

/// `fn ( <parameters> ) <body>`.
pub open spec fn sp_parse_function(ps: ParserModel) -> (ParserModel, Option<ExprModel>)
    decreases pm(ps), 3int,
{
    let tok = ps.curr;
    let (ps1, ok1) = sp_expect_peek(ps, TokenType::LPAREN);
    if !ok1 {
        (ps1, None)
    } else {
        let (ps2, params) = if pm(ps1) < pm(ps) {
            sp_parse_fn_params(ps1)
        } else {
            (ps1, None)
        };
        match params {
            None => (
                sp_push(
                    ps2,
                    m_at_token(ErrorKindModel::FailedToParseFunctionParameters, ps2.curr),
                ),
                None,
            ),
            Some(prms) => {
                let (ps3, ok3) = sp_expect_peek(ps2, TokenType::LBRACE);
                if !ok3 {
                    (ps3, None)
                } else {
                    let (ps4, body) = if pm(ps3) < pm(ps) {
                        sp_parse_block(ps3)
                    } else {
                        (ps3, None)
                    };
                    match body {
                        None => (
                            sp_push(
                                ps4,
                                m_at_token(ErrorKindModel::FailedToParseFunctionBody, ps4.curr),
                            ),
                            None,
                        ),
                        Some(b) => (
                            ps4,
                            Some(ExprModel::Fn { token: tok, parameters: prms, body: b }),
                        ),
                    }
                }
            },
        }
    }
}

/// The parameter list after `fn (`: empty when `)` follows at once;
/// otherwise tokens read as identifiers, separated by commas, closed by
/// a required `)`.
pub open spec fn sp_parse_fn_params(ps: ParserModel) -> (ParserModel, Option<Seq<IdentModel>>)
    decreases pm(ps), 2int,
{
    if ps.peek.kind == TokenType::RPAREN {
        (sp_advance(ps), Some(Seq::empty()))
    } else {
        let ps1 = sp_advance(ps);
        let first = sp_ident_of(ps1.curr);
        if pm(ps1) <= pm(ps) {
            sp_params_loop(ps1, Seq::empty().push(first))
        } else {
            (ps1, None)
        }
    }
}

/// The parameter loop: while a comma follows, step past it and read one
/// more parameter; then require `)`.
pub open spec fn sp_params_loop(ps: ParserModel, acc: Seq<IdentModel>) -> (
    ParserModel,
    Option<Seq<IdentModel>>,
)
    decreases pm(ps), 1int,
{
    if ps.peek.kind == TokenType::COMMA {
        let ps1 = sp_advance(sp_advance(ps));
        let acc1 = acc.push(sp_ident_of(ps1.curr));
        if pm(ps1) < pm(ps) {
            sp_params_loop(ps1, acc1)
        } else {
            (ps1, None)
        }
    } else {
        let (ps1, ok) = sp_expect_peek(ps, TokenType::RPAREN);
        if ok {
            (ps1, Some(acc))
        } else {
            (ps1, None)
        }
    }
}

/// A call: the `(` token, the left operand as the callee, and the
/// argument list.
pub open spec fn sp_parse_call(ps: ParserModel, callee: ExprModel) -> (
    ParserModel,
    Option<ExprModel>,
)
    decreases pm(ps), 2int,
{
    let tok = ps.curr;
    let (ps1, args) = sp_parse_call_args(ps);
    match args {
        None => (
            sp_push(ps1, m_at_token(ErrorKindModel::FailedToParseCallArgument, ps1.curr)),
            None,
        ),
        Some(a) => (
            ps1,
            Some(
                ExprModel::Call { token: tok, function: Box::new(callee), arguments: a },
            ),
        ),
    }
}

/// The argument list after the call's `(`: empty when `)` follows at
/// once; otherwise expressions at the lowest level, separated by commas,
/// closed by `)` — an unclosed list records both an expected-token and
/// an unclosed-call diagnostic.
pub open spec fn sp_parse_call_args(ps: ParserModel) -> (ParserModel, Option<Seq<ExprModel>>)
    decreases pm(ps), 1int,
{
    if ps.peek.kind == TokenType::RPAREN {
        (sp_advance(ps), Some(Seq::empty()))
    } else {
        let ps1 = sp_advance(ps);
        let (ps2, a0) = if pm(ps1) < pm(ps) {
            sp_parse_expression(ps1, 1)
        } else {
            (ps1, None)
        };
        match a0 {
            None => (
                sp_push(ps2, m_at_token(ErrorKindModel::FailedToParseCallArgument, ps2.curr)),
                None,
            ),
            Some(a) => {
                if pm(ps2) <= pm(ps) {
                    sp_args_loop(ps2, Seq::empty().push(a))
                } else {
                    (ps2, None)
                }
            },
        }
    }
}

/// The argument loop: while a comma follows, step past it and parse one
/// more argument; then require `)`, recording an additional
/// unclosed-call diagnostic when it is missing.
pub open spec fn sp_args_loop(ps: ParserModel, acc: Seq<ExprModel>) -> (
    ParserModel,
    Option<Seq<ExprModel>>,
)
    decreases pm(ps), 0int,
{
    if ps.peek.kind == TokenType::COMMA {
        let ps1 = sp_advance(sp_advance(ps));
        let (ps2, a) = if pm(ps1) < pm(ps) {
            sp_parse_expression(ps1, 1)
        } else {
            (ps1, None)
        };
        match a {
            None => (
                sp_push(ps2, m_at_token(ErrorKindModel::FailedToParseCallArgument, ps2.curr)),
                None,
            ),
            Some(x) => {
                if pm(ps2) < pm(ps) {
                    sp_args_loop(ps2, acc.push(x))
                } else {
                    (ps2, None)
                }
            },
        }
    } else {
        if ps.peek.kind == TokenType::RPAREN {
            (sp_advance(ps), Some(acc))
        } else {
            let psx = sp_push(
                ps,
                m_at_token(
                    ErrorKindModel::ExpectedToken {
                        expected: TokenType::RPAREN,
                        got: ps.peek.kind,
                        literal: ps.peek.literal,
                    },
                    ps.peek,
                ),
            );
            (
                sp_push(
                    psx,
                    m_at_token(
                        ErrorKindModel::UnclosedCallArguments {
                            got: psx.peek.kind,
                            literal: psx.peek.literal,
                        },
                        psx.peek,
                    ),
                ),
                None,
            )
        }
    }
}

/// An infix application: capture the operator and its level, step past
/// it, and parse the right operand at that level, which makes equal
/// levels left-associative.
pub open spec fn sp_parse_infix(ps: ParserModel, left: ExprModel) -> (ParserModel, Option<ExprModel>)
    decreases pm(ps), 2int,
{
    let tok = ps.curr;
    let op = ps.curr.literal;
    let prec = spec_token_precedence(ps.curr.kind);
    let ps1 = sp_advance(ps);
    let (ps2, r) = if pm(ps1) < pm(ps) {
        sp_parse_expression(ps1, prec)
    } else {
        (ps1, None)
    };
    match r {
        None => (
            sp_push(
                ps2,
                m_at_token(ErrorKindModel::FailedToParseInfixRHS { operator: op }, ps2.curr),
            ),
            None,
        ),
        Some(rhs) => (
            ps2,
            Some(
                ExprModel::Infix {
                    token: tok,
                    left: Box::new(left),
                    operator: op,
                    right: Box::new(rhs),
                },
            ),
        ),
    }
}

/// The model a fresh parser starts in: the first two tokens pulled into
/// the lookahead buffer and no diagnostics.
pub open spec fn sp_new_parser(lx: LexerModel) -> ParserModel {
    let (t1, lx1) = lex_next_token(lx);
    let (t2, lx2) = lex_next_token(lx1);
    ParserModel { lexer: lx2, curr: t1, peek: t2, errors: Seq::empty() }
}


/// The model of an optional expression node.
pub open spec fn opt_expr_view(r: &Option<Expression>) -> Option<ExprModel> {
    match r {
        Some(e) => Some(expr_view(e)),
        None => None,
    }
}

/// The model of an optional let statement node.
pub open spec fn opt_let_view(r: &Option<LetStatement>) -> Option<StmtModel> {
    match r {
        Some(x) => Some(let_stmt_view(x)),
        None => None,
    }
}

/// The model of an optional return statement node.
pub open spec fn opt_return_view(r: &Option<ReturnStatement>) -> Option<StmtModel> {
    match r {
        Some(x) => Some(return_stmt_view(x)),
        None => None,
    }
}

/// The model of an optional expression statement node.
pub open spec fn opt_expr_stmt_view(r: &Option<ExpressionStatement>) -> Option<StmtModel> {
    match r {
        Some(x) => Some(expr_stmt_view(x)),
        None => None,
    }
}

/// The model of an optional statement node.
pub open spec fn opt_stmt_view(r: &Option<Statement>) -> Option<StmtModel> {
    match r {
        Some(x) => Some(stmt_view(x)),
        None => None,
    }
}

/// The model of an optional block node.
pub open spec fn opt_block_view(r: &Option<BlockStatement>) -> Option<BlockModel> {
    match r {
        Some(x) => Some(block_view(x)),
        None => None,
    }
}

/// The model of an optional argument list.
pub open spec fn opt_args_view(r: &Option<Vec<Expression>>) -> Option<Seq<ExprModel>> {
    match r {
        Some(v) => Some(crate::ast::exprs_view(v@)),
        None => None,
    }
}

/// The model of an optional parameter list.
pub open spec fn opt_params_view(r: &Option<Vec<Identifier>>) -> Option<Seq<IdentModel>> {
    match r {
        Some(v) => Some(idents_view(v@)),
        None => None,
    }
}


/// How a parsing step may change the state: the measure never grows,
/// and it strictly shrinks whenever the step moved the current slot from
/// a real token to `EOF`.
pub open spec fn steps_ok(pre: ParserModel, post: ParserModel) -> bool {
    &&& pwf(post)
    &&& pm(post) <= pm(pre)
    &&& (pre.curr.kind != TokenType::EOF && post.curr.kind == TokenType::EOF ==> pm(post) < pm(
        pre,
    ))
}

/// The parser: the lexer it pulls from, the two-token lookahead buffer,
/// and the diagnostics collected so far.
#[derive(Debug)]
pub struct Parser {
    l: Lexer,
    curr_token: Token,
    peek_token: Token,
    errors: Vec<ParserError>,
}

impl View for Parser {
    type V = ParserModel;

    closed spec fn view(&self) -> ParserModel {
        ParserModel {
            lexer: self.l@,
            curr: self.curr_token@,
            peek: self.peek_token@,
            errors: errs_view(self.errors@),
        }
    }
}

impl Parser {
    /// Creates a parser over the given lexer, pulling the first two
    /// tokens into the lookahead buffer.  Every parser this returns is
    /// well-formed, which the parsing methods require of their receiver.
    pub fn new(l: Lexer) -> (r: Self)
        ensures
            r@ == sp_new_parser(l@),
            pwf(r@),
    {
        proof {
            use_type_invariant(&l);
            crate::lexer::lemma_next_token_progress(l@);
            crate::lexer::lemma_next_token_progress(lex_next_token(l@).1);
            lemma_next_token_rem(l@);
            lemma_next_token_rem(lex_next_token(l@).1);
        }
        let mut l = l;
        let t1 = l.next_token();
        let t2 = l.next_token();
        Parser { l, curr_token: t1, peek_token: t2, errors: Vec::new() }
    }

    /// Returns the diagnostics collected so far, in order.
    pub fn errors(&self) -> (r: &Vec<ParserError>)
        ensures
            errs_view(r@) == self@.errors,
    {
        &self.errors
    }

    /// Steps the lookahead buffer: peek becomes current, the lexer
    /// yields the new peek.
    fn next_token(&mut self)
        requires
            pwf(old(self)@),
        ensures
            final(self)@ == sp_advance(old(self)@),
            steps_ok(old(self)@, final(self)@),
    {
        proof {
            lemma_sp_advance(self@);
        }
        self.curr_token = self.peek_token.clone();
        self.peek_token = self.l.next_token();
    }

    /// Whether the current token has the given kind.
    fn is_curr_token(&self, token_type: TokenType) -> (b: bool)
        ensures
            b == (self@.curr.kind == token_type),
    {
        self.curr_token.token_type == token_type
    }

    /// Whether the peek token has the given kind.
    fn is_peek_token(&self, token_type: TokenType) -> (b: bool)
        ensures
            b == (self@.peek.kind == token_type),
    {
        self.peek_token.token_type == token_type
    }

    /// Steps past the peek token when it has the required kind; records
    /// an expected-token diagnostic against it otherwise.
    fn expect_peek(&mut self, token_type: TokenType) -> (b: bool)
        requires
            pwf(old(self)@),
        ensures
            final(self)@ == sp_expect_peek(old(self)@, token_type).0,
            b == sp_expect_peek(old(self)@, token_type).1,
            steps_ok(old(self)@, final(self)@),
    {
        if self.is_peek_token(token_type) {
            self.next_token();
            true
        } else {
            self.display_peek_error(token_type);
            false
        }
    }

    /// Records an expected-token diagnostic against the peek token.
    fn display_peek_error(&mut self, expected: TokenType)
        ensures
            final(self)@ == sp_push(
                old(self)@,
                m_at_token(
                    ErrorKindModel::ExpectedToken {
                        expected,
                        got: old(self)@.peek.kind,
                        literal: old(self)@.peek.literal,
                    },
                    old(self)@.peek,
                ),
            ),
            pwf(old(self)@) ==> pwf(final(self)@),
    {
        let error = ParserError::expected_token(expected, &self.peek_token);
        proof {
            crate::error::lemma_errs_view_push(self.errors@, error);
        }
        self.errors.push(error);
    }

    /// Records a no-prefix-parse-function diagnostic against the current
    /// token.
    fn no_prefix_parse_function_error(&mut self)
        ensures
            final(self)@ == sp_push(
                old(self)@,
                m_at_token(
                    ErrorKindModel::NoPrefixParseFunction {
                        token_type: old(self)@.curr.kind,
                        literal: old(self)@.curr.literal,
                    },
                    old(self)@.curr,
                ),
            ),
            pwf(old(self)@) ==> pwf(final(self)@),
    {
        let error = ParserError::no_prefix_fn(&self.curr_token);
        proof {
            crate::error::lemma_errs_view_push(self.errors@, error);
        }
        self.errors.push(error);
    }

    /// Records a missing-semicolon diagnostic against the peek token.
    fn missing_semicolon_error(&mut self)
        ensures
            final(self)@ == sp_push(
                old(self)@,
                m_at_token(
                    ErrorKindModel::MissingSemicolon {
                        got: old(self)@.peek.kind,
                        literal: old(self)@.peek.literal,
                    },
                    old(self)@.peek,
                ),
            ),
            pwf(old(self)@) ==> pwf(final(self)@),
    {
        let error = ParserError::missing_semicolon(&self.peek_token);
        proof {
            crate::error::lemma_errs_view_push(self.errors@, error);
        }
        self.errors.push(error);
    }

    /// Records a diagnostic of the given kind against the current token.
    fn error_at_curr(&mut self, kind: ParserErrorType)
        ensures
            final(self)@ == sp_push(old(self)@, m_at_token(kind_view(&kind), old(self)@.curr)),
            pwf(old(self)@) ==> pwf(final(self)@),
    {
        let error = ParserError::at_token(kind, &self.curr_token);
        proof {
            crate::error::lemma_errs_view_push(self.errors@, error);
        }
        self.errors.push(error);
    }

    /// The binding level of the operator the peek token stands for.
    fn peek_precedence(&self) -> (r: i32)
        ensures
            r == spec_token_precedence(self@.peek.kind),
    {
        Precedence::from_token_type(&self.peek_token.token_type)
    }

    /// The binding level of the operator the current token stands for.
    fn curr_precedence(&self) -> (r: i32)
        ensures
            r == spec_token_precedence(self@.curr.kind),
    {
        Precedence::from_token_type(&self.curr_token.token_type)
    }
}


impl Parser {
    /// Records a prepared diagnostic.
    fn push_error(&mut self, e: ParserError)
        ensures
            final(self)@ == sp_push(old(self)@, err_view(&e)),
            pwf(old(self)@) ==> pwf(final(self)@),
    {
        proof {
            crate::error::lemma_errs_view_push(self.errors@, e);
        }
        self.errors.push(e);
    }

    /// Whether an infix parser is registered for a token kind.
    fn has_infix(k: TokenType) -> (b: bool)
        ensures
            b == sp_is_infix(k),
    {
        match k {
            TokenType::PLUS => true,
            TokenType::MINUS => true,
            TokenType::SLASH => true,
            TokenType::ASTERISK => true,
            TokenType::EQ => true,
            TokenType::NOTEQ => true,
            TokenType::LT => true,
            TokenType::GT => true,
            TokenType::LPAREN => true,
            _ => false,
        }
    }

    /// Parses the whole program: statements until `EOF`, appending each
    /// successfully parsed statement and stepping one token onward after
    /// every attempt, so an errored statement costs a single token of
    /// resynchronization.  The result and the diagnostics are exactly
    /// those of the functional model `sp_parse_program` of the starting
    /// state.
    pub fn parse_program(&mut self) -> (r: Program)
        requires
            pwf(old(self)@),
        ensures
            final(self)@ == sp_parse_program(old(self)@).0,
            program_view(&r) == sp_parse_program(old(self)@).1,
            pwf(final(self)@),
    {
        let ghost ps0 = self@;
        let mut program = Program { statements: Vec::new() };
        proof {
            assert(stmts_view(program.statements@) =~= Seq::<StmtModel>::empty());
        }
        while !self.is_curr_token(TokenType::EOF)
            invariant
                ps0 == old(self)@,
                pwf(self@),
                pm(self@) <= pm(ps0),
                sp_program_loop(self@, stmts_view(program.statements@)) == sp_program_loop(
                    ps0,
                    Seq::empty(),
                ),
            decreases pm(self@),
        {
            let ghost psb = self@;
            let ghost accb = stmts_view(program.statements@);
            let statement = self.parse_statement();
            if let Some(stmt) = statement {
                proof {
                    crate::ast::lemma_stmts_view_push(program.statements@, stmt);
                }
                program.statements.push(stmt);
            }
            let ghost ps1 = self@;
            self.next_token();
            proof {
                lemma_sp_advance(ps1);
                assert(pm(self@) < pm(psb));
            }
        }
        program
    }

    /// Parses one statement, dispatching on the current token: `LET`,
    /// `RETURN`, or an expression statement.
    #[verifier::rlimit(100)]
    fn parse_statement(&mut self) -> (r: Option<Statement>)
        requires
            pwf(old(self)@),
        ensures
            final(self)@ == sp_parse_statement(old(self)@).0,
            opt_stmt_view(&r) == sp_parse_statement(old(self)@).1,
            steps_ok(old(self)@, final(self)@),
        decreases pm(self@), 6int,
    {
        if self.is_curr_token(TokenType::LET) {
            match self.parse_let_statement() {
                Some(x) => Some(Statement::Let(x)),
                None => None,
            }
        } else if self.is_curr_token(TokenType::RETURN) {
            match self.parse_return_statement() {
                Some(x) => Some(Statement::Return(x)),
                None => None,
            }
        } else {
            match self.parse_expression_statement() {
                Some(x) => Some(Statement::Expression(x)),
                None => None,
            }
        }
    }

    /// Parses `let IDENT = <expression> ;`: requires the identifier and
    /// the `=`, parses the value at the lowest level, and requires the
    /// trailing semicolon, recording a diagnostic and yielding no
    /// statement whenever one of them is missing.
    fn parse_let_statement(&mut self) -> (r: Option<LetStatement>)
        requires
            pwf(old(self)@),
        ensures
            final(self)@ == sp_parse_let(old(self)@).0,
            opt_let_view(&r) == sp_parse_let(old(self)@).1,
            steps_ok(old(self)@, final(self)@),
        decreases pm(self@), 5int,
    {
        let ghost ps0 = self@;
        let token = self.curr_token.clone();
        if !self.expect_peek(TokenType::IDENT) {
            return None;
        }
        let name = Identifier {
            token: self.curr_token.clone(),
            value: self.curr_token.literal.clone(),
        };
        let ghost ps1 = self@;
        if !self.expect_peek(TokenType::ASSIGN) {
            return None;
        }
        let ghost ps2 = self@;
        self.next_token();
        proof {
            lemma_sp_advance(ps1);
            lemma_sp_advance(ps2);
            assert(pm(self@) < pm(ps0));
        }
        let value = self.parse_expression(Precedence::LOWEST.value() as i32);
        if !self.is_peek_token(TokenType::SEMICOLON) {
            self.missing_semicolon_error();
            return None;
        }
        self.next_token();
        Some(LetStatement { token, name, value })
    }

    /// Parses `return <expression> ;`, with the same semicolon
    /// discipline as `let`.
    fn parse_return_statement(&mut self) -> (r: Option<ReturnStatement>)
        requires
            pwf(old(self)@),
        ensures
            final(self)@ == sp_parse_return(old(self)@).0,
            opt_return_view(&r) == sp_parse_return(old(self)@).1,
            steps_ok(old(self)@, final(self)@),
        decreases pm(self@), 5int,
    {
        let ghost ps0 = self@;
        let token = self.curr_token.clone();
        if !self.is_curr_token(TokenType::RETURN) {
            return None;
        }
        self.next_token();
        proof {
            lemma_sp_advance(ps0);
        }
        let value = self.parse_expression(Precedence::LOWEST.value() as i32);
        if !self.is_peek_token(TokenType::SEMICOLON) {
            self.missing_semicolon_error();
            return None;
        }
        self.next_token();
        Some(ReturnStatement { token, value })
    }

    /// Whether an expression carries its own closing brace.
    fn ends_with_block(e: &Expression) -> (b: bool)
        ensures
            b == sp_ends_with_block(expr_view(e)),
    {
        match e {
            Expression::IfExpression(_) => true,
            Expression::FunctionLiteral(_) => true,
            _ => false,
        }
    }

    /// Parses an expression at the lowest level and its terminator: a
    /// `;` is consumed; a brace ending the statement (the enclosing
    /// block's `}` ahead, or an expression with its own closing brace)
    /// needs none; any other follower draws a missing-semicolon
    /// diagnostic and the statement is discarded.  The statement's token
    /// is the expression's last token, where the parser stands when it
    /// builds the node.
    fn parse_expression_statement(&mut self) -> (r: Option<ExpressionStatement>)
        requires
            pwf(old(self)@),
        ensures
            final(self)@ == sp_parse_expr_stmt(old(self)@).0,
            opt_expr_stmt_view(&r) == sp_parse_expr_stmt(old(self)@).1,
            steps_ok(old(self)@, final(self)@),
        decreases pm(self@), 5int,
    {
        let expr = match self.parse_expression(Precedence::LOWEST.value() as i32) {
            Some(e) => e,
            None => {
                return None;
            },
        };
        let stmt_token = self.curr_token.clone();
        if self.is_peek_token(TokenType::SEMICOLON) {
            self.next_token();
            Some(ExpressionStatement { token: stmt_token, value: expr })
        } else if self.is_peek_token(TokenType::RBRACE) || Self::ends_with_block(&expr) {
            Some(ExpressionStatement { token: stmt_token, value: expr })
        } else {
            self.missing_semicolon_error();
            None
        }
    }

    /// The Pratt core: the prefix parser for the current token produces
    /// the left operand (a token without one records a diagnostic), then
    /// infix operators fold into it while the operator ahead binds
    /// strictly tighter than `precedence`.
    fn parse_expression(&mut self, precedence: i32) -> (r: Option<Expression>)
        requires
            pwf(old(self)@),
        ensures
            final(self)@ == sp_parse_expression(old(self)@, precedence as int).0,
            opt_expr_view(&r) == sp_parse_expression(old(self)@, precedence as int).1,
            steps_ok(old(self)@, final(self)@),
        decreases pm(self@), 4int,
    {
        let ghost ps0 = self@;
        let k = self.curr_token.token_type;
        let left0 = match k {
            TokenType::IDENT => self.parse_identifier(),
            TokenType::INT => self.parse_integer_literal(),
            TokenType::TRUE => self.parse_boolean_literal(),
            TokenType::FALSE => self.parse_boolean_literal(),
            TokenType::BANG => self.parse_prefix_expression(),
            TokenType::MINUS => self.parse_prefix_expression(),
            TokenType::LPAREN => self.parse_grouped_expression(),
            TokenType::IF => self.parse_if_expression(),
            TokenType::FUNCTION => self.parse_function_literal(),
            _ => {
                self.no_prefix_parse_function_error();
                return None;
            },
        };
        let mut left = match left0 {
            Some(l) => l,
            None => {
                return None;
            },
        };
        while !self.is_peek_token(TokenType::SEMICOLON) && precedence < self.peek_precedence()
            invariant
                ps0 == old(self)@,
                pwf(self@),
                pm(self@) <= pm(ps0),
                ps0.curr.kind != TokenType::EOF && self@.curr.kind == TokenType::EOF ==> pm(self@)
                    < pm(ps0),
                sp_infix_loop(self@, expr_view(&left), precedence as int) == sp_parse_expression(
                    ps0,
                    precedence as int,
                ),
            decreases pm(self@),
        {
            let ghost psb = self@;
            let peek_kind = self.peek_token.token_type;
            if !Self::has_infix(peek_kind) {
                return Some(left);
            }
            self.next_token();
            proof {
                lemma_sp_advance(psb);
                assert(pm(self@) < pm(psb));
            }
            let folded = if self.is_curr_token(TokenType::LPAREN) {
                self.parse_call_expression(left)
            } else {
                self.parse_infix_expression(left)
            };
            left = match folded {
                Some(l2) => l2,
                None => {
                    return None;
                },
            };
        }
        Some(left)
    }

    /// Parses the current token as an identifier expression.
    fn parse_identifier(&mut self) -> (r: Option<Expression>)
        requires
            pwf(old(self)@),
        ensures
            final(self)@ == sp_parse_identifier(old(self)@).0,
            opt_expr_view(&r) == sp_parse_identifier(old(self)@).1,
            steps_ok(old(self)@, final(self)@),
        decreases pm(self@), 3int,
    {
        let token = self.curr_token.clone();
        let value = self.curr_token.literal.clone();
        Some(Expression::Identifier(Identifier { token, value }))
    }

    /// Parses the current token as an integer literal: its literal read
    /// as a decimal signed 64-bit value, with an invalid-integer
    /// diagnostic when it does not fit.
    fn parse_integer_literal(&mut self) -> (r: Option<Expression>)
        requires
            pwf(old(self)@),
        ensures
            final(self)@ == sp_parse_integer(old(self)@).0,
            opt_expr_view(&r) == sp_parse_integer(old(self)@).1,
            steps_ok(old(self)@, final(self)@),
        decreases pm(self@), 3int,
    {
        let token = self.curr_token.clone();
        match parse_i64_digits(token.literal.as_str()) {
            Some(value) => Some(
                Expression::IntegerLiteral(IntegerLiteral { token, value }),
            ),
            None => {
                let e = ParserError::invalid_integer(&token);
                self.push_error(e);
                None
            },
        }
    }

    /// Parses the current token as a boolean literal: true exactly when
    /// its kind is `TRUE`.
    fn parse_boolean_literal(&mut self) -> (r: Option<Expression>)
        requires
            pwf(old(self)@),
        ensures
            final(self)@ == sp_parse_boolean(old(self)@).0,
            opt_expr_view(&r) == sp_parse_boolean(old(self)@).1,
            steps_ok(old(self)@, final(self)@),
        decreases pm(self@), 3int,
    {
        let token = self.curr_token.clone();
        let value = self.is_curr_token(TokenType::TRUE);
        Some(Expression::BooleanLiteral(BooleanLiteral { token, value }))
    }

    /// Parses a prefix application: captures the operator, steps past
    /// it, and parses the operand at the `PREFIX` level, so stacked
    /// prefixes nest right-associatively.
    fn parse_prefix_expression(&mut self) -> (r: Option<Expression>)
        requires
            pwf(old(self)@),
            old(self)@.curr.kind != TokenType::EOF,
        ensures
            final(self)@ == sp_parse_prefix(old(self)@).0,
            opt_expr_view(&r) == sp_parse_prefix(old(self)@).1,
            steps_ok(old(self)@, final(self)@),
        decreases pm(self@), 3int,
    {
        let ghost ps0 = self@;
        let token = self.curr_token.clone();
        let operator = self.curr_token.literal.clone();
        self.next_token();
        proof {
            lemma_sp_advance(ps0);
        }
        match self.parse_expression(Precedence::PREFIX.value() as i32) {
            Some(expr) => Some(
                Expression::PrefixExpression(
                    PrefixExpression { token, operator, right: Box::new(expr) },
                ),
            ),
            None => {
                let e = ParserError::prefix_rhs_failed(operator.as_str(), &self.curr_token);
                self.push_error(e);
                None
            },
        }
    }

    /// Parses a parenthesized expression: steps past `(`, parses at the
    /// lowest level, and requires `)`.
    fn parse_grouped_expression(&mut self) -> (r: Option<Expression>)
        requires
            pwf(old(self)@),
            old(self)@.curr.kind != TokenType::EOF,
        ensures
            final(self)@ == sp_parse_grouped(old(self)@).0,
            opt_expr_view(&r) == sp_parse_grouped(old(self)@).1,
            steps_ok(old(self)@, final(self)@),
        decreases pm(self@), 3int,
    {
        let ghost ps0 = self@;
        self.next_token();
        proof {
            lemma_sp_advance(ps0);
        }
        let expr = match self.parse_expression(Precedence::LOWEST.value() as i32) {
            Some(e) => e,
            None => {
                self.error_at_curr(ParserErrorType::FailedToParseGroupedExpression);
                return None;
            },
        };
        if !self.expect_peek(TokenType::RPAREN) {
            return None;
        }
        Some(expr)
    }

    /// Parses `if ( <condition> ) <consequence>` with an optional
    /// `else <alternative>`.
    #[verifier::rlimit(100)]
    fn parse_if_expression(&mut self) -> (r: Option<Expression>)
        requires
            pwf(old(self)@),
        ensures
            final(self)@ == sp_parse_if(old(self)@).0,
            opt_expr_view(&r) == sp_parse_if(old(self)@).1,
            steps_ok(old(self)@, final(self)@),
        decreases pm(self@), 3int,
    {
        let ghost ps0 = self@;
        let token = self.curr_token.clone();
        if !self.expect_peek(TokenType::LPAREN) {
            return None;
        }
        let ghost ps1 = self@;
        self.next_token();
        proof {
            lemma_sp_advance(ps1);
            assert(pm(self@) < pm(ps0));
        }
        let condition = match self.parse_expression(Precedence::LOWEST.value() as i32) {
            Some(e) => e,
            None => {
                self.error_at_curr(ParserErrorType::FailedToParseCondition);
                return None;
            },
        };
        let ghost ps3 = self@;
        if !self.expect_peek(TokenType::RPAREN) {
            return None;
        }
        let ghost ps4 = self@;
        if !self.expect_peek(TokenType::LBRACE) {
            return None;
        }
        proof {
            lemma_sp_advance(ps3);
            lemma_sp_advance(ps4);
            assert(pm(self@) < pm(ps0));
        }
        let consequence = match self.parse_block_statement() {
            Some(b) => b,
            None => {
                self.error_at_curr(ParserErrorType::FailedToParseIfConsequence);
                return None;
            },
        };
        let alternative = if self.is_peek_token(TokenType::ELSE) {
            let ghost ps6 = self@;
            self.next_token();
            let ghost ps7 = self@;
            if !self.expect_peek(TokenType::LBRACE) {
                return None;
            }
            proof {
                lemma_sp_advance(ps6);
                lemma_sp_advance(ps7);
                assert(pm(self@) < pm(ps0));
            }
            match self.parse_block_statement() {
                Some(b) => Some(b),
                None => {
                    self.error_at_curr(ParserErrorType::FailedToParseIfAlternative);
                    return None;
                },
            }
        } else {
            None
        };
        Some(
            Expression::IfExpression(
                IfExpression {
                    token,
                    condition: Box::new(condition),
                    consequence,
                    alternative,
                },
            ),
        )
    }

    /// Parses a block: statements until the closing brace or the end of
    /// input, a diagnostic for each statement that failed, then a
    /// required `}`.
    fn parse_block_statement(&mut self) -> (r: Option<BlockStatement>)
        requires
            pwf(old(self)@),
        ensures
            final(self)@ == sp_parse_block(old(self)@).0,
            opt_block_view(&r) == sp_parse_block(old(self)@).1,
            steps_ok(old(self)@, final(self)@),
        decreases pm(self@), 2int,
    {
        let ghost ps0 = self@;
        let token = self.curr_token.clone();
        let mut statements: Vec<Statement> = Vec::new();
        proof {
            assert(stmts_view(statements@) =~= Seq::<StmtModel>::empty());
        }
        while !self.is_peek_token(TokenType::RBRACE) && !self.is_peek_token(TokenType::EOF)
            invariant
                ps0 == old(self)@,
                pwf(self@),
                pm(self@) <= pm(ps0),
                ps0.curr.kind != TokenType::EOF && self@.curr.kind == TokenType::EOF ==> pm(self@)
                    < pm(ps0),
                sp_block_loop(self@, stmts_view(statements@)) == sp_block_loop(ps0, Seq::empty()),
            decreases pm(self@),
        {
            let ghost psb = self@;
            self.next_token();
            proof {
                lemma_sp_advance(psb);
                assert(pm(self@) < pm(psb));
            }
            match self.parse_statement() {
                Some(stmt) => {
                    proof {
                        crate::ast::lemma_stmts_view_push(statements@, stmt);
                    }
                    statements.push(stmt);
                },
                None => {
                    self.error_at_curr(ParserErrorType::FailedToParseStatementInBlock);
                },
            }
        }
        if !self.expect_peek(TokenType::RBRACE) {
            return None;
        }
        Some(BlockStatement { token, statements })
    }

    /// Parses `fn ( <parameters> ) <body>`.
    #[verifier::rlimit(100)]
    fn parse_function_literal(&mut self) -> (r: Option<Expression>)
        requires
            pwf(old(self)@),
            old(self)@.curr.kind != TokenType::EOF,
        ensures
            final(self)@ == sp_parse_function(old(self)@).0,
            opt_expr_view(&r) == sp_parse_function(old(self)@).1,
            steps_ok(old(self)@, final(self)@),
        decreases pm(self@), 3int,
    {
        let ghost ps0 = self@;
        let token = self.curr_token.clone();
        if !self.expect_peek(TokenType::LPAREN) {
            return None;
        }
        proof {
            lemma_sp_advance(ps0);
        }
        let parameters = match self.parse_function_parameters() {
            Some(p) => p,
            None => {
                self.error_at_curr(ParserErrorType::FailedToParseFunctionParameters);
                return None;
            },
        };
        let ghost ps2 = self@;
        if !self.expect_peek(TokenType::LBRACE) {
            return None;
        }
        proof {
            lemma_sp_advance(ps2);
        }
        let body = match self.parse_block_statement() {
            Some(b) => b,
            None => {
                self.error_at_curr(ParserErrorType::FailedToParseFunctionBody);
                return None;
            },
        };
        Some(Expression::FunctionLiteral(FunctionLiteral { token, parameters, body }))
    }

    /// Parses the parameter list after `fn (`: empty when `)` follows at
    /// once; otherwise tokens read as identifiers, separated by commas,
    /// closed by a required `)`.
    fn parse_function_parameters(&mut self) -> (r: Option<Vec<Identifier>>)
        requires
            pwf(old(self)@),
        ensures
            final(self)@ == sp_parse_fn_params(old(self)@).0,
            opt_params_view(&r) == sp_parse_fn_params(old(self)@).1,
            steps_ok(old(self)@, final(self)@),
        decreases pm(self@), 2int,
    {
        let ghost ps0 = self@;
        let mut parameters: Vec<Identifier> = Vec::new();
        proof {
            assert(idents_view(parameters@) =~= Seq::<IdentModel>::empty());
        }
        if self.is_peek_token(TokenType::RPAREN) {
            self.next_token();
            return Some(parameters);
        }
        self.next_token();
        proof {
            lemma_sp_advance(ps0);
        }
        // Any token here is read as a parameter name: its literal serves
        // as the name, exactly as an identifier expression is read.
        let first_param = Identifier {
            token: self.curr_token.clone(),
            value: self.curr_token.literal.clone(),
        };
        proof {
            crate::ast::lemma_idents_view_push(parameters@, first_param);
        }
        parameters.push(first_param);
        let ghost psa = self@;
        while self.is_peek_token(TokenType::COMMA)
            invariant
                ps0 == old(self)@,
                pwf(self@),
                pm(self@) <= pm(ps0),
                ps0.curr.kind != TokenType::EOF && self@.curr.kind == TokenType::EOF ==> pm(self@)
                    < pm(ps0),
                sp_params_loop(self@, idents_view(parameters@)) == sp_parse_fn_params(ps0),
            decreases pm(self@),
        {
            let ghost psb = self@;
            self.next_token();
            self.next_token();
            proof {
                lemma_sp_advance(psb);
                lemma_sp_advance(sp_advance(psb));
                assert(pm(self@) < pm(psb));
            }
            let identifier = Identifier {
                token: self.curr_token.clone(),
                value: self.curr_token.literal.clone(),
            };
            proof {
                crate::ast::lemma_idents_view_push(parameters@, identifier);
            }
            parameters.push(identifier);
        }
        if !self.expect_peek(TokenType::RPAREN) {
            return None;
        }
        Some(parameters)
    }

    /// Parses a call as the infix form of `(`: the left operand becomes
    /// the callee and the argument list follows.
    #[verifier::rlimit(100)]
    fn parse_call_expression(&mut self, function: Expression) -> (r: Option<Expression>)
        requires
            pwf(old(self)@),
            old(self)@.curr.kind != TokenType::EOF,
        ensures
            final(self)@ == sp_parse_call(old(self)@, expr_view(&function)).0,
            opt_expr_view(&r) == sp_parse_call(old(self)@, expr_view(&function)).1,
            steps_ok(old(self)@, final(self)@),
        decreases pm(self@), 2int,
    {
        let token = self.curr_token.clone();
        let arguments = match self.parse_call_arguments() {
            Some(args) => args,
            None => {
                self.error_at_curr(ParserErrorType::FailedToParseCallArgument);
                return None;
            },
        };
        Some(
            Expression::CallExpression(
                CallExpression { token, function: Box::new(function), arguments },
            ),
        )
    }

    /// Parses the argument list after the call's `(`: empty when `)`
    /// follows at once; otherwise expressions at the lowest level,
    /// separated by commas, closed by `)` — an unclosed list records
    /// both an expected-token and an unclosed-call diagnostic.
    fn parse_call_arguments(&mut self) -> (r: Option<Vec<Expression>>)
        requires
            pwf(old(self)@),
            old(self)@.curr.kind != TokenType::EOF,
        ensures
            final(self)@ == sp_parse_call_args(old(self)@).0,
            opt_args_view(&r) == sp_parse_call_args(old(self)@).1,
            steps_ok(old(self)@, final(self)@),
        decreases pm(self@), 1int,
    {
        let ghost ps0 = self@;
        let mut arguments: Vec<Expression> = Vec::new();
        proof {
            assert(crate::ast::exprs_view(arguments@) =~= Seq::<ExprModel>::empty());
        }
        if self.is_peek_token(TokenType::RPAREN) {
            self.next_token();
            return Some(arguments);
        }
        self.next_token();
        proof {
            lemma_sp_advance(ps0);
        }
        let first_arg = match self.parse_expression(Precedence::LOWEST.value() as i32) {
            Some(a) => a,
            None => {
                self.error_at_curr(ParserErrorType::FailedToParseCallArgument);
                return None;
            },
        };
        proof {
            crate::ast::lemma_exprs_view_push(arguments@, first_arg);
        }
        arguments.push(first_arg);
        let ghost psa = self@;
        while self.is_peek_token(TokenType::COMMA)
            invariant
                ps0 == old(self)@,
                pwf(self@),
                pm(self@) <= pm(ps0),
                ps0.curr.kind != TokenType::EOF && self@.curr.kind == TokenType::EOF ==> pm(self@)
                    < pm(ps0),
                sp_args_loop(self@, crate::ast::exprs_view(arguments@)) == sp_parse_call_args(
                    ps0,
                ),
            decreases pm(self@),
        {
            let ghost psb = self@;
            self.next_token();
            self.next_token();
            proof {
                lemma_sp_advance(psb);
                lemma_sp_advance(sp_advance(psb));
                assert(pm(self@) < pm(psb));
            }
            let arg = match self.parse_expression(Precedence::LOWEST.value() as i32) {
                Some(a) => a,
                None => {
                    self.error_at_curr(ParserErrorType::FailedToParseCallArgument);
                    return None;
                },
            };
            proof {
                crate::ast::lemma_exprs_view_push(arguments@, arg);
            }
            arguments.push(arg);
        }
        if !self.expect_peek(TokenType::RPAREN) {
            let e = ParserError::unclosed_call(&self.peek_token);
            self.push_error(e);
            return None;
        }
        Some(arguments)
    }

    /// Parses an infix application: captures the operator and its level,
    /// steps past it, and parses the right operand at that level, so
    /// operators of equal level nest left-associatively.
    fn parse_infix_expression(&mut self, left: Expression) -> (r: Option<Expression>)
        requires
            pwf(old(self)@),
            old(self)@.curr.kind != TokenType::EOF,
        ensures
            final(self)@ == sp_parse_infix(old(self)@, expr_view(&left)).0,
            opt_expr_view(&r) == sp_parse_infix(old(self)@, expr_view(&left)).1,
            steps_ok(old(self)@, final(self)@),
        decreases pm(self@), 2int,
    {
        let ghost ps0 = self@;
        let token = self.curr_token.clone();
        let operator = self.curr_token.literal.clone();
        let precedence = self.curr_precedence();
        self.next_token();
        proof {
            lemma_sp_advance(ps0);
        }
        match self.parse_expression(precedence) {
            Some(expr) => Some(
                Expression::InfixExpression(
                    InfixExpression {
                        token,
                        left: Box::new(left),
                        operator,
                        right: Box::new(expr),
                    },
                ),
            ),
            None => {
                let e = ParserError::infix_rhs_failed(operator.as_str(), &self.curr_token);
                self.push_error(e);
                None
            },
        }
    }
}


/// One diagnostics sequence extends another: nothing recorded is ever
/// dropped or altered, entries are only appended.
pub open spec fn errors_extend(a: Seq<ErrorModel>, b: Seq<ErrorModel>) -> bool {
    &&& a.len() <= b.len()
    &&& forall|i: int| 0 <= i < a.len() ==> a[i] == b[i]
}

/// What every parsing step guarantees of the state: diagnostics only
/// grow, and from a well-formed state the step keeps the state
/// well-formed and the measure bounded.
pub open spec fn sp_ok(pre: ParserModel, post: ParserModel) -> bool {
    &&& errors_extend(pre.errors, post.errors)
    &&& (pwf(pre) ==> steps_ok(pre, post))
}

/// Error observability for the program driver: the diagnostics present
/// before the call are still present, unchanged and in order, after it;
/// a call sequence that records any diagnostic therefore leaves the list
/// non-empty, and a fully clean parse leaves a fresh parser's list
/// empty.
#[verifier::rlimit(100)]
pub proof fn lemma_errs_parse_program(ps: ParserModel)
    ensures
        sp_ok(ps, sp_parse_program(ps).0),
    decreases pm(ps), 8int,
{
    lemma_errs_program_loop(ps, Seq::empty());
}

#[verifier::rlimit(100)]
proof fn lemma_errs_program_loop(ps: ParserModel, acc: Seq<StmtModel>)
    ensures
        sp_ok(ps, sp_program_loop(ps, acc).0),
    decreases pm(ps), 7int,
{
    if ps.curr.kind != TokenType::EOF {
        lemma_errs_parse_statement(ps);
        let (ps1, st) = sp_parse_statement(ps);
        let acc1 = match st {
            Some(s) => acc.push(s),
            None => acc,
        };
        lemma_sp_advance(ps1);
        let ps2 = sp_advance(ps1);
        if pm(ps2) < pm(ps) {
            lemma_errs_program_loop(ps2, acc1);
        }
    }
}

/// Error observability for one statement: diagnostics only grow, and
/// from a well-formed state a statement that fails to parse records at
/// least one diagnostic.
#[verifier::rlimit(100)]
pub proof fn lemma_errs_parse_statement(ps: ParserModel)
    ensures
        sp_ok(ps, sp_parse_statement(ps).0),
        pwf(ps) && sp_parse_statement(ps).1 is None ==> sp_parse_statement(ps).0.errors.len()
            > ps.errors.len(),
    decreases pm(ps), 6int,
{
    if ps.curr.kind == TokenType::LET {
        lemma_errs_parse_let(ps);
    } else if ps.curr.kind == TokenType::RETURN {
        lemma_errs_parse_return(ps);
    } else {
        lemma_errs_parse_expr_stmt(ps);
    }
}

#[verifier::rlimit(100)]
proof fn lemma_errs_parse_let(ps: ParserModel)
    ensures
        sp_ok(ps, sp_parse_let(ps).0),
        pwf(ps) && sp_parse_let(ps).1 is None ==> sp_parse_let(ps).0.errors.len()
            > ps.errors.len(),
    decreases pm(ps), 5int,
{
    let (ps1, ok1) = sp_expect_peek(ps, TokenType::IDENT);
    lemma_sp_advance(ps);
    if ok1 {
        let (ps2, ok2) = sp_expect_peek(ps1, TokenType::ASSIGN);
        lemma_sp_advance(ps1);
        if ok2 {
            let ps3 = sp_advance(ps2);
            lemma_sp_advance(ps2);
            if pm(ps3) < pm(ps) {
                lemma_errs_parse_expression(ps3, 1);
            }
            let (ps4, value) = if pm(ps3) < pm(ps) {
                sp_parse_expression(ps3, 1)
            } else {
                (ps3, None)
            };
            lemma_sp_advance(ps4);
        }
    }
}

#[verifier::rlimit(100)]
proof fn lemma_errs_parse_return(ps: ParserModel)
    ensures
        sp_ok(ps, sp_parse_return(ps).0),
        pwf(ps) && ps.curr.kind == TokenType::RETURN && sp_parse_return(ps).1 is None
            ==> sp_parse_return(ps).0.errors.len() > ps.errors.len(),
    decreases pm(ps), 5int,
{
    if ps.curr.kind == TokenType::RETURN {
        let ps1 = sp_advance(ps);
        lemma_sp_advance(ps);
        if pm(ps1) < pm(ps) {
            lemma_errs_parse_expression(ps1, 1);
        }
        let (ps2, value) = if pm(ps1) < pm(ps) {
            sp_parse_expression(ps1, 1)
        } else {
            (ps1, None)
        };
        lemma_sp_advance(ps2);
    }
}

#[verifier::rlimit(100)]
proof fn lemma_errs_parse_expr_stmt(ps: ParserModel)
    ensures
        sp_ok(ps, sp_parse_expr_stmt(ps).0),
        pwf(ps) && sp_parse_expr_stmt(ps).1 is None ==> sp_parse_expr_stmt(ps).0.errors.len()
            > ps.errors.len(),
    decreases pm(ps), 5int,
{
    lemma_errs_parse_expression(ps, 1);
    let (ps1, e) = sp_parse_expression(ps, 1);
    lemma_sp_advance(ps1);
}

#[verifier::rlimit(100)]
proof fn lemma_errs_parse_expression(ps: ParserModel, prec: int)
    ensures
        sp_ok(ps, sp_parse_expression(ps, prec).0),
        pwf(ps) && sp_parse_expression(ps, prec).1 is None ==> sp_parse_expression(
            ps,
            prec,
        ).0.errors.len() > ps.errors.len(),
    decreases pm(ps), 4int,
{
    let k = ps.curr.kind;
    if k == TokenType::IDENT || k == TokenType::INT || k == TokenType::TRUE || k
        == TokenType::FALSE || k == TokenType::BANG || k == TokenType::MINUS || k
        == TokenType::LPAREN || k == TokenType::IF || k == TokenType::FUNCTION {
        if k == TokenType::INT {
            lemma_errs_parse_integer(ps);
        } else if k == TokenType::BANG || k == TokenType::MINUS {
            lemma_errs_parse_prefix(ps);
        } else if k == TokenType::LPAREN {
            lemma_errs_parse_grouped(ps);
        } else if k == TokenType::IF {
            lemma_errs_parse_if(ps);
        } else if k == TokenType::FUNCTION {
            lemma_errs_parse_function(ps);
        }
        let (ps1, left0) = if k == TokenType::IDENT {
            sp_parse_identifier(ps)
        } else if k == TokenType::INT {
            sp_parse_integer(ps)
        } else if k == TokenType::TRUE || k == TokenType::FALSE {
            sp_parse_boolean(ps)
        } else if k == TokenType::BANG || k == TokenType::MINUS {
            sp_parse_prefix(ps)
        } else if k == TokenType::LPAREN {
            sp_parse_grouped(ps)
        } else if k == TokenType::IF {
            sp_parse_if(ps)
        } else {
            sp_parse_function(ps)
        };
        match left0 {
            None => {},
            Some(l) => {
                if pm(ps1) <= pm(ps) {
                    lemma_errs_infix_loop(ps1, l, prec);
                }
            },
        }
    }
}

#[verifier::rlimit(100)]
proof fn lemma_errs_infix_loop(ps: ParserModel, left: ExprModel, prec: int)
    ensures
        sp_ok(ps, sp_infix_loop(ps, left, prec).0),
        pwf(ps) && sp_infix_loop(ps, left, prec).1 is None ==> sp_infix_loop(
            ps,
            left,
            prec,
        ).0.errors.len() > ps.errors.len(),
    decreases pm(ps), 3int,
{
    if ps.peek.kind != TokenType::SEMICOLON && prec < spec_token_precedence(ps.peek.kind) {
        if sp_is_infix(ps.peek.kind) {
            let ps1 = sp_advance(ps);
            lemma_sp_advance(ps);
            if pm(ps1) < pm(ps) {
                if ps1.curr.kind == TokenType::LPAREN {
                    lemma_errs_parse_call(ps1, left);
                } else {
                    lemma_errs_parse_infix(ps1, left);
                }
            }
            let (ps2, r) = if pm(ps1) < pm(ps) {
                if ps1.curr.kind == TokenType::LPAREN {
                    sp_parse_call(ps1, left)
                } else {
                    sp_parse_infix(ps1, left)
                }
            } else {
                (ps1, None)
            };
            match r {
                None => {},
                Some(l2) => {
                    if pm(ps2) < pm(ps) {
                        lemma_errs_infix_loop(ps2, l2, prec);
                    }
                },
            }
        }
    }
}

#[verifier::rlimit(100)]
proof fn lemma_errs_parse_integer(ps: ParserModel)
    ensures
        sp_ok(ps, sp_parse_integer(ps).0),
        sp_parse_integer(ps).1 is None ==> sp_parse_integer(ps).0.errors.len() > ps.errors.len(),
    decreases pm(ps), 3int,
{
}

#[verifier::rlimit(100)]
proof fn lemma_errs_parse_prefix(ps: ParserModel)
    ensures
        sp_ok(ps, sp_parse_prefix(ps).0),
        sp_parse_prefix(ps).1 is None ==> sp_parse_prefix(ps).0.errors.len() > ps.errors.len(),
    decreases pm(ps), 3int,
{
    let ps1 = sp_advance(ps);
    lemma_sp_advance(ps);
    if pm(ps1) < pm(ps) {
        lemma_errs_parse_expression(ps1, 6);
    }
}

#[verifier::rlimit(100)]
proof fn lemma_errs_parse_grouped(ps: ParserModel)
    ensures
        sp_ok(ps, sp_parse_grouped(ps).0),
        sp_parse_grouped(ps).1 is None ==> sp_parse_grouped(ps).0.errors.len() > ps.errors.len(),
    decreases pm(ps), 3int,
{
    let ps1 = sp_advance(ps);
    lemma_sp_advance(ps);
    if pm(ps1) < pm(ps) {
        lemma_errs_parse_expression(ps1, 1);
    }
    let (ps2, r) = if pm(ps1) < pm(ps) {
        sp_parse_expression(ps1, 1)
    } else {
        (ps1, None)
    };
    if r is Some {
        lemma_sp_advance(ps2);
    }
}

#[verifier::rlimit(100)]
proof fn lemma_errs_parse_if(ps: ParserModel)
    ensures
        sp_ok(ps, sp_parse_if(ps).0),
        sp_parse_if(ps).1 is None ==> sp_parse_if(ps).0.errors.len() > ps.errors.len(),
    decreases pm(ps), 3int,
{
    let (ps1, ok1) = sp_expect_peek(ps, TokenType::LPAREN);
    lemma_sp_advance(ps);
    if ok1 {
        let ps2 = sp_advance(ps1);
        lemma_sp_advance(ps1);
        if pm(ps2) < pm(ps) {
            lemma_errs_parse_expression(ps2, 1);
        }
        let (ps3, cond) = if pm(ps2) < pm(ps) {
            sp_parse_expression(ps2, 1)
        } else {
            (ps2, None)
        };
        match cond {
            None => {},
            Some(c) => {
                let (ps4, ok4) = sp_expect_peek(ps3, TokenType::RPAREN);
                lemma_sp_advance(ps3);
                if ok4 {
                    let (ps5, ok5) = sp_expect_peek(ps4, TokenType::LBRACE);
                    lemma_sp_advance(ps4);
                    if ok5 {
                        if pm(ps5) < pm(ps) {
                            lemma_errs_parse_block(ps5);
                        }
                        let (ps6, cons) = if pm(ps5) < pm(ps) {
                            sp_parse_block(ps5)
                        } else {
                            (ps5, None)
                        };
                        match cons {
                            None => {},
                            Some(consq) => {
                                if ps6.peek.kind == TokenType::ELSE {
                                    let ps7 = sp_advance(ps6);
                                    lemma_sp_advance(ps6);
                                    let (ps8, ok8) = sp_expect_peek(ps7, TokenType::LBRACE);
                                    lemma_sp_advance(ps7);
                                    if ok8 {
                                        if pm(ps8) < pm(ps) {
                                            lemma_errs_parse_block(ps8);
                                        }
                                    }
                                }
                            },
                        }
                    }
                }
            },
        }
    }
}

#[verifier::rlimit(100)]
proof fn lemma_errs_parse_block(ps: ParserModel)
    ensures
        sp_ok(ps, sp_parse_block(ps).0),
        sp_parse_block(ps).1 is None ==> sp_parse_block(ps).0.errors.len() > ps.errors.len(),
    decreases pm(ps), 2int,
{
    lemma_errs_block_loop(ps, Seq::empty());
    let (ps1, stmts) = sp_block_loop(ps, Seq::empty());
    lemma_sp_advance(ps1);
}

#[verifier::rlimit(100)]
proof fn lemma_errs_block_loop(ps: ParserModel, acc: Seq<StmtModel>)
    ensures
        sp_ok(ps, sp_block_loop(ps, acc).0),
    decreases pm(ps), 1int,
{
    if ps.peek.kind != TokenType::RBRACE && ps.peek.kind != TokenType::EOF {
        let ps1 = sp_advance(ps);
        lemma_sp_advance(ps);
        if pm(ps1) < pm(ps) {
            lemma_errs_parse_statement(ps1);
        }
        let (ps2, st) = if pm(ps1) < pm(ps) {
            sp_parse_statement(ps1)
        } else {
            (ps1, None)
        };
        let (ps3, acc1) = match st {
            Some(s) => (ps2, acc.push(s)),
            None => (
                sp_push(ps2, m_at_token(ErrorKindModel::FailedToParseStatementInBlock, ps2.curr)),
                acc,
            ),
        };
        if pm(ps3) < pm(ps) {
            lemma_errs_block_loop(ps3, acc1);
        }
    }
}

#[verifier::rlimit(100)]
proof fn lemma_errs_parse_function(ps: ParserModel)
    ensures
        sp_ok(ps, sp_parse_function(ps).0),
        sp_parse_function(ps).1 is None ==> sp_parse_function(ps).0.errors.len() > ps.errors.len(),
    decreases pm(ps), 3int,
{
    let (ps1, ok1) = sp_expect_peek(ps, TokenType::LPAREN);
    lemma_sp_advance(ps);
    if ok1 {
        if pm(ps1) < pm(ps) {
            lemma_errs_parse_fn_params(ps1);
        }
        let (ps2, params) = if pm(ps1) < pm(ps) {
            sp_parse_fn_params(ps1)
        } else {
            (ps1, None)
        };
        match params {
            None => {},
            Some(prms) => {
                let (ps3, ok3) = sp_expect_peek(ps2, TokenType::LBRACE);
                lemma_sp_advance(ps2);
                if ok3 {
                    if pm(ps3) < pm(ps) {
                        lemma_errs_parse_block(ps3);
                    }
                }
            },
        }
    }
}

#[verifier::rlimit(100)]
proof fn lemma_errs_parse_fn_params(ps: ParserModel)
    ensures
        sp_ok(ps, sp_parse_fn_params(ps).0),
        pwf(ps) && sp_parse_fn_params(ps).1 is None ==> sp_parse_fn_params(ps).0.errors.len()
            > ps.errors.len(),
    decreases pm(ps), 2int,
{
    if ps.peek.kind == TokenType::RPAREN {
        lemma_sp_advance(ps);
    } else {
        let ps1 = sp_advance(ps);
        lemma_sp_advance(ps);
        if pm(ps1) <= pm(ps) {
            lemma_errs_params_loop(ps1, Seq::empty().push(sp_ident_of(ps1.curr)));
        }
    }
}

#[verifier::rlimit(100)]
proof fn lemma_errs_params_loop(ps: ParserModel, acc: Seq<IdentModel>)
    ensures
        sp_ok(ps, sp_params_loop(ps, acc).0),
        pwf(ps) && sp_params_loop(ps, acc).1 is None ==> sp_params_loop(ps, acc).0.errors.len()
            > ps.errors.len(),
    decreases pm(ps), 1int,
{
    if ps.peek.kind == TokenType::COMMA {
        let psm = sp_advance(ps);
        let ps1 = sp_advance(psm);
        lemma_sp_advance(ps);
        lemma_sp_advance(psm);
        let acc1 = acc.push(sp_ident_of(ps1.curr));
        if pm(ps1) < pm(ps) {
            lemma_errs_params_loop(ps1, acc1);
        }
    } else {
        lemma_sp_advance(ps);
    }
}

#[verifier::rlimit(100)]
proof fn lemma_errs_parse_call(ps: ParserModel, callee: ExprModel)
    ensures
        sp_ok(ps, sp_parse_call(ps, callee).0),
        sp_parse_call(ps, callee).1 is None ==> sp_parse_call(ps, callee).0.errors.len()
            > ps.errors.len(),
    decreases pm(ps), 2int,
{
    lemma_errs_parse_call_args(ps);
}

#[verifier::rlimit(100)]
proof fn lemma_errs_parse_call_args(ps: ParserModel)
    ensures
        sp_ok(ps, sp_parse_call_args(ps).0),
    decreases pm(ps), 1int,
{
    if ps.peek.kind == TokenType::RPAREN {
        lemma_sp_advance(ps);
    } else {
        let ps1 = sp_advance(ps);
        lemma_sp_advance(ps);
        if pm(ps1) < pm(ps) {
            lemma_errs_parse_expression(ps1, 1);
        }
        let (ps2, a0) = if pm(ps1) < pm(ps) {
            sp_parse_expression(ps1, 1)
        } else {
            (ps1, None)
        };
        match a0 {
            None => {},
            Some(a) => {
                if pm(ps2) <= pm(ps) {
                    lemma_errs_args_loop(ps2, Seq::empty().push(a));
                }
            },
        }
    }
}

#[verifier::rlimit(100)]
proof fn lemma_errs_args_loop(ps: ParserModel, acc: Seq<ExprModel>)
    ensures
        sp_ok(ps, sp_args_loop(ps, acc).0),
    decreases pm(ps), 0int,
{
    if ps.peek.kind == TokenType::COMMA {
        let psm = sp_advance(ps);
        let ps1 = sp_advance(psm);
        lemma_sp_advance(ps);
        lemma_sp_advance(psm);
        if pm(ps1) < pm(ps) {
            lemma_errs_parse_expression(ps1, 1);
        }
        let (ps2, a) = if pm(ps1) < pm(ps) {
            sp_parse_expression(ps1, 1)
        } else {
            (ps1, None)
        };
        match a {
            None => {},
            Some(x) => {
                if pm(ps2) < pm(ps) {
                    lemma_errs_args_loop(ps2, acc.push(x));
                }
            },
        }
    } else {
        lemma_sp_advance(ps);
    }
}

#[verifier::rlimit(100)]
proof fn lemma_errs_parse_infix(ps: ParserModel, left: ExprModel)
    ensures
        sp_ok(ps, sp_parse_infix(ps, left).0),
        sp_parse_infix(ps, left).1 is None ==> sp_parse_infix(ps, left).0.errors.len()
            > ps.errors.len(),
    decreases pm(ps), 2int,
{
    let ps1 = sp_advance(ps);
    lemma_sp_advance(ps);
    if pm(ps1) < pm(ps) {
        lemma_errs_parse_expression(ps1, spec_token_precedence(ps.curr.kind));
    }
}

} // verus!
