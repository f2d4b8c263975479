//! The pretty-printer: the canonical string form of every node.
//!
//! The printer canonicalizes parenthesization: every prefix application
//! prints as `(<op><right>)` and every infix application as
//! `(<left> <op> <right>)`, so the printed form exhibits the precedence
//! structure of the tree exactly.  Blocks print their statements with no
//! separator and no braces; `if` joins its parts without spaces.  These
//! strings are the oracle the tests compare against.

use vstd::prelude::*;

use crate::ast::{
    block_view, bool_literal_view, call_view, expr_stmt_view, expr_view, fn_literal_view, if_view,
    infix_view, int_literal_view, let_stmt_view, prefix_view, program_view, return_stmt_view,
    stmt_view, stmts_view, BlockModel, BlockStatement, BooleanLiteral, CallExpression, ExprModel,
    Expression, ExpressionStatement, FunctionLiteral, IdentModel, Identifier, IfExpression,
    InfixExpression, IntegerLiteral, LetStatement, Literal, PrefixExpression, Program,
    ReturnStatement, Statement, StmtModel,
};
use crate::digits::{i64_string, i64_to_digits};

verus! {

/// The printed form of an expression model.
pub open spec fn print_expr(e: ExprModel) -> Seq<char>
    decreases e,
{
    match e {
        ExprModel::Ident(i) => i.value,
        ExprModel::Int { token, value } => i64_to_digits(value),
        ExprModel::Bool { token, value } => if value {
            "true"@
        } else {
            "false"@
        },
        ExprModel::Prefix { token, operator, right } => "("@ + operator + print_expr(*right)
            + ")"@,
        ExprModel::Infix { token, left, operator, right } => "("@ + print_expr(*left) + " "@
            + operator + " "@ + print_expr(*right) + ")"@,
        ExprModel::If { token, condition, consequence, alternative } => "if"@ + print_expr(
            *condition,
        ) + print_block(consequence) + match alternative {
            Some(a) => "else "@ + print_block(a),
            None => Seq::empty(),
        },
        ExprModel::Fn { token, parameters, body } => "fn("@ + print_params(parameters) + ") "@
            + print_block(body),
        ExprModel::Call { token, function, arguments } => print_expr(*function) + "("@
            + print_args(arguments) + ")"@,
    }
}

/// The printed form of a parameter list: names joined by ", ".
pub open spec fn print_params(ps: Seq<IdentModel>) -> Seq<char>
    decreases ps,
{
    if ps.len() == 0 {
        Seq::empty()
    } else if ps.len() == 1 {
        ps[0].value
    } else {
        print_params(ps.subrange(0, ps.len() - 1)) + ", "@ + ps[ps.len() - 1].value
    }
}

/// The printed form of an argument list: expressions joined by ", ".
pub open spec fn print_args(es: Seq<ExprModel>) -> Seq<char>
    decreases es,
{
    if es.len() == 0 {
        Seq::empty()
    } else if es.len() == 1 {
        print_expr(es[0])
    } else {
        print_args(es.subrange(0, es.len() - 1)) + ", "@ + print_expr(es[es.len() - 1])
    }
}

/// The printed form of a block model: its statements, concatenated with
/// no separator and no braces.
pub open spec fn print_block(b: BlockModel) -> Seq<char>
    decreases b,
{
    print_stmts(b.statements)
}

/// The printed forms of a statement sequence, concatenated.
pub open spec fn print_stmts(ss: Seq<StmtModel>) -> Seq<char>
    decreases ss,
{
    if ss.len() == 0 {
        Seq::empty()
    } else {
        print_stmts(ss.subrange(0, ss.len() - 1)) + print_stmt(ss[ss.len() - 1])
    }
}

/// The printed form of a statement model.
pub open spec fn print_stmt(s: StmtModel) -> Seq<char>
    decreases s,
{
    match s {
        StmtModel::Let { token, name, value } => token.literal + " "@ + name.value + " = "@
            + match value {
            Some(e) => print_expr(e),
            None => Seq::empty(),
        } + ";"@,
        StmtModel::Return { token, value } => token.literal + " "@ + match value {
            Some(e) => print_expr(e),
            None => Seq::empty(),
        } + ";"@,
        StmtModel::Expr { token, value } => print_expr(value),
    }
}

impl Identifier {
    /// The printed form of an identifier: its name.
    pub fn to_string(&self) -> (r: String)
        ensures
            r@ == print_expr(ExprModel::Ident(crate::ast::ident_view(self))),
    {
        self.value.clone()
    }
}

impl IntegerLiteral {
    /// The printed form of an integer literal: its value in decimal.
    pub fn to_string(&self) -> (r: String)
        ensures
            r@ == print_expr(int_literal_view(self)),
    {
        i64_string(self.value)
    }
}

impl BooleanLiteral {
    /// The printed form of a boolean literal: `true` or `false`.
    pub fn to_string(&self) -> (r: String)
        ensures
            r@ == print_expr(bool_literal_view(self)),
    {
        if self.value {
            String::from_str("true")
        } else {
            String::from_str("false")
        }
    }
}

impl PrefixExpression {
    /// The printed form `(<op><right>)`.
    pub fn to_string(&self) -> (r: String)
        ensures
            r@ == print_expr(prefix_view(self)),
        decreases *self,
    {
        let mut r = String::from_str("(");
        r.append(self.operator.as_str());
        let right = (*self.right).to_string();
        r.append(right.as_str());
        r.append(")");
        r
    }
}

impl InfixExpression {
    /// The printed form `(<left> <op> <right>)`.
    pub fn to_string(&self) -> (r: String)
        ensures
            r@ == print_expr(infix_view(self)),
        decreases *self,
    {
        let mut r = String::from_str("(");
        let left = (*self.left).to_string();
        r.append(left.as_str());
        r.append(" ");
        r.append(self.operator.as_str());
        r.append(" ");
        let right = (*self.right).to_string();
        r.append(right.as_str());
        r.append(")");
        r
    }
}

impl IfExpression {
    /// The printed form `if<cond><consequence>`, then `else <alternative>`
    /// when an alternative is present; the parts are joined without
    /// spaces.
    pub fn to_string(&self) -> (r: String)
        ensures
            r@ == print_expr(if_view(self)),
        decreases *self,
    {
        let mut r = String::from_str("if");
        let cond = (*self.condition).to_string();
        r.append(cond.as_str());
        let cons = self.consequence.to_string();
        r.append(cons.as_str());
        match &self.alternative {
            Some(a) => {
                r.append("else ");
                let alt = a.to_string();
                r.append(alt.as_str());
            },
            None => {},
        }
        r
    }
}

impl BlockStatement {
    /// The printed form of a block: its statements concatenated, braces
    /// not printed.
    pub fn to_string(&self) -> (r: String)
        ensures
            r@ == print_block(block_view(self)),
        decreases *self,
    {
        let mut r = String::new();
        let n = self.statements.len();
        let mut i: usize = 0;
        while i < n
            invariant
                n == self.statements@.len(),
                0 <= i <= n,
                r@ == print_stmts(stmts_view(self.statements@.subrange(0, i as int))),
            decreases n - i,
        {
            let s = self.statements[i].to_string();
            r.append(s.as_str());
            proof {
                let v = self.statements@;
                let pre = v.subrange(0, i as int);
                let cur = v.subrange(0, i + 1);
                assert(cur.subrange(0, i as int) =~= pre);
                crate::ast::lemma_stmts_view(pre);
                crate::ast::lemma_stmts_view(cur);
                assert(stmts_view(cur) == stmts_view(cur.subrange(0, i as int)).push(
                    stmt_view(&cur[i as int]),
                ));
                assert(stmts_view(cur).subrange(0, i as int) =~= stmts_view(pre));
            }
            i = i + 1;
        }
        proof {
            assert(self.statements@.subrange(0, n as int) =~= self.statements@);
        }
        r
    }
}

impl FunctionLiteral {
    /// The printed form `fn(<p1>, <p2>, ...) <body>`.
    pub fn to_string(&self) -> (r: String)
        ensures
            r@ == print_expr(fn_literal_view(self)),
        decreases *self,
    {
        let mut r = String::from_str("fn(");
        let n = self.parameters.len();
        let mut i: usize = 0;
        while i < n
            invariant
                n == self.parameters@.len(),
                0 <= i <= n,
                r@ == "fn("@ + print_params(
                    crate::ast::idents_view(self.parameters@.subrange(0, i as int)),
                ),
            decreases n - i,
        {
            if i > 0 {
                r.append(", ");
            }
            r.append(self.parameters[i].value.as_str());
            proof {
                let v = self.parameters@;
                let pre = v.subrange(0, i as int);
                let cur = v.subrange(0, i + 1);
                assert(cur.subrange(0, i as int) =~= pre);
                crate::ast::lemma_idents_view(pre);
                crate::ast::lemma_idents_view(cur);
                assert(crate::ast::idents_view(cur) == crate::ast::idents_view(
                    cur.subrange(0, i as int),
                ).push(crate::ast::ident_view(&cur[i as int])));
                if i > 0 {
                    assert(crate::ast::idents_view(cur).subrange(
                        0,
                        crate::ast::idents_view(cur).len() - 1,
                    ) =~= crate::ast::idents_view(pre));
                }
            }
            i = i + 1;
        }
        r.append(") ");
        let body = self.body.to_string();
        r.append(body.as_str());
        proof {
            assert(self.parameters@.subrange(0, n as int) =~= self.parameters@);
        }
        r
    }
}

impl CallExpression {
    /// The printed form `<callee>(<a1>, <a2>, ...)`.
    pub fn to_string(&self) -> (r: String)
        ensures
            r@ == print_expr(call_view(self)),
        decreases *self,
    {
        let mut r = (*self.function).to_string();
        r.append("(");
        let n = self.arguments.len();
        let mut i: usize = 0;
        while i < n
            invariant
                n == self.arguments@.len(),
                0 <= i <= n,
                r@ == print_expr(expr_view(&*self.function)) + "("@ + print_args(
                    crate::ast::exprs_view(self.arguments@.subrange(0, i as int)),
                ),
            decreases n - i,
        {
            if i > 0 {
                r.append(", ");
            }
            let a = self.arguments[i].to_string();
            r.append(a.as_str());
            proof {
                let v = self.arguments@;
                let pre = v.subrange(0, i as int);
                let cur = v.subrange(0, i + 1);
                assert(cur.subrange(0, i as int) =~= pre);
                crate::ast::lemma_exprs_view(pre);
                crate::ast::lemma_exprs_view(cur);
                assert(crate::ast::exprs_view(cur) == crate::ast::exprs_view(
                    cur.subrange(0, i as int),
                ).push(expr_view(&cur[i as int])));
                if i > 0 {
                    assert(crate::ast::exprs_view(cur).subrange(
                        0,
                        crate::ast::exprs_view(cur).len() - 1,
                    ) =~= crate::ast::exprs_view(pre));
                }
            }
            i = i + 1;
        }
        r.append(")");
        proof {
            assert(self.arguments@.subrange(0, n as int) =~= self.arguments@);
        }
        r
    }
}

impl Expression {
    /// The printed form of the expression, by variant.
    pub fn to_string(&self) -> (r: String)
        ensures
            r@ == print_expr(expr_view(self)),
        decreases *self,
    {
        match self {
            Expression::Identifier(x) => x.to_string(),
            Expression::IntegerLiteral(x) => x.to_string(),
            Expression::BooleanLiteral(x) => x.to_string(),
            Expression::PrefixExpression(x) => x.to_string(),
            Expression::InfixExpression(x) => x.to_string(),
            Expression::IfExpression(x) => x.to_string(),
            Expression::FunctionLiteral(x) => x.to_string(),
            Expression::CallExpression(x) => x.to_string(),
        }
    }
}

impl LetStatement {
    /// The printed form `let <name> = <value>;`, emitted verbatim with an
    /// empty value part when the value is absent.
    pub fn to_string(&self) -> (r: String)
        ensures
            r@ == print_stmt(let_stmt_view(self)),
        decreases *self,
    {
        let mut r = self.token.literal.clone();
        r.append(" ");
        r.append(self.name.value.as_str());
        r.append(" = ");
        match &self.value {
            Some(e) => {
                let v = e.to_string();
                r.append(v.as_str());
            },
            None => {},
        }
        r.append(";");
        r
    }
}

impl ReturnStatement {
    /// The printed form `return <value>;`, with an empty value part when
    /// the value is absent.
    pub fn to_string(&self) -> (r: String)
        ensures
            r@ == print_stmt(return_stmt_view(self)),
        decreases *self,
    {
        let mut r = self.token.literal.clone();
        r.append(" ");
        match &self.value {
            Some(e) => {
                let v = e.to_string();
                r.append(v.as_str());
            },
            None => {},
        }
        r.append(";");
        r
    }
}

impl ExpressionStatement {
    /// The printed form of the wrapped expression, with no semicolon
    /// appended.
    pub fn to_string(&self) -> (r: String)
        ensures
            r@ == print_stmt(expr_stmt_view(self)),
        decreases *self,
    {
        self.value.to_string()
    }
}

impl Statement {
    /// The printed form of the statement, by variant.
    pub fn to_string(&self) -> (r: String)
        ensures
            r@ == print_stmt(stmt_view(self)),
        decreases *self,
    {
        match self {
            Statement::Let(x) => x.to_string(),
            Statement::Return(x) => x.to_string(),
            Statement::Expression(x) => x.to_string(),
        }
    }
}

impl Program {
    /// The printed form of the program: the concatenation of its
    /// statements' printed forms.
    pub fn to_string(&self) -> (r: String)
        ensures
            r@ == print_stmts(program_view(self)),
    {
        let mut r = String::new();
        let n = self.statements.len();
        let mut i: usize = 0;
        while i < n
            invariant
                n == self.statements@.len(),
                0 <= i <= n,
                r@ == print_stmts(stmts_view(self.statements@.subrange(0, i as int))),
            decreases n - i,
        {
            let s = self.statements[i].to_string();
            r.append(s.as_str());
            proof {
                let v = self.statements@;
                let pre = v.subrange(0, i as int);
                let cur = v.subrange(0, i + 1);
                assert(cur.subrange(0, i as int) =~= pre);
                crate::ast::lemma_stmts_view(pre);
                crate::ast::lemma_stmts_view(cur);
                assert(stmts_view(cur) == stmts_view(cur.subrange(0, i as int)).push(
                    stmt_view(&cur[i as int]),
                ));
                assert(stmts_view(cur).subrange(0, i as int) =~= stmts_view(pre));
            }
            i = i + 1;
        }
        proof {
            assert(self.statements@.subrange(0, n as int) =~= self.statements@);
        }
        r
    }
}

impl Literal {
    /// The printed form of the literal, by shape.
    pub fn to_string(&self) -> (r: String)
        ensures
            r@ == match self {
                Literal::Integer(x) => print_expr(int_literal_view(x)),
                Literal::Identifier(x) => print_expr(ExprModel::Ident(crate::ast::ident_view(x))),
                Literal::Boolean(x) => print_expr(bool_literal_view(x)),
            },
    {
        match self {
            Literal::Integer(x) => x.to_string(),
            Literal::Identifier(x) => x.to_string(),
            Literal::Boolean(x) => x.to_string(),
        }
    }
}

/// Precedence correctness of the printed form: every prefix application
/// prints surrounded by parentheses as `(<op><right>)`, and every infix
/// application as `(<left> <op> <right>)`.  Since this holds of every
/// expression model, it holds of every subtree of any parser output, so
/// the printed form of an accepted input is fully parenthesized.
pub proof fn lemma_print_fully_parenthesized(e: ExprModel)
    ensures
        e matches ExprModel::Prefix { token, operator, right } ==> print_expr(e) == "("@ + operator
            + print_expr(*right) + ")"@ && print_expr(e).len() >= 2 && print_expr(e).first() == '('
            && print_expr(e).last() == ')',
        e matches ExprModel::Infix { token, left, operator, right } ==> print_expr(e) == "("@
            + print_expr(*left) + " "@ + operator + " "@ + print_expr(*right) + ")"@ && print_expr(
            e,
        ).len() >= 2 && print_expr(e).first() == '(' && print_expr(e).last() == ')',
{
    reveal_strlit("(");
    reveal_strlit(")");
}

} // verus!
