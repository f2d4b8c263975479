//! The abstract syntax tree: expressions, statements, and the program
//! root, together with their mathematical models.
//!
//! Ownership is a strict tree: each parent exclusively owns its children.
//! Every node exposes `token_literal`, the literal of the token it
//! originated from.  The pretty-printed form of each node lives in the
//! printer module.

use vstd::prelude::*;

use crate::token::{Token, TokenModel};

verus! {

// ---------------------------------------------------------------------
// Models: the ghost values the contracts speak about.
// ---------------------------------------------------------------------

/// Model of an identifier node.
pub struct IdentModel {
    pub token: TokenModel,
    pub value: Seq<char>,
}

/// Model of a block: the brace token and the statements inside.
pub struct BlockModel {
    pub token: TokenModel,
    pub statements: Seq<StmtModel>,
}

/// Model of an expression node.
pub enum ExprModel {
    Ident(IdentModel),
    Int { token: TokenModel, value: i64 },
    Bool { token: TokenModel, value: bool },
    Prefix { token: TokenModel, operator: Seq<char>, right: Box<ExprModel> },
    Infix { token: TokenModel, left: Box<ExprModel>, operator: Seq<char>, right: Box<ExprModel> },
    If {
        token: TokenModel,
        condition: Box<ExprModel>,
        consequence: BlockModel,
        alternative: Option<BlockModel>,
    },
    Fn { token: TokenModel, parameters: Seq<IdentModel>, body: BlockModel },
    Call { token: TokenModel, function: Box<ExprModel>, arguments: Seq<ExprModel> },
}

/// Model of a statement node.
pub enum StmtModel {
    Let { token: TokenModel, name: IdentModel, value: Option<ExprModel> },
    Return { token: TokenModel, value: Option<ExprModel> },
    Expr { token: TokenModel, value: ExprModel },
}

// ---------------------------------------------------------------------
// Expressions
// ---------------------------------------------------------------------

/// A name standing for a variable, function, or other entity.
#[derive(Debug, Clone)]
pub struct Identifier {
    pub token: Token,
    pub value: String,
}

/// An integer literal with its parsed signed 64-bit value.
#[derive(Debug, Clone)]
pub struct IntegerLiteral {
    pub token: Token,
    pub value: i64,
}

/// A boolean literal, `true` or `false`.
#[derive(Debug, Clone)]
pub struct BooleanLiteral {
    pub token: Token,
    pub value: bool,
}

/// A prefix application such as `!x` or `-x`.
#[derive(Debug)]
pub struct PrefixExpression {
    pub token: Token,
    pub operator: String,
    pub right: Box<Expression>,
}

/// A binary application such as `a + b` or `a == b`.
#[derive(Debug)]
pub struct InfixExpression {
    pub token: Token,
    pub left: Box<Expression>,
    pub operator: String,
    pub right: Box<Expression>,
}

/// `if (<condition>) <consequence>` with an optional `else <alternative>`.
#[derive(Debug)]
pub struct IfExpression {
    pub token: Token,
    pub condition: Box<Expression>,
    pub consequence: BlockStatement,
    pub alternative: Option<BlockStatement>,
}

/// A brace-delimited sequence of statements, the body of `if` arms and
/// function literals.
#[derive(Debug)]
pub struct BlockStatement {
    pub token: Token,
    pub statements: Vec<Statement>,
}

/// `fn(<parameters>) <body>`.
#[derive(Debug)]
pub struct FunctionLiteral {
    pub token: Token,
    pub parameters: Vec<Identifier>,
    pub body: BlockStatement,
}

/// A call `<callee>(<arguments>)`; the token is the opening parenthesis.
#[derive(Debug)]
pub struct CallExpression {
    pub token: Token,
    pub function: Box<Expression>,
    pub arguments: Vec<Expression>,
}

/// An expression: the tagged union of all expression nodes.
#[derive(Debug)]
pub enum Expression {
    Identifier(Identifier),
    IntegerLiteral(IntegerLiteral),
    BooleanLiteral(BooleanLiteral),
    PrefixExpression(PrefixExpression),
    InfixExpression(InfixExpression),
    IfExpression(IfExpression),
    FunctionLiteral(FunctionLiteral),
    CallExpression(CallExpression),
}

// ---------------------------------------------------------------------
// Statements
// ---------------------------------------------------------------------

/// `let <name> = <value>;`.  The value may be absent in a partial tree
/// recovered from an erroneous parse; it still prints.
#[derive(Debug)]
pub struct LetStatement {
    pub token: Token,
    pub name: Identifier,
    pub value: Option<Expression>,
}

/// `return <value>;`, with the value possibly absent as for `let`.
#[derive(Debug)]
pub struct ReturnStatement {
    pub token: Token,
    pub value: Option<Expression>,
}

/// An expression standing alone as a statement.
#[derive(Debug)]
pub struct ExpressionStatement {
    pub token: Token,
    pub value: Expression,
}

/// A statement: the tagged union of all statement nodes.
#[derive(Debug)]
pub enum Statement {
    Let(LetStatement),
    Return(ReturnStatement),
    Expression(ExpressionStatement),
}

/// The root of the tree: the program's statements in order.
#[derive(Debug, Clone)]
pub struct Program {
    pub statements: Vec<Statement>,
}

/// A literal expression classified by shape, used when a test states the
/// expected form of a leaf.
#[derive(Debug, Clone)]
pub enum Literal {
    Integer(IntegerLiteral),
    Identifier(Identifier),
    Boolean(BooleanLiteral),
}

// ---------------------------------------------------------------------
// Views
// ---------------------------------------------------------------------

/// The model of an identifier node.
pub open spec fn ident_view(i: &Identifier) -> IdentModel {
    IdentModel { token: i.token@, value: i.value@ }
}

/// The model of an integer literal node.
pub open spec fn int_literal_view(x: &IntegerLiteral) -> ExprModel {
    ExprModel::Int { token: x.token@, value: x.value }
}

/// The model of a boolean literal node.
pub open spec fn bool_literal_view(x: &BooleanLiteral) -> ExprModel {
    ExprModel::Bool { token: x.token@, value: x.value }
}

/// The model of a prefix expression node.
pub open spec fn prefix_view(x: &PrefixExpression) -> ExprModel
    decreases x,
{
    ExprModel::Prefix {
        token: x.token@,
        operator: x.operator@,
        right: Box::new(expr_view(&*x.right)),
    }
}

/// The model of an infix expression node.
pub open spec fn infix_view(x: &InfixExpression) -> ExprModel
    decreases x,
{
    ExprModel::Infix {
        token: x.token@,
        left: Box::new(expr_view(&*x.left)),
        operator: x.operator@,
        right: Box::new(expr_view(&*x.right)),
    }
}

/// The model of an if expression node.
pub open spec fn if_view(x: &IfExpression) -> ExprModel
    decreases x,
{
    ExprModel::If {
        token: x.token@,
        condition: Box::new(expr_view(&*x.condition)),
        consequence: block_view(&x.consequence),
        alternative: match &x.alternative {
            Some(b) => Some(block_view(b)),
            None => None,
        },
    }
}

/// The model of a function literal node.
pub open spec fn fn_literal_view(x: &FunctionLiteral) -> ExprModel
    decreases x,
{
    ExprModel::Fn {
        token: x.token@,
        parameters: idents_view(x.parameters@),
        body: block_view(&x.body),
    }
}

/// The model of a call expression node.
pub open spec fn call_view(x: &CallExpression) -> ExprModel
    decreases x,
{
    ExprModel::Call {
        token: x.token@,
        function: Box::new(expr_view(&*x.function)),
        arguments: exprs_view(x.arguments@),
    }
}

/// The model of an expression node, all children included.
pub open spec fn expr_view(e: &Expression) -> ExprModel
    decreases e,
{
    match e {
        Expression::Identifier(x) => ExprModel::Ident(ident_view(x)),
        Expression::IntegerLiteral(x) => int_literal_view(x),
        Expression::BooleanLiteral(x) => bool_literal_view(x),
        Expression::PrefixExpression(x) => prefix_view(x),
        Expression::InfixExpression(x) => infix_view(x),
        Expression::IfExpression(x) => if_view(x),
        Expression::FunctionLiteral(x) => fn_literal_view(x),
        Expression::CallExpression(x) => call_view(x),
    }
}

/// The model of a block, all statements included.
pub open spec fn block_view(b: &BlockStatement) -> BlockModel
    decreases b,
{
    BlockModel {
        token: b.token@,
        statements: stmts_view(b.statements@),
    }
}

/// The model of a let statement node.
pub open spec fn let_stmt_view(x: &LetStatement) -> StmtModel
    decreases x,
{
    StmtModel::Let {
        token: x.token@,
        name: ident_view(&x.name),
        value: match &x.value {
            Some(e) => Some(expr_view(e)),
            None => None,
        },
    }
}

/// The model of a return statement node.
pub open spec fn return_stmt_view(x: &ReturnStatement) -> StmtModel
    decreases x,
{
    StmtModel::Return {
        token: x.token@,
        value: match &x.value {
            Some(e) => Some(expr_view(e)),
            None => None,
        },
    }
}

/// The model of an expression statement node.
pub open spec fn expr_stmt_view(x: &ExpressionStatement) -> StmtModel
    decreases x,
{
    StmtModel::Expr { token: x.token@, value: expr_view(&x.value) }
}

/// The model of a statement node, all children included.
pub open spec fn stmt_view(s: &Statement) -> StmtModel
    decreases s,
{
    match s {
        Statement::Let(x) => let_stmt_view(x),
        Statement::Return(x) => return_stmt_view(x),
        Statement::Expression(x) => expr_stmt_view(x),
    }
}

/// The model of a program: its statements' models in order.
pub open spec fn program_view(p: &Program) -> Seq<StmtModel> {
    stmts_view(p.statements@)
}

/// The models of a sequence of statements, elementwise.
pub open spec fn stmts_view(v: Seq<Statement>) -> Seq<StmtModel>
    decreases v,
{
    if v.len() == 0 {
        Seq::empty()
    } else {
        stmts_view(v.subrange(0, v.len() - 1)).push(stmt_view(&v[v.len() - 1]))
    }
}

/// The models of a sequence of identifiers, elementwise.
pub open spec fn idents_view(v: Seq<Identifier>) -> Seq<IdentModel>
    decreases v,
{
    if v.len() == 0 {
        Seq::empty()
    } else {
        idents_view(v.subrange(0, v.len() - 1)).push(ident_view(&v[v.len() - 1]))
    }
}

/// The models of a sequence of expressions, elementwise.
pub open spec fn exprs_view(v: Seq<Expression>) -> Seq<ExprModel>
    decreases v,
{
    if v.len() == 0 {
        Seq::empty()
    } else {
        exprs_view(v.subrange(0, v.len() - 1)).push(expr_view(&v[v.len() - 1]))
    }
}

/// `idents_view` maps the sequence elementwise.
pub proof fn lemma_idents_view(v: Seq<Identifier>)
    ensures
        idents_view(v).len() == v.len(),
        forall|i: int| 0 <= i < v.len() ==> idents_view(v)[i] == ident_view(&v[i]),
    decreases v.len(),
{
    if v.len() > 0 {
        lemma_idents_view(v.subrange(0, v.len() - 1));
    }
}

/// `exprs_view` maps the sequence elementwise.
pub proof fn lemma_exprs_view(v: Seq<Expression>)
    ensures
        exprs_view(v).len() == v.len(),
        forall|i: int| 0 <= i < v.len() ==> exprs_view(v)[i] == expr_view(&v[i]),
    decreases v.len(),
{
    if v.len() > 0 {
        lemma_exprs_view(v.subrange(0, v.len() - 1));
    }
}

/// `stmts_view` maps the sequence elementwise.
pub proof fn lemma_stmts_view(v: Seq<Statement>)
    ensures
        stmts_view(v).len() == v.len(),
        forall|i: int| 0 <= i < v.len() ==> stmts_view(v)[i] == stmt_view(&v[i]),
    decreases v.len(),
{
    if v.len() > 0 {
        lemma_stmts_view(v.subrange(0, v.len() - 1));
    }
}


/// Appending a statement extends the modelled sequence by its model.
pub proof fn lemma_stmts_view_push(v: Seq<Statement>, x: Statement)
    ensures
        stmts_view(v.push(x)) == stmts_view(v).push(stmt_view(&x)),
{
    assert(v.push(x).subrange(0, v.push(x).len() - 1) =~= v);
    assert(stmts_view(v.push(x)) == stmts_view(v).push(stmt_view(&v.push(x)[v.len() as int])));
}

/// Appending an expression extends the modelled sequence by its model.
pub proof fn lemma_exprs_view_push(v: Seq<Expression>, x: Expression)
    ensures
        exprs_view(v.push(x)) == exprs_view(v).push(expr_view(&x)),
{
    assert(v.push(x).subrange(0, v.push(x).len() - 1) =~= v);
    assert(exprs_view(v.push(x)) == exprs_view(v).push(expr_view(&v.push(x)[v.len() as int])));
}

/// Appending an identifier extends the modelled sequence by its model.
pub proof fn lemma_idents_view_push(v: Seq<Identifier>, x: Identifier)
    ensures
        idents_view(v.push(x)) == idents_view(v).push(ident_view(&x)),
{
    assert(v.push(x).subrange(0, v.push(x).len() - 1) =~= v);
    assert(idents_view(v.push(x)) == idents_view(v).push(ident_view(&v.push(x)[v.len() as int])));
}

// ---------------------------------------------------------------------
// Node: the literal of the originating token
// ---------------------------------------------------------------------

/// Behaviour common to all nodes: the literal of the token the node was
/// built from.
pub trait Node {
    fn token_literal(&self) -> &str;
}

/// The token literal of an expression, by variant.
pub open spec fn spec_expr_token_literal(e: &Expression) -> Seq<char> {
    match e {
        Expression::Identifier(x) => x.token.literal@,
        Expression::IntegerLiteral(x) => x.token.literal@,
        Expression::BooleanLiteral(x) => x.token.literal@,
        Expression::PrefixExpression(x) => x.token.literal@,
        Expression::InfixExpression(x) => x.token.literal@,
        Expression::IfExpression(x) => x.token.literal@,
        Expression::FunctionLiteral(x) => x.token.literal@,
        Expression::CallExpression(x) => x.token.literal@,
    }
}

/// The token literal of a statement, by variant.
pub open spec fn spec_stmt_token_literal(s: &Statement) -> Seq<char> {
    match s {
        Statement::Let(x) => x.token.literal@,
        Statement::Return(x) => x.token.literal@,
        Statement::Expression(x) => x.token.literal@,
    }
}

impl Node for Identifier {
    fn token_literal(&self) -> (r: &str)
        ensures
            r@ == self.token.literal@,
    {
        self.token.literal.as_str()
    }
}

impl Node for IntegerLiteral {
    fn token_literal(&self) -> (r: &str)
        ensures
            r@ == self.token.literal@,
    {
        self.token.literal.as_str()
    }
}

impl Node for BooleanLiteral {
    fn token_literal(&self) -> (r: &str)
        ensures
            r@ == self.token.literal@,
    {
        self.token.literal.as_str()
    }
}

impl Node for PrefixExpression {
    fn token_literal(&self) -> (r: &str)
        ensures
            r@ == self.token.literal@,
    {
        self.token.literal.as_str()
    }
}

impl Node for InfixExpression {
    fn token_literal(&self) -> (r: &str)
        ensures
            r@ == self.token.literal@,
    {
        self.token.literal.as_str()
    }
}

impl Node for IfExpression {
    fn token_literal(&self) -> (r: &str)
        ensures
            r@ == self.token.literal@,
    {
        self.token.literal.as_str()
    }
}

impl Node for BlockStatement {
    fn token_literal(&self) -> (r: &str)
        ensures
            r@ == self.token.literal@,
    {
        self.token.literal.as_str()
    }
}

impl Node for FunctionLiteral {
    fn token_literal(&self) -> (r: &str)
        ensures
            r@ == self.token.literal@,
    {
        self.token.literal.as_str()
    }
}

impl Node for CallExpression {
    fn token_literal(&self) -> (r: &str)
        ensures
            r@ == self.token.literal@,
    {
        self.token.literal.as_str()
    }
}

impl Node for Expression {
    fn token_literal(&self) -> (r: &str)
        ensures
            r@ == spec_expr_token_literal(self),
    {
        match self {
            Expression::Identifier(x) => x.token_literal(),
            Expression::IntegerLiteral(x) => x.token_literal(),
            Expression::BooleanLiteral(x) => x.token_literal(),
            Expression::PrefixExpression(x) => x.token_literal(),
            Expression::InfixExpression(x) => x.token_literal(),
            Expression::IfExpression(x) => x.token_literal(),
            Expression::FunctionLiteral(x) => x.token_literal(),
            Expression::CallExpression(x) => x.token_literal(),
        }
    }
}

impl Node for LetStatement {
    fn token_literal(&self) -> (r: &str)
        ensures
            r@ == self.token.literal@,
    {
        self.token.literal.as_str()
    }
}

impl Node for ReturnStatement {
    fn token_literal(&self) -> (r: &str)
        ensures
            r@ == self.token.literal@,
    {
        self.token.literal.as_str()
    }
}

impl Node for ExpressionStatement {
    fn token_literal(&self) -> (r: &str)
        ensures
            r@ == self.token.literal@,
    {
        self.token.literal.as_str()
    }
}

impl Node for Statement {
    fn token_literal(&self) -> (r: &str)
        ensures
            r@ == spec_stmt_token_literal(self),
    {
        match self {
            Statement::Let(x) => x.token_literal(),
            Statement::Return(x) => x.token_literal(),
            Statement::Expression(x) => x.token_literal(),
        }
    }
}

impl Node for Literal {
    fn token_literal(&self) -> (r: &str)
        ensures
            r@ == match self {
                Literal::Integer(x) => x.token.literal@,
                Literal::Identifier(x) => x.token.literal@,
                Literal::Boolean(x) => x.token.literal@,
            },
    {
        match self {
            Literal::Integer(x) => x.token_literal(),
            Literal::Identifier(x) => x.token_literal(),
            Literal::Boolean(x) => x.token_literal(),
        }
    }
}

impl Node for Program {
    fn token_literal(&self) -> (r: &str)
        ensures
            r@ == if self.statements@.len() > 0 {
                spec_stmt_token_literal(&self.statements@[0])
            } else {
                Seq::<char>::empty()
            },
    {
        if self.statements.len() > 0 {
            self.statements[0].token_literal()
        } else {
            proof {
                reveal_strlit("");
            }
            ""
        }
    }
}


// ---------------------------------------------------------------------
// Clone: a deep copy of each node.  Verus learns nothing from these
// beyond termination and panic-freedom; the contracts of the library
// speak only of views.
// ---------------------------------------------------------------------

/// A deep copy of a vector of statements.
fn clone_stmt_vec(v: &Vec<Statement>) -> Vec<Statement>
    decreases v@,
{
    let mut r: Vec<Statement> = Vec::new();
    let n = v.len();
    let mut i: usize = 0;
    while i < n
        invariant
            n == v@.len(),
        decreases n - i,
    {
        r.push(v[i].clone());
        i = i + 1;
    }
    r
}

/// A deep copy of a vector of expressions.
fn clone_expr_vec(v: &Vec<Expression>) -> Vec<Expression>
    decreases v@,
{
    let mut r: Vec<Expression> = Vec::new();
    let n = v.len();
    let mut i: usize = 0;
    while i < n
        invariant
            n == v@.len(),
        decreases n - i,
    {
        r.push(v[i].clone());
        i = i + 1;
    }
    r
}

/// A deep copy of a parameter list.
fn clone_ident_vec(v: &Vec<Identifier>) -> Vec<Identifier> {
    let mut r: Vec<Identifier> = Vec::new();
    let n = v.len();
    let mut i: usize = 0;
    while i < n
        invariant
            n == v@.len(),
        decreases n - i,
    {
        r.push(v[i].clone());
        i = i + 1;
    }
    r
}

impl Clone for PrefixExpression {
    fn clone(&self) -> Self
        decreases *self,
    {
        PrefixExpression {
            token: self.token.clone(),
            operator: self.operator.clone(),
            right: Box::new((*self.right).clone()),
        }
    }
}

impl Clone for InfixExpression {
    fn clone(&self) -> Self
        decreases *self,
    {
        InfixExpression {
            token: self.token.clone(),
            left: Box::new((*self.left).clone()),
            operator: self.operator.clone(),
            right: Box::new((*self.right).clone()),
        }
    }
}

impl Clone for IfExpression {
    fn clone(&self) -> Self
        decreases *self,
    {
        IfExpression {
            token: self.token.clone(),
            condition: Box::new((*self.condition).clone()),
            consequence: self.consequence.clone(),
            alternative: match &self.alternative {
                Some(b) => Some(b.clone()),
                None => None,
            },
        }
    }
}

impl Clone for BlockStatement {
    fn clone(&self) -> Self
        decreases *self,
    {
        BlockStatement { token: self.token.clone(), statements: clone_stmt_vec(&self.statements) }
    }
}

impl Clone for FunctionLiteral {
    fn clone(&self) -> Self
        decreases *self,
    {
        FunctionLiteral {
            token: self.token.clone(),
            parameters: clone_ident_vec(&self.parameters),
            body: self.body.clone(),
        }
    }
}

impl Clone for CallExpression {
    fn clone(&self) -> Self
        decreases *self,
    {
        CallExpression {
            token: self.token.clone(),
            function: Box::new((*self.function).clone()),
            arguments: clone_expr_vec(&self.arguments),
        }
    }
}

impl Clone for Expression {
    fn clone(&self) -> Self
        decreases *self,
    {
        match self {
            Expression::Identifier(x) => Expression::Identifier(x.clone()),
            Expression::IntegerLiteral(x) => Expression::IntegerLiteral(x.clone()),
            Expression::BooleanLiteral(x) => Expression::BooleanLiteral(x.clone()),
            Expression::PrefixExpression(x) => Expression::PrefixExpression(x.clone()),
            Expression::InfixExpression(x) => Expression::InfixExpression(x.clone()),
            Expression::IfExpression(x) => Expression::IfExpression(x.clone()),
            Expression::FunctionLiteral(x) => Expression::FunctionLiteral(x.clone()),
            Expression::CallExpression(x) => Expression::CallExpression(x.clone()),
        }
    }
}

impl Clone for LetStatement {
    fn clone(&self) -> Self
        decreases *self,
    {
        LetStatement {
            token: self.token.clone(),
            name: self.name.clone(),
            value: match &self.value {
                Some(e) => Some(e.clone()),
                None => None,
            },
        }
    }
}

impl Clone for ReturnStatement {
    fn clone(&self) -> Self
        decreases *self,
    {
        ReturnStatement {
            token: self.token.clone(),
            value: match &self.value {
                Some(e) => Some(e.clone()),
                None => None,
            },
        }
    }
}

impl Clone for ExpressionStatement {
    fn clone(&self) -> Self
        decreases *self,
    {
        ExpressionStatement { token: self.token.clone(), value: self.value.clone() }
    }
}

impl Clone for Statement {
    fn clone(&self) -> Self
        decreases *self,
    {
        match self {
            Statement::Let(x) => Statement::Let(x.clone()),
            Statement::Return(x) => Statement::Return(x.clone()),
            Statement::Expression(x) => Statement::Expression(x.clone()),
        }
    }
}

} // verus!
