//! The abstract syntax tree: a tagged-union tree in which every node is
//! exclusively owned by its parent, plus the ghost mirror types (`Spec*`)
//! that the contracts of the parser and the evaluator speak about.
//!
//! Every node's span is the minimal contiguous inclusive range covering
//! the tokens consumed for that node and all its descendants, and the
//! parser model fixes each one: declaration, `ret` and function spans
//! cover a consumed trailing semicolon, increment forms cover both the
//! operator and its identifier, a parenthesized expression's node covers
//! the parentheses, an `else if` clause runs from its `else`, and the
//! program node covers its statements. A synthesized node — and the empty
//! program — carries the empty span. The expression-statement variant
//! carries no span of its own; its expression's span stands for it.

use vstd::prelude::*;

use crate::token::{Span, SpecToken, Token};

verus! {

/// An expression node.
#[derive(Debug, PartialEq)]
pub enum Expression {
    Identifier(Identifier),
    Literal(Literal),
    Prefix(UnaryExpression),
    Infix(BinaryExpression),
    FunctionCall(FunctionCall),
    UnaryOperator(UnaryOperator),
}

/// A call expression: a callee and its ordered arguments.
#[derive(Debug, PartialEq)]
pub struct FunctionCall {
    pub call: Box<Expression>,
    pub arguments: Vec<Expression>,
    pub span: Span,
}

/// A name appearing in the source.
#[derive(Debug, PartialEq)]
pub struct Identifier {
    pub name: String,
    pub span: Span,
}

/// A literal expression.
#[derive(Debug, PartialEq)]
pub enum Literal {
    Integer(Integer),
    Boolean(Boolean),
    Str(StringType),
}

/// A prefix operator applied to an operand (unary `-` and `!`).
#[derive(Debug, PartialEq)]
pub struct UnaryExpression {
    pub operator: Token,
    pub operand: Box<Expression>,
    pub span: Span,
}

/// A binary infix operator applied to two operands.
#[derive(Debug, PartialEq)]
pub struct BinaryExpression {
    pub operator: Token,
    pub left: Box<Expression>,
    pub right: Box<Expression>,
    pub span: Span,
}

/// A 64-bit signed integer literal.
#[derive(Debug, PartialEq)]
pub struct Integer {
    pub raw: i64,
    pub span: Span,
}

/// A boolean literal.
#[derive(Debug, PartialEq)]
pub struct Boolean {
    pub raw: bool,
    pub span: Span,
}

/// A string literal; `raw` is the decoded text between the quotes.
#[derive(Debug, PartialEq)]
pub struct StringType {
    pub raw: String,
    pub span: Span,
}

/// An array literal: parsed shape reserved for future extension; its
/// evaluation is out of scope.
#[derive(Debug, PartialEq)]
pub struct Array {
    pub elements: Vec<Expression>,
    pub span: Span,
}

/// A hash literal: parsed shape reserved for future extension; its
/// evaluation is out of scope.
#[derive(Debug, PartialEq)]
pub struct Hash {
    pub pairs: Vec<(Expression, Expression)>,
    pub span: Span,
}

/// The four increment/decrement forms.
#[derive(Debug, Clone, Copy, PartialEq, Eq, Structural)]
pub enum UnaryOperatorType {
    PreIncrement,
    PostIncrement,
    PreDecrement,
    PostDecrement,
}

/// A pre- or post-increment/decrement applied to a named variable.
#[derive(Debug, PartialEq)]
pub struct UnaryOperator {
    pub identifier: Identifier,
    pub ty: UnaryOperatorType,
    pub span: Span,
}

/// A statement node. The `For` variant is reserved in the model for future
/// extension: nothing parses into it and it has no evaluation.
#[derive(Debug, PartialEq)]
pub enum Statement {
    VariableDeclaration(Variable),
    Expression(Expression),
    If(If),
    Return(Return),
    Function(Function),
    For(For),
}

/// A function declaration: name, ordered parameters, braced body.
#[derive(Debug, PartialEq)]
pub struct Function {
    pub name: String,
    pub params: Vec<Identifier>,
    pub body: Box<BlockStatement>,
    pub span: Span,
}

/// A braced, ordered sequence of statements.
#[derive(Debug, PartialEq)]
pub struct BlockStatement {
    pub body: Vec<Statement>,
    pub span: Span,
}

/// A variable declaration `# name = expr ;`.
#[derive(Debug, PartialEq)]
pub struct Variable {
    pub identifier: Token,
    pub expr: Expression,
    pub span: Span,
}

/// An `if`/`else if`*/`else` chain. Each `branches` element is an
/// `If`-shaped clause with no branches or alternate of its own.
#[derive(Debug, PartialEq)]
pub struct If {
    pub condition: Expression,
    pub consequent: Box<BlockStatement>,
    pub branches: Vec<If>,
    pub alternate: Option<Box<BlockStatement>>,
    pub span: Span,
}

/// A `ret expr ;` statement.
#[derive(Debug, PartialEq)]
pub struct Return {
    pub argument: Expression,
    pub span: Span,
}

/// A `for` loop: parsed shape reserved for future extension; neither its
/// parsing nor its evaluation is part of the language yet.
#[derive(Debug, PartialEq)]
pub struct For {
    pub initializer: Option<Variable>,
    pub condition: Option<Expression>,
    pub increment: Option<Expression>,
    pub body: Box<BlockStatement>,
    pub span: Span,
}

/// An ordered sequence of top-level statements.
#[derive(Debug, PartialEq)]
pub struct Program {
    pub body: Vec<Statement>,
    pub span: Span,
}

impl Program {
    /// An empty program with the empty span.
    pub fn new() -> (p: Program)
        ensures
            p@.body.len() == 0,
            p@.span == (Span { start: 0usize, end: 0usize }),
    {
        Program { body: Vec::new(), span: Span::new_empty_span() }
    }
}

impl Default for Program {
    fn default() -> (p: Program)
        ensures
            p@.body.len() == 0,
    {
        Program::new()
    }
}

/// Any node handed to the evaluator: a whole program, one statement, or one
/// expression.
#[derive(Debug, PartialEq)]
pub enum Node {
    Program(Program),
    Statement(Statement),
    Expression(Expression),
}

// ---------------------------------------------------------------------------
// Ghost mirrors
// ---------------------------------------------------------------------------

/// The mathematical value of an `Identifier`.
pub struct SpecIdent {
    pub name: Seq<char>,
    pub span: Span,
}

/// The mathematical value of a `Literal`.
pub enum SpecLiteral {
    Integer { raw: i64, span: Span },
    Boolean { raw: bool, span: Span },
    Str { raw: Seq<char>, span: Span },
}

/// The mathematical value of an `Expression`.
pub enum SpecExpr {
    Identifier(SpecIdent),
    Literal(SpecLiteral),
    Prefix { operator: SpecToken, operand: Box<SpecExpr>, span: Span },
    Infix { operator: SpecToken, left: Box<SpecExpr>, right: Box<SpecExpr>, span: Span },
    FunctionCall { call: Box<SpecExpr>, arguments: Seq<SpecExpr>, span: Span },
    UnaryOperator { identifier: SpecIdent, ty: UnaryOperatorType, span: Span },
}

/// The mathematical value of a `BlockStatement`.
pub struct SpecBlock {
    pub body: Seq<SpecStmt>,
    pub span: Span,
}

/// The mathematical value of an `If`.
pub struct SpecIf {
    pub condition: Box<SpecExpr>,
    pub consequent: SpecBlock,
    pub branches: Seq<SpecIf>,
    pub alternate: Option<SpecBlock>,
    pub span: Span,
}

/// The mathematical value of a `Variable` kept inside a `For` header.
pub struct SpecVariable {
    pub identifier: SpecToken,
    pub expr: SpecExpr,
    pub span: Span,
}

/// The mathematical value of a `For`.
pub struct SpecFor {
    pub initializer: Option<SpecVariable>,
    pub condition: Option<SpecExpr>,
    pub increment: Option<SpecExpr>,
    pub body: SpecBlock,
    pub span: Span,
}

/// The mathematical value of a `Statement`.
pub enum SpecStmt {
    VariableDeclaration { identifier: SpecToken, expr: SpecExpr, span: Span },
    Expression(SpecExpr),
    If(SpecIf),
    Return { argument: SpecExpr, span: Span },
    Function { name: Seq<char>, params: Seq<SpecIdent>, body: SpecBlock, span: Span },
    For(SpecFor),
}

/// The mathematical value of a `Program`.
pub struct SpecProgram {
    pub body: Seq<SpecStmt>,
    pub span: Span,
}

/// The mathematical value of a `Node`.
pub enum SpecNode {
    Program(SpecProgram),
    Statement(SpecStmt),
    Expression(SpecExpr),
}

// ---------------------------------------------------------------------------
// Views
// ---------------------------------------------------------------------------

/// The mirror of one expression.
pub open spec fn spec_view_expr(e: Expression) -> SpecExpr
    decreases e,
{
    match e {
        Expression::Identifier(i) => SpecExpr::Identifier(
            SpecIdent { name: i.name@, span: i.span },
        ),
        Expression::Literal(l) => SpecExpr::Literal(spec_view_literal(l)),
        Expression::Prefix(u) => SpecExpr::Prefix {
            operator: u.operator@,
            operand: Box::new(spec_view_expr(*u.operand)),
            span: u.span,
        },
        Expression::Infix(b) => SpecExpr::Infix {
            operator: b.operator@,
            left: Box::new(spec_view_expr(*b.left)),
            right: Box::new(spec_view_expr(*b.right)),
            span: b.span,
        },
        Expression::FunctionCall(f) => SpecExpr::FunctionCall {
            call: Box::new(spec_view_expr(*f.call)),
            arguments: spec_view_exprs(f.arguments@),
            span: f.span,
        },
        Expression::UnaryOperator(u) => SpecExpr::UnaryOperator {
            identifier: SpecIdent { name: u.identifier.name@, span: u.identifier.span },
            ty: u.ty,
            span: u.span,
        },
    }
}

/// The mirror of a sequence of expressions, elementwise.
pub open spec fn spec_view_exprs(s: Seq<Expression>) -> Seq<SpecExpr>
    decreases s,
{
    if s.len() == 0 {
        Seq::empty()
    } else {
        spec_view_exprs(s.drop_last()).push(spec_view_expr(s.last()))
    }
}

/// The mirror of one literal.
pub open spec fn spec_view_literal(l: Literal) -> SpecLiteral {
    match l {
        Literal::Integer(i) => SpecLiteral::Integer { raw: i.raw, span: i.span },
        Literal::Boolean(b) => SpecLiteral::Boolean { raw: b.raw, span: b.span },
        Literal::Str(s) => SpecLiteral::Str { raw: s.raw@, span: s.span },
    }
}

/// The mirror of one statement.
pub open spec fn spec_view_stmt(s: Statement) -> SpecStmt
    decreases s,
{
    match s {
        Statement::VariableDeclaration(v) => SpecStmt::VariableDeclaration {
            identifier: v.identifier@,
            expr: spec_view_expr(v.expr),
            span: v.span,
        },
        Statement::Expression(e) => SpecStmt::Expression(spec_view_expr(e)),
        Statement::If(i) => SpecStmt::If(spec_view_if(i)),
        Statement::Return(r) => SpecStmt::Return {
            argument: spec_view_expr(r.argument),
            span: r.span,
        },
        Statement::Function(f) => SpecStmt::Function {
            name: f.name@,
            params: spec_view_idents(f.params@),
            body: spec_view_block(*f.body),
            span: f.span,
        },
        Statement::For(f) => SpecStmt::For(spec_view_for(f)),
    }
}

/// The mirror of one `for` loop.
pub open spec fn spec_view_for(f: For) -> SpecFor
    decreases f,
{
    SpecFor {
        initializer: match f.initializer {
            Some(v) => Some(spec_view_variable(v)),
            None => None,
        },
        condition: match f.condition {
            Some(c) => Some(spec_view_expr(c)),
            None => None,
        },
        increment: match f.increment {
            Some(i) => Some(spec_view_expr(i)),
            None => None,
        },
        body: spec_view_block(*f.body),
        span: f.span,
    }
}

/// The mirror of one `for` header declaration.
pub open spec fn spec_view_variable(v: Variable) -> SpecVariable
    decreases v,
{
    SpecVariable { identifier: v.identifier@, expr: spec_view_expr(v.expr), span: v.span }
}

/// The mirror of a sequence of statements, elementwise.
pub open spec fn spec_view_stmts(s: Seq<Statement>) -> Seq<SpecStmt>
    decreases s,
{
    if s.len() == 0 {
        Seq::empty()
    } else {
        spec_view_stmts(s.drop_last()).push(spec_view_stmt(s.last()))
    }
}

/// The mirror of one block.
pub open spec fn spec_view_block(b: BlockStatement) -> SpecBlock
    decreases b,
{
    SpecBlock { body: spec_view_stmts(b.body@), span: b.span }
}

/// The mirror of one `if` chain.
pub open spec fn spec_view_if(i: If) -> SpecIf
    decreases i,
{
    SpecIf {
        condition: Box::new(spec_view_expr(i.condition)),
        consequent: spec_view_block(*i.consequent),
        branches: spec_view_ifs(i.branches@),
        alternate: match i.alternate {
            Some(b) => Some(spec_view_block(*b)),
            None => None,
        },
        span: i.span,
    }
}

/// The mirror of an optional `else` block.
pub open spec fn spec_view_alt(a: Option<Box<BlockStatement>>) -> Option<SpecBlock> {
    match a {
        Some(b) => Some(spec_view_block(*b)),
        None => None,
    }
}

/// The mirror of a sequence of `elif` clauses, elementwise.
pub open spec fn spec_view_ifs(s: Seq<If>) -> Seq<SpecIf>
    decreases s,
{
    if s.len() == 0 {
        Seq::empty()
    } else {
        spec_view_ifs(s.drop_last()).push(spec_view_if(s.last()))
    }
}

/// The mirror of a sequence of identifiers, elementwise.
pub open spec fn spec_view_idents(s: Seq<Identifier>) -> Seq<SpecIdent>
    decreases s,
{
    if s.len() == 0 {
        Seq::empty()
    } else {
        spec_view_idents(s.drop_last()).push(
            SpecIdent { name: s.last().name@, span: s.last().span },
        )
    }
}

impl View for Expression {
    type V = SpecExpr;

    open spec fn view(&self) -> SpecExpr {
        spec_view_expr(*self)
    }
}

impl View for Literal {
    type V = SpecLiteral;

    open spec fn view(&self) -> SpecLiteral {
        spec_view_literal(*self)
    }
}

impl View for Identifier {
    type V = SpecIdent;

    open spec fn view(&self) -> SpecIdent {
        SpecIdent { name: self.name@, span: self.span }
    }
}

impl View for Statement {
    type V = SpecStmt;

    open spec fn view(&self) -> SpecStmt {
        spec_view_stmt(*self)
    }
}

impl View for BlockStatement {
    type V = SpecBlock;

    open spec fn view(&self) -> SpecBlock {
        spec_view_block(*self)
    }
}

impl View for If {
    type V = SpecIf;

    open spec fn view(&self) -> SpecIf {
        spec_view_if(*self)
    }
}

impl View for Program {
    type V = SpecProgram;

    open spec fn view(&self) -> SpecProgram {
        SpecProgram { body: spec_view_stmts(self.body@), span: self.span }
    }
}

impl View for Node {
    type V = SpecNode;

    open spec fn view(&self) -> SpecNode {
        match self {
            Node::Program(p) => SpecNode::Program(p@),
            Node::Statement(s) => SpecNode::Statement(s@),
            Node::Expression(e) => SpecNode::Expression(e@),
        }
    }
}

// ---------------------------------------------------------------------------
// Spans of built nodes
// ---------------------------------------------------------------------------

/// The span carried at the top of an expression node.
pub open spec fn spec_expr_span(e: SpecExpr) -> Span {
    match e {
        SpecExpr::Identifier(i) => i.span,
        SpecExpr::Literal(l) => match l {
            SpecLiteral::Integer { span, .. } => span,
            SpecLiteral::Boolean { span, .. } => span,
            SpecLiteral::Str { span, .. } => span,
        },
        SpecExpr::Prefix { span, .. } => span,
        SpecExpr::Infix { span, .. } => span,
        SpecExpr::FunctionCall { span, .. } => span,
        SpecExpr::UnaryOperator { span, .. } => span,
    }
}

/// The same expression with the top node's span replaced (the parser uses
/// it to widen a parenthesized expression's span over the parentheses).
pub open spec fn spec_with_span(e: SpecExpr, sp: Span) -> SpecExpr {
    match e {
        SpecExpr::Identifier(i) => SpecExpr::Identifier(SpecIdent { name: i.name, span: sp }),
        SpecExpr::Literal(l) => SpecExpr::Literal(
            match l {
                SpecLiteral::Integer { raw, .. } => SpecLiteral::Integer { raw, span: sp },
                SpecLiteral::Boolean { raw, .. } => SpecLiteral::Boolean { raw, span: sp },
                SpecLiteral::Str { raw, .. } => SpecLiteral::Str { raw, span: sp },
            },
        ),
        SpecExpr::Prefix { operator, operand, .. } => SpecExpr::Prefix {
            operator,
            operand,
            span: sp,
        },
        SpecExpr::Infix { operator, left, right, .. } => SpecExpr::Infix {
            operator,
            left,
            right,
            span: sp,
        },
        SpecExpr::FunctionCall { call, arguments, .. } => SpecExpr::FunctionCall {
            call,
            arguments,
            span: sp,
        },
        SpecExpr::UnaryOperator { identifier, ty, .. } => SpecExpr::UnaryOperator {
            identifier,
            ty,
            span: sp,
        },
    }
}

/// The span a statement covers; an expression statement is covered by its
/// expression's span.
pub open spec fn spec_stmt_span(s: SpecStmt) -> Span {
    match s {
        SpecStmt::VariableDeclaration { span, .. } => span,
        SpecStmt::Expression(e) => spec_expr_span(e),
        SpecStmt::If(i) => i.span,
        SpecStmt::Return { span, .. } => span,
        SpecStmt::Function { span, .. } => span,
        SpecStmt::For(f) => f.span,
    }
}

/// The span carried at the top of an expression node.
pub fn expr_span(e: &Expression) -> (r: Span)
    ensures
        r == spec_expr_span(e@),
{
    match e {
        Expression::Identifier(i) => i.span,
        Expression::Literal(l) => match l {
            Literal::Integer(x) => x.span,
            Literal::Boolean(b) => b.span,
            Literal::Str(t) => t.span,
        },
        Expression::Prefix(u) => u.span,
        Expression::Infix(b) => b.span,
        Expression::FunctionCall(f) => f.span,
        Expression::UnaryOperator(u) => u.span,
    }
}

/// The same expression with the top node's span replaced.
pub fn with_span(e: Expression, sp: Span) -> (r: Expression)
    ensures
        r@ == spec_with_span(e@, sp),
{
    match e {
        Expression::Identifier(i) => Expression::Identifier(Identifier { name: i.name, span: sp }),
        Expression::Literal(l) => Expression::Literal(
            match l {
                Literal::Integer(x) => Literal::Integer(Integer { raw: x.raw, span: sp }),
                Literal::Boolean(b) => Literal::Boolean(Boolean { raw: b.raw, span: sp }),
                Literal::Str(t) => Literal::Str(StringType { raw: t.raw, span: sp }),
            },
        ),
        Expression::Prefix(u) => Expression::Prefix(
            UnaryExpression { operator: u.operator, operand: u.operand, span: sp },
        ),
        Expression::Infix(b) => Expression::Infix(
            BinaryExpression { operator: b.operator, left: b.left, right: b.right, span: sp },
        ),
        Expression::FunctionCall(f) => Expression::FunctionCall(
            FunctionCall { call: f.call, arguments: f.arguments, span: sp },
        ),
        Expression::UnaryOperator(u) => Expression::UnaryOperator(
            UnaryOperator { identifier: u.identifier, ty: u.ty, span: sp },
        ),
    }
}

/// The span a statement covers.
pub fn stmt_span(s: &Statement) -> (r: Span)
    ensures
        r == spec_stmt_span(s@),
{
    match s {
        Statement::VariableDeclaration(v) => v.span,
        Statement::Expression(e) => expr_span(e),
        Statement::If(i) => i.span,
        Statement::Return(ret) => ret.span,
        Statement::Function(f) => f.span,
        Statement::For(f) => f.span,
    }
}

// ---------------------------------------------------------------------------
// Elementwise view lemmas
// ---------------------------------------------------------------------------

/// The elementwise mirror of a sequence of expressions, pointwise.
pub proof fn lemma_view_exprs_index(s: Seq<Expression>, i: int)
    requires
        0 <= i < s.len(),
    ensures
        spec_view_exprs(s).len() == s.len(),
        spec_view_exprs(s)[i] == spec_view_expr(s[i]),
    decreases s.len(),
{
    lemma_view_exprs_len(s);
    if i + 1 < s.len() {
        assert(s.drop_last()[i] == s[i]);
        lemma_view_exprs_index(s.drop_last(), i);
    }
}

/// The elementwise mirror keeps the length.
pub proof fn lemma_view_exprs_len(s: Seq<Expression>)
    ensures
        spec_view_exprs(s).len() == s.len(),
    decreases s.len(),
{
    if s.len() > 0 {
        lemma_view_exprs_len(s.drop_last());
    }
}

/// Appending one expression appends its mirror.
pub proof fn lemma_view_exprs_push(s: Seq<Expression>, e: Expression)
    ensures
        spec_view_exprs(s.push(e)) == spec_view_exprs(s).push(spec_view_expr(e)),
{
    assert(s.push(e).drop_last() =~= s);
    assert(s.push(e).last() == e);
}

/// The elementwise mirror of a sequence of statements keeps the length.
pub proof fn lemma_view_stmts_len(s: Seq<Statement>)
    ensures
        spec_view_stmts(s).len() == s.len(),
    decreases s.len(),
{
    if s.len() > 0 {
        lemma_view_stmts_len(s.drop_last());
    }
}

/// The elementwise mirror of a sequence of statements, pointwise.
pub proof fn lemma_view_stmts_index(s: Seq<Statement>, i: int)
    requires
        0 <= i < s.len(),
    ensures
        spec_view_stmts(s).len() == s.len(),
        spec_view_stmts(s)[i] == spec_view_stmt(s[i]),
    decreases s.len(),
{
    lemma_view_stmts_len(s);
    if i + 1 < s.len() {
        assert(s.drop_last()[i] == s[i]);
        lemma_view_stmts_index(s.drop_last(), i);
    }
}

/// Appending one statement appends its mirror.
pub proof fn lemma_view_stmts_push(s: Seq<Statement>, e: Statement)
    ensures
        spec_view_stmts(s.push(e)) == spec_view_stmts(s).push(spec_view_stmt(e)),
{
    assert(s.push(e).drop_last() =~= s);
    assert(s.push(e).last() == e);
}

/// Appending one `elif` clause appends its mirror.
pub proof fn lemma_view_ifs_push(s: Seq<If>, e: If)
    ensures
        spec_view_ifs(s.push(e)) == spec_view_ifs(s).push(spec_view_if(e)),
{
    assert(s.push(e).drop_last() =~= s);
    assert(s.push(e).last() == e);
}

/// The elementwise mirror of a sequence of `elif` clauses keeps the length.
pub proof fn lemma_view_ifs_len(s: Seq<If>)
    ensures
        spec_view_ifs(s).len() == s.len(),
    decreases s.len(),
{
    if s.len() > 0 {
        lemma_view_ifs_len(s.drop_last());
    }
}

/// The elementwise mirror of a sequence of `elif` clauses, pointwise.
pub proof fn lemma_view_ifs_index(s: Seq<If>, i: int)
    requires
        0 <= i < s.len(),
    ensures
        spec_view_ifs(s).len() == s.len(),
        spec_view_ifs(s)[i] == spec_view_if(s[i]),
    decreases s.len(),
{
    lemma_view_ifs_len(s);
    if i + 1 < s.len() {
        assert(s.drop_last()[i] == s[i]);
        lemma_view_ifs_index(s.drop_last(), i);
    }
}

/// Appending one identifier appends its mirror.
pub proof fn lemma_view_idents_push(s: Seq<Identifier>, e: Identifier)
    ensures
        spec_view_idents(s.push(e)) == spec_view_idents(s).push(
            SpecIdent { name: e.name@, span: e.span },
        ),
{
    assert(s.push(e).drop_last() =~= s);
    assert(s.push(e).last() == e);
}

/// The elementwise mirror of a sequence of identifiers keeps the length.
pub proof fn lemma_view_idents_len(s: Seq<Identifier>)
    ensures
        spec_view_idents(s).len() == s.len(),
    decreases s.len(),
{
    if s.len() > 0 {
        lemma_view_idents_len(s.drop_last());
    }
}

/// The elementwise mirror of a sequence of identifiers, pointwise.
pub proof fn lemma_view_idents_index(s: Seq<Identifier>, i: int)
    requires
        0 <= i < s.len(),
    ensures
        spec_view_idents(s).len() == s.len(),
        spec_view_idents(s)[i] == (SpecIdent { name: s[i].name@, span: s[i].span }),
    decreases s.len(),
{
    lemma_view_idents_len(s);
    if i + 1 < s.len() {
        assert(s.drop_last()[i] == s[i]);
        lemma_view_idents_index(s.drop_last(), i);
    }
}

// ---------------------------------------------------------------------------
// Deep copies that provably preserve the mirror
// ---------------------------------------------------------------------------

impl Clone for Identifier {
    /// A copy with the same mathematical value.
    fn clone(&self) -> (r: Self)
        ensures
            r@ == self@,
    {
        Identifier { name: self.name.clone(), span: self.span }
    }
}

/// A copy of an expression with the same mathematical value.
pub fn clone_expr(e: &Expression) -> (r: Expression)
    ensures
        r@ == e@,
    decreases *e,
{
    match e {
        Expression::Identifier(i) => Expression::Identifier(i.clone()),
        Expression::Literal(l) => Expression::Literal(clone_literal(l)),
        Expression::Prefix(u) => Expression::Prefix(
            UnaryExpression {
                operator: u.operator.clone(),
                operand: Box::new(clone_expr(&u.operand)),
                span: u.span,
            },
        ),
        Expression::Infix(b) => Expression::Infix(
            BinaryExpression {
                operator: b.operator.clone(),
                left: Box::new(clone_expr(&b.left)),
                right: Box::new(clone_expr(&b.right)),
                span: b.span,
            },
        ),
        Expression::FunctionCall(f) => Expression::FunctionCall(
            FunctionCall {
                call: Box::new(clone_expr(&f.call)),
                arguments: clone_exprs(&f.arguments),
                span: f.span,
            },
        ),
        Expression::UnaryOperator(u) => Expression::UnaryOperator(
            UnaryOperator { identifier: u.identifier.clone(), ty: u.ty, span: u.span },
        ),
    }
}

/// A copy of a literal with the same mathematical value.
pub fn clone_literal(l: &Literal) -> (r: Literal)
    ensures
        r@ == l@,
{
    match l {
        Literal::Integer(i) => Literal::Integer(Integer { raw: i.raw, span: i.span }),
        Literal::Boolean(b) => Literal::Boolean(Boolean { raw: b.raw, span: b.span }),
        Literal::Str(s) => Literal::Str(StringType { raw: s.raw.clone(), span: s.span }),
    }
}

/// An elementwise copy of a list of expressions.
pub fn clone_exprs(v: &Vec<Expression>) -> (r: Vec<Expression>)
    ensures
        spec_view_exprs(r@) == spec_view_exprs(v@),
    decreases *v,
{
    let mut out: Vec<Expression> = Vec::new();
    let mut i: usize = 0;
    while i < v.len()
        invariant
            i <= v.len(),
            out@.len() == i,
            spec_view_exprs(out@) == spec_view_exprs(v@.subrange(0, i as int)),
        decreases v.len() - i,
    {
        let c = clone_expr(&v[i]);
        proof {
            lemma_view_exprs_push(out@, c);
            assert(v@.subrange(0, i as int + 1).drop_last() =~= v@.subrange(0, i as int));
            assert(v@.subrange(0, i as int + 1).last() == v@[i as int]);
        }
        out.push(c);
        i = i + 1;
    }
    proof {
        assert(v@.subrange(0, v@.len() as int) =~= v@);
    }
    out
}

/// A copy of a statement with the same mathematical value.
pub fn clone_stmt(s: &Statement) -> (r: Statement)
    ensures
        r@ == s@,
    decreases *s,
{
    match s {
        Statement::VariableDeclaration(v) => Statement::VariableDeclaration(
            Variable {
                identifier: v.identifier.clone(),
                expr: clone_expr(&v.expr),
                span: v.span,
            },
        ),
        Statement::Expression(e) => Statement::Expression(clone_expr(e)),
        Statement::If(i) => Statement::If(clone_if(i)),
        Statement::Return(ret) => Statement::Return(
            Return { argument: clone_expr(&ret.argument), span: ret.span },
        ),
        Statement::Function(f) => Statement::Function(
            Function {
                name: f.name.clone(),
                params: clone_idents(&f.params),
                body: Box::new(clone_block(&f.body)),
                span: f.span,
            },
        ),
        Statement::For(f) => {
            let initializer = match &f.initializer {
                Some(v) => Some(
                    Variable {
                        identifier: v.identifier.clone(),
                        expr: clone_expr(&v.expr),
                        span: v.span,
                    },
                ),
                None => None,
            };
            let condition = match &f.condition {
                Some(c) => Some(clone_expr(c)),
                None => None,
            };
            let increment = match &f.increment {
                Some(i) => Some(clone_expr(i)),
                None => None,
            };
            Statement::For(
                For {
                    initializer,
                    condition,
                    increment,
                    body: Box::new(clone_block(&f.body)),
                    span: f.span,
                },
            )
        },
    }
}

/// An elementwise copy of a list of statements.
pub fn clone_stmts(v: &Vec<Statement>) -> (r: Vec<Statement>)
    ensures
        spec_view_stmts(r@) == spec_view_stmts(v@),
    decreases *v,
{
    let mut out: Vec<Statement> = Vec::new();
    let mut i: usize = 0;
    while i < v.len()
        invariant
            i <= v.len(),
            out@.len() == i,
            spec_view_stmts(out@) == spec_view_stmts(v@.subrange(0, i as int)),
        decreases v.len() - i,
    {
        let c = clone_stmt(&v[i]);
        proof {
            lemma_view_stmts_push(out@, c);
            assert(v@.subrange(0, i as int + 1).drop_last() =~= v@.subrange(0, i as int));
            assert(v@.subrange(0, i as int + 1).last() == v@[i as int]);
        }
        out.push(c);
        i = i + 1;
    }
    proof {
        assert(v@.subrange(0, v@.len() as int) =~= v@);
    }
    out
}

/// A copy of a block with the same mathematical value.
pub fn clone_block(b: &BlockStatement) -> (r: BlockStatement)
    ensures
        r@ == b@,
    decreases *b,
{
    BlockStatement { body: clone_stmts(&b.body), span: b.span }
}

/// A copy of an `if` chain with the same mathematical value.
pub fn clone_if(i: &If) -> (r: If)
    ensures
        r@ == i@,
    decreases *i,
{
    let alternate = match &i.alternate {
        Some(b) => Some(Box::new(clone_block(b))),
        None => None,
    };
    If {
        condition: clone_expr(&i.condition),
        consequent: Box::new(clone_block(&i.consequent)),
        branches: clone_ifs(&i.branches),
        alternate,
        span: i.span,
    }
}

/// An elementwise copy of a list of `elif` clauses.
pub fn clone_ifs(v: &Vec<If>) -> (r: Vec<If>)
    ensures
        spec_view_ifs(r@) == spec_view_ifs(v@),
    decreases *v,
{
    let mut out: Vec<If> = Vec::new();
    let mut i: usize = 0;
    while i < v.len()
        invariant
            i <= v.len(),
            out@.len() == i,
            spec_view_ifs(out@) == spec_view_ifs(v@.subrange(0, i as int)),
        decreases v.len() - i,
    {
        let c = clone_if(&v[i]);
        proof {
            lemma_view_ifs_push(out@, c);
            assert(v@.subrange(0, i as int + 1).drop_last() =~= v@.subrange(0, i as int));
            assert(v@.subrange(0, i as int + 1).last() == v@[i as int]);
        }
        out.push(c);
        i = i + 1;
    }
    proof {
        assert(v@.subrange(0, v@.len() as int) =~= v@);
    }
    out
}

/// An elementwise copy of a parameter list.
pub fn clone_idents(v: &Vec<Identifier>) -> (r: Vec<Identifier>)
    ensures
        spec_view_idents(r@) == spec_view_idents(v@),
{
    let mut out: Vec<Identifier> = Vec::new();
    let mut i: usize = 0;
    while i < v.len()
        invariant
            i <= v.len(),
            out@.len() == i,
            spec_view_idents(out@) == spec_view_idents(v@.subrange(0, i as int)),
        decreases v.len() - i,
    {
        let c = v[i].clone();
        proof {
            lemma_view_idents_push(out@, c);
            assert(v@.subrange(0, i as int + 1).drop_last() =~= v@.subrange(0, i as int));
            assert(v@.subrange(0, i as int + 1).last() == v@[i as int]);
        }
        out.push(c);
        i = i + 1;
    }
    proof {
        assert(v@.subrange(0, v@.len() as int) =~= v@);
    }
    out
}

} // verus!
