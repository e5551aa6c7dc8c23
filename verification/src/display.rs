//! Deterministic, side-effect-free rendering of tokens and AST nodes, used
//! for diagnostics and test assertions: literals render as their value,
//! identifiers as their name, prefix expressions as `(<op><operand>)`, infix
//! expressions as `(<left> <op> <right>)`, and calls as
//! `<callee>(<args, comma-joined>)`.

use vstd::prelude::*;
use vstd::string::StringExecFns;

use crate::ast::{
    spec_view_expr, spec_view_exprs, spec_view_stmt, spec_view_stmts, BlockStatement, Expression,
    SpecBlock, SpecExpr, SpecIdent, SpecIf, SpecLiteral, SpecStmt, Statement, UnaryOperatorType,
};
use crate::token::{SpecTokenKind, TokenKind};

verus! {

/// The decimal digit character for `d`.
pub open spec fn spec_digit_char(d: nat) -> char {
    if d == 0 {
        '0'
    } else if d == 1 {
        '1'
    } else if d == 2 {
        '2'
    } else if d == 3 {
        '3'
    } else if d == 4 {
        '4'
    } else if d == 5 {
        '5'
    } else if d == 6 {
        '6'
    } else if d == 7 {
        '7'
    } else if d == 8 {
        '8'
    } else {
        '9'
    }
}

/// The decimal digits of `n`, most significant first, no leading zeros
/// (except for `n == 0` itself).
pub open spec fn spec_nat_digits(n: nat) -> Seq<char>
    decreases n,
{
    if n < 10 {
        seq![spec_digit_char(n)]
    } else {
        spec_nat_digits(n / 10).push(spec_digit_char(n % 10))
    }
}

/// The decimal rendering of a 64-bit signed integer.
pub open spec fn spec_i64_str(v: i64) -> Seq<char> {
    if v >= 0 {
        spec_nat_digits(v as nat)
    } else {
        seq!['-'] + spec_nat_digits((-(v as int)) as nat)
    }
}

/// The rendering of a boolean.
pub open spec fn spec_bool_str(b: bool) -> Seq<char> {
    if b {
        "true"@
    } else {
        "false"@
    }
}

/// Relies on `String::push`: appends the character to the end of the string.
#[verifier::external_body]
pub(crate) fn push_char(s: &mut String, c: char)
    ensures
        final(s)@ == old(s)@.push(c),
{
    s.push(c)
}

fn digit_char(d: u64) -> (c: char)
    requires
        d < 10,
    ensures
        c == spec_digit_char(d as nat),
{
    if d == 0 {
        '0'
    } else if d == 1 {
        '1'
    } else if d == 2 {
        '2'
    } else if d == 3 {
        '3'
    } else if d == 4 {
        '4'
    } else if d == 5 {
        '5'
    } else if d == 6 {
        '6'
    } else if d == 7 {
        '7'
    } else if d == 8 {
        '8'
    } else {
        '9'
    }
}

pub fn u64_to_string(n: u64) -> (s: String)
    ensures
        s@ == spec_nat_digits(n as nat),
    decreases n,
{
    if n < 10 {
        let mut s = String::new();
        push_char(&mut s, digit_char(n));
        proof {
            assert(s@ =~= spec_nat_digits(n as nat));
        }
        s
    } else {
        let mut s = u64_to_string(n / 10);
        push_char(&mut s, digit_char(n % 10));
        s
    }
}

/// The decimal rendering of `v`, with a leading minus sign when negative.
pub fn i64_to_string(v: i64) -> (s: String)
    ensures
        s@ == spec_i64_str(v),
{
    if v >= 0 {
        u64_to_string(v as u64)
    } else {
        let m: u64 = if v == i64::MIN {
            9223372036854775808u64
        } else {
            (-v) as u64
        };
        assert(m as nat == (-(v as int)) as nat);
        let mut s = String::new();
        push_char(&mut s, '-');
        let digits = u64_to_string(m);
        s.append(digits.as_str());
        proof {
            assert(s@ =~= spec_i64_str(v));
        }
        s
    }
}

/// The rendering of `b`: `true` or `false`.
pub fn bool_to_string(b: bool) -> (s: String)
    ensures
        s@ == spec_bool_str(b),
{
    if b {
        String::from_str("true")
    } else {
        String::from_str("false")
    }
}

/// The source-like text of a token kind; carried text renders as itself.
pub open spec fn spec_token_text(k: SpecTokenKind) -> Seq<char> {
    match k {
        SpecTokenKind::Illegal => "ILLEGAL"@,
        SpecTokenKind::EOF => "EOF"@,
        SpecTokenKind::Identifier { name } => name,
        SpecTokenKind::Integer(v) => spec_i64_str(v),
        SpecTokenKind::Str(s) => s,
        SpecTokenKind::Plus => "+"@,
        SpecTokenKind::Minus => "-"@,
        SpecTokenKind::Slash => "/"@,
        SpecTokenKind::Asterisk => "*"@,
        SpecTokenKind::Modulo => "%"@,
        SpecTokenKind::Assign => "="@,
        SpecTokenKind::Equal => "=="@,
        SpecTokenKind::NotEqual => "!="@,
        SpecTokenKind::Bang => "!"@,
        SpecTokenKind::LeftParen => "("@,
        SpecTokenKind::RightParen => ")"@,
        SpecTokenKind::LeftBrace => "{"@,
        SpecTokenKind::RightBrace => "}"@,
        SpecTokenKind::LeftBracket => "["@,
        SpecTokenKind::RightBracket => "]"@,
        SpecTokenKind::Comma => ","@,
        SpecTokenKind::Hashtag => "#"@,
        SpecTokenKind::DoubleQuote => "\""@,
        SpecTokenKind::SingleQuote => "'"@,
        SpecTokenKind::Pipe => "|"@,
        SpecTokenKind::Ampersand => "&"@,
        SpecTokenKind::Semicolon => ";"@,
        SpecTokenKind::LessThan => "<"@,
        SpecTokenKind::GreaterThan => ">"@,
        SpecTokenKind::LessEqual => "<="@,
        SpecTokenKind::GreaterEqual => ">="@,
        SpecTokenKind::And => "&&"@,
        SpecTokenKind::Or => "||"@,
        SpecTokenKind::Increment => "++"@,
        SpecTokenKind::Decrement => "--"@,
        SpecTokenKind::True => "true"@,
        SpecTokenKind::False => "false"@,
        SpecTokenKind::Function => "fn"@,
        SpecTokenKind::Match => "match"@,
        SpecTokenKind::If => "if"@,
        SpecTokenKind::Else => "else"@,
        SpecTokenKind::Return => "ret"@,
        SpecTokenKind::For => "for"@,
        SpecTokenKind::Break => "break"@,
        SpecTokenKind::Continue => "continue"@,
    }
}

/// The source-like text of a token kind.
pub fn token_text(k: &TokenKind) -> (r: String)
    ensures
        r@ == spec_token_text(k@),
{
    match k {
        TokenKind::Illegal => String::from_str("ILLEGAL"),
        TokenKind::EOF => String::from_str("EOF"),
        TokenKind::Identifier { name } => name.clone(),
        TokenKind::Integer(v) => i64_to_string(*v),
        TokenKind::Str(s) => s.clone(),
        TokenKind::Plus => String::from_str("+"),
        TokenKind::Minus => String::from_str("-"),
        TokenKind::Slash => String::from_str("/"),
        TokenKind::Asterisk => String::from_str("*"),
        TokenKind::Modulo => String::from_str("%"),
        TokenKind::Assign => String::from_str("="),
        TokenKind::Equal => String::from_str("=="),
        TokenKind::NotEqual => String::from_str("!="),
        TokenKind::Bang => String::from_str("!"),
        TokenKind::LeftParen => String::from_str("("),
        TokenKind::RightParen => String::from_str(")"),
        TokenKind::LeftBrace => String::from_str("{"),
        TokenKind::RightBrace => String::from_str("}"),
        TokenKind::LeftBracket => String::from_str("["),
        TokenKind::RightBracket => String::from_str("]"),
        TokenKind::Comma => String::from_str(","),
        TokenKind::Hashtag => String::from_str("#"),
        TokenKind::DoubleQuote => String::from_str("\""),
        TokenKind::SingleQuote => String::from_str("'"),
        TokenKind::Pipe => String::from_str("|"),
        TokenKind::Ampersand => String::from_str("&"),
        TokenKind::Semicolon => String::from_str(";"),
        TokenKind::LessThan => String::from_str("<"),
        TokenKind::GreaterThan => String::from_str(">"),
        TokenKind::LessEqual => String::from_str("<="),
        TokenKind::GreaterEqual => String::from_str(">="),
        TokenKind::And => String::from_str("&&"),
        TokenKind::Or => String::from_str("||"),
        TokenKind::Increment => String::from_str("++"),
        TokenKind::Decrement => String::from_str("--"),
        TokenKind::True => String::from_str("true"),
        TokenKind::False => String::from_str("false"),
        TokenKind::Function => String::from_str("fn"),
        TokenKind::Match => String::from_str("match"),
        TokenKind::If => String::from_str("if"),
        TokenKind::Else => String::from_str("else"),
        TokenKind::Return => String::from_str("ret"),
        TokenKind::For => String::from_str("for"),
        TokenKind::Break => String::from_str("break"),
        TokenKind::Continue => String::from_str("continue"),
    }
}

/// The rendering of one expression.
pub open spec fn spec_render_expr(e: SpecExpr) -> Seq<char>
    decreases e,
{
    match e {
        SpecExpr::Identifier(i) => i.name,
        SpecExpr::Literal(l) => match l {
            SpecLiteral::Integer { raw, .. } => spec_i64_str(raw),
            SpecLiteral::Boolean { raw, .. } => spec_bool_str(raw),
            SpecLiteral::Str { raw, .. } => raw,
        },
        SpecExpr::Prefix { operator, operand, .. } => "("@ + spec_token_text(operator.kind)
            + spec_render_expr(*operand) + ")"@,
        SpecExpr::Infix { operator, left, right, .. } => "("@ + spec_render_expr(*left) + " "@
            + spec_token_text(operator.kind) + " "@ + spec_render_expr(*right) + ")"@,
        SpecExpr::FunctionCall { call, arguments, .. } => spec_render_expr(*call) + "("@
            + spec_render_args(arguments) + ")"@,
        SpecExpr::UnaryOperator { identifier, ty, .. } => match ty {
            UnaryOperatorType::PreIncrement => "("@ + "++"@ + identifier.name + ")"@,
            UnaryOperatorType::PreDecrement => "("@ + "--"@ + identifier.name + ")"@,
            UnaryOperatorType::PostIncrement => "("@ + identifier.name + "++"@ + ")"@,
            UnaryOperatorType::PostDecrement => "("@ + identifier.name + "--"@ + ")"@,
        },
    }
}

/// The renderings of a list of expressions, comma-joined.
pub open spec fn spec_render_args(args: Seq<SpecExpr>) -> Seq<char>
    decreases args,
{
    if args.len() == 0 {
        Seq::empty()
    } else if args.len() == 1 {
        spec_render_expr(args[0])
    } else {
        spec_render_args(args.drop_last()) + ", "@ + spec_render_expr(args.last())
    }
}

/// The rendering of one expression as source-like text.
pub fn render_expr(e: &Expression) -> (r: String)
    ensures
        r@ == spec_render_expr(e@),
    decreases *e,
{
    match e {
        Expression::Identifier(i) => i.name.clone(),
        Expression::Literal(l) => match l {
            crate::ast::Literal::Integer(i) => i64_to_string(i.raw),
            crate::ast::Literal::Boolean(b) => bool_to_string(b.raw),
            crate::ast::Literal::Str(s) => s.raw.clone(),
        },
        Expression::Prefix(u) => {
            let mut r = String::from_str("(");
            let t = token_text(&u.operator.kind);
            r.append(t.as_str());
            let inner = render_expr(&u.operand);
            r.append(inner.as_str());
            r.append(")");
            proof {
                assert(r@ =~= spec_render_expr(e@));
            }
            r
        },
        Expression::Infix(b) => {
            let mut r = String::from_str("(");
            let l = render_expr(&b.left);
            r.append(l.as_str());
            r.append(" ");
            let t = token_text(&b.operator.kind);
            r.append(t.as_str());
            r.append(" ");
            let rt = render_expr(&b.right);
            r.append(rt.as_str());
            r.append(")");
            proof {
                assert(r@ =~= spec_render_expr(e@));
            }
            r
        },
        Expression::FunctionCall(f) => {
            let mut r = render_expr(&f.call);
            r.append("(");
            let args = render_args(&f.arguments);
            r.append(args.as_str());
            r.append(")");
            proof {
                assert(r@ =~= spec_render_expr(e@));
            }
            r
        },
        Expression::UnaryOperator(u) => {
            let mut r = String::from_str("(");
            match u.ty {
                UnaryOperatorType::PreIncrement => {
                    r.append("++");
                    r.append(u.identifier.name.as_str());
                },
                UnaryOperatorType::PreDecrement => {
                    r.append("--");
                    r.append(u.identifier.name.as_str());
                },
                UnaryOperatorType::PostIncrement => {
                    r.append(u.identifier.name.as_str());
                    r.append("++");
                },
                UnaryOperatorType::PostDecrement => {
                    r.append(u.identifier.name.as_str());
                    r.append("--");
                },
            }
            r.append(")");
            proof {
                assert(r@ =~= spec_render_expr(e@));
            }
            r
        },
    }
}

/// The renderings of a list of expressions, comma-joined.
pub fn render_args(v: &Vec<Expression>) -> (r: String)
    ensures
        r@ == spec_render_args(spec_view_exprs(v@)),
    decreases *v,
{
    let mut r = String::new();
    let mut i: usize = 0;
    while i < v.len()
        invariant
            i <= v.len(),
            r@ == spec_render_args(spec_view_exprs(v@.subrange(0, i as int))),
        decreases v.len() - i,
    {
        let ghost prefix = v@.subrange(0, i as int);
        if i > 0 {
            r.append(", ");
        }
        let rendered = render_expr(&v[i]);
        r.append(rendered.as_str());
        proof {
            crate::ast::lemma_view_exprs_push(prefix, v@[i as int]);
            assert(v@.subrange(0, i as int + 1).drop_last() =~= prefix);
            assert(v@.subrange(0, i as int + 1).last() == v@[i as int]);
            crate::ast::lemma_view_exprs_len(prefix);
            let whole = spec_view_exprs(v@.subrange(0, i as int + 1));
            assert(whole == spec_view_exprs(prefix).push(spec_view_expr(v@[i as int])));
            assert(whole.drop_last() =~= spec_view_exprs(prefix));
            assert(r@ =~= spec_render_args(whole));
        }
        i = i + 1;
    }
    proof {
        assert(v@.subrange(0, v@.len() as int) =~= v@);
    }
    r
}

/// The renderings of a list of expressions, comma-joined.
pub fn format_expressions(exprs: &Vec<Expression>) -> (r: String)
    ensures
        r@ == spec_render_args(spec_view_exprs(exprs@)),
{
    render_args(exprs)
}

/// The rendering of one statement.
pub open spec fn spec_render_stmt(s: SpecStmt) -> Seq<char>
    decreases s,
{
    match s {
        SpecStmt::VariableDeclaration { identifier, expr, .. } => "# "@ + spec_token_text(
            identifier.kind,
        ) + " = "@ + spec_render_expr(expr) + ";"@,
        SpecStmt::Expression(e) => spec_render_expr(e),
        SpecStmt::Return { argument, .. } => "ret "@ + spec_render_expr(argument) + ";"@,
        SpecStmt::Function { name, params, body, .. } => "fn "@ + name + "("@ + spec_render_params(
            params,
        ) + ") { "@ + spec_render_stmts(body.body) + " }"@,
        SpecStmt::If(i) => "if ("@ + spec_render_expr(*i.condition) + ") { "@ + spec_render_stmts(
            i.consequent.body,
        ) + " }"@ + spec_render_elifs(i.branches) + match i.alternate {
            Some(b) => " else { "@ + spec_render_stmts(b.body) + " }"@,
            None => Seq::empty(),
        },
        SpecStmt::For(f) => "for "@ + (match f.initializer {
            Some(v) => "# "@ + spec_token_text(v.identifier.kind) + " = "@ + spec_render_expr(
                v.expr,
            ),
            None => Seq::empty(),
        }) + "; "@ + (match f.condition {
            Some(c) => spec_render_expr(c),
            None => Seq::empty(),
        }) + "; "@ + (match f.increment {
            Some(i) => spec_render_expr(i),
            None => Seq::empty(),
        }) + " { "@ + spec_render_stmts(f.body.body) + " }"@,
    }
}

/// Parameter names, comma-joined.
pub open spec fn spec_render_params(params: Seq<SpecIdent>) -> Seq<char>
    decreases params,
{
    if params.len() == 0 {
        Seq::empty()
    } else if params.len() == 1 {
        params[0].name
    } else {
        spec_render_params(params.drop_last()) + ", "@ + params.last().name
    }
}

/// Renderings of the `else if` clauses of an `if` chain.
pub open spec fn spec_render_elifs(branches: Seq<SpecIf>) -> Seq<char>
    decreases branches,
{
    if branches.len() == 0 {
        Seq::empty()
    } else {
        spec_render_elifs(branches.drop_last()) + " else if ("@ + spec_render_expr(
            *branches.last().condition,
        ) + ") { "@ + spec_render_stmts(branches.last().consequent.body) + " }"@
    }
}

/// The renderings of a list of statements, joined by single spaces.
pub open spec fn spec_render_stmts(stmts: Seq<SpecStmt>) -> Seq<char>
    decreases stmts,
{
    if stmts.len() == 0 {
        Seq::empty()
    } else if stmts.len() == 1 {
        spec_render_stmt(stmts[0])
    } else {
        spec_render_stmts(stmts.drop_last()) + " "@ + spec_render_stmt(stmts.last())
    }
}

/// The rendering of one statement as source-like text.
pub fn render_stmt(s: &Statement) -> (r: String)
    ensures
        r@ == spec_render_stmt(s@),
    decreases *s,
{
    match s {
        Statement::VariableDeclaration(v) => {
            let mut r = String::from_str("# ");
            let t = token_text(&v.identifier.kind);
            r.append(t.as_str());
            r.append(" = ");
            let e = render_expr(&v.expr);
            r.append(e.as_str());
            r.append(";");
            proof {
                assert(r@ =~= spec_render_stmt(s@));
            }
            r
        },
        Statement::Expression(e) => render_expr(e),
        Statement::Return(ret) => {
            let mut r = String::from_str("ret ");
            let e = render_expr(&ret.argument);
            r.append(e.as_str());
            r.append(";");
            proof {
                assert(r@ =~= spec_render_stmt(s@));
            }
            r
        },
        Statement::Function(f) => {
            let mut r = String::from_str("fn ");
            r.append(f.name.as_str());
            r.append("(");
            let ps = render_params(&f.params);
            r.append(ps.as_str());
            r.append(") { ");
            let b = render_stmts(&f.body.body);
            r.append(b.as_str());
            r.append(" }");
            proof {
                assert(r@ =~= spec_render_stmt(s@));
            }
            r
        },
        Statement::If(i) => {
            let mut r = String::from_str("if (");
            let c = render_expr(&i.condition);
            r.append(c.as_str());
            r.append(") { ");
            let b = render_stmts(&i.consequent.body);
            r.append(b.as_str());
            r.append(" }");
            let el = render_elifs(&i.branches);
            r.append(el.as_str());
            match &i.alternate {
                Some(alt) => {
                    r.append(" else { ");
                    let ab = render_stmts(&alt.body);
                    r.append(ab.as_str());
                    r.append(" }");
                },
                None => {},
            }
            proof {
                assert(r@ =~= spec_render_stmt(s@));
            }
            r
        },
        Statement::For(f) => {
            let mut r = String::from_str("for ");
            match &f.initializer {
                Some(v) => {
                    r.append("# ");
                    let t = token_text(&v.identifier.kind);
                    r.append(t.as_str());
                    r.append(" = ");
                    let e = render_expr(&v.expr);
                    r.append(e.as_str());
                },
                None => {},
            }
            r.append("; ");
            match &f.condition {
                Some(c) => {
                    let e = render_expr(c);
                    r.append(e.as_str());
                },
                None => {},
            }
            r.append("; ");
            match &f.increment {
                Some(i) => {
                    let e = render_expr(i);
                    r.append(e.as_str());
                },
                None => {},
            }
            r.append(" { ");
            let b = render_stmts(&f.body.body);
            r.append(b.as_str());
            r.append(" }");
            proof {
                assert(r@ =~= spec_render_stmt(s@));
            }
            r
        },
    }
}

/// Parameter names, comma-joined.
pub fn render_params(v: &Vec<crate::ast::Identifier>) -> (r: String)
    ensures
        r@ == spec_render_params(crate::ast::spec_view_idents(v@)),
{
    let mut r = String::new();
    let mut i: usize = 0;
    while i < v.len()
        invariant
            i <= v.len(),
            r@ == spec_render_params(crate::ast::spec_view_idents(v@.subrange(0, i as int))),
        decreases v.len() - i,
    {
        let ghost prefix = v@.subrange(0, i as int);
        if i > 0 {
            r.append(", ");
        }
        r.append(v[i].name.as_str());
        proof {
            crate::ast::lemma_view_idents_push(prefix, v@[i as int]);
            assert(v@.subrange(0, i as int + 1).drop_last() =~= prefix);
            assert(v@.subrange(0, i as int + 1).last() == v@[i as int]);
            crate::ast::lemma_view_idents_len(prefix);
            let whole = crate::ast::spec_view_idents(v@.subrange(0, i as int + 1));
            assert(whole.drop_last() =~= crate::ast::spec_view_idents(prefix));
            assert(r@ =~= spec_render_params(whole));
        }
        i = i + 1;
    }
    proof {
        assert(v@.subrange(0, v@.len() as int) =~= v@);
    }
    r
}

/// Renderings of the `else if` clauses of an `if` chain.
pub fn render_elifs(v: &Vec<crate::ast::If>) -> (r: String)
    ensures
        r@ == spec_render_elifs(crate::ast::spec_view_ifs(v@)),
    decreases *v,
{
    let mut r = String::new();
    let mut i: usize = 0;
    while i < v.len()
        invariant
            i <= v.len(),
            r@ == spec_render_elifs(crate::ast::spec_view_ifs(v@.subrange(0, i as int))),
        decreases v.len() - i,
    {
        let ghost prefix = v@.subrange(0, i as int);
        r.append(" else if (");
        let c = render_expr(&v[i].condition);
        r.append(c.as_str());
        r.append(") { ");
        let b = render_stmts(&v[i].consequent.body);
        r.append(b.as_str());
        r.append(" }");
        proof {
            crate::ast::lemma_view_ifs_push(prefix, v@[i as int]);
            assert(v@.subrange(0, i as int + 1).drop_last() =~= prefix);
            assert(v@.subrange(0, i as int + 1).last() == v@[i as int]);
            let whole = crate::ast::spec_view_ifs(v@.subrange(0, i as int + 1));
            assert(whole.drop_last() =~= crate::ast::spec_view_ifs(prefix));
            assert(r@ =~= spec_render_elifs(whole));
        }
        i = i + 1;
    }
    proof {
        assert(v@.subrange(0, v@.len() as int) =~= v@);
    }
    r
}

/// The renderings of a list of statements, joined by single spaces.
pub fn render_stmts(v: &Vec<Statement>) -> (r: String)
    ensures
        r@ == spec_render_stmts(spec_view_stmts(v@)),
    decreases *v,
{
    let mut r = String::new();
    let mut i: usize = 0;
    while i < v.len()
        invariant
            i <= v.len(),
            r@ == spec_render_stmts(spec_view_stmts(v@.subrange(0, i as int))),
        decreases v.len() - i,
    {
        let ghost prefix = v@.subrange(0, i as int);
        if i > 0 {
            r.append(" ");
        }
        let rendered = render_stmt(&v[i]);
        r.append(rendered.as_str());
        proof {
            crate::ast::lemma_view_stmts_push(prefix, v@[i as int]);
            assert(v@.subrange(0, i as int + 1).drop_last() =~= prefix);
            assert(v@.subrange(0, i as int + 1).last() == v@[i as int]);
            crate::ast::lemma_view_stmts_len(prefix);
            let whole = spec_view_stmts(v@.subrange(0, i as int + 1));
            assert(whole.drop_last() =~= spec_view_stmts(prefix));
            assert(r@ =~= spec_render_stmts(whole));
        }
        i = i + 1;
    }
    proof {
        assert(v@.subrange(0, v@.len() as int) =~= v@);
    }
    r
}

/// The renderings of a list of statements, joined by single spaces.
pub fn format_statements(stmts: &Vec<Statement>) -> (r: String)
    ensures
        r@ == spec_render_stmts(spec_view_stmts(stmts@)),
{
    render_stmts(stmts)
}

} // verus!
