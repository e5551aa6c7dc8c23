//! The parser: a recursive-descent statement parser plus a
//! precedence-climbing expression parser, consuming the lexer's tokens with
//! one token of lookahead.
//!
//! The mathematical model is the `spec_parse_*` family over the token
//! sequence and a cursor. Statement-level errors are collected into a list
//! so one parse can report several independent mistakes; an error inside an
//! expression aborts the enclosing statement's parse immediately (statement
//! boundaries resynchronize error collection; sub-expression errors do
//! not). Every function carries a nesting budget (`fuel`) chosen from the
//! token count, far beyond what any input with that many tokens can nest.

use vstd::prelude::*;

use crate::ast::{
    lemma_view_stmts_index, lemma_view_stmts_len, spec_view_stmts,
    BinaryExpression, BlockStatement, Boolean, Expression, Function, FunctionCall, Identifier, If,
    Integer, Literal, Node, Program, Return, SpecBlock, SpecExpr, SpecIdent, SpecIf, SpecLiteral,
    SpecProgram, SpecStmt, Statement, StringType, UnaryExpression, UnaryOperator,
    UnaryOperatorType, Variable,
};
use crate::lexer::{spec_tokens_from, LexError, Lexer};
use crate::precedences::{
    determine_token_precedence, spec_prec_rank, spec_token_precedence, Precedence,
};
use crate::token::{
    lemma_view_tokens_index, lemma_view_tokens_len, lemma_view_tokens_push, spec_same_kind,
    spec_view_tokens, Span, SpecToken, SpecTokenKind, Token, TokenKind,
};

verus! {

/// A syntax failure, surfaced as a value.
#[derive(Debug, PartialEq)]
pub enum ParseError {
    /// The lexer failed before any token could be parsed.
    Lex(LexError),
    /// A specific token was required and something else stood there.
    UnexpectedToken { expected: TokenKind, got: TokenKind },
    /// No expression can start with this token.
    NoPrefixParse(TokenKind),
    /// An identifier was required (a function name, a parameter, or an
    /// increment/decrement target).
    ExpectedIdentifier(TokenKind),
    /// A parameter list expects a comma or its closing parenthesis.
    ExpectedCommaOrParen(TokenKind),
    /// An expression series was not closed by its end delimiter.
    UnterminatedSeries { end: TokenKind, got: TokenKind },
    /// A block was not closed by a right brace.
    MissingRightBrace,
    /// The nesting budget for one parse ran out.
    NestingTooDeep,
}

/// The mathematical value of a `ParseError`.
pub enum SpecParseError {
    Lex(LexError),
    UnexpectedToken { expected: SpecTokenKind, got: SpecTokenKind },
    NoPrefixParse(SpecTokenKind),
    ExpectedIdentifier(SpecTokenKind),
    ExpectedCommaOrParen(SpecTokenKind),
    UnterminatedSeries { end: SpecTokenKind, got: SpecTokenKind },
    MissingRightBrace,
    NestingTooDeep,
}

impl View for ParseError {
    type V = SpecParseError;

    open spec fn view(&self) -> SpecParseError {
        match self {
            ParseError::Lex(e) => SpecParseError::Lex(*e),
            ParseError::UnexpectedToken { expected, got } => SpecParseError::UnexpectedToken {
                expected: expected@,
                got: got@,
            },
            ParseError::NoPrefixParse(k) => SpecParseError::NoPrefixParse(k@),
            ParseError::ExpectedIdentifier(k) => SpecParseError::ExpectedIdentifier(k@),
            ParseError::ExpectedCommaOrParen(k) => SpecParseError::ExpectedCommaOrParen(k@),
            ParseError::UnterminatedSeries { end, got } => SpecParseError::UnterminatedSeries {
                end: end@,
                got: got@,
            },
            ParseError::MissingRightBrace => SpecParseError::MissingRightBrace,
            ParseError::NestingTooDeep => SpecParseError::NestingTooDeep,
        }
    }
}

/// The descriptive text of a syntax error.
pub open spec fn spec_parse_error_str(e: SpecParseError) -> Seq<char> {
    match e {
        SpecParseError::Lex(le) => crate::lexer::spec_lex_error_str(le),
        SpecParseError::UnexpectedToken { expected, got } => "expected token: "@
            + crate::display::spec_token_text(expected) + " but got "@
            + crate::display::spec_token_text(got),
        SpecParseError::NoPrefixParse(k) => "no prefix function found for the token: "@
            + crate::display::spec_token_text(k),
        SpecParseError::ExpectedIdentifier(k) => "expected identifier but got "@
            + crate::display::spec_token_text(k),
        SpecParseError::ExpectedCommaOrParen(k) => "expected a comma or the end of the parameters but got: "@
            + crate::display::spec_token_text(k),
        SpecParseError::UnterminatedSeries { end, got } => "expected "@
            + crate::display::spec_token_text(end) + " to close the expression series but got: "@
            + crate::display::spec_token_text(got),
        SpecParseError::MissingRightBrace => "expected to close the block with a right brace"@,
        SpecParseError::NestingTooDeep => "statement nesting exceeds the parse budget"@,
    }
}

impl ParseError {
    /// The descriptive text of this error.
    pub fn message(&self) -> (r: String)
        ensures
            r@ == spec_parse_error_str(self@),
    {
        let r = match self {
            ParseError::Lex(le) => le.message(),
            ParseError::UnexpectedToken { expected, got } => {
                let mut r = String::from_str("expected token: ");
                let t = crate::display::token_text(expected);
                r.append(t.as_str());
                r.append(" but got ");
                let g = crate::display::token_text(got);
                r.append(g.as_str());
                r
            },
            ParseError::NoPrefixParse(k) => {
                let mut r = String::from_str("no prefix function found for the token: ");
                let t = crate::display::token_text(k);
                r.append(t.as_str());
                r
            },
            ParseError::ExpectedIdentifier(k) => {
                let mut r = String::from_str("expected identifier but got ");
                let t = crate::display::token_text(k);
                r.append(t.as_str());
                r
            },
            ParseError::ExpectedCommaOrParen(k) => {
                let mut r = String::from_str(
                    "expected a comma or the end of the parameters but got: ",
                );
                let t = crate::display::token_text(k);
                r.append(t.as_str());
                r
            },
            ParseError::UnterminatedSeries { end, got } => {
                let mut r = String::from_str("expected ");
                let t = crate::display::token_text(end);
                r.append(t.as_str());
                r.append(" to close the expression series but got: ");
                let g = crate::display::token_text(got);
                r.append(g.as_str());
                r
            },
            ParseError::MissingRightBrace => String::from_str(
                "expected to close the block with a right brace",
            ),
            ParseError::NestingTooDeep => String::from_str(
                "statement nesting exceeds the parse budget",
            ),
        };
        proof {
            assert(r@ =~= spec_parse_error_str(self@));
        }
        r
    }
}

/// The mirror of a list of parse errors, elementwise.
pub open spec fn spec_view_parse_errors(s: Seq<ParseError>) -> Seq<SpecParseError>
    decreases s,
{
    if s.len() == 0 {
        Seq::empty()
    } else {
        spec_view_parse_errors(s.drop_last()).push(s.last()@)
    }
}

/// Appending one error appends its mirror.
pub proof fn lemma_view_parse_errors_push(s: Seq<ParseError>, e: ParseError)
    ensures
        spec_view_parse_errors(s.push(e)) == spec_view_parse_errors(s).push(e@),
{
    assert(s.push(e).drop_last() =~= s);
    assert(s.push(e).last() == e);
}

// ---------------------------------------------------------------------------
// Cursor primitives
// ---------------------------------------------------------------------------

/// The token under the cursor; past the end, the stream repeats `EOF`.
pub open spec fn spec_cur(toks: Seq<SpecToken>, pos: int) -> SpecToken {
    if 0 <= pos < toks.len() {
        toks[pos]
    } else {
        SpecToken { kind: SpecTokenKind::EOF, span: Span { start: 0, end: 0 } }
    }
}

/// The cursor after advancing one token; it saturates at the last token, so
/// a parser sitting on the final `EOF` stays there.
pub open spec fn spec_adv(toks: Seq<SpecToken>, pos: int) -> int {
    if pos + 1 < toks.len() {
        pos + 1
    } else {
        pos
    }
}

/// The one token of lookahead.
pub open spec fn spec_peek(toks: Seq<SpecToken>, pos: int) -> SpecToken {
    spec_cur(toks, spec_adv(toks, pos))
}

/// Consume the current token when it is the same symbol as `k`.
pub open spec fn spec_expect_current(toks: Seq<SpecToken>, pos: int, k: SpecTokenKind) -> (
    Result<(), SpecParseError>,
    int,
) {
    if spec_same_kind(spec_cur(toks, pos).kind, k) {
        (Ok(()), spec_adv(toks, pos))
    } else {
        (
            Err(SpecParseError::UnexpectedToken { expected: k, got: spec_cur(toks, pos).kind }),
            pos,
        )
    }
}

/// Advance onto the lookahead token when it is the same symbol as `k`.
pub open spec fn spec_expect_peek(toks: Seq<SpecToken>, pos: int, k: SpecTokenKind) -> (
    Result<(), SpecParseError>,
    int,
) {
    if spec_same_kind(spec_peek(toks, pos).kind, k) {
        (Ok(()), spec_adv(toks, pos))
    } else {
        (
            Err(SpecParseError::UnexpectedToken { expected: k, got: spec_peek(toks, pos).kind }),
            pos,
        )
    }
}

// ---------------------------------------------------------------------------
// The model: statements
// ---------------------------------------------------------------------------

/// One statement, dispatched on the current token: `#` begins a variable
/// declaration, `fn` a function declaration, `if` an `if` chain, `ret` a
/// return statement, and anything else an expression statement.
pub open spec fn spec_parse_stmt(toks: Seq<SpecToken>, pos: int, fuel: nat) -> (
    Result<SpecStmt, SpecParseError>,
    int,
)
    decreases fuel,
{
    if fuel == 0 {
        (Err(SpecParseError::NestingTooDeep), pos)
    } else {
        match spec_cur(toks, pos).kind {
            SpecTokenKind::If => spec_parse_if(toks, pos, (fuel - 1) as nat),
            SpecTokenKind::Function => spec_parse_fn_stmt(toks, pos, (fuel - 1) as nat),
            SpecTokenKind::Return => spec_parse_ret(toks, pos, (fuel - 1) as nat),
            SpecTokenKind::Hashtag => spec_parse_var(toks, pos, (fuel - 1) as nat),
            _ => spec_parse_expr_stmt(toks, pos, (fuel - 1) as nat),
        }
    }
}

/// `# <identifier> = <expr> ;` — the trailing semicolon is optional but
/// consumed when present; the stored identifier token is kept as it stands.
pub open spec fn spec_parse_var(toks: Seq<SpecToken>, pos: int, fuel: nat) -> (
    Result<SpecStmt, SpecParseError>,
    int,
)
    decreases fuel,
{
    if fuel == 0 {
        (Err(SpecParseError::NestingTooDeep), pos)
    } else {
        let start = spec_cur(toks, pos).span.start;
        let p1 = spec_adv(toks, pos);
        let ident = spec_cur(toks, p1);
        let p2 = spec_adv(toks, p1);
        let (rc, p3) = spec_expect_current(toks, p2, SpecTokenKind::Assign);
        match rc {
            Err(e) => (Err(e), p3),
            Ok(_) => {
                let (re, p4) = spec_parse_expression(toks, p3, Precedence::Lowest, (fuel - 1) as nat);
                match re {
                    Err(e) => (Err(e), p4),
                    Ok((expr, _)) => {
                        let p5 = if spec_same_kind(
                            spec_peek(toks, p4).kind,
                            SpecTokenKind::Semicolon,
                        ) {
                            spec_adv(toks, p4)
                        } else {
                            p4
                        };
                        let end = spec_cur(toks, p5).span.end;
                        (
                            Ok(
                                SpecStmt::VariableDeclaration {
                                    identifier: ident,
                                    expr,
                                    span: Span { start, end },
                                },
                            ),
                            p5,
                        )
                    },
                }
            },
        }
    }
}

/// `ret <expr> ;` — the trailing semicolon is optional but consumed when
/// present.
pub open spec fn spec_parse_ret(toks: Seq<SpecToken>, pos: int, fuel: nat) -> (
    Result<SpecStmt, SpecParseError>,
    int,
)
    decreases fuel,
{
    if fuel == 0 {
        (Err(SpecParseError::NestingTooDeep), pos)
    } else {
        let start = spec_cur(toks, pos).span.start;
        let p1 = spec_adv(toks, pos);
        let (re, p2) = spec_parse_expression(toks, p1, Precedence::Lowest, (fuel - 1) as nat);
        match re {
            Err(e) => (Err(e), p2),
            Ok((argument, _)) => {
                let p3 = if spec_same_kind(spec_peek(toks, p2).kind, SpecTokenKind::Semicolon) {
                    spec_adv(toks, p2)
                } else {
                    p2
                };
                let end = spec_cur(toks, p3).span.end;
                (Ok(SpecStmt::Return { argument, span: Span { start, end } }), p3)
            },
        }
    }
}

/// An expression standing as a statement; a trailing semicolon is consumed
/// when present.
pub open spec fn spec_parse_expr_stmt(toks: Seq<SpecToken>, pos: int, fuel: nat) -> (
    Result<SpecStmt, SpecParseError>,
    int,
)
    decreases fuel,
{
    if fuel == 0 {
        (Err(SpecParseError::NestingTooDeep), pos)
    } else {
        let (re, p1) = spec_parse_expression(toks, pos, Precedence::Lowest, (fuel - 1) as nat);
        match re {
            Err(e) => (Err(e), p1),
            Ok((e, _)) => {
                let p2 = if spec_same_kind(spec_peek(toks, p1).kind, SpecTokenKind::Semicolon) {
                    spec_adv(toks, p1)
                } else {
                    p1
                };
                (Ok(SpecStmt::Expression(e)), p2)
            },
        }
    }
}

/// A braced statement sequence; the cursor ends on the closing brace (or on
/// `EOF` when the input ends first).
pub open spec fn spec_parse_block(toks: Seq<SpecToken>, pos: int, fuel: nat) -> (
    Result<SpecBlock, SpecParseError>,
    int,
)
    decreases fuel,
{
    if fuel == 0 {
        (Err(SpecParseError::NestingTooDeep), pos)
    } else {
        let start = spec_cur(toks, pos).span.start;
        let p1 = spec_adv(toks, pos);
        let (rb, p2) = spec_parse_block_items(toks, p1, Seq::empty(), (fuel - 1) as nat);
        match rb {
            Err(e) => (Err(e), p2),
            Ok(body) => (
                Ok(SpecBlock { body, span: Span { start, end: spec_cur(toks, p2).span.end } }),
                p2,
            ),
        }
    }
}

/// The statements of a block, up to the closing brace or the end of input.
pub open spec fn spec_parse_block_items(
    toks: Seq<SpecToken>,
    pos: int,
    acc: Seq<SpecStmt>,
    fuel: nat,
) -> (Result<Seq<SpecStmt>, SpecParseError>, int)
    decreases fuel,
{
    if spec_same_kind(spec_cur(toks, pos).kind, SpecTokenKind::RightBrace) || spec_cur(
        toks,
        pos,
    ).kind is EOF {
        (Ok(acc), pos)
    } else if fuel == 0 {
        (Err(SpecParseError::NestingTooDeep), pos)
    } else {
        let (rs, p1) = spec_parse_stmt(toks, pos, (fuel - 1) as nat);
        match rs {
            Err(e) => (Err(e), p1),
            Ok(s) => spec_parse_block_items(toks, spec_adv(toks, p1), acc.push(s), (fuel - 1) as nat),
        }
    }
}

/// `fn <name> ( <params> ) { <body> } ;?` — the name must be an identifier
/// and the body must close with a right brace.
pub open spec fn spec_parse_fn_stmt(toks: Seq<SpecToken>, pos: int, fuel: nat) -> (
    Result<SpecStmt, SpecParseError>,
    int,
)
    decreases fuel,
{
    if fuel == 0 {
        (Err(SpecParseError::NestingTooDeep), pos)
    } else {
        let start = spec_cur(toks, pos).span.start;
        let p1 = spec_adv(toks, pos);
        match spec_cur(toks, p1).kind {
            SpecTokenKind::Identifier { name } => {
                let p2 = spec_adv(toks, p1);
                let (rp, p3) = spec_parse_params(toks, p2, (fuel - 1) as nat);
                match rp {
                    Err(e) => (Err(e), p3),
                    Ok(params) => {
                        let (rl, p4) = spec_expect_peek(toks, p3, SpecTokenKind::LeftBrace);
                        match rl {
                            Err(e) => (Err(e), p4),
                            Ok(_) => {
                                let (rb, p5) = spec_parse_block(toks, p4, (fuel - 1) as nat);
                                match rb {
                                    Err(e) => (Err(e), p5),
                                    Ok(body) => if !spec_same_kind(
                                        spec_cur(toks, p5).kind,
                                        SpecTokenKind::RightBrace,
                                    ) {
                                        (Err(SpecParseError::MissingRightBrace), p5)
                                    } else {
                                        let p6 = if spec_same_kind(
                                            spec_peek(toks, p5).kind,
                                            SpecTokenKind::Semicolon,
                                        ) {
                                            spec_adv(toks, p5)
                                        } else {
                                            p5
                                        };
                                        let end = spec_cur(toks, p6).span.end;
                                        (
                                            Ok(
                                                SpecStmt::Function {
                                                    name,
                                                    params,
                                                    body,
                                                    span: Span { start, end },
                                                },
                                            ),
                                            p6,
                                        )
                                    },
                                }
                            },
                        }
                    },
                }
            },
            other => (Err(SpecParseError::ExpectedIdentifier(other)), p1),
        }
    }
}

/// A parenthesized parameter list: identifiers separated by commas, with an
/// optional trailing comma; the cursor ends on the closing parenthesis.
pub open spec fn spec_parse_params(toks: Seq<SpecToken>, pos: int, fuel: nat) -> (
    Result<Seq<SpecIdent>, SpecParseError>,
    int,
)
    decreases fuel,
{
    if fuel == 0 {
        (Err(SpecParseError::NestingTooDeep), pos)
    } else if !spec_same_kind(spec_cur(toks, pos).kind, SpecTokenKind::LeftParen) {
        (
            Err(
                SpecParseError::UnexpectedToken {
                    expected: SpecTokenKind::LeftParen,
                    got: spec_cur(toks, pos).kind,
                },
            ),
            pos,
        )
    } else if spec_same_kind(spec_peek(toks, pos).kind, SpecTokenKind::RightParen) {
        (Ok(Seq::empty()), spec_adv(toks, pos))
    } else {
        spec_parse_params_loop(toks, spec_adv(toks, pos), Seq::empty(), (fuel - 1) as nat)
    }
}

/// The parameters from the current one on.
pub open spec fn spec_parse_params_loop(
    toks: Seq<SpecToken>,
    pos: int,
    acc: Seq<SpecIdent>,
    fuel: nat,
) -> (Result<Seq<SpecIdent>, SpecParseError>, int)
    decreases fuel,
{
    match spec_cur(toks, pos).kind {
        SpecTokenKind::Identifier { name } => {
            let ident = SpecIdent { name, span: spec_cur(toks, pos).span };
            if spec_same_kind(spec_peek(toks, pos).kind, SpecTokenKind::Comma) {
                let pc = spec_adv(toks, pos);
                if spec_same_kind(spec_peek(toks, pc).kind, SpecTokenKind::RightParen) {
                    (Ok(acc.push(ident)), spec_adv(toks, pc))
                } else if fuel == 0 {
                    (Err(SpecParseError::NestingTooDeep), pc)
                } else {
                    spec_parse_params_loop(
                        toks,
                        spec_adv(toks, pc),
                        acc.push(ident),
                        (fuel - 1) as nat,
                    )
                }
            } else if spec_same_kind(spec_peek(toks, pos).kind, SpecTokenKind::RightParen) {
                (Ok(acc.push(ident)), spec_adv(toks, pos))
            } else {
                (Err(SpecParseError::ExpectedCommaOrParen(spec_peek(toks, pos).kind)), pos)
            }
        },
        other => (Err(SpecParseError::ExpectedIdentifier(other)), pos),
    }
}

/// `if ( <cond> ) { <block> }` followed by any number of
/// `else if ( <cond> ) { <block> }` clauses and at most one final
/// `else { <block> }`.
pub open spec fn spec_parse_if(toks: Seq<SpecToken>, pos: int, fuel: nat) -> (
    Result<SpecStmt, SpecParseError>,
    int,
)
    decreases fuel,
{
    if fuel == 0 {
        (Err(SpecParseError::NestingTooDeep), pos)
    } else {
        let start = spec_cur(toks, pos).span.start;
        let (rl, p1) = spec_expect_peek(toks, pos, SpecTokenKind::LeftParen);
        match rl {
            Err(e) => (Err(e), p1),
            Ok(_) => {
                let p2 = spec_adv(toks, p1);
                let (rc, p3) = spec_parse_expression(toks, p2, Precedence::Lowest, (fuel - 1) as nat);
                match rc {
                    Err(e) => (Err(e), p3),
                    Ok((condition, _)) => {
                        let (rr, p4) = spec_expect_peek(toks, p3, SpecTokenKind::RightParen);
                        match rr {
                            Err(e) => (Err(e), p4),
                            Ok(_) => {
                                let (rb, p5) = spec_expect_peek(toks, p4, SpecTokenKind::LeftBrace);
                                match rb {
                                    Err(e) => (Err(e), p5),
                                    Ok(_) => {
                                        let (rcons, p6) = spec_parse_block(
                                            toks,
                                            p5,
                                            (fuel - 1) as nat,
                                        );
                                        match rcons {
                                            Err(e) => (Err(e), p6),
                                            Ok(consequent) => {
                                                let (rtail, p7) = spec_parse_elifs(
                                                    toks,
                                                    p6,
                                                    Seq::empty(),
                                                    None,
                                                    (fuel - 1) as nat,
                                                );
                                                match rtail {
                                                    Err(e) => (Err(e), p7),
                                                    Ok((branches, alternate)) => {
                                                        let end = spec_cur(toks, p7).span.end;
                                                        (
                                                            Ok(
                                                                SpecStmt::If(
                                                                    SpecIf {
                                                                        condition: Box::new(
                                                                            condition,
                                                                        ),
                                                                        consequent,
                                                                        branches,
                                                                        alternate,
                                                                        span: Span { start, end },
                                                                    },
                                                                ),
                                                            ),
                                                            p7,
                                                        )
                                                    },
                                                }
                                            },
                                        }
                                    },
                                }
                            },
                        }
                    },
                }
            },
        }
    }
}

/// The `else if` clauses and optional final `else` block of an `if` chain,
/// parsed while the lookahead is `else`.
pub open spec fn spec_parse_elifs(
    toks: Seq<SpecToken>,
    pos: int,
    branches: Seq<SpecIf>,
    alternate: Option<SpecBlock>,
    fuel: nat,
) -> (Result<(Seq<SpecIf>, Option<SpecBlock>), SpecParseError>, int)
    decreases fuel,
{
    if !spec_same_kind(spec_peek(toks, pos).kind, SpecTokenKind::Else) {
        (Ok((branches, alternate)), pos)
    } else if fuel == 0 {
        (Err(SpecParseError::NestingTooDeep), pos)
    } else {
        let pe = spec_adv(toks, pos);
        let bstart = spec_cur(toks, pe).span.start;
        if spec_same_kind(spec_peek(toks, pe).kind, SpecTokenKind::If) {
            let pi = spec_adv(toks, pe);
            let (rl, p1) = spec_expect_peek(toks, pi, SpecTokenKind::LeftParen);
            match rl {
                Err(e) => (Err(e), p1),
                Ok(_) => {
                    let p2 = spec_adv(toks, p1);
                    let (rc, p3) = spec_parse_expression(
                        toks,
                        p2,
                        Precedence::Lowest,
                        (fuel - 1) as nat,
                    );
                    match rc {
                        Err(e) => (Err(e), p3),
                        Ok((condition, _)) => {
                            let (rr, p4) = spec_expect_peek(toks, p3, SpecTokenKind::RightParen);
                            match rr {
                                Err(e) => (Err(e), p4),
                                Ok(_) => {
                                    let (rb, p5) = spec_expect_peek(
                                        toks,
                                        p4,
                                        SpecTokenKind::LeftBrace,
                                    );
                                    match rb {
                                        Err(e) => (Err(e), p5),
                                        Ok(_) => {
                                            let (rblk, p6) = spec_parse_block(
                                                toks,
                                                p5,
                                                (fuel - 1) as nat,
                                            );
                                            match rblk {
                                                Err(e) => (Err(e), p6),
                                                Ok(blk) => {
                                                    let bend = spec_cur(toks, p6).span.end;
                                                    let clause = SpecIf {
                                                        condition: Box::new(condition),
                                                        consequent: blk,
                                                        branches: Seq::empty(),
                                                        alternate: None,
                                                        span: Span { start: bstart, end: bend },
                                                    };
                                                    spec_parse_elifs(
                                                        toks,
                                                        p6,
                                                        branches.push(clause),
                                                        alternate,
                                                        (fuel - 1) as nat,
                                                    )
                                                },
                                            }
                                        },
                                    }
                                },
                            }
                        },
                    }
                },
            }
        } else {
            let (rb, p1) = spec_expect_peek(toks, pe, SpecTokenKind::LeftBrace);
            match rb {
                Err(e) => (Err(e), p1),
                Ok(_) => {
                    let (rblk, p2) = spec_parse_block(toks, p1, (fuel - 1) as nat);
                    match rblk {
                        Err(e) => (Err(e), p2),
                        Ok(blk) => spec_parse_elifs(
                            toks,
                            p2,
                            branches,
                            Some(blk),
                            (fuel - 1) as nat,
                        ),
                    }
                },
            }
        }
    }
}

// ---------------------------------------------------------------------------
// The model: expressions
// ---------------------------------------------------------------------------

/// Precedence climbing: one prefix term, then fold infix terms while the
/// lookahead operator binds tighter than `prec` (left-associative chains
/// for same-precedence operators).
pub open spec fn spec_parse_expression(
    toks: Seq<SpecToken>,
    pos: int,
    prec: Precedence,
    fuel: nat,
) -> (Result<(SpecExpr, Span), SpecParseError>, int)
    decreases fuel,
{
    if fuel == 0 {
        (Err(SpecParseError::NestingTooDeep), pos)
    } else {
        let left_start = spec_cur(toks, pos).span.start;
        let (rl, p1) = spec_parse_prefix(toks, pos, (fuel - 1) as nat);
        match rl {
            Err(e) => (Err(e), p1),
            Ok(left) => spec_parse_infix_loop(toks, p1, left, left_start, prec, (fuel - 1) as nat),
        }
    }
}

/// Whether the fold continues: the current token is not `EOF` and the
/// lookahead binds tighter than the caller's bound.
pub open spec fn spec_fold_continues(toks: Seq<SpecToken>, pos: int, prec: Precedence) -> bool {
    !(spec_cur(toks, pos).kind is EOF) && spec_prec_rank(prec) < spec_prec_rank(
        spec_token_precedence(spec_peek(toks, pos).kind),
    )
}

/// The infix fold: while the lookahead operator binds tighter, consume it
/// and its right operand (or a call's argument list) and extend `left`.
pub open spec fn spec_parse_infix_loop(
    toks: Seq<SpecToken>,
    pos: int,
    left: SpecExpr,
    left_start: usize,
    prec: Precedence,
    fuel: nat,
) -> (Result<(SpecExpr, Span), SpecParseError>, int)
    decreases fuel,
{
    if !spec_fold_continues(toks, pos, prec) {
        (Ok((left, Span { start: left_start, end: spec_cur(toks, pos).span.end })), pos)
    } else if fuel == 0 {
        (Err(SpecParseError::NestingTooDeep), pos)
    } else {
        let k = spec_peek(toks, pos).kind;
        if spec_same_kind(k, SpecTokenKind::LeftParen) {
            let p1 = spec_adv(toks, pos);
            let (rc, p2) = spec_parse_call(toks, p1, left, left_start, (fuel - 1) as nat);
            match rc {
                Err(e) => (Err(e), p2),
                Ok(call) => spec_parse_infix_loop(
                    toks,
                    p2,
                    call,
                    left_start,
                    prec,
                    (fuel - 1) as nat,
                ),
            }
        } else if spec_is_infix_operator(k) {
            let p1 = spec_adv(toks, pos);
            let op = spec_cur(toks, p1);
            let p2 = spec_adv(toks, p1);
            let (rr, p3) = spec_parse_expression(
                toks,
                p2,
                spec_token_precedence(op.kind),
                (fuel - 1) as nat,
            );
            match rr {
                Err(e) => (Err(e), p3),
                Ok((right, rspan)) => {
                    let folded = SpecExpr::Infix {
                        operator: op,
                        left: Box::new(left),
                        right: Box::new(right),
                        span: Span { start: left_start, end: rspan.end },
                    };
                    spec_parse_infix_loop(toks, p3, folded, left_start, prec, (fuel - 1) as nat)
                },
            }
        } else {
            (Ok((left, Span { start: left_start, end: spec_cur(toks, pos).span.end })), pos)
        }
    }
}

/// The binary operators the fold accepts.
pub open spec fn spec_is_infix_operator(k: SpecTokenKind) -> bool {
    ||| k is Plus
    ||| k is Minus
    ||| k is Asterisk
    ||| k is Slash
    ||| k is Modulo
    ||| k is Equal
    ||| k is NotEqual
    ||| k is LessEqual
    ||| k is LessThan
    ||| k is GreaterEqual
    ||| k is GreaterThan
}

/// One prefix term: an identifier (possibly with a postfix `++`/`--`), a
/// literal, a leading `++`/`--` on an identifier, unary `-`/`!`, or a
/// parenthesized sub-expression.
pub open spec fn spec_parse_prefix(toks: Seq<SpecToken>, pos: int, fuel: nat) -> (
    Result<SpecExpr, SpecParseError>,
    int,
)
    decreases fuel,
{
    if fuel == 0 {
        (Err(SpecParseError::NestingTooDeep), pos)
    } else {
        let span = spec_cur(toks, pos).span;
        match spec_cur(toks, pos).kind {
            SpecTokenKind::Increment => spec_parse_pre_step(
                toks,
                pos,
                UnaryOperatorType::PreIncrement,
            ),
            SpecTokenKind::Decrement => spec_parse_pre_step(
                toks,
                pos,
                UnaryOperatorType::PreDecrement,
            ),
            SpecTokenKind::Identifier { name } => {
                let ident = SpecIdent { name, span };
                if spec_same_kind(spec_peek(toks, pos).kind, SpecTokenKind::Increment) {
                    let p1 = spec_adv(toks, pos);
                    (
                        Ok(
                            SpecExpr::UnaryOperator {
                                identifier: ident,
                                ty: UnaryOperatorType::PostIncrement,
                                span: Span { start: span.start, end: spec_cur(toks, p1).span.end },
                            },
                        ),
                        p1,
                    )
                } else if spec_same_kind(spec_peek(toks, pos).kind, SpecTokenKind::Decrement) {
                    let p1 = spec_adv(toks, pos);
                    (
                        Ok(
                            SpecExpr::UnaryOperator {
                                identifier: ident,
                                ty: UnaryOperatorType::PostDecrement,
                                span: Span { start: span.start, end: spec_cur(toks, p1).span.end },
                            },
                        ),
                        p1,
                    )
                } else {
                    (Ok(SpecExpr::Identifier(ident)), pos)
                }
            },
            SpecTokenKind::Integer(v) => (
                Ok(SpecExpr::Literal(SpecLiteral::Integer { raw: v, span })),
                pos,
            ),
            SpecTokenKind::Str(s) => (Ok(SpecExpr::Literal(SpecLiteral::Str { raw: s, span })), pos),
            SpecTokenKind::True => (
                Ok(SpecExpr::Literal(SpecLiteral::Boolean { raw: true, span })),
                pos,
            ),
            SpecTokenKind::False => (
                Ok(SpecExpr::Literal(SpecLiteral::Boolean { raw: false, span })),
                pos,
            ),
            SpecTokenKind::Minus => spec_parse_prefix_op(toks, pos, (fuel - 1) as nat),
            SpecTokenKind::Bang => spec_parse_prefix_op(toks, pos, (fuel - 1) as nat),
            SpecTokenKind::LeftParen => {
                let p1 = spec_adv(toks, pos);
                let (re, p2) = spec_parse_expression(toks, p1, Precedence::Lowest, (fuel - 1) as nat);
                match re {
                    Err(e) => (Err(e), p2),
                    Ok((e, _)) => {
                        let (rr, p3) = spec_expect_peek(toks, p2, SpecTokenKind::RightParen);
                        match rr {
                            Err(err) => (Err(err), p3),
                            Ok(_) => (
                                Ok(
                                    crate::ast::spec_with_span(
                                        e,
                                        Span { start: span.start, end: spec_cur(toks, p3).span.end },
                                    ),
                                ),
                                p3,
                            ),
                        }
                    },
                }
            },
            other => (Err(SpecParseError::NoPrefixParse(other)), pos),
        }
    }
}

/// A leading `++`/`--`, which must be followed by an identifier.
pub open spec fn spec_parse_pre_step(toks: Seq<SpecToken>, pos: int, ty: UnaryOperatorType) -> (
    Result<SpecExpr, SpecParseError>,
    int,
) {
    let span = spec_cur(toks, pos).span;
    let p1 = spec_adv(toks, pos);
    match spec_cur(toks, p1).kind {
        SpecTokenKind::Identifier { name } => (
            Ok(
                SpecExpr::UnaryOperator {
                    identifier: SpecIdent { name, span: spec_cur(toks, p1).span },
                    ty,
                    span: Span { start: span.start, end: spec_cur(toks, p1).span.end },
                },
            ),
            p1,
        ),
        other => (Err(SpecParseError::ExpectedIdentifier(other)), p1),
    }
}

/// Unary `-` or `!` applied to a prefix-precedence sub-expression.
pub open spec fn spec_parse_prefix_op(toks: Seq<SpecToken>, pos: int, fuel: nat) -> (
    Result<SpecExpr, SpecParseError>,
    int,
)
    decreases fuel,
{
    if fuel == 0 {
        (Err(SpecParseError::NestingTooDeep), pos)
    } else {
        let op = spec_cur(toks, pos);
        let p1 = spec_adv(toks, pos);
        let (re, p2) = spec_parse_expression(toks, p1, Precedence::Prefix, (fuel - 1) as nat);
        match re {
            Err(e) => (Err(e), p2),
            Ok((operand, ospan)) => (
                Ok(
                    SpecExpr::Prefix {
                        operator: op,
                        operand: Box::new(operand),
                        span: Span { start: op.span.start, end: ospan.end },
                    },
                ),
                p2,
            ),
        }
    }
}

/// A call folded onto `left`: the cursor stands on `(` and ends on the
/// closing `)`.
pub open spec fn spec_parse_call(
    toks: Seq<SpecToken>,
    pos: int,
    callee: SpecExpr,
    left_start: usize,
    fuel: nat,
) -> (Result<SpecExpr, SpecParseError>, int)
    decreases fuel,
{
    if fuel == 0 {
        (Err(SpecParseError::NestingTooDeep), pos)
    } else {
        let (rs, p1) = spec_parse_series(toks, pos, SpecTokenKind::RightParen, (fuel - 1) as nat);
        match rs {
            Err(e) => (Err(e), p1),
            Ok((args, _)) => {
                let end = spec_cur(toks, p1).span.end;
                (
                    Ok(
                        SpecExpr::FunctionCall {
                            call: Box::new(callee),
                            arguments: args,
                            span: Span { start: left_start, end },
                        },
                    ),
                    p1,
                )
            },
        }
    }
}

/// A comma-separated expression series between an opening token (under the
/// cursor) and `end`; the empty series and a trailing comma are both
/// permitted, and the cursor ends on the end delimiter.
pub open spec fn spec_parse_series(
    toks: Seq<SpecToken>,
    pos: int,
    end: SpecTokenKind,
    fuel: nat,
) -> (Result<(Seq<SpecExpr>, Span), SpecParseError>, int)
    decreases fuel,
{
    if fuel == 0 {
        (Err(SpecParseError::NestingTooDeep), pos)
    } else {
        let start = spec_cur(toks, pos).span.start;
        if spec_same_kind(spec_peek(toks, pos).kind, end) {
            let p1 = spec_adv(toks, pos);
            (Ok((Seq::empty(), Span { start, end: spec_cur(toks, p1).span.end })), p1)
        } else {
            let p1 = spec_adv(toks, pos);
            let (r0, p2) = spec_parse_expression(toks, p1, Precedence::Lowest, (fuel - 1) as nat);
            match r0 {
                Err(e) => (Err(e), p2),
                Ok((e0, _)) => {
                    let (rr, p3) = spec_parse_series_loop(toks, p2, seq![e0], end, (fuel - 1) as nat);
                    match rr {
                        Err(e) => (Err(e), p3),
                        Ok(exprs) => (
                            Ok((exprs, Span { start, end: spec_cur(toks, p3).span.end })),
                            p3,
                        ),
                    }
                },
            }
        }
    }
}

/// The elements of a series after the first, while commas continue it.
pub open spec fn spec_parse_series_loop(
    toks: Seq<SpecToken>,
    pos: int,
    acc: Seq<SpecExpr>,
    end: SpecTokenKind,
    fuel: nat,
) -> (Result<Seq<SpecExpr>, SpecParseError>, int)
    decreases fuel,
{
    if spec_same_kind(spec_peek(toks, pos).kind, SpecTokenKind::Comma) {
        if fuel == 0 {
            (Err(SpecParseError::NestingTooDeep), pos)
        } else {
            let pc = spec_adv(toks, pos);
            if spec_same_kind(spec_peek(toks, pc).kind, end) {
                (Ok(acc), spec_adv(toks, pc))
            } else {
                let pn = spec_adv(toks, pc);
                let (rx, p3) = spec_parse_expression(toks, pn, Precedence::Lowest, (fuel - 1) as nat);
                match rx {
                    Err(e) => (Err(e), p3),
                    Ok((ex, _)) => spec_parse_series_loop(
                        toks,
                        p3,
                        acc.push(ex),
                        end,
                        (fuel - 1) as nat,
                    ),
                }
            }
        }
    } else if spec_same_kind(spec_peek(toks, pos).kind, end) {
        (Ok(acc), spec_adv(toks, pos))
    } else {
        (
            Err(
                SpecParseError::UnterminatedSeries { end, got: spec_peek(toks, pos).kind },
            ),
            pos,
        )
    }
}

// ---------------------------------------------------------------------------
// The model: programs
// ---------------------------------------------------------------------------

/// Top-level statements until `EOF`: each statement-level error is
/// collected and parsing resynchronizes at the next statement.
pub open spec fn spec_parse_program_items(
    toks: Seq<SpecToken>,
    pos: int,
    body: Seq<SpecStmt>,
    errs: Seq<SpecParseError>,
    fuel: nat,
) -> (Seq<SpecStmt>, Seq<SpecParseError>)
    decreases fuel,
{
    if spec_cur(toks, pos).kind is EOF {
        (body, errs)
    } else if fuel == 0 {
        (body, errs.push(SpecParseError::NestingTooDeep))
    } else {
        let (rs, p1) = spec_parse_stmt(toks, pos, (fuel - 1) as nat);
        let (body2, errs2) = match rs {
            Ok(s) => (body.push(s), errs),
            Err(e) => (body, errs.push(e)),
        };
        spec_parse_program_items(toks, spec_adv(toks, p1), body2, errs2, (fuel - 1) as nat)
    }
}

/// The minimal span covering a statement sequence: from the first
/// statement's start to the last one's end; empty sequences keep the empty
/// span.
pub open spec fn spec_body_span(body: Seq<SpecStmt>) -> Span {
    if body.len() == 0 {
        Span { start: 0, end: 0 }
    } else {
        Span {
            start: crate::ast::spec_stmt_span(body[0]).start,
            end: crate::ast::spec_stmt_span(body[body.len() - 1]).end,
        }
    }
}

/// A whole program: the collected statements, or every collected error.
pub open spec fn spec_parse_program(toks: Seq<SpecToken>, pos: int, fuel: nat) -> Result<
    SpecProgram,
    Seq<SpecParseError>,
> {
    let (body, errs) = spec_parse_program_items(toks, pos, Seq::empty(), Seq::empty(), fuel);
    if errs.len() > 0 {
        Err(errs)
    } else {
        Ok(SpecProgram { body, span: spec_body_span(body) })
    }
}

/// The nesting budget for one parse of `n` tokens: far beyond what any
/// input with that many tokens can nest.
pub open spec fn spec_parse_budget(n: nat) -> nat {
    if n > 1000000000 {
        u64::MAX as nat
    } else {
        4 * n + 64
    }
}

/// What parsing a whole source text yields: the token stream's first
/// lexical error alone, or the parsed program, or the collected syntax
/// errors.
pub open spec fn spec_parse(s: Seq<char>) -> Result<SpecProgram, Seq<SpecParseError>> {
    let (ts, err) = spec_tokens_from(s, 0);
    match err {
        Some(e) => Err(seq![SpecParseError::Lex(e)]),
        None => spec_parse_program(ts, 0, spec_parse_budget(ts.len())),
    }
}

// ---------------------------------------------------------------------------
// Agreement between executable results and the model
// ---------------------------------------------------------------------------

/// The elementwise mirror of an error list keeps the length.
pub proof fn lemma_view_parse_errors_len(s: Seq<ParseError>)
    ensures
        spec_view_parse_errors(s).len() == s.len(),
    decreases s.len(),
{
    if s.len() > 0 {
        lemma_view_parse_errors_len(s.drop_last());
    }
}

/// Agreement for statement results.
pub open spec fn stmt_result_agrees(
    r: Result<Statement, ParseError>,
    m: Result<SpecStmt, SpecParseError>,
) -> bool {
    match (r, m) {
        (Ok(s), Ok(ms)) => s@ == ms,
        (Err(e), Err(me)) => e@ == me,
        _ => false,
    }
}

/// Agreement for expression results.
pub open spec fn expr_result_agrees(
    r: Result<Expression, ParseError>,
    m: Result<SpecExpr, SpecParseError>,
) -> bool {
    match (r, m) {
        (Ok(e), Ok(me)) => e@ == me,
        (Err(e), Err(me)) => e@ == me,
        _ => false,
    }
}

/// Agreement for expression-with-span results.
pub open spec fn expr_span_result_agrees(
    r: Result<(Expression, Span), ParseError>,
    m: Result<(SpecExpr, Span), SpecParseError>,
) -> bool {
    match (r, m) {
        (Ok((e, sp)), Ok((me, msp))) => e@ == me && sp == msp,
        (Err(e), Err(me)) => e@ == me,
        _ => false,
    }
}

/// Agreement for block results.
pub open spec fn block_result_agrees(
    r: Result<BlockStatement, ParseError>,
    m: Result<SpecBlock, SpecParseError>,
) -> bool {
    match (r, m) {
        (Ok(b), Ok(mb)) => b@ == mb,
        (Err(e), Err(me)) => e@ == me,
        _ => false,
    }
}

/// Agreement for parameter-list results.
pub open spec fn params_result_agrees(
    r: Result<Vec<Identifier>, ParseError>,
    m: Result<Seq<SpecIdent>, SpecParseError>,
) -> bool {
    match (r, m) {
        (Ok(v), Ok(mv)) => crate::ast::spec_view_idents(v@) == mv,
        (Err(e), Err(me)) => e@ == me,
        _ => false,
    }
}

/// Agreement for expression-series results.
pub open spec fn series_result_agrees(
    r: Result<(Vec<Expression>, Span), ParseError>,
    m: Result<(Seq<SpecExpr>, Span), SpecParseError>,
) -> bool {
    match (r, m) {
        (Ok((v, sp)), Ok((mv, msp))) => crate::ast::spec_view_exprs(v@) == mv && sp == msp,
        (Err(e), Err(me)) => e@ == me,
        _ => false,
    }
}

/// Agreement for expectation results.
pub open spec fn unit_result_agrees(
    r: Result<(), ParseError>,
    m: Result<(), SpecParseError>,
) -> bool {
    match (r, m) {
        (Ok(_), Ok(_)) => true,
        (Err(e), Err(me)) => e@ == me,
        _ => false,
    }
}

/// Agreement for `elif`-tail results.
pub open spec fn elifs_result_agrees(
    r: Result<(Vec<If>, Option<Box<BlockStatement>>), ParseError>,
    m: Result<(Seq<SpecIf>, Option<SpecBlock>), SpecParseError>,
) -> bool {
    match (r, m) {
        (Ok((bs, alt)), Ok((mbs, malt))) => crate::ast::spec_view_ifs(bs@) == mbs
            && crate::ast::spec_view_alt(alt) == malt,
        (Err(e), Err(me)) => e@ == me,
        _ => false,
    }
}

/// Agreement for whole-program results.
pub open spec fn program_result_agrees(
    r: Result<Program, Vec<ParseError>>,
    m: Result<SpecProgram, Seq<SpecParseError>>,
) -> bool {
    match (r, m) {
        (Ok(p), Ok(mp)) => p@ == mp,
        (Err(es), Err(mes)) => spec_view_parse_errors(es@) == mes,
        _ => false,
    }
}

// ---------------------------------------------------------------------------
// The parser
// ---------------------------------------------------------------------------

/// The statement parser: the lexer's whole token stream plus a cursor with
/// one token of lookahead.
#[derive(Debug)]
pub struct Parser {
    tokens: Vec<Token>,
    pos: usize,
    lex_error: Option<LexError>,
}

impl Parser {
    /// The token stream being parsed.
    pub closed spec fn toks(&self) -> Seq<SpecToken> {
        spec_view_tokens(self.tokens@)
    }

    /// The cursor: the index of the current token.
    pub closed spec fn position(&self) -> int {
        self.pos as int
    }

    /// The lexical error that ended tokenization early, if any.
    pub closed spec fn lex_err(&self) -> Option<LexError> {
        self.lex_error
    }

    /// The stream is never empty and the cursor stays inside it.
    pub open spec fn wf(&self) -> bool {
        self.toks().len() >= 1 && 0 <= self.position() < self.toks().len()
    }

    /// Drain the lexer into a token stream ending at its `EOF` token. A
    /// lexical error ends tokenization and is remembered; `parse` surfaces
    /// it.
    pub fn new(lexer: &mut Lexer) -> (p: Parser)
        requires
            old(lexer).wf(),
        ensures
            p.wf(),
            p.position() == 0,
            ({
                let (ts, err) = spec_tokens_from(old(lexer).source(), old(lexer).cursor());
                match err {
                    None => p.lex_err() is None && p.toks() == ts,
                    Some(e) => p.lex_err() == Some(e),
                }
            }),
    {
        let ghost s = lexer.source();
        let ghost c0 = lexer.cursor();
        let mut tokens: Vec<Token> = Vec::new();
        let mut lex_error: Option<LexError> = None;
        proof {
            assert(spec_view_tokens(tokens@) =~= Seq::<SpecToken>::empty());
            assert(spec_view_tokens(tokens@) + spec_tokens_from(s, c0).0 =~= spec_tokens_from(
                s,
                c0,
            ).0);
        }
        loop
            invariant_except_break
                lex_error is None,
                ({
                    let (ts, err) = spec_tokens_from(s, c0);
                    let (rest, rerr) = spec_tokens_from(s, lexer.cursor());
                    ts == spec_view_tokens(tokens@) + rest && err == rerr
                }),
            invariant
                lexer.wf(),
                lexer.source() == s,
                c0 <= s.len(),
                lexer.cursor() <= s.len(),
            ensures
                ({
                    let (ts, err) = spec_tokens_from(s, c0);
                    match lex_error {
                        Some(e) => err == Some(e),
                        None => ts == spec_view_tokens(tokens@) && err is None && tokens@.len()
                            >= 1,
                    }
                }),
            decreases s.len() - lexer.cursor(),
        {
            let ghost cpre = lexer.cursor();
            proof {
                crate::lexer::lemma_next_token_progress(s, cpre);
            }
            match lexer.next_token() {
                Err(e) => {
                    lex_error = Some(e);
                    break ;
                },
                Ok(t) => {
                    let ghost tg = t@;
                    let ghost pre = tokens@;
                    let is_eof = t.kind.same_kind(&TokenKind::EOF);
                    tokens.push(t);
                    proof {
                        lemma_view_tokens_push(pre, tokens@.last());
                        let (rest, rerr) = spec_tokens_from(s, cpre);
                        if tg.kind is EOF {
                            assert(rest =~= seq![tg]);
                            assert(spec_view_tokens(pre) + rest =~= spec_view_tokens(tokens@));
                        } else {
                            let (rest2, rerr2) = spec_tokens_from(s, lexer.cursor());
                            assert(rest =~= seq![tg] + rest2);
                            assert(spec_view_tokens(pre) + rest =~= spec_view_tokens(tokens@)
                                + rest2);
                        }
                    }
                    if is_eof {
                        break ;
                    }
                },
            }
        }
        if lex_error.is_some() {
            let ghost pre = tokens@;
            tokens.push(Token { kind: TokenKind::EOF, span: Span::new(0, 0) });
            proof {
                lemma_view_tokens_push(pre, tokens@.last());
                lemma_view_tokens_len(tokens@);
            }
        }
        proof {
            lemma_view_tokens_len(tokens@);
        }
        Parser { tokens, pos: 0, lex_error }
    }

    /// The nesting budget for this stream.
    fn parse_budget(&self) -> (f: u64)
        ensures
            f as nat == spec_parse_budget(self.toks().len()),
    {
        proof {
            lemma_view_tokens_len(self.tokens@);
        }
        let n = self.tokens.len();
        if n > 1000000000 {
            u64::MAX
        } else {
            4 * (n as u64) + 64
        }
    }

    /// The sole entry point into lexing and parsing: the program, or the
    /// accumulated list of errors.
    pub fn parse(input: String) -> (r: Result<Node, Vec<ParseError>>)
        ensures
            ({
                match (r, spec_parse(input@)) {
                    (Ok(n), Ok(mp)) => n@ == crate::ast::SpecNode::Program(mp),
                    (Err(es), Err(ms)) => spec_view_parse_errors(es@) == ms,
                    _ => false,
                }
            }),
    {
        let mut lexer = Lexer::new(input);
        let mut parser = Parser::new(&mut lexer);
        match parser.lex_error {
            Some(e) => {
                let mut errs: Vec<ParseError> = Vec::new();
                errs.push(ParseError::Lex(e));
                proof {
                    assert(spec_view_parse_errors(errs@.drop_last()) =~= Seq::<
                        SpecParseError,
                    >::empty());
                    assert(spec_view_parse_errors(errs@) =~= seq![SpecParseError::Lex(e)]);
                }
                Err(errs)
            },
            None => {
                let budget = parser.parse_budget();
                match parser.parse_program(budget) {
                    Ok(program) => Ok(Node::Program(program)),
                    Err(errors) => Err(errors),
                }
            },
        }
    }

    // -- cursor helpers ----------------------------------------------------

    fn cur(&self) -> (t: &Token)
        requires
            self.wf(),
        ensures
            t@ == spec_cur(self.toks(), self.position()),
    {
        proof {
            lemma_view_tokens_len(self.tokens@);
            lemma_view_tokens_index(self.tokens@, self.pos as int);
        }
        &self.tokens[self.pos]
    }

    fn peek_ref(&self) -> (t: &Token)
        requires
            self.wf(),
        ensures
            t@ == spec_peek(self.toks(), self.position()),
    {
        proof {
            lemma_view_tokens_len(self.tokens@);
            lemma_view_tokens_index(self.tokens@, self.pos as int);
            if self.pos as int + 1 < self.tokens@.len() {
                lemma_view_tokens_index(self.tokens@, self.pos as int + 1);
            }
        }
        let n = self.tokens.len();
        if self.pos + 1 < n {
            &self.tokens[self.pos + 1]
        } else {
            &self.tokens[self.pos]
        }
    }

    /// Advance by one token; at the final token the cursor stays put.
    pub fn next_token(&mut self)
        requires
            old(self).wf(),
        ensures
            final(self).wf(),
            final(self).toks() == old(self).toks(),
            final(self).lex_err() == old(self).lex_err(),
            final(self).position() == spec_adv(old(self).toks(), old(self).position()),
    {
        proof {
            lemma_view_tokens_len(self.tokens@);
        }
        let n = self.tokens.len();
        if self.pos + 1 < n {
            self.pos = self.pos + 1;
        }
    }

    /// Whether the current token is the same symbol as `token_kind`.
    pub fn current_token_is(&self, token_kind: TokenKind) -> (r: bool)
        requires
            self.wf(),
        ensures
            r == spec_same_kind(spec_cur(self.toks(), self.position()).kind, token_kind@),
    {
        self.cur().kind.same_kind(&token_kind)
    }

    /// Whether the lookahead token is the same symbol as `token_kind`.
    pub fn peek_token_is(&self, token_kind: TokenKind) -> (r: bool)
        requires
            self.wf(),
        ensures
            r == spec_same_kind(spec_peek(self.toks(), self.position()).kind, token_kind@),
    {
        self.peek_ref().kind.same_kind(&token_kind)
    }

    /// Whether the current token is the end-of-input marker.
    fn at_eof(&self) -> (r: bool)
        requires
            self.wf(),
        ensures
            r == (spec_cur(self.toks(), self.position()).kind is EOF),
    {
        self.cur().kind.same_kind(&TokenKind::EOF)
    }

    /// Consume the current token when it is the same symbol as
    /// `token_kind`, or report what stood there instead.
    pub fn expect_current(&mut self, token_kind: TokenKind) -> (r: Result<(), ParseError>)
        requires
            old(self).wf(),
        ensures
            final(self).wf(),
            final(self).toks() == old(self).toks(),
            unit_result_agrees(
                r,
                spec_expect_current(old(self).toks(), old(self).position(), token_kind@).0,
            ),
            final(self).position() == spec_expect_current(
                old(self).toks(),
                old(self).position(),
                token_kind@,
            ).1,
    {
        if self.cur().kind.same_kind(&token_kind) {
            self.next_token();
            Ok(())
        } else {
            let got = self.cur().kind.clone();
            Err(ParseError::UnexpectedToken { expected: token_kind, got })
        }
    }

    /// Advance onto the lookahead token when it is the same symbol as
    /// `token_kind`, or report what stood there instead.
    pub fn expect_peek(&mut self, token_kind: TokenKind) -> (r: Result<(), ParseError>)
        requires
            old(self).wf(),
        ensures
            final(self).wf(),
            final(self).toks() == old(self).toks(),
            unit_result_agrees(
                r,
                spec_expect_peek(old(self).toks(), old(self).position(), token_kind@).0,
            ),
            final(self).position() == spec_expect_peek(
                old(self).toks(),
                old(self).position(),
                token_kind@,
            ).1,
    {
        if self.peek_ref().kind.same_kind(&token_kind) {
            self.next_token();
            Ok(())
        } else {
            let got = self.peek_ref().kind.clone();
            Err(ParseError::UnexpectedToken { expected: token_kind, got })
        }
    }
}

impl Parser {
    /// Parse a whole program: top-level statements until `EOF`, collecting
    /// each statement-level error and resynchronizing at the next
    /// statement.
    pub fn parse_program(&mut self, fuel: u64) -> (r: Result<Program, Vec<ParseError>>)
        requires
            old(self).wf(),
        ensures
            final(self).wf(),
            final(self).toks() == old(self).toks(),
            program_result_agrees(
                r,
                spec_parse_program(old(self).toks(), old(self).position(), fuel as nat),
            ),
    {
        proof {
            assert(spec_view_stmts(Seq::<Statement>::empty()) =~= Seq::<SpecStmt>::empty());
            assert(spec_view_parse_errors(Seq::<ParseError>::empty()) =~= Seq::<
                SpecParseError,
            >::empty());
        }
        let (body, errors) = self.parse_program_items(Vec::new(), Vec::new(), fuel);
        proof {
            lemma_view_parse_errors_len(errors@);
            lemma_view_stmts_len(body@);
        }
        if errors.len() > 0 {
            Err(errors)
        } else if body.len() == 0 {
            Ok(Program { body, span: Span::new_empty_span() })
        } else {
            proof {
                lemma_view_stmts_index(body@, 0);
                lemma_view_stmts_index(body@, body@.len() - 1);
            }
            let first = crate::ast::stmt_span(&body[0]);
            let last = crate::ast::stmt_span(&body[body.len() - 1]);
            let span = Span::new(first.start, last.end);
            Ok(Program { body, span })
        }
    }

    /// The top-level statements from the cursor on, with accumulators.
    fn parse_program_items(
        &mut self,
        body: Vec<Statement>,
        errs: Vec<ParseError>,
        fuel: u64,
    ) -> (r: (Vec<Statement>, Vec<ParseError>))
        requires
            old(self).wf(),
        ensures
            final(self).wf(),
            final(self).toks() == old(self).toks(),
            ({
                let (mb, me) = spec_parse_program_items(
                    old(self).toks(),
                    old(self).position(),
                    spec_view_stmts(body@),
                    spec_view_parse_errors(errs@),
                    fuel as nat,
                );
                spec_view_stmts(r.0@) == mb && spec_view_parse_errors(r.1@) == me
            }),
        decreases fuel,
    {
        if self.at_eof() {
            return (body, errs);
        }
        if fuel == 0 {
            let mut errs = errs;
            let ghost epre = errs@;
            errs.push(ParseError::NestingTooDeep);
            proof {
                lemma_view_parse_errors_push(epre, errs@.last());
            }
            return (body, errs);
        }
        let mut body = body;
        let mut errs = errs;
        match self.parse_statement(fuel - 1) {
            Ok(s) => {
                let ghost bpre = body@;
                body.push(s);
                proof {
                    crate::ast::lemma_view_stmts_push(bpre, body@.last());
                }
            },
            Err(e) => {
                let ghost epre = errs@;
                errs.push(e);
                proof {
                    lemma_view_parse_errors_push(epre, errs@.last());
                }
            },
        }
        self.next_token();
        self.parse_program_items(body, errs, fuel - 1)
    }

    /// Parse one statement, dispatched on the current token.
    #[verifier::rlimit(100)]
    #[verifier::spinoff_prover]
    pub fn parse_statement(&mut self, fuel: u64) -> (r: Result<Statement, ParseError>)
        requires
            old(self).wf(),
        ensures
            final(self).wf(),
            final(self).toks() == old(self).toks(),
            stmt_result_agrees(
                r,
                spec_parse_stmt(old(self).toks(), old(self).position(), fuel as nat).0,
            ),
            final(self).position() == spec_parse_stmt(
                old(self).toks(),
                old(self).position(),
                fuel as nat,
            ).1,
        decreases fuel, 9int,
    {
        if fuel == 0 {
            return Err(ParseError::NestingTooDeep);
        }
        let kind = self.cur().kind.clone();
        match kind {
            TokenKind::If => self.parse_if_statement(fuel - 1),
            TokenKind::Function => self.parse_function_statement(fuel - 1),
            TokenKind::Return => self.parse_return_statement(fuel - 1),
            TokenKind::Hashtag => self.parse_variable_declaration(fuel - 1),
            _ => self.parse_expression_statement(fuel - 1),
        }
    }

    /// Parse `# <identifier> = <expr> ;` (the semicolon optional).
    pub fn parse_variable_declaration(&mut self, fuel: u64) -> (r: Result<Statement, ParseError>)
        requires
            old(self).wf(),
        ensures
            final(self).wf(),
            final(self).toks() == old(self).toks(),
            stmt_result_agrees(
                r,
                spec_parse_var(old(self).toks(), old(self).position(), fuel as nat).0,
            ),
            final(self).position() == spec_parse_var(
                old(self).toks(),
                old(self).position(),
                fuel as nat,
            ).1,
        decreases fuel, 8int,
    {
        if fuel == 0 {
            return Err(ParseError::NestingTooDeep);
        }
        let start = self.cur().span.start;
        self.next_token();
        let identifier = self.cur().clone();
        self.next_token();
        match self.expect_current(TokenKind::Assign) {
            Err(e) => {
                return Err(e);
            },
            Ok(_) => {},
        }
        let (expr, _) = match self.parse_expression(Precedence::Lowest, fuel - 1) {
            Ok(v) => v,
            Err(e) => {
                return Err(e);
            },
        };
        if self.peek_token_is(TokenKind::Semicolon) {
            self.next_token();
        }
        let end = self.cur().span.end;
        Ok(
            Statement::VariableDeclaration(
                Variable { identifier, expr, span: Span::new(start, end) },
            ),
        )
    }

    /// Parse `ret <expr> ;` (the semicolon optional).
    pub fn parse_return_statement(&mut self, fuel: u64) -> (r: Result<Statement, ParseError>)
        requires
            old(self).wf(),
        ensures
            final(self).wf(),
            final(self).toks() == old(self).toks(),
            stmt_result_agrees(
                r,
                spec_parse_ret(old(self).toks(), old(self).position(), fuel as nat).0,
            ),
            final(self).position() == spec_parse_ret(
                old(self).toks(),
                old(self).position(),
                fuel as nat,
            ).1,
        decreases fuel, 8int,
    {
        if fuel == 0 {
            return Err(ParseError::NestingTooDeep);
        }
        let start = self.cur().span.start;
        self.next_token();
        let (argument, _) = match self.parse_expression(Precedence::Lowest, fuel - 1) {
            Ok(v) => v,
            Err(e) => {
                return Err(e);
            },
        };
        if self.peek_token_is(TokenKind::Semicolon) {
            self.next_token();
        }
        let end = self.cur().span.end;
        Ok(Statement::Return(Return { argument, span: Span::new(start, end) }))
    }

    /// Parse an expression standing as a statement.
    pub fn parse_expression_statement(&mut self, fuel: u64) -> (r: Result<Statement, ParseError>)
        requires
            old(self).wf(),
        ensures
            final(self).wf(),
            final(self).toks() == old(self).toks(),
            stmt_result_agrees(
                r,
                spec_parse_expr_stmt(old(self).toks(), old(self).position(), fuel as nat).0,
            ),
            final(self).position() == spec_parse_expr_stmt(
                old(self).toks(),
                old(self).position(),
                fuel as nat,
            ).1,
        decreases fuel, 8int,
    {
        if fuel == 0 {
            return Err(ParseError::NestingTooDeep);
        }
        let (expr, _) = match self.parse_expression(Precedence::Lowest, fuel - 1) {
            Ok(v) => v,
            Err(e) => {
                return Err(e);
            },
        };
        if self.peek_token_is(TokenKind::Semicolon) {
            self.next_token();
        }
        Ok(Statement::Expression(expr))
    }

    /// Parse a braced statement sequence; the cursor ends on the closing
    /// brace (or `EOF` when the input ends first).
    pub fn parse_block_statement(&mut self, fuel: u64) -> (r: Result<BlockStatement, ParseError>)
        requires
            old(self).wf(),
        ensures
            final(self).wf(),
            final(self).toks() == old(self).toks(),
            block_result_agrees(
                r,
                spec_parse_block(old(self).toks(), old(self).position(), fuel as nat).0,
            ),
            final(self).position() == spec_parse_block(
                old(self).toks(),
                old(self).position(),
                fuel as nat,
            ).1,
        decreases fuel, 8int,
    {
        if fuel == 0 {
            return Err(ParseError::NestingTooDeep);
        }
        let start = self.cur().span.start;
        self.next_token();
        proof {
            assert(spec_view_stmts(Seq::<Statement>::empty()) =~= Seq::<SpecStmt>::empty());
        }
        let body = match self.parse_block_items(Vec::new(), fuel - 1) {
            Ok(v) => v,
            Err(e) => {
                return Err(e);
            },
        };
        let end = self.cur().span.end;
        Ok(BlockStatement { body, span: Span::new(start, end) })
    }

    /// The statements of a block from the cursor on.
    fn parse_block_items(&mut self, acc: Vec<Statement>, fuel: u64) -> (r: Result<
        Vec<Statement>,
        ParseError,
    >)
        requires
            old(self).wf(),
        ensures
            final(self).wf(),
            final(self).toks() == old(self).toks(),
            ({
                let (m, p2) = spec_parse_block_items(
                    old(self).toks(),
                    old(self).position(),
                    spec_view_stmts(acc@),
                    fuel as nat,
                );
                (match (r, m) {
                    (Ok(v), Ok(mv)) => spec_view_stmts(v@) == mv,
                    (Err(e), Err(me)) => e@ == me,
                    _ => false,
                }) && final(self).position() == p2
            }),
        decreases fuel, 8int,
    {
        if self.current_token_is(TokenKind::RightBrace) || self.at_eof() {
            return Ok(acc);
        }
        if fuel == 0 {
            return Err(ParseError::NestingTooDeep);
        }
        let s = match self.parse_statement(fuel - 1) {
            Ok(v) => v,
            Err(e) => {
                return Err(e);
            },
        };
        let mut acc = acc;
        let ghost apre = acc@;
        acc.push(s);
        proof {
            crate::ast::lemma_view_stmts_push(apre, acc@.last());
        }
        self.next_token();
        self.parse_block_items(acc, fuel - 1)
    }

    /// Parse `fn <name> ( <params> ) { <body> } ;?`.
    pub fn parse_function_statement(&mut self, fuel: u64) -> (r: Result<Statement, ParseError>)
        requires
            old(self).wf(),
        ensures
            final(self).wf(),
            final(self).toks() == old(self).toks(),
            stmt_result_agrees(
                r,
                spec_parse_fn_stmt(old(self).toks(), old(self).position(), fuel as nat).0,
            ),
            final(self).position() == spec_parse_fn_stmt(
                old(self).toks(),
                old(self).position(),
                fuel as nat,
            ).1,
        decreases fuel, 8int,
    {
        if fuel == 0 {
            return Err(ParseError::NestingTooDeep);
        }
        let start = self.cur().span.start;
        self.next_token();
        let name = {
            let c = self.cur();
            match &c.kind {
                TokenKind::Identifier { name } => name.clone(),
                _ => {
                    let got = c.kind.clone();
                    return Err(ParseError::ExpectedIdentifier(got));
                },
            }
        };
        self.next_token();
        let params = match self.parse_function_params(fuel - 1) {
            Ok(v) => v,
            Err(e) => {
                return Err(e);
            },
        };
        match self.expect_peek(TokenKind::LeftBrace) {
            Err(e) => {
                return Err(e);
            },
            Ok(_) => {},
        }
        let body = match self.parse_block_statement(fuel - 1) {
            Ok(v) => v,
            Err(e) => {
                return Err(e);
            },
        };
        if !self.current_token_is(TokenKind::RightBrace) {
            return Err(ParseError::MissingRightBrace);
        }
        if self.peek_token_is(TokenKind::Semicolon) {
            self.next_token();
        }
        let end = self.cur().span.end;
        Ok(
            Statement::Function(
                Function { name, params, body: Box::new(body), span: Span::new(start, end) },
            ),
        )
    }

    /// Parse a parenthesized parameter list; the cursor ends on the closing
    /// parenthesis.
    pub fn parse_function_params(&mut self, fuel: u64) -> (r: Result<Vec<Identifier>, ParseError>)
        requires
            old(self).wf(),
        ensures
            final(self).wf(),
            final(self).toks() == old(self).toks(),
            params_result_agrees(
                r,
                spec_parse_params(old(self).toks(), old(self).position(), fuel as nat).0,
            ),
            final(self).position() == spec_parse_params(
                old(self).toks(),
                old(self).position(),
                fuel as nat,
            ).1,
        decreases fuel, 8int,
    {
        if fuel == 0 {
            return Err(ParseError::NestingTooDeep);
        }
        if !self.current_token_is(TokenKind::LeftParen) {
            let got = self.cur().kind.clone();
            return Err(ParseError::UnexpectedToken { expected: TokenKind::LeftParen, got });
        }
        if self.peek_token_is(TokenKind::RightParen) {
            self.next_token();
            let out: Vec<Identifier> = Vec::new();
            proof {
                assert(crate::ast::spec_view_idents(out@) =~= Seq::<SpecIdent>::empty());
            }
            return Ok(out);
        }
        self.next_token();
        proof {
            assert(crate::ast::spec_view_idents(Seq::<Identifier>::empty()) =~= Seq::<
                SpecIdent,
            >::empty());
        }
        self.parse_params_loop(Vec::new(), fuel - 1)
    }

    /// The parameters from the current one on.
    fn parse_params_loop(&mut self, acc: Vec<Identifier>, fuel: u64) -> (r: Result<
        Vec<Identifier>,
        ParseError,
    >)
        requires
            old(self).wf(),
        ensures
            final(self).wf(),
            final(self).toks() == old(self).toks(),
            ({
                let (m, p2) = spec_parse_params_loop(
                    old(self).toks(),
                    old(self).position(),
                    crate::ast::spec_view_idents(acc@),
                    fuel as nat,
                );
                (match (r, m) {
                    (Ok(v), Ok(mv)) => crate::ast::spec_view_idents(v@) == mv,
                    (Err(e), Err(me)) => e@ == me,
                    _ => false,
                }) && final(self).position() == p2
            }),
        decreases fuel, 8int,
    {
        let ident = {
            let c = self.cur();
            match &c.kind {
                TokenKind::Identifier { name } => Identifier { name: name.clone(), span: c.span },
                _ => {
                    let got = c.kind.clone();
                    return Err(ParseError::ExpectedIdentifier(got));
                },
            }
        };
        let mut acc = acc;
        if self.peek_token_is(TokenKind::Comma) {
            self.next_token();
            if self.peek_token_is(TokenKind::RightParen) {
                let ghost apre = acc@;
                acc.push(ident);
                proof {
                    crate::ast::lemma_view_idents_push(apre, acc@.last());
                }
                self.next_token();
                return Ok(acc);
            }
            if fuel == 0 {
                return Err(ParseError::NestingTooDeep);
            }
            self.next_token();
            let ghost apre = acc@;
            acc.push(ident);
            proof {
                crate::ast::lemma_view_idents_push(apre, acc@.last());
            }
            self.parse_params_loop(acc, fuel - 1)
        } else if self.peek_token_is(TokenKind::RightParen) {
            let ghost apre = acc@;
            acc.push(ident);
            proof {
                crate::ast::lemma_view_idents_push(apre, acc@.last());
            }
            self.next_token();
            Ok(acc)
        } else {
            let got = self.peek_ref().kind.clone();
            Err(ParseError::ExpectedCommaOrParen(got))
        }
    }

    /// Parse an `if ( <cond> ) { <block> }` chain with its `else if`
    /// clauses and optional final `else` block.
    pub fn parse_if_statement(&mut self, fuel: u64) -> (r: Result<Statement, ParseError>)
        requires
            old(self).wf(),
        ensures
            final(self).wf(),
            final(self).toks() == old(self).toks(),
            stmt_result_agrees(
                r,
                spec_parse_if(old(self).toks(), old(self).position(), fuel as nat).0,
            ),
            final(self).position() == spec_parse_if(
                old(self).toks(),
                old(self).position(),
                fuel as nat,
            ).1,
        decreases fuel, 8int,
    {
        if fuel == 0 {
            return Err(ParseError::NestingTooDeep);
        }
        let start = self.cur().span.start;
        match self.expect_peek(TokenKind::LeftParen) {
            Err(e) => {
                return Err(e);
            },
            Ok(_) => {},
        }
        self.next_token();
        let (condition, _) = match self.parse_expression(Precedence::Lowest, fuel - 1) {
            Ok(v) => v,
            Err(e) => {
                return Err(e);
            },
        };
        match self.expect_peek(TokenKind::RightParen) {
            Err(e) => {
                return Err(e);
            },
            Ok(_) => {},
        }
        match self.expect_peek(TokenKind::LeftBrace) {
            Err(e) => {
                return Err(e);
            },
            Ok(_) => {},
        }
        let consequent = match self.parse_block_statement(fuel - 1) {
            Ok(v) => v,
            Err(e) => {
                return Err(e);
            },
        };
        proof {
            assert(crate::ast::spec_view_ifs(Seq::<If>::empty()) =~= Seq::<SpecIf>::empty());
        }
        let (branches, alternate) = match self.parse_elif_loop(Vec::new(), None, fuel - 1) {
            Ok(v) => v,
            Err(e) => {
                return Err(e);
            },
        };
        let end = self.cur().span.end;
        Ok(
            Statement::If(
                If {
                    condition,
                    consequent: Box::new(consequent),
                    branches,
                    alternate,
                    span: Span::new(start, end),
                },
            ),
        )
    }

    /// The `else if` clauses and optional final `else` block, parsed while
    /// the lookahead is `else`.
    fn parse_elif_loop(
        &mut self,
        branches: Vec<If>,
        alternate: Option<Box<BlockStatement>>,
        fuel: u64,
    ) -> (r: Result<(Vec<If>, Option<Box<BlockStatement>>), ParseError>)
        requires
            old(self).wf(),
        ensures
            final(self).wf(),
            final(self).toks() == old(self).toks(),
            elifs_result_agrees(
                r,
                spec_parse_elifs(
                    old(self).toks(),
                    old(self).position(),
                    crate::ast::spec_view_ifs(branches@),
                    crate::ast::spec_view_alt(alternate),
                    fuel as nat,
                ).0,
            ),
            final(self).position() == spec_parse_elifs(
                old(self).toks(),
                old(self).position(),
                crate::ast::spec_view_ifs(branches@),
                crate::ast::spec_view_alt(alternate),
                fuel as nat,
            ).1,
        decreases fuel, 8int,
    {
        if !self.peek_token_is(TokenKind::Else) {
            return Ok((branches, alternate));
        }
        if fuel == 0 {
            return Err(ParseError::NestingTooDeep);
        }
        self.next_token();
        let bstart = self.cur().span.start;
        if self.peek_token_is(TokenKind::If) {
            self.next_token();
            match self.expect_peek(TokenKind::LeftParen) {
                Err(e) => {
                    return Err(e);
                },
                Ok(_) => {},
            }
            self.next_token();
            let (condition, _) = match self.parse_expression(Precedence::Lowest, fuel - 1) {
                Ok(v) => v,
                Err(e) => {
                    return Err(e);
                },
            };
            match self.expect_peek(TokenKind::RightParen) {
                Err(e) => {
                    return Err(e);
                },
                Ok(_) => {},
            }
            match self.expect_peek(TokenKind::LeftBrace) {
                Err(e) => {
                    return Err(e);
                },
                Ok(_) => {},
            }
            let blk = match self.parse_block_statement(fuel - 1) {
                Ok(v) => v,
                Err(e) => {
                    return Err(e);
                },
            };
            let bend = self.cur().span.end;
            let clause = If {
                condition,
                consequent: Box::new(blk),
                branches: Vec::new(),
                alternate: None,
                span: Span::new(bstart, bend),
            };
            let mut branches = branches;
            let ghost bpre = branches@;
            branches.push(clause);
            proof {
                assert(crate::ast::spec_view_ifs(Seq::<If>::empty()) =~= Seq::<SpecIf>::empty());
                crate::ast::lemma_view_ifs_push(bpre, branches@.last());
            }
            self.parse_elif_loop(branches, alternate, fuel - 1)
        } else {
            match self.expect_peek(TokenKind::LeftBrace) {
                Err(e) => {
                    return Err(e);
                },
                Ok(_) => {},
            }
            let blk = match self.parse_block_statement(fuel - 1) {
                Ok(v) => v,
                Err(e) => {
                    return Err(e);
                },
            };
            self.parse_elif_loop(branches, Some(Box::new(blk)), fuel - 1)
        }
    }

    /// Precedence climbing: one prefix term, then fold infix terms while
    /// the lookahead operator binds tighter than `precedence`.
    pub fn parse_expression(&mut self, precedence: Precedence, fuel: u64) -> (r: Result<
        (Expression, Span),
        ParseError,
    >)
        requires
            old(self).wf(),
        ensures
            final(self).wf(),
            final(self).toks() == old(self).toks(),
            expr_span_result_agrees(
                r,
                spec_parse_expression(
                    old(self).toks(),
                    old(self).position(),
                    precedence,
                    fuel as nat,
                ).0,
            ),
            final(self).position() == spec_parse_expression(
                old(self).toks(),
                old(self).position(),
                precedence,
                fuel as nat,
            ).1,
        decreases fuel, 8int,
    {
        if fuel == 0 {
            return Err(ParseError::NestingTooDeep);
        }
        let left_start = self.cur().span.start;
        let left = match self.parse_prefix_expression(fuel - 1) {
            Ok(v) => v,
            Err(e) => {
                return Err(e);
            },
        };
        self.parse_infix_loop(left, left_start, precedence, fuel - 1)
    }

    /// The infix fold.
    fn parse_infix_loop(
        &mut self,
        left: Expression,
        left_start: usize,
        precedence: Precedence,
        fuel: u64,
    ) -> (r: Result<(Expression, Span), ParseError>)
        requires
            old(self).wf(),
        ensures
            final(self).wf(),
            final(self).toks() == old(self).toks(),
            expr_span_result_agrees(
                r,
                spec_parse_infix_loop(
                    old(self).toks(),
                    old(self).position(),
                    left@,
                    left_start,
                    precedence,
                    fuel as nat,
                ).0,
            ),
            final(self).position() == spec_parse_infix_loop(
                old(self).toks(),
                old(self).position(),
                left@,
                left_start,
                precedence,
                fuel as nat,
            ).1,
        decreases fuel, 8int,
    {
        let peek_prec = determine_token_precedence(self.peek_ref().kind.clone());
        let cont = !self.at_eof() && precedence.rank() < peek_prec.rank();
        if !cont {
            let end = self.cur().span.end;
            return Ok((left, Span::new(left_start, end)));
        }
        if fuel == 0 {
            return Err(ParseError::NestingTooDeep);
        }
        if self.peek_token_is(TokenKind::LeftParen) {
            self.next_token();
            let call = match self.parse_function_call_expression(left, left_start, fuel - 1) {
                Ok(v) => v,
                Err(e) => {
                    return Err(e);
                },
            };
            self.parse_infix_loop(call, left_start, precedence, fuel - 1)
        } else if is_infix_operator(&self.peek_ref().kind) {
            self.next_token();
            let operator = self.cur().clone();
            let opprec = determine_token_precedence(operator.kind.clone());
            self.next_token();
            let (right, rspan) = match self.parse_expression(opprec, fuel - 1) {
                Ok(v) => v,
                Err(e) => {
                    return Err(e);
                },
            };
            let folded = Expression::Infix(
                BinaryExpression {
                    operator,
                    left: Box::new(left),
                    right: Box::new(right),
                    span: Span::new(left_start, rspan.end),
                },
            );
            self.parse_infix_loop(folded, left_start, precedence, fuel - 1)
        } else {
            let end = self.cur().span.end;
            Ok((left, Span::new(left_start, end)))
        }
    }

    /// Parse one prefix term.
    pub fn parse_prefix_expression(&mut self, fuel: u64) -> (r: Result<Expression, ParseError>)
        requires
            old(self).wf(),
        ensures
            final(self).wf(),
            final(self).toks() == old(self).toks(),
            expr_result_agrees(
                r,
                spec_parse_prefix(old(self).toks(), old(self).position(), fuel as nat).0,
            ),
            final(self).position() == spec_parse_prefix(
                old(self).toks(),
                old(self).position(),
                fuel as nat,
            ).1,
        decreases fuel, 8int,
    {
        if fuel == 0 {
            return Err(ParseError::NestingTooDeep);
        }
        let span = self.cur().span;
        let kind = self.cur().kind.clone();
        match kind {
            TokenKind::Increment => self.parse_pre_step(UnaryOperatorType::PreIncrement),
            TokenKind::Decrement => self.parse_pre_step(UnaryOperatorType::PreDecrement),
            TokenKind::Identifier { name } => {
                let ident = Identifier { name, span };
                if self.peek_token_is(TokenKind::Increment) {
                    self.next_token();
                    let end = self.cur().span.end;
                    Ok(
                        Expression::UnaryOperator(
                            UnaryOperator {
                                identifier: ident,
                                ty: UnaryOperatorType::PostIncrement,
                                span: Span::new(span.start, end),
                            },
                        ),
                    )
                } else if self.peek_token_is(TokenKind::Decrement) {
                    self.next_token();
                    let end = self.cur().span.end;
                    Ok(
                        Expression::UnaryOperator(
                            UnaryOperator {
                                identifier: ident,
                                ty: UnaryOperatorType::PostDecrement,
                                span: Span::new(span.start, end),
                            },
                        ),
                    )
                } else {
                    Ok(Expression::Identifier(ident))
                }
            },
            TokenKind::Integer(v) => Ok(Expression::Literal(Literal::Integer(Integer { raw: v, span }))),
            TokenKind::Str(s) => Ok(Expression::Literal(Literal::Str(StringType { raw: s, span }))),
            TokenKind::True => self.parse_bool_expression(TokenKind::True),
            TokenKind::False => self.parse_bool_expression(TokenKind::False),
            TokenKind::Minus => self.parse_prefix_operator(fuel - 1),
            TokenKind::Bang => self.parse_prefix_operator(fuel - 1),
            TokenKind::LeftParen => {
                self.next_token();
                let (e, _) = match self.parse_expression(Precedence::Lowest, fuel - 1) {
                    Ok(v) => v,
                    Err(err) => {
                        return Err(err);
                    },
                };
                match self.expect_peek(TokenKind::RightParen) {
                    Err(err) => {
                        return Err(err);
                    },
                    Ok(_) => {},
                }
                let close = self.cur().span.end;
                Ok(crate::ast::with_span(e, Span::new(span.start, close)))
            },
            other => Err(ParseError::NoPrefixParse(other)),
        }
    }

    /// A boolean literal at the cursor.
    pub fn parse_bool_expression(&mut self, token_kind: TokenKind) -> (r: Result<
        Expression,
        ParseError,
    >)
        requires
            old(self).wf(),
        ensures
            final(self).wf(),
            *final(self) == *old(self),
            expr_result_agrees(
                r,
                Ok(
                    SpecExpr::Literal(
                        SpecLiteral::Boolean {
                            raw: token_kind@ is True,
                            span: spec_cur(old(self).toks(), old(self).position()).span,
                        },
                    ),
                ),
            ),
    {
        let span = self.cur().span;
        let raw = token_kind.same_kind(&TokenKind::True);
        Ok(Expression::Literal(Literal::Boolean(Boolean { raw, span })))
    }

    /// A leading `++`/`--`, which must be followed by an identifier.
    fn parse_pre_step(&mut self, ty: UnaryOperatorType) -> (r: Result<Expression, ParseError>)
        requires
            old(self).wf(),
        ensures
            final(self).wf(),
            final(self).toks() == old(self).toks(),
            expr_result_agrees(
                r,
                spec_parse_pre_step(old(self).toks(), old(self).position(), ty).0,
            ),
            final(self).position() == spec_parse_pre_step(
                old(self).toks(),
                old(self).position(),
                ty,
            ).1,
    {
        let span = self.cur().span;
        self.next_token();
        let c = self.cur();
        match &c.kind {
            TokenKind::Identifier { name } => {
                let ident_span = c.span;
                let n = name.clone();
                Ok(
                    Expression::UnaryOperator(
                        UnaryOperator {
                            identifier: Identifier { name: n, span: ident_span },
                            ty,
                            span: Span::new(span.start, ident_span.end),
                        },
                    ),
                )
            },
            _ => {
                let got = c.kind.clone();
                Err(ParseError::ExpectedIdentifier(got))
            },
        }
    }

    /// Unary `-` or `!` applied to a prefix-precedence sub-expression.
    fn parse_prefix_operator(&mut self, fuel: u64) -> (r: Result<Expression, ParseError>)
        requires
            old(self).wf(),
        ensures
            final(self).wf(),
            final(self).toks() == old(self).toks(),
            expr_result_agrees(
                r,
                spec_parse_prefix_op(old(self).toks(), old(self).position(), fuel as nat).0,
            ),
            final(self).position() == spec_parse_prefix_op(
                old(self).toks(),
                old(self).position(),
                fuel as nat,
            ).1,
        decreases fuel, 8int,
    {
        if fuel == 0 {
            return Err(ParseError::NestingTooDeep);
        }
        let operator = self.cur().clone();
        self.next_token();
        let (operand, ospan) = match self.parse_expression(Precedence::Prefix, fuel - 1) {
            Ok(v) => v,
            Err(e) => {
                return Err(e);
            },
        };
        let start = operator.span.start;
        Ok(
            Expression::Prefix(
                UnaryExpression {
                    operator,
                    operand: Box::new(operand),
                    span: Span::new(start, ospan.end),
                },
            ),
        )
    }

    /// Fold a call onto `left`: the cursor stands on `(` and ends on the
    /// closing `)`.
    pub fn parse_function_call_expression(
        &mut self,
        left: Expression,
        left_start: usize,
        fuel: u64,
    ) -> (r: Result<Expression, ParseError>)
        requires
            old(self).wf(),
        ensures
            final(self).wf(),
            final(self).toks() == old(self).toks(),
            expr_result_agrees(
                r,
                spec_parse_call(
                    old(self).toks(),
                    old(self).position(),
                    left@,
                    left_start,
                    fuel as nat,
                ).0,
            ),
            final(self).position() == spec_parse_call(
                old(self).toks(),
                old(self).position(),
                left@,
                left_start,
                fuel as nat,
            ).1,
        decreases fuel, 8int,
    {
        if fuel == 0 {
            return Err(ParseError::NestingTooDeep);
        }
        let (arguments, _) = match self.parse_expression_series(TokenKind::RightParen, fuel - 1) {
            Ok(v) => v,
            Err(e) => {
                return Err(e);
            },
        };
        let end = self.cur().span.end;
        Ok(
            Expression::FunctionCall(
                FunctionCall {
                    call: Box::new(left),
                    arguments,
                    span: Span::new(left_start, end),
                },
            ),
        )
    }

    /// Parse a comma-separated expression series between the opening token
    /// under the cursor and `end`; the empty series and a trailing comma
    /// are both permitted.
    pub fn parse_expression_series(&mut self, end: TokenKind, fuel: u64) -> (r: Result<
        (Vec<Expression>, Span),
        ParseError,
    >)
        requires
            old(self).wf(),
        ensures
            final(self).wf(),
            final(self).toks() == old(self).toks(),
            series_result_agrees(
                r,
                spec_parse_series(old(self).toks(), old(self).position(), end@, fuel as nat).0,
            ),
            final(self).position() == spec_parse_series(
                old(self).toks(),
                old(self).position(),
                end@,
                fuel as nat,
            ).1,
        decreases fuel, 8int,
    {
        if fuel == 0 {
            return Err(ParseError::NestingTooDeep);
        }
        let start = self.cur().span.start;
        if self.peek_ref().kind.same_kind(&end) {
            self.next_token();
            let e = self.cur().span.end;
            let out: Vec<Expression> = Vec::new();
            proof {
                assert(crate::ast::spec_view_exprs(out@) =~= Seq::<SpecExpr>::empty());
            }
            return Ok((out, Span::new(start, e)));
        }
        self.next_token();
        let (e0, _) = match self.parse_expression(Precedence::Lowest, fuel - 1) {
            Ok(v) => v,
            Err(e) => {
                return Err(e);
            },
        };
        let mut first: Vec<Expression> = Vec::new();
        let ghost fpre = first@;
        first.push(e0);
        proof {
            assert(crate::ast::spec_view_exprs(fpre) =~= Seq::<SpecExpr>::empty());
            crate::ast::lemma_view_exprs_push(fpre, first@.last());
            assert(crate::ast::spec_view_exprs(first@) =~= seq![first@.last()@]);
        }
        let exprs = match self.parse_series_loop(first, &end, fuel - 1) {
            Ok(v) => v,
            Err(e) => {
                return Err(e);
            },
        };
        let close = self.cur().span.end;
        Ok((exprs, Span::new(start, close)))
    }

    /// The elements of a series after the first, while commas continue it.
    fn parse_series_loop(&mut self, acc: Vec<Expression>, end: &TokenKind, fuel: u64) -> (r: Result<
        Vec<Expression>,
        ParseError,
    >)
        requires
            old(self).wf(),
        ensures
            final(self).wf(),
            final(self).toks() == old(self).toks(),
            ({
                let (m, p2) = spec_parse_series_loop(
                    old(self).toks(),
                    old(self).position(),
                    crate::ast::spec_view_exprs(acc@),
                    end@,
                    fuel as nat,
                );
                (match (r, m) {
                    (Ok(v), Ok(mv)) => crate::ast::spec_view_exprs(v@) == mv,
                    (Err(e), Err(me)) => e@ == me,
                    _ => false,
                }) && final(self).position() == p2
            }),
        decreases fuel, 8int,
    {
        if self.peek_token_is(TokenKind::Comma) {
            if fuel == 0 {
                return Err(ParseError::NestingTooDeep);
            }
            self.next_token();
            if self.peek_ref().kind.same_kind(end) {
                self.next_token();
                return Ok(acc);
            }
            self.next_token();
            let (ex, _) = match self.parse_expression(Precedence::Lowest, fuel - 1) {
                Ok(v) => v,
                Err(e) => {
                    return Err(e);
                },
            };
            let mut acc = acc;
            let ghost apre = acc@;
            acc.push(ex);
            proof {
                crate::ast::lemma_view_exprs_push(apre, acc@.last());
            }
            self.parse_series_loop(acc, end, fuel - 1)
        } else if self.peek_ref().kind.same_kind(end) {
            self.next_token();
            Ok(acc)
        } else {
            let got = self.peek_ref().kind.clone();
            Err(ParseError::UnterminatedSeries { end: end.clone(), got })
        }
    }
}

/// Parsing identical source text twice produces structurally identical
/// ASTs: the parse result is a function of the source text alone, with no
/// hidden state between invocations. `Parser::parse` returns exactly
/// `spec_parse` of its input, so two calls on equal inputs agree.
pub proof fn lemma_parse_deterministic(s1: Seq<char>, s2: Seq<char>)
    requires
        s1 == s2,
    ensures
        spec_parse(s1) == spec_parse(s2),
{
}

/// The binary operators the infix fold accepts.
fn is_infix_operator(k: &TokenKind) -> (r: bool)
    ensures
        r == spec_is_infix_operator(k@),
{
    match k {
        TokenKind::Plus => true,
        TokenKind::Minus => true,
        TokenKind::Asterisk => true,
        TokenKind::Slash => true,
        TokenKind::Modulo => true,
        TokenKind::Equal => true,
        TokenKind::NotEqual => true,
        TokenKind::LessEqual => true,
        TokenKind::LessThan => true,
        TokenKind::GreaterEqual => true,
        TokenKind::GreaterThan => true,
        _ => false,
    }
}

} // verus!
