//! Operator precedence for the precedence-climbing expression parser.

use vstd::prelude::*;

use crate::token::{SpecTokenKind, TokenKind};

verus! {

/// Precedence levels, lowest first. `Call` binds a `(` that immediately
/// follows an expression; `Index` is reserved for `[`.
#[derive(Debug, Copy, Clone, PartialEq, Eq, PartialOrd, Ord, Structural)]
pub enum Precedence {
    Lowest,
    Equals,
    LessGreater,
    Sum,
    Product,
    Prefix,
    Call,
    Index,
}

/// The numeric rank of a precedence level; higher binds tighter.
pub open spec fn spec_prec_rank(p: Precedence) -> u8 {
    match p {
        Precedence::Lowest => 0,
        Precedence::Equals => 1,
        Precedence::LessGreater => 2,
        Precedence::Sum => 3,
        Precedence::Product => 4,
        Precedence::Prefix => 5,
        Precedence::Call => 6,
        Precedence::Index => 7,
    }
}

impl Precedence {
    /// The numeric rank of this level; higher binds tighter.
    pub fn rank(self) -> (r: u8)
        ensures
            r == spec_prec_rank(self),
    {
        match self {
            Precedence::Lowest => 0,
            Precedence::Equals => 1,
            Precedence::LessGreater => 2,
            Precedence::Sum => 3,
            Precedence::Product => 4,
            Precedence::Prefix => 5,
            Precedence::Call => 6,
            Precedence::Index => 7,
        }
    }
}

/// The precedence a token kind folds at when it appears after an
/// expression; kinds that are no infix operator have the lowest precedence
/// and never fold.
pub open spec fn spec_token_precedence(k: SpecTokenKind) -> Precedence {
    match k {
        SpecTokenKind::Equal => Precedence::Equals,
        SpecTokenKind::NotEqual => Precedence::Equals,
        SpecTokenKind::LessThan => Precedence::LessGreater,
        SpecTokenKind::LessEqual => Precedence::LessGreater,
        SpecTokenKind::GreaterThan => Precedence::LessGreater,
        SpecTokenKind::GreaterEqual => Precedence::LessGreater,
        SpecTokenKind::Plus => Precedence::Sum,
        SpecTokenKind::Minus => Precedence::Sum,
        SpecTokenKind::Asterisk => Precedence::Product,
        SpecTokenKind::Slash => Precedence::Product,
        SpecTokenKind::LeftParen => Precedence::Call,
        SpecTokenKind::LeftBracket => Precedence::Index,
        _ => Precedence::Lowest,
    }
}

/// The precedence a token kind folds at.
pub fn determine_token_precedence(token_kind: TokenKind) -> (p: Precedence)
    ensures
        p == spec_token_precedence(token_kind@),
{
    match token_kind {
        TokenKind::Equal => Precedence::Equals,
        TokenKind::NotEqual => Precedence::Equals,
        TokenKind::LessThan => Precedence::LessGreater,
        TokenKind::LessEqual => Precedence::LessGreater,
        TokenKind::GreaterThan => Precedence::LessGreater,
        TokenKind::GreaterEqual => Precedence::LessGreater,
        TokenKind::Plus => Precedence::Sum,
        TokenKind::Minus => Precedence::Sum,
        TokenKind::Asterisk => Precedence::Product,
        TokenKind::Slash => Precedence::Product,
        TokenKind::LeftParen => Precedence::Call,
        TokenKind::LeftBracket => Precedence::Index,
        _ => Precedence::Lowest,
    }
}

} // verus!
