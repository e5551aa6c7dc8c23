//! Tokens and source spans: the vocabulary shared by the lexer, the parser
//! and the abstract syntax tree.

use vstd::prelude::*;

verus! {

/// An inclusive `[start, end]` character-offset range locating a token or an
/// AST node in the source text. The empty span `{0, 0}` is the default for
/// synthesized nodes.
#[derive(Clone, Copy, Debug, PartialEq, Eq, Structural)]
pub struct Span {
    pub start: usize,
    pub end: usize,
}

impl Span {
    pub fn new(start: usize, end: usize) -> (s: Span)
        ensures
            s == (Span { start, end }),
    {
        Span { start, end }
    }

    pub fn new_empty_span() -> (s: Span)
        ensures
            s == (Span { start: 0usize, end: 0usize }),
    {
        Span { start: 0, end: 0 }
    }
}

/// The closed set of token kinds. `Identifier`, `Integer` and `Str` carry the
/// decoded text or value of the token.
#[derive(Debug, PartialEq, Eq)]
pub enum TokenKind {
    Illegal,
    EOF,
    Identifier { name: String },
    Integer(i64),
    Str(String),
    // Operators
    Plus,
    Minus,
    Slash,
    Asterisk,
    Modulo,
    // Symbols
    Assign,
    Equal,
    NotEqual,
    Bang,
    LeftParen,
    RightParen,
    LeftBrace,
    RightBrace,
    LeftBracket,
    RightBracket,
    Comma,
    Hashtag,
    DoubleQuote,
    SingleQuote,
    Pipe,
    Ampersand,
    Semicolon,
    LessThan,
    GreaterThan,
    LessEqual,
    GreaterEqual,
    And,
    Or,
    Increment,
    Decrement,
    // Keywords
    True,
    False,
    Function,
    Match,
    If,
    Else,
    Return,
    For,
    Break,
    Continue,
}

/// The mathematical value of a `TokenKind`: identical to it, except that
/// carried text is a sequence of characters.
pub enum SpecTokenKind {
    Illegal,
    EOF,
    Identifier { name: Seq<char> },
    Integer(i64),
    Str(Seq<char>),
    Plus,
    Minus,
    Slash,
    Asterisk,
    Modulo,
    Assign,
    Equal,
    NotEqual,
    Bang,
    LeftParen,
    RightParen,
    LeftBrace,
    RightBrace,
    LeftBracket,
    RightBracket,
    Comma,
    Hashtag,
    DoubleQuote,
    SingleQuote,
    Pipe,
    Ampersand,
    Semicolon,
    LessThan,
    GreaterThan,
    LessEqual,
    GreaterEqual,
    And,
    Or,
    Increment,
    Decrement,
    True,
    False,
    Function,
    Match,
    If,
    Else,
    Return,
    For,
    Break,
    Continue,
}

impl View for TokenKind {
    type V = SpecTokenKind;

    open spec fn view(&self) -> SpecTokenKind {
        match self {
            TokenKind::Illegal => SpecTokenKind::Illegal,
            TokenKind::EOF => SpecTokenKind::EOF,
            TokenKind::Identifier { name } => SpecTokenKind::Identifier { name: name@ },
            TokenKind::Integer(v) => SpecTokenKind::Integer(*v),
            TokenKind::Str(s) => SpecTokenKind::Str(s@),
            TokenKind::Plus => SpecTokenKind::Plus,
            TokenKind::Minus => SpecTokenKind::Minus,
            TokenKind::Slash => SpecTokenKind::Slash,
            TokenKind::Asterisk => SpecTokenKind::Asterisk,
            TokenKind::Modulo => SpecTokenKind::Modulo,
            TokenKind::Assign => SpecTokenKind::Assign,
            TokenKind::Equal => SpecTokenKind::Equal,
            TokenKind::NotEqual => SpecTokenKind::NotEqual,
            TokenKind::Bang => SpecTokenKind::Bang,
            TokenKind::LeftParen => SpecTokenKind::LeftParen,
            TokenKind::RightParen => SpecTokenKind::RightParen,
            TokenKind::LeftBrace => SpecTokenKind::LeftBrace,
            TokenKind::RightBrace => SpecTokenKind::RightBrace,
            TokenKind::LeftBracket => SpecTokenKind::LeftBracket,
            TokenKind::RightBracket => SpecTokenKind::RightBracket,
            TokenKind::Comma => SpecTokenKind::Comma,
            TokenKind::Hashtag => SpecTokenKind::Hashtag,
            TokenKind::DoubleQuote => SpecTokenKind::DoubleQuote,
            TokenKind::SingleQuote => SpecTokenKind::SingleQuote,
            TokenKind::Pipe => SpecTokenKind::Pipe,
            TokenKind::Ampersand => SpecTokenKind::Ampersand,
            TokenKind::Semicolon => SpecTokenKind::Semicolon,
            TokenKind::LessThan => SpecTokenKind::LessThan,
            TokenKind::GreaterThan => SpecTokenKind::GreaterThan,
            TokenKind::LessEqual => SpecTokenKind::LessEqual,
            TokenKind::GreaterEqual => SpecTokenKind::GreaterEqual,
            TokenKind::And => SpecTokenKind::And,
            TokenKind::Or => SpecTokenKind::Or,
            TokenKind::Increment => SpecTokenKind::Increment,
            TokenKind::Decrement => SpecTokenKind::Decrement,
            TokenKind::True => SpecTokenKind::True,
            TokenKind::False => SpecTokenKind::False,
            TokenKind::Function => SpecTokenKind::Function,
            TokenKind::Match => SpecTokenKind::Match,
            TokenKind::If => SpecTokenKind::If,
            TokenKind::Else => SpecTokenKind::Else,
            TokenKind::Return => SpecTokenKind::Return,
            TokenKind::For => SpecTokenKind::For,
            TokenKind::Break => SpecTokenKind::Break,
            TokenKind::Continue => SpecTokenKind::Continue,
        }
    }
}

impl Clone for TokenKind {
    /// Cloning a token kind preserves its mathematical value.
    fn clone(&self) -> (r: Self)
        ensures
            r@ == self@,
    {
        match self {
            TokenKind::Illegal => TokenKind::Illegal,
            TokenKind::EOF => TokenKind::EOF,
            TokenKind::Identifier { name } => TokenKind::Identifier { name: name.clone() },
            TokenKind::Integer(v) => TokenKind::Integer(*v),
            TokenKind::Str(s) => TokenKind::Str(s.clone()),
            TokenKind::Plus => TokenKind::Plus,
            TokenKind::Minus => TokenKind::Minus,
            TokenKind::Slash => TokenKind::Slash,
            TokenKind::Asterisk => TokenKind::Asterisk,
            TokenKind::Modulo => TokenKind::Modulo,
            TokenKind::Assign => TokenKind::Assign,
            TokenKind::Equal => TokenKind::Equal,
            TokenKind::NotEqual => TokenKind::NotEqual,
            TokenKind::Bang => TokenKind::Bang,
            TokenKind::LeftParen => TokenKind::LeftParen,
            TokenKind::RightParen => TokenKind::RightParen,
            TokenKind::LeftBrace => TokenKind::LeftBrace,
            TokenKind::RightBrace => TokenKind::RightBrace,
            TokenKind::LeftBracket => TokenKind::LeftBracket,
            TokenKind::RightBracket => TokenKind::RightBracket,
            TokenKind::Comma => TokenKind::Comma,
            TokenKind::Hashtag => TokenKind::Hashtag,
            TokenKind::DoubleQuote => TokenKind::DoubleQuote,
            TokenKind::SingleQuote => TokenKind::SingleQuote,
            TokenKind::Pipe => TokenKind::Pipe,
            TokenKind::Ampersand => TokenKind::Ampersand,
            TokenKind::Semicolon => TokenKind::Semicolon,
            TokenKind::LessThan => TokenKind::LessThan,
            TokenKind::GreaterThan => TokenKind::GreaterThan,
            TokenKind::LessEqual => TokenKind::LessEqual,
            TokenKind::GreaterEqual => TokenKind::GreaterEqual,
            TokenKind::And => TokenKind::And,
            TokenKind::Or => TokenKind::Or,
            TokenKind::Increment => TokenKind::Increment,
            TokenKind::Decrement => TokenKind::Decrement,
            TokenKind::True => TokenKind::True,
            TokenKind::False => TokenKind::False,
            TokenKind::Function => TokenKind::Function,
            TokenKind::Match => TokenKind::Match,
            TokenKind::If => TokenKind::If,
            TokenKind::Else => TokenKind::Else,
            TokenKind::Return => TokenKind::Return,
            TokenKind::For => TokenKind::For,
            TokenKind::Break => TokenKind::Break,
            TokenKind::Continue => TokenKind::Continue,
        }
    }
}

/// One lexed token: a kind plus the span of source characters it covers.
#[derive(Debug, PartialEq, Eq)]
pub struct Token {
    pub kind: TokenKind,
    pub span: Span,
}

/// The mathematical value of a `Token`.
pub struct SpecToken {
    pub kind: SpecTokenKind,
    pub span: Span,
}

impl View for Token {
    type V = SpecToken;

    open spec fn view(&self) -> SpecToken {
        SpecToken { kind: self.kind@, span: self.span }
    }
}

impl Clone for Token {
    /// Cloning a token preserves its mathematical value.
    fn clone(&self) -> (r: Self)
        ensures
            r@ == self@,
    {
        Token { kind: self.kind.clone(), span: self.span }
    }
}

/// Tokens of the same kind agree on this tag, whatever text or value they
/// carry; tokens of different kinds never do.
pub open spec fn spec_kind_tag(k: SpecTokenKind) -> u8 {
    match k {
        SpecTokenKind::Illegal => 0,
        SpecTokenKind::EOF => 1,
        SpecTokenKind::Identifier { .. } => 2,
        SpecTokenKind::Integer(..) => 3,
        SpecTokenKind::Str(..) => 4,
        SpecTokenKind::Plus => 5,
        SpecTokenKind::Minus => 6,
        SpecTokenKind::Slash => 7,
        SpecTokenKind::Asterisk => 8,
        SpecTokenKind::Modulo => 9,
        SpecTokenKind::Assign => 10,
        SpecTokenKind::Equal => 11,
        SpecTokenKind::NotEqual => 12,
        SpecTokenKind::Bang => 13,
        SpecTokenKind::LeftParen => 14,
        SpecTokenKind::RightParen => 15,
        SpecTokenKind::LeftBrace => 16,
        SpecTokenKind::RightBrace => 17,
        SpecTokenKind::LeftBracket => 18,
        SpecTokenKind::RightBracket => 19,
        SpecTokenKind::Comma => 20,
        SpecTokenKind::Hashtag => 21,
        SpecTokenKind::DoubleQuote => 22,
        SpecTokenKind::SingleQuote => 23,
        SpecTokenKind::Pipe => 24,
        SpecTokenKind::Ampersand => 25,
        SpecTokenKind::Semicolon => 26,
        SpecTokenKind::LessThan => 27,
        SpecTokenKind::GreaterThan => 28,
        SpecTokenKind::LessEqual => 29,
        SpecTokenKind::GreaterEqual => 30,
        SpecTokenKind::And => 31,
        SpecTokenKind::Or => 32,
        SpecTokenKind::Increment => 33,
        SpecTokenKind::Decrement => 34,
        SpecTokenKind::True => 35,
        SpecTokenKind::False => 36,
        SpecTokenKind::Function => 37,
        SpecTokenKind::Match => 38,
        SpecTokenKind::If => 39,
        SpecTokenKind::Else => 40,
        SpecTokenKind::Return => 41,
        SpecTokenKind::For => 42,
        SpecTokenKind::Break => 43,
        SpecTokenKind::Continue => 44,
    }
}

/// The mirror of a list of tokens, elementwise.
pub open spec fn spec_view_tokens(s: Seq<Token>) -> Seq<SpecToken>
    decreases s,
{
    if s.len() == 0 {
        Seq::empty()
    } else {
        spec_view_tokens(s.drop_last()).push(s.last()@)
    }
}

/// Appending one token appends its mirror.
pub proof fn lemma_view_tokens_push(s: Seq<Token>, t: Token)
    ensures
        spec_view_tokens(s.push(t)) == spec_view_tokens(s).push(t@),
{
    assert(s.push(t).drop_last() =~= s);
    assert(s.push(t).last() == t);
}

/// The elementwise mirror keeps the length.
pub proof fn lemma_view_tokens_len(s: Seq<Token>)
    ensures
        spec_view_tokens(s).len() == s.len(),
    decreases s.len(),
{
    if s.len() > 0 {
        lemma_view_tokens_len(s.drop_last());
    }
}

/// The elementwise mirror, pointwise.
pub proof fn lemma_view_tokens_index(s: Seq<Token>, i: int)
    requires
        0 <= i < s.len(),
    ensures
        spec_view_tokens(s).len() == s.len(),
        spec_view_tokens(s)[i] == s[i]@,
    decreases s.len(),
{
    lemma_view_tokens_len(s);
    if i + 1 < s.len() {
        assert(s.drop_last()[i] == s[i]);
        lemma_view_tokens_index(s.drop_last(), i);
    }
}

/// Relies on `str` equality: two string slices compare equal exactly when
/// their character sequences are equal.
#[verifier::external_body]
pub(crate) fn str_eq(a: &str, b: &str) -> (r: bool)
    ensures
        r == (a@ == b@),
{
    a == b
}

/// Two token kinds are the same syntactic symbol, ignoring any carried text.
pub open spec fn spec_same_kind(a: SpecTokenKind, b: SpecTokenKind) -> bool {
    spec_kind_tag(a) == spec_kind_tag(b)
}

impl TokenKind {
    /// The tag that identifies this kind's variant.
    pub fn tag(&self) -> (t: u8)
        ensures
            t == spec_kind_tag(self@),
    {
        match self {
            TokenKind::Illegal => 0,
            TokenKind::EOF => 1,
            TokenKind::Identifier { .. } => 2,
            TokenKind::Integer(..) => 3,
            TokenKind::Str(..) => 4,
            TokenKind::Plus => 5,
            TokenKind::Minus => 6,
            TokenKind::Slash => 7,
            TokenKind::Asterisk => 8,
            TokenKind::Modulo => 9,
            TokenKind::Assign => 10,
            TokenKind::Equal => 11,
            TokenKind::NotEqual => 12,
            TokenKind::Bang => 13,
            TokenKind::LeftParen => 14,
            TokenKind::RightParen => 15,
            TokenKind::LeftBrace => 16,
            TokenKind::RightBrace => 17,
            TokenKind::LeftBracket => 18,
            TokenKind::RightBracket => 19,
            TokenKind::Comma => 20,
            TokenKind::Hashtag => 21,
            TokenKind::DoubleQuote => 22,
            TokenKind::SingleQuote => 23,
            TokenKind::Pipe => 24,
            TokenKind::Ampersand => 25,
            TokenKind::Semicolon => 26,
            TokenKind::LessThan => 27,
            TokenKind::GreaterThan => 28,
            TokenKind::LessEqual => 29,
            TokenKind::GreaterEqual => 30,
            TokenKind::And => 31,
            TokenKind::Or => 32,
            TokenKind::Increment => 33,
            TokenKind::Decrement => 34,
            TokenKind::True => 35,
            TokenKind::False => 36,
            TokenKind::Function => 37,
            TokenKind::Match => 38,
            TokenKind::If => 39,
            TokenKind::Else => 40,
            TokenKind::Return => 41,
            TokenKind::For => 42,
            TokenKind::Break => 43,
            TokenKind::Continue => 44,
        }
    }

    /// Whether `self` and `other` are the same syntactic symbol, ignoring any
    /// carried text or value.
    pub fn same_kind(&self, other: &TokenKind) -> (r: bool)
        ensures
            r == spec_same_kind(self@, other@),
    {
        self.tag() == other.tag()
    }
}

} // verus!
