//! The lexer: a stateful character scanner that turns source text into
//! span-tagged tokens.
//!
//! The mathematical model is `spec_next_token`: a function from the source
//! character sequence and a scan position to the token (or lexical error)
//! produced there and the position left behind. `Lexer::next_token` is proved
//! to compute exactly that.
//!
//! The greedy two-character operators include `++` and `--`: each lexes as
//! one token, which is what lets the parser's single token of lookahead
//! recognize the postfix increment and decrement forms.

use vstd::prelude::*;

use crate::token::{str_eq, Span, SpecToken, SpecTokenKind, Token, TokenKind};
use vstd::string::StringExecFns;

verus! {

/// A lexical failure, returned as a value; the lexer never aborts the
/// process.
#[derive(Clone, Copy, Debug, PartialEq, Eq)]
pub enum LexError {
    /// A character that starts no token.
    IllegalChar(char),
    /// The input ended before the closing double quote of a string literal.
    UnterminatedString,
    /// An integer literal that does not fit in a 64-bit signed integer.
    IntegerOverflow,
}

/// The descriptive text of a lexical error.
pub open spec fn spec_lex_error_str(e: LexError) -> Seq<char> {
    match e {
        LexError::IllegalChar(c) => "Illegal character detected '"@ + seq![c] + "'"@,
        LexError::UnterminatedString => "expected closing string with double quotation but got nothing"@,
        LexError::IntegerOverflow => "integer literal does not fit in 64 bits"@,
    }
}

impl LexError {
    /// The descriptive text of this error.
    pub fn message(&self) -> (r: String)
        ensures
            r@ == spec_lex_error_str(*self),
    {
        let r = match self {
            LexError::IllegalChar(c) => {
                let mut r = String::from_str("Illegal character detected '");
                crate::display::push_char(&mut r, *c);
                r.append("'");
                r
            },
            LexError::UnterminatedString => String::from_str(
                "expected closing string with double quotation but got nothing",
            ),
            LexError::IntegerOverflow => String::from_str(
                "integer literal does not fit in 64 bits",
            ),
        };
        proof {
            assert(r@ =~= spec_lex_error_str(*self));
        }
        r
    }
}

/// Whitespace skipped between tokens.
pub open spec fn spec_is_whitespace(c: char) -> bool {
    c == ' ' || c == '\t' || c == '\n' || c == '\r'
}

/// A decimal digit.
pub open spec fn spec_is_digit(c: char) -> bool {
    '0' <= c && c <= '9'
}

/// The numeric value of a decimal digit.
pub open spec fn spec_digit_val(c: char) -> int {
    c as int - '0' as int
}

/// Whether the Unicode property test `char::is_alphabetic` accepts `c`; the
/// result is a function of the character alone.
pub uninterp spec fn is_alpha_char(c: char) -> bool;

/// Whether the Unicode property test `char::is_alphanumeric` accepts `c`.
pub uninterp spec fn is_alnum_char(c: char) -> bool;

/// Relies on `char::is_alphabetic`: a fixed property of the character.
/// Within ASCII, exactly the letters have it; every alphabetic character is
/// also alphanumeric.
#[verifier::external_body]
fn char_is_alphabetic(c: char) -> (r: bool)
    ensures
        r == is_alpha_char(c),
        r ==> is_alnum_char(c),
        (c as u32) < 128 ==> (r <==> (('a' <= c && c <= 'z') || ('A' <= c && c <= 'Z'))),
{
    c.is_alphabetic()
}

/// Relies on `char::is_alphanumeric`: a fixed property of the character.
/// Within ASCII, exactly the letters and digits have it (in particular the
/// underscore does not).
#[verifier::external_body]
fn char_is_alphanumeric(c: char) -> (r: bool)
    ensures
        r == is_alnum_char(c),
        (c as u32) < 128 ==> (r <==> (('a' <= c && c <= 'z') || ('A' <= c && c <= 'Z') || ('0'
            <= c && c <= '9'))),
{
    c.is_alphanumeric()
}

/// A character that may continue an identifier.
pub open spec fn spec_is_ident_cont(c: char) -> bool {
    is_alnum_char(c) || c == '_'
}

/// Position after the run of whitespace and `//` line comments starting at
/// `pos` (whitespace and comments may alternate freely).
pub open spec fn spec_skip_trivia(s: Seq<char>, pos: nat) -> nat
    decreases s.len() - pos, 1nat,
{
    if pos < s.len() && spec_is_whitespace(s[pos as int]) {
        spec_skip_trivia(s, pos + 1)
    } else if pos + 1 < s.len() && s[pos as int] == '/' && s[pos as int + 1] == '/' {
        spec_skip_comment_body(s, pos + 2)
    } else {
        pos
    }
}

/// Position after the body of a line comment: everything through the next
/// newline (the newline included), or to the end of input.
pub open spec fn spec_skip_comment_body(s: Seq<char>, pos: nat) -> nat
    decreases s.len() - pos, 0nat,
{
    if pos < s.len() && s[pos as int] != '\n' {
        spec_skip_comment_body(s, pos + 1)
    } else if pos < s.len() {
        spec_skip_trivia(s, pos + 1)
    } else {
        pos
    }
}

/// First position at or after `pos` whose character cannot continue an
/// identifier (or the input length).
pub open spec fn spec_ident_end(s: Seq<char>, pos: nat) -> nat
    decreases s.len() - pos,
{
    if pos < s.len() && spec_is_ident_cont(s[pos as int]) {
        spec_ident_end(s, pos + 1)
    } else {
        pos
    }
}

/// First position at or after `pos` whose character is not a decimal digit
/// (or the input length).
pub open spec fn spec_digits_end(s: Seq<char>, pos: nat) -> nat
    decreases s.len() - pos,
{
    if pos < s.len() && spec_is_digit(s[pos as int]) {
        spec_digits_end(s, pos + 1)
    } else {
        pos
    }
}

/// Position of the closing double quote at or after `pos`, or the input
/// length if the string literal is unterminated.
pub open spec fn spec_string_end(s: Seq<char>, pos: nat) -> nat
    decreases s.len() - pos,
{
    if pos < s.len() && s[pos as int] != '"' {
        spec_string_end(s, pos + 1)
    } else {
        pos
    }
}

/// The value of a run of decimal digits, most significant first.
pub open spec fn spec_digits_val(ds: Seq<char>) -> int
    decreases ds.len(),
{
    if ds.len() == 0 {
        0
    } else {
        spec_digits_val(ds.drop_last()) * 10 + spec_digit_val(ds.last())
    }
}

/// Keyword lookup: a maximal identifier run resolves to a keyword kind or
/// falls back to a generic identifier.
pub open spec fn spec_lookup_identifier(name: Seq<char>) -> SpecTokenKind {
    if name == "fn"@ {
        SpecTokenKind::Function
    } else if name == "match"@ {
        SpecTokenKind::Match
    } else if name == "if"@ {
        SpecTokenKind::If
    } else if name == "else"@ {
        SpecTokenKind::Else
    } else if name == "ret"@ {
        SpecTokenKind::Return
    } else if name == "for"@ {
        SpecTokenKind::For
    } else if name == "break"@ {
        SpecTokenKind::Break
    } else if name == "continue"@ {
        SpecTokenKind::Continue
    } else if name == "true"@ {
        SpecTokenKind::True
    } else if name == "false"@ {
        SpecTokenKind::False
    } else {
        SpecTokenKind::Identifier { name }
    }
}

/// A token covering source positions `start` through `end`, inclusive.
pub open spec fn spec_tok(kind: SpecTokenKind, start: nat, end: nat) -> SpecToken {
    SpecToken { kind, span: Span { start: start as usize, end: end as usize } }
}

/// The token produced at position `p`, which holds a non-trivia character.
/// Greedy two-character operators are tried before their one-character
/// prefix; a double quote begins a string literal; a digit begins an integer
/// literal; an alphabetic character begins an identifier or keyword; any
/// other character is an illegal-character error.
pub open spec fn spec_classify(s: Seq<char>, p: nat) -> (Result<SpecToken, LexError>, nat) {
    let c = s[p as int];
    let two = p + 1 < s.len();
    if c == '=' {
        if two && s[p as int + 1] == '=' {
            (Ok(spec_tok(SpecTokenKind::Equal, p, p + 1)), p + 2)
        } else {
            (Ok(spec_tok(SpecTokenKind::Assign, p, p)), p + 1)
        }
    } else if c == '!' {
        if two && s[p as int + 1] == '=' {
            (Ok(spec_tok(SpecTokenKind::NotEqual, p, p + 1)), p + 2)
        } else {
            (Ok(spec_tok(SpecTokenKind::Bang, p, p)), p + 1)
        }
    } else if c == '<' {
        if two && s[p as int + 1] == '=' {
            (Ok(spec_tok(SpecTokenKind::LessEqual, p, p + 1)), p + 2)
        } else {
            (Ok(spec_tok(SpecTokenKind::LessThan, p, p)), p + 1)
        }
    } else if c == '>' {
        if two && s[p as int + 1] == '=' {
            (Ok(spec_tok(SpecTokenKind::GreaterEqual, p, p + 1)), p + 2)
        } else {
            (Ok(spec_tok(SpecTokenKind::GreaterThan, p, p)), p + 1)
        }
    } else if c == '&' {
        if two && s[p as int + 1] == '&' {
            (Ok(spec_tok(SpecTokenKind::And, p, p + 1)), p + 2)
        } else {
            (Ok(spec_tok(SpecTokenKind::Ampersand, p, p)), p + 1)
        }
    } else if c == '|' {
        if two && s[p as int + 1] == '|' {
            (Ok(spec_tok(SpecTokenKind::Or, p, p + 1)), p + 2)
        } else {
            (Ok(spec_tok(SpecTokenKind::Pipe, p, p)), p + 1)
        }
    } else if c == '+' {
        if two && s[p as int + 1] == '+' {
            (Ok(spec_tok(SpecTokenKind::Increment, p, p + 1)), p + 2)
        } else {
            (Ok(spec_tok(SpecTokenKind::Plus, p, p)), p + 1)
        }
    } else if c == '-' {
        if two && s[p as int + 1] == '-' {
            (Ok(spec_tok(SpecTokenKind::Decrement, p, p + 1)), p + 2)
        } else {
            (Ok(spec_tok(SpecTokenKind::Minus, p, p)), p + 1)
        }
    } else if c == '*' {
        (Ok(spec_tok(SpecTokenKind::Asterisk, p, p)), p + 1)
    } else if c == '/' {
        (Ok(spec_tok(SpecTokenKind::Slash, p, p)), p + 1)
    } else if c == '%' {
        (Ok(spec_tok(SpecTokenKind::Modulo, p, p)), p + 1)
    } else if c == '(' {
        (Ok(spec_tok(SpecTokenKind::LeftParen, p, p)), p + 1)
    } else if c == ')' {
        (Ok(spec_tok(SpecTokenKind::RightParen, p, p)), p + 1)
    } else if c == '{' {
        (Ok(spec_tok(SpecTokenKind::LeftBrace, p, p)), p + 1)
    } else if c == '}' {
        (Ok(spec_tok(SpecTokenKind::RightBrace, p, p)), p + 1)
    } else if c == '[' {
        (Ok(spec_tok(SpecTokenKind::LeftBracket, p, p)), p + 1)
    } else if c == ']' {
        (Ok(spec_tok(SpecTokenKind::RightBracket, p, p)), p + 1)
    } else if c == ',' {
        (Ok(spec_tok(SpecTokenKind::Comma, p, p)), p + 1)
    } else if c == ';' {
        (Ok(spec_tok(SpecTokenKind::Semicolon, p, p)), p + 1)
    } else if c == '#' {
        (Ok(spec_tok(SpecTokenKind::Hashtag, p, p)), p + 1)
    } else if c == '"' {
        let q = spec_string_end(s, p + 1);
        if q < s.len() {
            (Ok(spec_tok(SpecTokenKind::Str(s.subrange(p as int + 1, q as int)), p, q)), q + 1)
        } else {
            (Err(LexError::UnterminatedString), s.len())
        }
    } else if spec_is_digit(c) {
        let q = spec_digits_end(s, p);
        let v = spec_digits_val(s.subrange(p as int, q as int));
        if v <= i64::MAX {
            (Ok(spec_tok(SpecTokenKind::Integer(v as i64), p, (q - 1) as nat)), q)
        } else {
            (Err(LexError::IntegerOverflow), q)
        }
    } else if is_alpha_char(c) {
        let q = spec_ident_end(s, p + 1);
        (Ok(spec_tok(spec_lookup_identifier(s.subrange(p as int, q as int)), p, (q - 1) as nat)), q)
    } else {
        (Err(LexError::IllegalChar(c)), p)
    }
}

/// What one `next_token` call produces from source `s` at position `pos`:
/// the token or lexical error, and the scan position left behind. The token
/// after the last non-trivia character is `EOF`, whose span is the empty
/// range at the final position.
pub open spec fn spec_next_token(s: Seq<char>, pos: nat) -> (Result<SpecToken, LexError>, nat) {
    let p = spec_skip_trivia(s, pos);
    if p >= s.len() {
        (Ok(spec_tok(SpecTokenKind::EOF, p, p)), p)
    } else {
        spec_classify(s, p)
    }
}

/// Whether an executable lexing result carries exactly the model's value.
pub open spec fn lex_result_agrees(r: Result<Token, LexError>, m: Result<SpecToken, LexError>) -> bool {
    match (r, m) {
        (Ok(t), Ok(mt)) => t@ == mt,
        (Err(e), Err(me)) => e == me,
        _ => false,
    }
}

/// The character scanner. `pos` is the position of the next character not
/// yet consumed, counted in characters from the start of the source.
#[derive(Debug)]
pub struct Lexer {
    input: String,
    pos: usize,
}

impl Lexer {
    /// The source text being scanned.
    pub closed spec fn source(&self) -> Seq<char> {
        self.input@
    }

    /// The current scan position.
    pub closed spec fn cursor(&self) -> nat {
        self.pos as nat
    }

    /// The scan position never passes the end of the source.
    pub open spec fn wf(&self) -> bool {
        self.cursor() <= self.source().len()
    }

    pub fn new(input: String) -> (l: Lexer)
        ensures
            l.source() == input@,
            l.cursor() == 0,
            l.wf(),
    {
        Lexer { input, pos: 0 }
    }

    fn length(&self) -> (n: usize)
        ensures
            n == self.source().len(),
    {
        self.input.as_str().unicode_len()
    }

    fn char_at(&self, i: usize) -> (c: char)
        requires
            i < self.source().len(),
        ensures
            c == self.source()[i as int],
    {
        self.input.as_str().get_char(i)
    }

    /// The whitespace characters: space, tab, carriage return, line feed.
    pub fn is_whitespace(c: char) -> (r: bool)
        ensures
            r == spec_is_whitespace(c),
    {
        c == ' ' || c == '\t' || c == '\n' || c == '\r'
    }

    fn is_numeric(&self, c: char) -> (r: bool)
        ensures
            r == spec_is_digit(c),
    {
        '0' <= c && c <= '9'
    }

    fn is_ident_cont(c: char) -> (r: bool)
        ensures
            r == spec_is_ident_cont(c),
    {
        char_is_alphanumeric(c) || c == '_'
    }

    /// Advance past whitespace and line comments.
    fn skip_trivia(&mut self)
        requires
            old(self).wf(),
        ensures
            final(self).wf(),
            final(self).source() == old(self).source(),
            final(self).cursor() == spec_skip_trivia(old(self).source(), old(self).cursor()),
    {
        let ghost s = self.input@;
        let ghost start = self.pos as nat;
        let n = self.length();
        let mut in_comment: bool = false;
        loop
            invariant
                self.input@ == s,
                self.pos <= n,
                n == s.len(),
                spec_skip_trivia(s, start) == if in_comment {
                    spec_skip_comment_body(s, self.pos as nat)
                } else {
                    spec_skip_trivia(s, self.pos as nat)
                },
            ensures
                self.input@ == s,
                !in_comment,
                self.pos <= n,
                spec_skip_trivia(s, self.pos as nat) == self.pos as nat,
                spec_skip_trivia(s, start) == self.pos as nat,
            decreases 2 * (n - self.pos) + if in_comment { 0int } else { 1int },
        {
            if in_comment {
                if self.pos < n {
                    let c = self.char_at(self.pos);
                    self.pos = self.pos + 1;
                    if c == '\n' {
                        in_comment = false;
                    }
                } else {
                    in_comment = false;
                    break ;
                }
            } else {
                if self.pos < n && Self::is_whitespace(self.char_at(self.pos)) {
                    self.pos = self.pos + 1;
                } else if n - self.pos > 1 && self.char_at(self.pos) == '/' && self.char_at(
                    self.pos + 1,
                ) == '/' {
                    self.pos = self.pos + 2;
                    in_comment = true;
                } else {
                    break ;
                }
            }
        }
    }

    /// First position at or after `from` that cannot continue an identifier.
    fn scan_ident_end(&self, from: usize) -> (q: usize)
        requires
            self.wf(),
            from <= self.source().len(),
        ensures
            q == spec_ident_end(self.source(), from as nat),
            from <= q <= self.source().len(),
    {
        let ghost s = self.input@;
        let n = self.length();
        let mut q: usize = from;
        loop
            invariant
                from <= q <= n,
                n == s.len(),
                s == self.input@,
                spec_ident_end(s, from as nat) == spec_ident_end(s, q as nat),
            ensures
                s == self.input@,
                from <= q <= n,
                spec_ident_end(s, q as nat) == q as nat,
            decreases n - q,
        {
            if q < n && Self::is_ident_cont(self.char_at(q)) {
                q = q + 1;
            } else {
                break ;
            }
        }
        q
    }

    /// First position at or after `from` that is not a decimal digit.
    fn scan_digits_end(&self, from: usize) -> (q: usize)
        requires
            self.wf(),
            from <= self.source().len(),
        ensures
            q == spec_digits_end(self.source(), from as nat),
            from <= q <= self.source().len(),
    {
        let ghost s = self.input@;
        let n = self.length();
        let mut q: usize = from;
        loop
            invariant
                from <= q <= n,
                n == s.len(),
                s == self.input@,
                spec_digits_end(s, from as nat) == spec_digits_end(s, q as nat),
            ensures
                s == self.input@,
                from <= q <= n,
                spec_digits_end(s, q as nat) == q as nat,
            decreases n - q,
        {
            if q < n && self.is_numeric(self.char_at(q)) {
                q = q + 1;
            } else {
                break ;
            }
        }
        q
    }

    /// Position of the closing double quote at or after `from`, or the input
    /// length if there is none.
    fn scan_string_end(&self, from: usize) -> (q: usize)
        requires
            self.wf(),
            from <= self.source().len(),
        ensures
            q == spec_string_end(self.source(), from as nat),
            from <= q <= self.source().len(),
    {
        let ghost s = self.input@;
        let n = self.length();
        let mut q: usize = from;
        loop
            invariant
                from <= q <= n,
                n == s.len(),
                s == self.input@,
                spec_string_end(s, from as nat) == spec_string_end(s, q as nat),
            ensures
                s == self.input@,
                from <= q <= n,
                spec_string_end(s, q as nat) == q as nat,
            decreases n - q,
        {
            if q < n && self.char_at(q) != '"' {
                q = q + 1;
            } else {
                break ;
            }
        }
        q
    }

    /// The text of the characters `from..to` of the source.
    fn substring(&self, from: usize, to: usize) -> (r: String)
        requires
            self.wf(),
            from <= to <= self.source().len(),
        ensures
            r@ == self.source().subrange(from as int, to as int),
    {
        self.input.as_str().substring_char(from, to).to_owned()
    }

    /// The value of the digit run `from..to`, or an overflow error if it
    /// exceeds the largest 64-bit signed integer.
    fn digits_to_i64(&self, from: usize, to: usize) -> (r: Result<i64, LexError>)
        requires
            self.wf(),
            from <= to <= self.source().len(),
            forall|k: int| from <= k < to ==> spec_is_digit(self.source()[k]),
        ensures
            ({
                let v = spec_digits_val(self.source().subrange(from as int, to as int));
                if v <= i64::MAX {
                    r == Ok::<i64, LexError>(v as i64)
                } else {
                    r == Err::<i64, LexError>(LexError::IntegerOverflow)
                }
            }),
    {
        let ghost s = self.input@;
        let mut acc: i64 = 0;
        let mut i: usize = from;
        while i < to
            invariant
                from <= i <= to <= s.len(),
                s == self.input@,
                forall|k: int| from <= k < to ==> spec_is_digit(s[k]),
                0 <= acc,
                acc as int == spec_digits_val(s.subrange(from as int, i as int)),
            decreases to - i,
        {
            let c = self.char_at(i);
            assert(spec_is_digit(s[i as int]));
            let d: i64 = (c as u32 - '0' as u32) as i64;
            assert(d == spec_digit_val(c) && 0 <= d < 10);
            if acc > (i64::MAX - d) / 10 {
                proof {
                    lemma_digits_val_step(s, from as int, i as int);
                    assert(spec_digits_val(s.subrange(from as int, i as int + 1)) == acc * 10 + d);
                    assert(acc * 10 + d > i64::MAX) by (nonlinear_arith)
                        requires
                            acc > (i64::MAX - d) / 10,
                            0 <= d < 10,
                            0 <= acc,
                    ;
                    lemma_digits_val_mono(s, from as int, i as int + 1, to as int);
                }
                return Err(LexError::IntegerOverflow);
            }
            proof {
                assert(acc * 10 + d <= i64::MAX) by (nonlinear_arith)
                    requires
                        acc <= (i64::MAX - d) / 10,
                        0 <= d < 10,
                        0 <= acc,
                ;
                lemma_digits_val_step(s, from as int, i as int);
            }
            acc = acc * 10 + d;
            i = i + 1;
        }
        Ok(acc)
    }

    /// Keyword lookup for a completed identifier run.
    pub fn lookup_identifier(&mut self, ident: String) -> (k: TokenKind)
        ensures
            *final(self) == *old(self),
            k@ == spec_lookup_identifier(ident@),
    {
        if str_eq(ident.as_str(), "fn") {
            TokenKind::Function
        } else if str_eq(ident.as_str(), "match") {
            TokenKind::Match
        } else if str_eq(ident.as_str(), "if") {
            TokenKind::If
        } else if str_eq(ident.as_str(), "else") {
            TokenKind::Else
        } else if str_eq(ident.as_str(), "ret") {
            TokenKind::Return
        } else if str_eq(ident.as_str(), "for") {
            TokenKind::For
        } else if str_eq(ident.as_str(), "break") {
            TokenKind::Break
        } else if str_eq(ident.as_str(), "continue") {
            TokenKind::Continue
        } else if str_eq(ident.as_str(), "true") {
            TokenKind::True
        } else if str_eq(ident.as_str(), "false") {
            TokenKind::False
        } else {
            TokenKind::Identifier { name: ident }
        }
    }

    /// Produce the next token, or a lexical error as a value. The result and
    /// the new scan position are exactly those of the model `spec_next_token`.
    pub fn next_token(&mut self) -> (r: Result<Token, LexError>)
        requires
            old(self).wf(),
        ensures
            final(self).wf(),
            final(self).source() == old(self).source(),
            lex_result_agrees(r, spec_next_token(old(self).source(), old(self).cursor()).0),
            final(self).cursor() == spec_next_token(old(self).source(), old(self).cursor()).1,
    {
        self.skip_trivia();
        let ghost s = self.input@;
        let p = self.pos;
        let n = self.length();
        if p >= n {
            return Ok(Token { kind: TokenKind::EOF, span: Span::new(p, p) });
        }
        let c = self.char_at(p);
        let two = n - p > 1;
        if c == '=' {
            if two && self.char_at(p + 1) == '=' {
                self.pos = p + 2;
                Ok(Token { kind: TokenKind::Equal, span: Span::new(p, p + 1) })
            } else {
                self.pos = p + 1;
                Ok(Token { kind: TokenKind::Assign, span: Span::new(p, p) })
            }
        } else if c == '!' {
            if two && self.char_at(p + 1) == '=' {
                self.pos = p + 2;
                Ok(Token { kind: TokenKind::NotEqual, span: Span::new(p, p + 1) })
            } else {
                self.pos = p + 1;
                Ok(Token { kind: TokenKind::Bang, span: Span::new(p, p) })
            }
        } else if c == '<' {
            if two && self.char_at(p + 1) == '=' {
                self.pos = p + 2;
                Ok(Token { kind: TokenKind::LessEqual, span: Span::new(p, p + 1) })
            } else {
                self.pos = p + 1;
                Ok(Token { kind: TokenKind::LessThan, span: Span::new(p, p) })
            }
        } else if c == '>' {
            if two && self.char_at(p + 1) == '=' {
                self.pos = p + 2;
                Ok(Token { kind: TokenKind::GreaterEqual, span: Span::new(p, p + 1) })
            } else {
                self.pos = p + 1;
                Ok(Token { kind: TokenKind::GreaterThan, span: Span::new(p, p) })
            }
        } else if c == '&' {
            if two && self.char_at(p + 1) == '&' {
                self.pos = p + 2;
                Ok(Token { kind: TokenKind::And, span: Span::new(p, p + 1) })
            } else {
                self.pos = p + 1;
                Ok(Token { kind: TokenKind::Ampersand, span: Span::new(p, p) })
            }
        } else if c == '|' {
            if two && self.char_at(p + 1) == '|' {
                self.pos = p + 2;
                Ok(Token { kind: TokenKind::Or, span: Span::new(p, p + 1) })
            } else {
                self.pos = p + 1;
                Ok(Token { kind: TokenKind::Pipe, span: Span::new(p, p) })
            }
        } else if c == '+' {
            if two && self.char_at(p + 1) == '+' {
                self.pos = p + 2;
                Ok(Token { kind: TokenKind::Increment, span: Span::new(p, p + 1) })
            } else {
                self.pos = p + 1;
                Ok(Token { kind: TokenKind::Plus, span: Span::new(p, p) })
            }
        } else if c == '-' {
            if two && self.char_at(p + 1) == '-' {
                self.pos = p + 2;
                Ok(Token { kind: TokenKind::Decrement, span: Span::new(p, p + 1) })
            } else {
                self.pos = p + 1;
                Ok(Token { kind: TokenKind::Minus, span: Span::new(p, p) })
            }
        } else if c == '*' {
            self.pos = p + 1;
            Ok(Token { kind: TokenKind::Asterisk, span: Span::new(p, p) })
        } else if c == '/' {
            self.pos = p + 1;
            Ok(Token { kind: TokenKind::Slash, span: Span::new(p, p) })
        } else if c == '%' {
            self.pos = p + 1;
            Ok(Token { kind: TokenKind::Modulo, span: Span::new(p, p) })
        } else if c == '(' {
            self.pos = p + 1;
            Ok(Token { kind: TokenKind::LeftParen, span: Span::new(p, p) })
        } else if c == ')' {
            self.pos = p + 1;
            Ok(Token { kind: TokenKind::RightParen, span: Span::new(p, p) })
        } else if c == '{' {
            self.pos = p + 1;
            Ok(Token { kind: TokenKind::LeftBrace, span: Span::new(p, p) })
        } else if c == '}' {
            self.pos = p + 1;
            Ok(Token { kind: TokenKind::RightBrace, span: Span::new(p, p) })
        } else if c == '[' {
            self.pos = p + 1;
            Ok(Token { kind: TokenKind::LeftBracket, span: Span::new(p, p) })
        } else if c == ']' {
            self.pos = p + 1;
            Ok(Token { kind: TokenKind::RightBracket, span: Span::new(p, p) })
        } else if c == ',' {
            self.pos = p + 1;
            Ok(Token { kind: TokenKind::Comma, span: Span::new(p, p) })
        } else if c == ';' {
            self.pos = p + 1;
            Ok(Token { kind: TokenKind::Semicolon, span: Span::new(p, p) })
        } else if c == '#' {
            self.pos = p + 1;
            Ok(Token { kind: TokenKind::Hashtag, span: Span::new(p, p) })
        } else if c == '"' {
            let q = self.scan_string_end(p + 1);
            if q < n {
                let content = self.substring(p + 1, q);
                self.pos = q + 1;
                Ok(Token { kind: TokenKind::Str(content), span: Span::new(p, q) })
            } else {
                self.pos = n;
                Err(LexError::UnterminatedString)
            }
        } else if self.is_numeric(c) {
            let q = self.scan_digits_end(p);
            proof {
                lemma_digits_end_range(s, p as nat);
            }
            match self.digits_to_i64(p, q) {
                Ok(v) => {
                    self.pos = q;
                    Ok(Token { kind: TokenKind::Integer(v), span: Span::new(p, q - 1) })
                },
                Err(e) => {
                    self.pos = q;
                    Err(e)
                },
            }
        } else if char_is_alphabetic(c) {
            let q = self.scan_ident_end(p + 1);
            let name = self.substring(p, q);
            let kind = self.lookup_identifier(name);
            self.pos = q;
            Ok(Token { kind, span: Span::new(p, q - 1) })
        } else {
            Err(LexError::IllegalChar(c))
        }
    }
}

/// Extending a digit run by one digit multiplies its value by ten and adds
/// the digit.
proof fn lemma_digits_val_step(s: Seq<char>, from: int, i: int)
    requires
        0 <= from <= i < s.len(),
    ensures
        spec_digits_val(s.subrange(from, i + 1)) == spec_digits_val(s.subrange(from, i)) * 10
            + spec_digit_val(s[i]),
{
    let d = s.subrange(from, i + 1);
    assert(d.drop_last() =~= s.subrange(from, i));
    assert(d.last() == s[i]);
}

/// The value of a digit run is nonnegative and grows as the run extends.
proof fn lemma_digits_val_mono(s: Seq<char>, from: int, j: int, k: int)
    requires
        0 <= from <= j <= k <= s.len(),
        forall|t: int| from <= t < k ==> spec_is_digit(s[t]),
    ensures
        0 <= spec_digits_val(s.subrange(from, j)),
        spec_digits_val(s.subrange(from, j)) <= spec_digits_val(s.subrange(from, k)),
    decreases k - j,
{
    lemma_digits_val_nonneg(s, from, j);
    if j < k {
        lemma_digits_val_mono(s, from, j, k - 1);
        lemma_digits_val_step(s, from, k - 1);
        let prev = spec_digits_val(s.subrange(from, k - 1));
        let d = spec_digit_val(s[k - 1]);
        lemma_digits_val_nonneg(s, from, k - 1);
        assert(prev * 10 + d >= prev) by (nonlinear_arith)
            requires
                prev >= 0,
                d >= 0,
        ;
    }
}

/// The value of a run of decimal digits is nonnegative.
proof fn lemma_digits_val_nonneg(s: Seq<char>, from: int, j: int)
    requires
        0 <= from <= j <= s.len(),
        forall|t: int| from <= t < j ==> spec_is_digit(s[t]),
    ensures
        0 <= spec_digits_val(s.subrange(from, j)),
    decreases j - from,
{
    if j > from {
        lemma_digits_val_nonneg(s, from, j - 1);
        lemma_digits_val_step(s, from, j - 1);
        let prev = spec_digits_val(s.subrange(from, j - 1));
        let d = spec_digit_val(s[j - 1]);
        assert(prev * 10 >= 0) by (nonlinear_arith)
            requires
                prev >= 0,
        ;
    }
}

/// Bounds for a maximal digit run: it stays inside the source, every
/// character in it is a digit, and it is nonempty when it starts on a digit.
proof fn lemma_digits_end_range(s: Seq<char>, pos: nat)
    requires
        pos <= s.len(),
    ensures
        pos <= spec_digits_end(s, pos) <= s.len(),
        forall|k: int| pos <= k < spec_digits_end(s, pos) ==> spec_is_digit(s[k]),
        pos < s.len() && spec_is_digit(s[pos as int]) ==> spec_digits_end(s, pos) > pos,
    decreases s.len() - pos,
{
    if pos < s.len() && spec_is_digit(s[pos as int]) {
        lemma_digits_end_range(s, pos + 1);
    }
}

/// Bounds for a maximal identifier run.
proof fn lemma_ident_end_range(s: Seq<char>, pos: nat)
    requires
        pos <= s.len(),
    ensures
        pos <= spec_ident_end(s, pos) <= s.len(),
        pos < s.len() && spec_is_ident_cont(s[pos as int]) ==> spec_ident_end(s, pos) > pos,
    decreases s.len() - pos,
{
    if pos < s.len() && spec_is_ident_cont(s[pos as int]) {
        lemma_ident_end_range(s, pos + 1);
    }
}

/// Bounds for a string-literal scan.
proof fn lemma_string_end_range(s: Seq<char>, pos: nat)
    requires
        pos <= s.len(),
    ensures
        pos <= spec_string_end(s, pos) <= s.len(),
    decreases s.len() - pos,
{
    if pos < s.len() && s[pos as int] != '"' {
        lemma_string_end_range(s, pos + 1);
    }
}

/// Bounds for trivia skipping.
proof fn lemma_trivia_bounds(s: Seq<char>, pos: nat)
    requires
        pos <= s.len(),
    ensures
        pos <= spec_skip_trivia(s, pos) <= s.len(),
    decreases s.len() - pos, 1nat,
{
    if pos < s.len() && spec_is_whitespace(s[pos as int]) {
        lemma_trivia_bounds(s, pos + 1);
    } else if pos + 1 < s.len() && s[pos as int] == '/' && s[pos as int + 1] == '/' {
        lemma_comment_bounds(s, pos + 2);
    }
}

/// Bounds for comment-body skipping.
proof fn lemma_comment_bounds(s: Seq<char>, pos: nat)
    requires
        pos <= s.len(),
    ensures
        pos <= spec_skip_comment_body(s, pos) <= s.len(),
    decreases s.len() - pos, 0nat,
{
    if pos < s.len() && s[pos as int] != '\n' {
        lemma_comment_bounds(s, pos + 1);
    } else if pos < s.len() {
        lemma_trivia_bounds(s, pos + 1);
    }
}

/// One lexing step stays inside the source and, when it yields a token
/// other than `EOF`, consumes at least one character.
pub proof fn lemma_next_token_progress(s: Seq<char>, pos: nat)
    requires
        pos <= s.len(),
    ensures
        ({
            let (r, p) = spec_next_token(s, pos);
            pos <= p <= s.len() && (match r {
                Ok(t) => !(t.kind is EOF) ==> p > pos,
                Err(_) => true,
            })
        }),
{
    lemma_trivia_bounds(s, pos);
    let t0 = spec_skip_trivia(s, pos);
    if t0 < s.len() {
        let c = s[t0 as int];
        if c == '"' {
            lemma_string_end_range(s, t0 + 1);
        } else if spec_is_digit(c) {
            lemma_digits_end_range(s, t0);
        } else if is_alpha_char(c) {
            lemma_ident_end_range(s, t0 + 1);
        }
    }
}

/// Token spans are exact: every produced token other than `EOF` covers
/// exactly the characters consumed for it — its span starts at the first
/// non-trivia character, is nonempty, and ends on the last character before
/// the position the lexer leaves behind. Consecutive tokens are therefore
/// contiguous up to the skipped trivia. `EOF` covers the empty range at the
/// final position.
pub proof fn lemma_token_span_exact(s: Seq<char>, pos: nat)
    requires
        pos <= s.len(),
        s.len() <= usize::MAX,
    ensures
        ({
            let (r, p) = spec_next_token(s, pos);
            match r {
                Ok(t) => if t.kind is EOF {
                    t.span.start == t.span.end
                } else {
                    t.span.start == spec_skip_trivia(s, pos) && t.span.start <= t.span.end
                        && t.span.end + 1 == p
                },
                Err(_) => true,
            }
        }),
{
    lemma_trivia_bounds(s, pos);
    let t0 = spec_skip_trivia(s, pos);
    if t0 < s.len() {
        let c = s[t0 as int];
        if c == '"' {
            lemma_string_end_range(s, t0 + 1);
        } else if spec_is_digit(c) {
            lemma_digits_end_range(s, t0);
        } else if is_alpha_char(c) {
            lemma_ident_end_range(s, t0 + 1);
        }
    }
}

/// The stream of tokens from position `pos` to the end of the source: every
/// token through the final `EOF` marker, or the tokens before the first
/// lexical error together with that error.
pub open spec fn spec_tokens_from(s: Seq<char>, pos: nat) -> (Seq<SpecToken>, Option<LexError>)
    decreases s.len() - pos,
        when pos <= s.len()
    via spec_tokens_from_decreases
{
    let (r, p) = spec_next_token(s, pos);
    match r {
        Err(e) => (Seq::empty(), Some(e)),
        Ok(t) => if t.kind is EOF {
            (seq![t], None)
        } else {
            let (rest, err) = spec_tokens_from(s, p);
            (seq![t] + rest, err)
        },
    }
}

#[via_fn]
proof fn spec_tokens_from_decreases(s: Seq<char>, pos: nat) {
    lemma_next_token_progress(s, pos);
}

} // verus!
