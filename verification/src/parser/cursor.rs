//! The parser's token cursor and its first productions: tokens, source
//! spans and diagnostics, the navigation every production uses (look at the
//! current token, advance, expect a kind or a keyword in either language),
//! and `import` declarations.

use vstd::prelude::*;
use crate::parser::keywords::values::{keyword_alias, keyword_alias_spec, word_matches, word_matches_spec};
use crate::parser::keywords::opt_str;

verus! {

broadcast use vstd::string::group_string_axioms;

/// A range of source text.
#[derive(Clone, Copy, PartialEq, Eq, Structural, Debug)]
pub struct Span {
    pub start: usize,
    pub end: usize,
}

/// The span from the start of `a` to the end of `b`.
pub open spec fn merged(a: Span, b: Span) -> Span {
    Span { start: a.start, end: b.end }
}

impl Span {
    /// The span from this one's start to `other`'s end.
    pub fn merge(self, other: Span) -> (r: Span)
        ensures
            r == merged(self, other),
    {
        Span { start: self.start, end: other.end }
    }
}

/// What kind of token the lexer produced; words and strings carry their
/// text, integers their value, and decimals the text that `f64`'s `Display`
/// writes for their value.
pub enum TokenKind {
    Ident(String),
    String(String),
    Number(i64),
    Semicolon,
    Comma,
    Colon,
    ColonColon,
    Dot,
    Equal,
    LeftParen,
    RightParen,
    LeftBrace,
    RightBrace,
    LeftBracket,
    RightBracket,
    Plus,
    Minus,
    Star,
    Slash,
    Percent,
    EqualEqual,
    BangEqual,
    Less,
    LessEqual,
    Greater,
    GreaterEqual,
    Bang,
    AndAnd,
    OrOr,
    Hash,
    Tilde,
    Caret,
    Decimal(String),
    Eof,
    PlusEqual,
    MinusEqual,
    StarEqual,
    SlashEqual,
    PercentEqual,
    At,
    Arrow,
}

/// The variant of a token kind, without what it carries.
pub open spec fn kind_tag(k: TokenKind) -> int {
    match k {
        TokenKind::Ident(_) => 0,
        TokenKind::String(_) => 1,
        TokenKind::Number(_) => 2,
        TokenKind::Semicolon => 3,
        TokenKind::Comma => 4,
        TokenKind::Colon => 5,
        TokenKind::ColonColon => 6,
        TokenKind::Dot => 7,
        TokenKind::Equal => 8,
        TokenKind::LeftParen => 9,
        TokenKind::RightParen => 10,
        TokenKind::LeftBrace => 11,
        TokenKind::RightBrace => 12,
        TokenKind::LeftBracket => 13,
        TokenKind::RightBracket => 14,
        TokenKind::Plus => 15,
        TokenKind::Minus => 16,
        TokenKind::Star => 17,
        TokenKind::Slash => 18,
        TokenKind::Percent => 19,
        TokenKind::EqualEqual => 20,
        TokenKind::BangEqual => 21,
        TokenKind::Less => 22,
        TokenKind::LessEqual => 23,
        TokenKind::Greater => 24,
        TokenKind::GreaterEqual => 25,
        TokenKind::Bang => 26,
        TokenKind::AndAnd => 27,
        TokenKind::OrOr => 28,
        TokenKind::Hash => 29,
        TokenKind::Tilde => 30,
        TokenKind::Caret => 31,
        TokenKind::Decimal(_) => 32,
        TokenKind::Eof => 33,
        TokenKind::PlusEqual => 34,
        TokenKind::MinusEqual => 35,
        TokenKind::StarEqual => 36,
        TokenKind::SlashEqual => 37,
        TokenKind::PercentEqual => 38,
        TokenKind::At => 39,
        TokenKind::Arrow => 40,
    }
}

fn tag_of(k: &TokenKind) -> (r: u8)
    ensures
        r as int == kind_tag(*k),
{
    match k {
        TokenKind::Ident(_) => 0,
        TokenKind::String(_) => 1,
        TokenKind::Number(_) => 2,
        TokenKind::Semicolon => 3,
        TokenKind::Comma => 4,
        TokenKind::Colon => 5,
        TokenKind::ColonColon => 6,
        TokenKind::Dot => 7,
        TokenKind::Equal => 8,
        TokenKind::LeftParen => 9,
        TokenKind::RightParen => 10,
        TokenKind::LeftBrace => 11,
        TokenKind::RightBrace => 12,
        TokenKind::LeftBracket => 13,
        TokenKind::RightBracket => 14,
        TokenKind::Plus => 15,
        TokenKind::Minus => 16,
        TokenKind::Star => 17,
        TokenKind::Slash => 18,
        TokenKind::Percent => 19,
        TokenKind::EqualEqual => 20,
        TokenKind::BangEqual => 21,
        TokenKind::Less => 22,
        TokenKind::LessEqual => 23,
        TokenKind::Greater => 24,
        TokenKind::GreaterEqual => 25,
        TokenKind::Bang => 26,
        TokenKind::AndAnd => 27,
        TokenKind::OrOr => 28,
        TokenKind::Hash => 29,
        TokenKind::Tilde => 30,
        TokenKind::Caret => 31,
        TokenKind::Decimal(_) => 32,
        TokenKind::Eof => 33,
        TokenKind::PlusEqual => 34,
        TokenKind::MinusEqual => 35,
        TokenKind::StarEqual => 36,
        TokenKind::SlashEqual => 37,
        TokenKind::PercentEqual => 38,
        TokenKind::At => 39,
        TokenKind::Arrow => 40,
    }
}

/// One token: its kind and where it stands.
pub struct Token {
    pub kind: TokenKind,
    pub span: Span,
}

/// A copy of a token.
pub fn copy_token(t: &Token) -> (r: Token)
    ensures
        r == *t,
{
    let kind = match &t.kind {
        TokenKind::Ident(v) => TokenKind::Ident(v.clone()),
        TokenKind::String(v) => TokenKind::String(v.clone()),
        TokenKind::Number(n) => TokenKind::Number(*n),
        TokenKind::Semicolon => TokenKind::Semicolon,
        TokenKind::Comma => TokenKind::Comma,
        TokenKind::Colon => TokenKind::Colon,
        TokenKind::ColonColon => TokenKind::ColonColon,
        TokenKind::Dot => TokenKind::Dot,
        TokenKind::Equal => TokenKind::Equal,
        TokenKind::LeftParen => TokenKind::LeftParen,
        TokenKind::RightParen => TokenKind::RightParen,
        TokenKind::LeftBrace => TokenKind::LeftBrace,
        TokenKind::RightBrace => TokenKind::RightBrace,
        TokenKind::LeftBracket => TokenKind::LeftBracket,
        TokenKind::RightBracket => TokenKind::RightBracket,
        TokenKind::Plus => TokenKind::Plus,
        TokenKind::Minus => TokenKind::Minus,
        TokenKind::Star => TokenKind::Star,
        TokenKind::Slash => TokenKind::Slash,
        TokenKind::Percent => TokenKind::Percent,
        TokenKind::EqualEqual => TokenKind::EqualEqual,
        TokenKind::BangEqual => TokenKind::BangEqual,
        TokenKind::Less => TokenKind::Less,
        TokenKind::LessEqual => TokenKind::LessEqual,
        TokenKind::Greater => TokenKind::Greater,
        TokenKind::GreaterEqual => TokenKind::GreaterEqual,
        TokenKind::Bang => TokenKind::Bang,
        TokenKind::AndAnd => TokenKind::AndAnd,
        TokenKind::OrOr => TokenKind::OrOr,
        TokenKind::Hash => TokenKind::Hash,
        TokenKind::Tilde => TokenKind::Tilde,
        TokenKind::Caret => TokenKind::Caret,
        TokenKind::Decimal(v) => TokenKind::Decimal(v.clone()),
        TokenKind::Eof => TokenKind::Eof,
        TokenKind::PlusEqual => TokenKind::PlusEqual,
        TokenKind::MinusEqual => TokenKind::MinusEqual,
        TokenKind::StarEqual => TokenKind::StarEqual,
        TokenKind::SlashEqual => TokenKind::SlashEqual,
        TokenKind::PercentEqual => TokenKind::PercentEqual,
        TokenKind::At => TokenKind::At,
        TokenKind::Arrow => TokenKind::Arrow,
    };
    Token { kind, span: t.span }
}

/// A parse error: its message and where it points.
pub struct Diagnostic {
    pub message: String,
    pub span: Span,
}

/// A diagnostic as the contracts speak of it.
pub open spec fn diag(d: Diagnostic) -> (Seq<char>, Span) {
    (d.message@, d.span)
}

/// The position after advancing from `c`: the end of the stream (`Eof`)
/// is never passed.
pub open spec fn advanced(t: Seq<Token>, c: int) -> int {
    if t[c].kind is Eof {
        c
    } else {
        c + 1
    }
}

/// The token at `c` has the same kind as `k`.
pub open spec fn kind_at(t: Seq<Token>, c: int, k: TokenKind) -> bool {
    kind_tag(t[c].kind) == kind_tag(k)
}

/// The token at `c` is a word that spells the keyword `w` in either
/// language.
pub open spec fn word_at(t: Seq<Token>, c: int, w: Seq<char>) -> bool {
    match t[c].kind {
        TokenKind::Ident(v) => word_matches_spec(v@, w),
        _ => false,
    }
}

/// The message when the keyword `w` is missing.
pub open spec fn expected_word_message(w: Seq<char>) -> Seq<char> {
    match keyword_alias_spec(w) {
        Some(a) => "这里需要 `"@ + w + "` 或 `"@ + a + "`"@,
        None => "这里需要 `"@ + w + "`"@,
    }
}

/// The word at `c` and its span, or the diagnostic that a word
/// (`expected`) is needed there.
pub open spec fn ident_at(t: Seq<Token>, c: int, expected: Seq<char>) -> Result<(Seq<char>, Span), (Seq<char>, Span)> {
    match t[c].kind {
        TokenKind::Ident(v) => Ok((v@, t[c].span)),
        _ => Err(("这里需要"@ + expected, t[c].span)),
    }
}

/// The type a macro parameter is declared with.
#[derive(Clone, Copy, PartialEq, Eq, Structural, Debug)]
pub enum MacroType {
    Integer,
    Decimal,
    Text,
    Resource,
    Nbt,
}

/// Which axis a macro coordinate stands on.
#[derive(Clone, Copy, PartialEq, Eq, Structural, Debug)]
pub enum MacroCoordinateKind {
    Horizontal,
    Vertical,
    Angle,
}

/// The parser: the tokens, ending with `Eof`, the position of the current
/// token, the macro parameters of the function being parsed, and the macro
/// parameters that placeholders and coordinates have used so far.
pub struct Parser {
    pub tokens: Vec<Token>,
    pub cursor: usize,
    pub macro_parameters: Vec<(String, MacroType)>,
    pub macro_uses: Vec<(String, Span)>,
    pub macro_coordinates: Vec<(String, MacroCoordinateKind)>,
}

/// The macro state as the contracts speak of it.
pub open spec fn macro_state(p: &Parser) -> (
    Seq<(Seq<char>, MacroType)>,
    Seq<(Seq<char>, Span)>,
    Seq<(Seq<char>, MacroCoordinateKind)>,
) {
    (
        p.macro_parameters@.map_values(|e: (String, MacroType)| (e.0@, e.1)),
        p.macro_uses@.map_values(|e: (String, Span)| (e.0@, e.1)),
        p.macro_coordinates@.map_values(|e: (String, MacroCoordinateKind)| (e.0@, e.1)),
    )
}

/// The tokens end with `Eof` and the cursor stands on one of them.
pub open spec fn stream_ok(t: Seq<Token>, c: int) -> bool {
    &&& t.len() > 0
    &&& t.last().kind is Eof
    &&& 0 <= c < t.len()
}

/// A token other than `Eof` is not the last, so advancing moves past it.
pub proof fn lemma_not_last(t: Seq<Token>, c: int)
    requires
        stream_ok(t, c),
        !(t[c].kind is Eof),
    ensures
        c + 1 < t.len(),
        advanced(t, c) == c + 1,
{
}

impl Parser {
    pub open spec fn wf(&self) -> bool {
        stream_ok(self.tokens@, self.cursor as int)
    }

    /// A parser at the first token.
    pub fn new(tokens: Vec<Token>) -> (r: Parser)
        requires
            tokens@.len() > 0,
            tokens@.last().kind is Eof,
        ensures
            r.wf(),
            r.tokens@ == tokens@,
            r.cursor == 0,
            r.macro_parameters@.len() == 0,
            r.macro_uses@.len() == 0,
            r.macro_coordinates@.len() == 0,
    {
        Parser { tokens, cursor: 0, macro_parameters: Vec::new(), macro_uses: Vec::new(), macro_coordinates: Vec::new() }
    }

    /// A parser at the first token, inside a macro function with the given
    /// parameters.
    pub fn with_macro_parameters(tokens: Vec<Token>, parameters: Vec<(String, MacroType)>) -> (r: Parser)
        requires
            tokens@.len() > 0,
            tokens@.last().kind is Eof,
        ensures
            r.wf(),
            r.tokens@ == tokens@,
            r.cursor == 0,
            r.macro_parameters@ == parameters@,
            r.macro_uses@.len() == 0,
            r.macro_coordinates@.len() == 0,
    {
        Parser { tokens, cursor: 0, macro_parameters: parameters, macro_uses: Vec::new(), macro_coordinates: Vec::new() }
    }

    /// The current token.
    pub fn current(&self) -> (r: &Token)
        requires
            self.wf(),
        ensures
            *r == self.tokens@[self.cursor as int],
    {
        &self.tokens[self.cursor]
    }

    /// The token `offset` places ahead, or the final `Eof` past the end.
    pub fn peek_kind(&self, offset: usize) -> (r: &Token)
        requires
            self.wf(),
        ensures
            *r == (if self.cursor + offset < self.tokens@.len() {
                self.tokens@[self.cursor + offset]
            } else {
                self.tokens@.last()
            }),
    {
        if offset < self.tokens.len() - self.cursor {
            &self.tokens[self.cursor + offset]
        } else {
            &self.tokens[self.tokens.len() - 1]
        }
    }

    /// The token before the current one.
    pub fn previous(&self) -> (r: &Token)
        requires
            self.wf(),
            self.cursor > 0,
        ensures
            *r == self.tokens@[self.cursor - 1],
    {
        &self.tokens[self.cursor - 1]
    }

    /// Whether the current token has the kind of `kind`.
    pub fn check(&self, kind: &TokenKind) -> (r: bool)
        requires
            self.wf(),
        ensures
            r == kind_at(self.tokens@, self.cursor as int, *kind),
    {
        tag_of(&self.tokens[self.cursor].kind) == tag_of(kind)
    }

    /// Whether the current token spells the keyword `word`.
    pub fn check_word(&self, word: &str) -> (r: bool)
        requires
            self.wf(),
        ensures
            r == word_at(self.tokens@, self.cursor as int, word@),
    {
        match &self.tokens[self.cursor].kind {
            TokenKind::Ident(value) => word_matches(value.as_str(), word),
            _ => false,
        }
    }

    /// Returns the current token and moves past it, unless it is `Eof`.
    pub fn advance(&mut self) -> (r: Token)
        requires
            old(self).wf(),
        ensures
            final(self).wf(),
            final(self).tokens@ == old(self).tokens@,
            macro_state(&*final(self)) == macro_state(&*old(self)),
            r == old(self).tokens@[old(self).cursor as int],
            final(self).cursor == advanced(old(self).tokens@, old(self).cursor as int),
    {
        let index = self.cursor;
        let n = self.tokens.len();
        let token = copy_token(&self.tokens[index]);
        if !self.check(&TokenKind::Eof) {
            assert(index + 1 < n);
            self.cursor += 1;
        }
        token
    }

    /// The current token, taken when it has the kind of `kind`.
    pub fn take(&mut self, kind: &TokenKind) -> (r: Option<Token>)
        requires
            old(self).wf(),
        ensures
            final(self).wf(),
            final(self).tokens@ == old(self).tokens@,
            macro_state(&*final(self)) == macro_state(&*old(self)),
            if kind_at(old(self).tokens@, old(self).cursor as int, *kind) {
                r == Some(old(self).tokens@[old(self).cursor as int]) && final(self).cursor == advanced(
                    old(self).tokens@,
                    old(self).cursor as int,
                )
            } else {
                r is None && final(self).cursor == old(self).cursor
            },
    {
        if self.check(kind) {
            Some(self.advance())
        } else {
            None
        }
    }

    /// The current token, taken when it spells the keyword `word`.
    pub fn take_word(&mut self, word: &str) -> (r: Option<Token>)
        requires
            old(self).wf(),
        ensures
            final(self).wf(),
            final(self).tokens@ == old(self).tokens@,
            macro_state(&*final(self)) == macro_state(&*old(self)),
            if word_at(old(self).tokens@, old(self).cursor as int, word@) {
                r == Some(old(self).tokens@[old(self).cursor as int]) && final(self).cursor == old(self).cursor + 1
            } else {
                r is None && final(self).cursor == old(self).cursor
            },
    {
        if self.check_word(word) {
            Some(self.advance())
        } else {
            None
        }
    }

    /// The current token when it has the kind of `kind`; else `message` at
    /// the current token.
    pub fn expect(&mut self, kind: TokenKind, message: &str) -> (r: Result<Token, Diagnostic>)
        requires
            old(self).wf(),
        ensures
            final(self).wf(),
            final(self).tokens@ == old(self).tokens@,
            macro_state(&*final(self)) == macro_state(&*old(self)),
            match r {
                Ok(token) => kind_at(old(self).tokens@, old(self).cursor as int, kind) && token == old(
                    self,
                ).tokens@[old(self).cursor as int] && final(self).cursor == advanced(
                    old(self).tokens@,
                    old(self).cursor as int,
                ),
                Err(d) => !kind_at(old(self).tokens@, old(self).cursor as int, kind) && diag(d) == (
                    message@,
                    old(self).tokens@[old(self).cursor as int].span,
                ) && final(self).cursor == old(self).cursor,
            },
    {
        if self.check(&kind) {
            Ok(self.advance())
        } else {
            Err(Diagnostic { message: message.to_owned(), span: self.tokens[self.cursor].span })
        }
    }

    /// The current token when it spells the keyword `word`; else the
    /// diagnostic naming both spellings of the keyword.
    pub fn expect_word(&mut self, word: &str) -> (r: Result<Token, Diagnostic>)
        requires
            old(self).wf(),
        ensures
            final(self).wf(),
            final(self).tokens@ == old(self).tokens@,
            macro_state(&*final(self)) == macro_state(&*old(self)),
            match r {
                Ok(token) => word_at(old(self).tokens@, old(self).cursor as int, word@) && token == old(
                    self,
                ).tokens@[old(self).cursor as int] && final(self).cursor == old(self).cursor + 1,
                Err(d) => !word_at(old(self).tokens@, old(self).cursor as int, word@) && diag(d) == (
                    expected_word_message(word@),
                    old(self).tokens@[old(self).cursor as int].span,
                ) && final(self).cursor == old(self).cursor,
            },
    {
        if self.check_word(word) {
            Ok(self.advance())
        } else {
            let mut message = "这里需要 `".to_owned();
            message.append(word);
            match keyword_alias(word) {
                Some(alias) => {
                    message.append("` 或 `");
                    message.append(alias);
                    message.append("`");
                },
                None => {
                    message.append("`");
                },
            }
            Err(Diagnostic { message, span: self.tokens[self.cursor].span })
        }
    }

    /// A word and its span; else the diagnostic that `expected` is needed.
    /// The current token is consumed either way.
    pub fn ident(&mut self, expected: &str) -> (r: Result<(String, Span), Diagnostic>)
        requires
            old(self).wf(),
        ensures
            final(self).wf(),
            final(self).tokens@ == old(self).tokens@,
            macro_state(&*final(self)) == macro_state(&*old(self)),
            final(self).cursor == advanced(old(self).tokens@, old(self).cursor as int),
            match (r, ident_at(old(self).tokens@, old(self).cursor as int, expected@)) {
                (Ok((v, span)), Ok((w, s))) => v@ == w && span == s,
                (Err(d), Err(e)) => diag(d) == e,
                _ => false,
            },
    {
        let token = self.advance();
        match token.kind {
            TokenKind::Ident(value) => Ok((value, token.span)),
            _ => {
                let mut message = "这里需要".to_owned();
                message.append(expected);
                Err(Diagnostic { message, span: token.span })
            },
        }
    }

    /// A string literal and its span; else `message`. The current token
    /// is consumed either way.
    pub fn string(&mut self, message: &str) -> (r: Result<(String, Span), Diagnostic>)
        requires
            old(self).wf(),
        ensures
            final(self).wf(),
            final(self).tokens@ == old(self).tokens@,
            macro_state(&*final(self)) == macro_state(&*old(self)),
            final(self).cursor == advanced(old(self).tokens@, old(self).cursor as int),
            match r {
                Ok((v, span)) => old(self).tokens@[old(self).cursor as int].kind == TokenKind::String(v) && span
                    == old(self).tokens@[old(self).cursor as int].span,
                Err(d) => !(old(self).tokens@[old(self).cursor as int].kind is String) && diag(d) == (
                    message@,
                    old(self).tokens@[old(self).cursor as int].span,
                ),
            },
    {
        let token = self.advance();
        match token.kind {
            TokenKind::String(value) => Ok((value, token.span)),
            _ => Err(Diagnostic { message: message.to_owned(), span: token.span }),
        }
    }
}

} // verus!
