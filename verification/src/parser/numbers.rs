//! Small productions shared by many commands: signed and unsigned integer
//! arguments, an optional sign, and resource paths written as a word or a
//! string.

use vstd::prelude::*;
use super::cursor::{macro_state, Parser, Token, TokenKind, Span, Diagnostic, diag, advanced, kind_at};

verus! {

broadcast use vstd::string::group_string_axioms;

/// The position after an optional `-` at `c`, and whether it was there.
pub open spec fn after_minus(t: Seq<Token>, c: int) -> (bool, int) {
    if kind_at(t, c, TokenKind::Minus) {
        (true, advanced(t, c))
    } else {
        (false, c)
    }
}

/// A signed 32-bit integer argument at `c` (an optional `-`, then a
/// number).
pub open spec fn signed_spec(t: Seq<Token>, c: int, name: Seq<char>) -> Result<i32, (Seq<char>, Span)> {
    let (negative, n) = after_minus(t, c);
    match t[n].kind {
        TokenKind::Number(v) => {
            let value = if negative {
                -v
            } else {
                v as int
            };
            if i32::MIN <= value <= i32::MAX {
                Ok(value as i32)
            } else {
                Err((name + " 超出 32 位范围"@, t[n].span))
            }
        },
        _ => Err((name + " 需要整数"@, t[n].span)),
    }
}

/// An unsigned 32-bit integer argument at `c`, with its span.
pub open spec fn unsigned_spec(t: Seq<Token>, c: int, name: Seq<char>) -> Result<(u32, Span), (Seq<char>, Span)> {
    match t[c].kind {
        TokenKind::Number(v) => if 0 <= v <= u32::MAX {
            Ok((v as u32, t[c].span))
        } else {
            Err((name + " 超出范围"@, t[c].span))
        },
        _ => Err((name + " 需要非负整数"@, t[c].span)),
    }
}

/// A resource path at `c`: a word or a string, with its span.
pub open spec fn resource_path_spec(t: Seq<Token>, c: int, expected: Seq<char>) -> Result<
    (Seq<char>, Span),
    (Seq<char>, Span),
> {
    match t[c].kind {
        TokenKind::Ident(v) => Ok((v@, t[c].span)),
        TokenKind::String(v) => Ok((v@, t[c].span)),
        _ => Err(("这里需要"@ + expected + "标识符或字符串"@, t[c].span)),
    }
}

fn message(name: &str, tail: &str) -> (r: String)
    ensures
        r@ == name@ + tail@,
{
    let mut m = name.to_owned();
    m.append(tail);
    m
}

impl Parser {
    /// A signed 32-bit integer argument; the number is consumed either way.
    pub fn signed(&mut self, name: &str) -> (r: Result<i32, Diagnostic>)
        requires
            old(self).wf(),
        ensures
            final(self).wf(),
            final(self).tokens@ == old(self).tokens@,
            macro_state(&*final(self)) == macro_state(&*old(self)),
            final(self).cursor == advanced(old(self).tokens@, after_minus(old(self).tokens@, old(self).cursor as int).1),
            match (r, signed_spec(old(self).tokens@, old(self).cursor as int, name@)) {
                (Ok(v), Ok(s)) => v == s,
                (Err(d), Err(e)) => diag(d) == e,
                _ => false,
            },
    {
        let minus = self.take(&TokenKind::Minus);
        let token = self.advance();
        let value = match token.kind {
            TokenKind::Number(value) => value,
            _ => return Err(Diagnostic { message: message(name, " 需要整数"), span: token.span }),
        };
        let signed = if minus.is_some() {
            if value == i64::MIN {
                return Err(Diagnostic { message: message(name, " 超出 32 位范围"), span: token.span });
            }
            -value
        } else {
            value
        };
        if signed < i32::MIN as i64 || signed > i32::MAX as i64 {
            return Err(Diagnostic { message: message(name, " 超出 32 位范围"), span: token.span });
        }
        Ok(signed as i32)
    }

    /// An unsigned 32-bit integer argument and its span; the number is
    /// consumed either way.
    pub fn unsigned_with_span(&mut self, name: &str) -> (r: Result<(u32, Span), Diagnostic>)
        requires
            old(self).wf(),
        ensures
            final(self).wf(),
            final(self).tokens@ == old(self).tokens@,
            macro_state(&*final(self)) == macro_state(&*old(self)),
            final(self).cursor == advanced(old(self).tokens@, old(self).cursor as int),
            match (r, unsigned_spec(old(self).tokens@, old(self).cursor as int, name@)) {
                (Ok(v), Ok(s)) => v == s,
                (Err(d), Err(e)) => diag(d) == e,
                _ => false,
            },
    {
        let token = self.advance();
        let value = match token.kind {
            TokenKind::Number(value) => value,
            _ => return Err(Diagnostic { message: message(name, " 需要非负整数"), span: token.span }),
        };
        if value < 0 || value > u32::MAX as i64 {
            return Err(Diagnostic { message: message(name, " 超出范围"), span: token.span });
        }
        Ok((value as u32, token.span))
    }

    /// An unsigned 32-bit integer argument.
    pub fn unsigned(&mut self, name: &str) -> (r: Result<u32, Diagnostic>)
        requires
            old(self).wf(),
        ensures
            final(self).wf(),
            final(self).tokens@ == old(self).tokens@,
            macro_state(&*final(self)) == macro_state(&*old(self)),
            final(self).cursor == advanced(old(self).tokens@, old(self).cursor as int),
            match (r, unsigned_spec(old(self).tokens@, old(self).cursor as int, name@)) {
                (Ok(v), Ok(s)) => v == s.0,
                (Err(d), Err(e)) => diag(d) == e,
                _ => false,
            },
    {
        match self.unsigned_with_span(name) {
            Ok((value, _)) => Ok(value),
            Err(d) => Err(d),
        }
    }

    /// An optional sign: `-` gives `true`; a `+` is skipped.
    pub fn negative_sign(&mut self) -> (r: bool)
        requires
            old(self).wf(),
        ensures
            final(self).wf(),
            final(self).tokens@ == old(self).tokens@,
            macro_state(&*final(self)) == macro_state(&*old(self)),
            r == kind_at(old(self).tokens@, old(self).cursor as int, TokenKind::Minus),
            final(self).cursor == (if r || kind_at(old(self).tokens@, old(self).cursor as int, TokenKind::Plus) {
                old(self).cursor + 1
            } else {
                old(self).cursor as int
            }),
    {
        if self.take(&TokenKind::Minus).is_some() {
            return true;
        }
        self.take(&TokenKind::Plus);
        false
    }

    /// A resource path written as a word or a string, and its span; the
    /// token is consumed either way.
    pub fn resource_path(&mut self, expected: &str) -> (r: Result<(String, Span), Diagnostic>)
        requires
            old(self).wf(),
        ensures
            final(self).wf(),
            final(self).tokens@ == old(self).tokens@,
            macro_state(&*final(self)) == macro_state(&*old(self)),
            final(self).cursor == advanced(old(self).tokens@, old(self).cursor as int),
            match (r, resource_path_spec(old(self).tokens@, old(self).cursor as int, expected@)) {
                (Ok((v, span)), Ok((w, s))) => v@ == w && span == s,
                (Err(d), Err(e)) => diag(d) == e,
                _ => false,
            },
    {
        let token = self.advance();
        match token.kind {
            TokenKind::Ident(value) => Ok((value, token.span)),
            TokenKind::String(value) => Ok((value, token.span)),
            _ => {
                let mut m = "这里需要".to_owned();
                m.append(expected);
                m.append("标识符或字符串");
                Err(Diagnostic { message: m, span: token.span })
            },
        }
    }
}

} // verus!
