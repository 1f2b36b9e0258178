//! Argument productions shared by statements and conditions: boolean words,
//! commas between command arguments, `word(` calls, parenthesised unsigned
//! properties, and telling a condition group from a parenthesised operand.

use vstd::prelude::*;
use crate::chars::{str_eq, chars_of, is_whitespace, is_whitespace_spec};
use crate::parser::keywords::actions::{boolean_word, boolean_word_spec};
use super::cursor::{macro_state, Parser, Token, TokenKind, Span, Diagnostic, diag, advanced, kind_at, kind_tag, word_at, ident_at};
use super::numbers::unsigned_spec;

verus! {

broadcast use vstd::string::group_string_axioms;

/// A boolean word at `c` (`true`/`真` or `false`/`假`); `expected` names
/// the word in the diagnostic of a missing word, `wrong` builds the one of
/// another word.
pub open spec fn boolean_spec(
    t: Seq<Token>,
    c: int,
    expected: Seq<char>,
    wrong: spec_fn(Seq<char>) -> Seq<char>,
) -> Result<bool, (Seq<char>, Span)> {
    match ident_at(t, c, expected) {
        Err(e) => Err(e),
        Ok((v, span)) => match boolean_word_spec(v) {
            Some(w) => Ok(w == "true"@),
            None => Err((wrong(v), span)),
        },
    }
}

/// The message for a word that is not a boolean, where `label` is asked.
pub open spec fn boolean_value_message(label: Seq<char>, v: Seq<char>) -> Seq<char> {
    label + "需要 true/false（中文 `真`/`假`），实际为 `"@ + v + "`"@
}

/// The message for a command argument that is not a boolean.
pub open spec fn command_boolean_message(v: Seq<char>) -> Seq<char> {
    "`"@ + v + "` 不是布尔值，需要 true/真 或 false/假"@
}

/// The kinds that continue an arithmetic operand after its `)`.
pub open spec fn continues_operand(k: TokenKind) -> bool {
    let g = kind_tag(k);
    g == kind_tag(TokenKind::Plus) || g == kind_tag(TokenKind::Minus) || g == kind_tag(TokenKind::Star) || g
        == kind_tag(TokenKind::Slash) || g == kind_tag(TokenKind::Percent) || g == kind_tag(TokenKind::EqualEqual)
        || g == kind_tag(TokenKind::BangEqual) || g == kind_tag(TokenKind::Less) || g == kind_tag(
        TokenKind::LessEqual,
    ) || g == kind_tag(TokenKind::Greater) || g == kind_tag(TokenKind::GreaterEqual)
}

/// Scanning from `i` with `depth` open parentheses: at the `)` that closes
/// the first one, whether the group is not followed by an operator.
pub open spec fn group_scan(t: Seq<Token>, i: int, depth: int) -> bool
    decreases t.len() - i,
{
    if i < 0 || i >= t.len() {
        true
    } else if t[i].kind is LeftParen {
        group_scan(t, i + 1, depth + 1)
    } else if t[i].kind is RightParen {
        if depth - 1 == 0 {
            if i + 1 >= t.len() {
                true
            } else {
                !continues_operand(t[i + 1].kind)
            }
        } else {
            group_scan(t, i + 1, depth - 1)
        }
    } else if t[i].kind is Eof {
        true
    } else {
        group_scan(t, i + 1, depth)
    }
}

fn continues(k: &TokenKind) -> (r: bool)
    ensures
        r == continues_operand(*k),
{
    match k {
        TokenKind::Plus | TokenKind::Minus | TokenKind::Star | TokenKind::Slash | TokenKind::Percent
        | TokenKind::EqualEqual | TokenKind::BangEqual | TokenKind::Less | TokenKind::LessEqual
        | TokenKind::Greater | TokenKind::GreaterEqual => true,
        _ => false,
    }
}

/// A raw command string at `c` for `label`: non-blank, not starting with
/// `/`, and on one line.
pub open spec fn command_string_spec(t: Seq<Token>, c: int, label: Seq<char>) -> Result<(Seq<char>, Span), (Seq<char>, Span)> {
    match t[c].kind {
        TokenKind::String(v) => {
            let s = v@;
            if forall|i: int| 0 <= i < s.len() ==> is_whitespace_spec(#[trigger] s[i]) {
                Err((label + " 命令不能为空"@, t[c].span))
            } else if s[0] == '/' {
                Err(("Minecraft 函数中的命令不能以 `/` 开头"@, t[c].span))
            } else if s.contains('\n') || s.contains('\r') {
                Err(("一条 "@ + label + " 语句只能包含一行命令"@, t[c].span))
            } else {
                Ok((s, t[c].span))
            }
        },
        _ => Err((label + " 后需要命令字符串"@, t[c].span)),
    }
}

/// Who a command acts on: the executing entity, the thrower of the
/// current projectile, or a declared entity query.
pub enum Holder {
    SelfEntity,
    Origin,
    Query(String, Span),
}

/// A holder as the contracts speak of it: 0 self, 1 origin, 2 a query with
/// its name and span.
pub open spec fn holder_view(h: Holder) -> (int, Seq<char>, Span) {
    match h {
        Holder::SelfEntity => (0, seq![], Span { start: 0, end: 0 }),
        Holder::Origin => (1, seq![], Span { start: 0, end: 0 }),
        Holder::Query(name, span) => (2, name@, span),
    }
}

/// The holder at `c` for `label`.
pub open spec fn holder_spec(t: Seq<Token>, c: int, label: Seq<char>) -> Result<(int, Seq<char>, Span), (Seq<char>, Span)> {
    if word_at(t, c, "self"@) {
        Ok((0, seq![], Span { start: 0, end: 0 }))
    } else if word_at(t, c, "origin"@) {
        Ok((1, seq![], Span { start: 0, end: 0 }))
    } else {
        match ident_at(t, c, label + " self/自身、origin/投掷者 或实体查询名称"@) {
            Ok((name, span)) => Ok((2, name, span)),
            Err(e) => Err(e),
        }
    }
}

/// A score: the holder and the objective, with the objective's span.
pub struct ScoreTarget {
    pub holder: Holder,
    pub objective: String,
    pub objective_span: Span,
}

/// The `holder, objective` of a score at `c`, and the position after it.
pub open spec fn score_target_body_spec(t: Seq<Token>, c: int) -> Result<
    ((int, Seq<char>, Span), Seq<char>, Span, int),
    (Seq<char>, Span),
> {
    match holder_spec(t, c, "计分持有者"@) {
        Err(e) => Err(e),
        Ok(h) => {
            let c1 = advanced(t, c);
            if !kind_at(t, c1, TokenKind::Comma) {
                Err(("计分持有者后需要 `,`"@, t[c1].span))
            } else {
                match ident_at(t, c1 + 1, "计分板目标名称"@) {
                    Err(e) => Err(e),
                    Ok((objective, span)) => Ok((h, objective, span, advanced(t, c1 + 1))),
                }
            }
        },
    }
}

impl Parser {
    /// A boolean literal for `label`; the word is consumed either way.
    pub fn boolean_value(&mut self, label: &str) -> (r: Result<bool, Diagnostic>)
        requires
            old(self).wf(),
        ensures
            final(self).wf(),
            final(self).tokens@ == old(self).tokens@,
            macro_state(&*final(self)) == macro_state(&*old(self)),
            final(self).cursor == advanced(old(self).tokens@, old(self).cursor as int),
            match (r, boolean_spec(old(self).tokens@, old(self).cursor as int, label@, |v: Seq<char>| boolean_value_message(label@, v))) {
                (Ok(b), Ok(s)) => b == s,
                (Err(d), Err(e)) => diag(d) == e,
                _ => false,
            },
    {
        let (value, span) = match self.ident(label) {
            Ok(found) => found,
            Err(d) => return Err(d),
        };
        match boolean_word(value.as_str()) {
            Some(w) => Ok(str_eq(w, "true")),
            None => {
                let mut m = label.to_owned();
                m.append("需要 true/false（中文 `真`/`假`），实际为 `");
                m.append(value.as_str());
                m.append("`");
                Err(Diagnostic { message: m, span })
            },
        }
    }

    /// A boolean command argument; the word is consumed either way.
    pub fn command_boolean(&mut self) -> (r: Result<bool, Diagnostic>)
        requires
            old(self).wf(),
        ensures
            final(self).wf(),
            final(self).tokens@ == old(self).tokens@,
            macro_state(&*final(self)) == macro_state(&*old(self)),
            final(self).cursor == advanced(old(self).tokens@, old(self).cursor as int),
            match (r, boolean_spec(old(self).tokens@, old(self).cursor as int, "布尔值 true/false"@, |v: Seq<char>| command_boolean_message(v))) {
                (Ok(b), Ok(s)) => b == s,
                (Err(d), Err(e)) => diag(d) == e,
                _ => false,
            },
    {
        let (value, span) = match self.ident("布尔值 true/false") {
            Ok(found) => found,
            Err(d) => return Err(d),
        };
        match boolean_word(value.as_str()) {
            Some(w) => Ok(str_eq(w, "true")),
            None => {
                let mut m = "`".to_owned();
                m.append(value.as_str());
                m.append("` 不是布尔值，需要 true/真 或 false/假");
                Err(Diagnostic { message: m, span })
            },
        }
    }

    /// The `,` between command arguments.
    pub fn command_comma(&mut self) -> (r: Result<(), Diagnostic>)
        requires
            old(self).wf(),
        ensures
            final(self).wf(),
            final(self).tokens@ == old(self).tokens@,
            macro_state(&*final(self)) == macro_state(&*old(self)),
            match r {
                Ok(()) => kind_at(old(self).tokens@, old(self).cursor as int, TokenKind::Comma) && final(self).cursor
                    == old(self).cursor + 1,
                Err(d) => !kind_at(old(self).tokens@, old(self).cursor as int, TokenKind::Comma) && diag(d) == (
                    "命令参数之间需要 `,`"@,
                    old(self).tokens@[old(self).cursor as int].span,
                ),
            },
    {
        match self.expect(TokenKind::Comma, "命令参数之间需要 `,`") {
            Ok(_) => Ok(()),
            Err(d) => Err(d),
        }
    }

    /// Takes an optional `,` between command arguments.
    pub fn command_optional_comma(&mut self) -> (r: bool)
        requires
            old(self).wf(),
        ensures
            final(self).wf(),
            final(self).tokens@ == old(self).tokens@,
            macro_state(&*final(self)) == macro_state(&*old(self)),
            r == kind_at(old(self).tokens@, old(self).cursor as int, TokenKind::Comma),
            final(self).cursor == (if r {
                old(self).cursor + 1
            } else {
                old(self).cursor as int
            }),
    {
        self.take(&TokenKind::Comma).is_some()
    }

    /// The keyword `word` when a `(` follows it: a condition call, not an
    /// expression.
    pub fn take_word_call(&mut self, word: &str) -> (r: Option<Token>)
        requires
            old(self).wf(),
        ensures
            final(self).wf(),
            final(self).tokens@ == old(self).tokens@,
            macro_state(&*final(self)) == macro_state(&*old(self)),
            if word_at(old(self).tokens@, old(self).cursor as int, word@) && old(self).cursor + 1 < old(
                self,
            ).tokens@.len() && old(self).tokens@[old(self).cursor + 1].kind is LeftParen {
                r == Some(old(self).tokens@[old(self).cursor as int]) && final(self).cursor == old(self).cursor + 1
            } else {
                r is None && final(self).cursor == old(self).cursor
            },
    {
        if self.check_word(word) {
            let next = self.peek_kind(1);
            if let TokenKind::LeftParen = next.kind {
                return Some(self.advance());
            }
        }
        None
    }

    /// `(n);`: an unsigned property value in parentheses, ending its
    /// statement.
    pub fn unsigned_call(&mut self, name: &str) -> (r: Result<u32, Diagnostic>)
        requires
            old(self).wf(),
        ensures
            final(self).wf(),
            final(self).tokens@ == old(self).tokens@,
            macro_state(&*final(self)) == macro_state(&*old(self)),
            ({
                let t = old(self).tokens@;
                let c = old(self).cursor as int;
                match r {
                    Ok(v) => kind_at(t, c, TokenKind::LeftParen) && unsigned_spec(t, c + 1, name@) is Ok
                        && v == unsigned_spec(t, c + 1, name@)->Ok_0.0 && kind_at(t, c + 2, TokenKind::RightParen) && kind_at(
                        t,
                        c + 3,
                        TokenKind::Semicolon,
                    ) && final(self).cursor == c + 4,
                    Err(d) => if !kind_at(t, c, TokenKind::LeftParen) {
                        diag(d) == (name@ + " 后需要 `(`"@, t[c].span)
                    } else if unsigned_spec(t, c + 1, name@) is Err {
                        Err::<(u32, Span), _>(diag(d)) == unsigned_spec(t, c + 1, name@)
                    } else if !kind_at(t, c + 2, TokenKind::RightParen) {
                        diag(d) == (name@ + " 后需要 `)`"@, t[c + 2].span)
                    } else {
                        !kind_at(t, c + 3, TokenKind::Semicolon) && diag(d) == ("查询属性后需要 `;`"@, t[c + 3].span)
                    },
                }
            }),
    {
        let mut open = name.to_owned();
        open.append(" 后需要 `(`");
        match self.expect(TokenKind::LeftParen, open.as_str()) {
            Ok(_) => {},
            Err(d) => return Err(d),
        }
        let value = match self.unsigned(name) {
            Ok(v) => v,
            Err(d) => return Err(d),
        };
        let mut close = name.to_owned();
        close.append(" 后需要 `)`");
        match self.expect(TokenKind::RightParen, close.as_str()) {
            Ok(_) => {},
            Err(d) => return Err(d),
        }
        match self.expect(TokenKind::Semicolon, "查询属性后需要 `;`") {
            Ok(_) => Ok(value),
            Err(d) => Err(d),
        }
    }

    /// Whether the current `(` opens a condition group rather than an
    /// arithmetic operand: the group's `)` is not followed by an operator.
    pub fn condition_group_starts(&self) -> (r: bool)
        requires
            self.wf(),
        ensures
            r == (kind_at(self.tokens@, self.cursor as int, TokenKind::LeftParen) && group_scan(
                self.tokens@,
                self.cursor as int,
                0,
            )),
    {
        if !self.check(&TokenKind::LeftParen) {
            return false;
        }
        let mut depth: usize = 0;
        let mut index = self.cursor;
        let n = self.tokens.len();
        while index < n
            invariant
                self.wf(),
                n == self.tokens@.len(),
                self.cursor <= index <= n,
                depth <= index - self.cursor,
                index > self.cursor ==> depth >= 1,
                index == self.cursor ==> depth == 0,
                kind_at(self.tokens@, self.cursor as int, TokenKind::LeftParen),
                group_scan(self.tokens@, self.cursor as int, 0) == group_scan(self.tokens@, index as int, depth as int),
            decreases n - index,
        {
            match &self.tokens[index].kind {
                TokenKind::LeftParen => {
                    depth += 1;
                },
                TokenKind::RightParen => {
                    if depth == 1 {
                        if index + 1 >= n {
                            return true;
                        }
                        return !continues(&self.tokens[index + 1].kind);
                    }
                    depth -= 1;
                },
                TokenKind::Eof => {
                    return true;
                },
                _ => {},
            }
            index += 1;
        }
        true
    }

    /// An optional `, count` after a command argument.
    pub fn optional_count(&mut self, name: &str) -> (r: Result<(Option<u32>, Option<Span>), Diagnostic>)
        requires
            old(self).wf(),
        ensures
            final(self).wf(),
            final(self).tokens@ == old(self).tokens@,
            macro_state(&*final(self)) == macro_state(&*old(self)),
            ({
                let t = old(self).tokens@;
                let c = old(self).cursor as int;
                if !kind_at(t, c, TokenKind::Comma) {
                    r == Ok::<(Option<u32>, Option<Span>), Diagnostic>((None, None)) && final(self).cursor == c
                } else {
                    final(self).cursor == advanced(t, c + 1) && match (r, unsigned_spec(t, c + 1, name@)) {
                        (Ok((Some(v), Some(span))), Ok((w, s))) => v == w && span == s,
                        (Err(d), Err(e)) => diag(d) == e,
                        _ => false,
                    }
                }
            }),
    {
        if self.take(&TokenKind::Comma).is_none() {
            return Ok((None, None));
        }
        match self.unsigned_with_span(name) {
            Ok((count, span)) => Ok((Some(count), Some(span))),
            Err(d) => Err(d),
        }
    }

    /// A raw command string for `label`, checked as `run` checks it; the
    /// string is consumed either way.
    pub fn command_string(&mut self, label: &str) -> (r: Result<(String, Span), Diagnostic>)
        requires
            old(self).wf(),
        ensures
            final(self).wf(),
            final(self).tokens@ == old(self).tokens@,
            macro_state(&*final(self)) == macro_state(&*old(self)),
            final(self).cursor == advanced(old(self).tokens@, old(self).cursor as int),
            match (r, command_string_spec(old(self).tokens@, old(self).cursor as int, label@)) {
                (Ok((v, span)), Ok((w, s))) => v@ == w && span == s,
                (Err(d), Err(e)) => diag(d) == e,
                _ => false,
            },
    {
        let mut expected = label.to_owned();
        expected.append(" 后需要命令字符串");
        let (command, span) = match self.string(expected.as_str()) {
            Ok(found) => found,
            Err(d) => return Err(d),
        };
        let text = chars_of(command.as_str());
        let mut blank = true;
        let mut lines = false;
        let mut i: usize = 0;
        while i < text.len()
            invariant
                i <= text@.len(),
                text@ == command@,
                blank == (forall|j: int| 0 <= j < i ==> is_whitespace_spec(#[trigger] text@[j])),
                lines == (exists|j: int| 0 <= j < i && (text@[j] == '\n' || text@[j] == '\r')),
            decreases text.len() - i,
        {
            if !is_whitespace(text[i]) {
                blank = false;
            }
            if text[i] == '\n' || text[i] == '\r' {
                lines = true;
            }
            i += 1;
        }
        if blank {
            let mut m = label.to_owned();
            m.append(" 命令不能为空");
            return Err(Diagnostic { message: m, span });
        }
        if text[0] == '/' {
            return Err(Diagnostic { message: "Minecraft 函数中的命令不能以 `/` 开头".to_owned(), span });
        }
        proof {
            assert(lines == (command@.contains('\n') || command@.contains('\r')));
        }
        if lines {
            let mut m = "一条 ".to_owned();
            m.append(label);
            m.append(" 语句只能包含一行命令");
            return Err(Diagnostic { message: m, span });
        }
        Ok((command, span))
    }

    /// A holder: `self`, `origin`, or an entity query name; one token is
    /// consumed either way.
    pub fn holder(&mut self, label: &str) -> (r: Result<Holder, Diagnostic>)
        requires
            old(self).wf(),
        ensures
            final(self).wf(),
            final(self).tokens@ == old(self).tokens@,
            macro_state(&*final(self)) == macro_state(&*old(self)),
            final(self).cursor == advanced(old(self).tokens@, old(self).cursor as int),
            match (r, holder_spec(old(self).tokens@, old(self).cursor as int, label@)) {
                (Ok(h), Ok(s)) => holder_view(h) == s,
                (Err(d), Err(e)) => diag(d) == e,
                _ => false,
            },
    {
        if self.take_word("self").is_some() {
            return Ok(Holder::SelfEntity);
        }
        if self.take_word("origin").is_some() {
            return Ok(Holder::Origin);
        }
        let mut expected = label.to_owned();
        expected.append(" self/自身、origin/投掷者 或实体查询名称");
        match self.ident(expected.as_str()) {
            Ok((name, span)) => Ok(Holder::Query(name, span)),
            Err(d) => Err(d),
        }
    }

    /// A holder of a score.
    pub fn score_holder(&mut self) -> (r: Result<Holder, Diagnostic>)
        requires
            old(self).wf(),
        ensures
            final(self).wf(),
            final(self).tokens@ == old(self).tokens@,
            macro_state(&*final(self)) == macro_state(&*old(self)),
            final(self).cursor == advanced(old(self).tokens@, old(self).cursor as int),
            match (r, holder_spec(old(self).tokens@, old(self).cursor as int, "计分持有者"@)) {
                (Ok(h), Ok(s)) => holder_view(h) == s,
                (Err(d), Err(e)) => diag(d) == e,
                _ => false,
            },
    {
        self.holder("计分持有者")
    }

    /// `holder, objective` of a score, the closing `)` left to the caller.
    pub fn score_target_body(&mut self, label: &str) -> (r: Result<ScoreTarget, Diagnostic>)
        requires
            old(self).wf(),
        ensures
            final(self).wf(),
            final(self).tokens@ == old(self).tokens@,
            macro_state(&*final(self)) == macro_state(&*old(self)),
            match (r, score_target_body_spec(old(self).tokens@, old(self).cursor as int)) {
                (Ok(st), Ok((h, objective, span, after))) => holder_view(st.holder) == h && st.objective@ == objective
                    && st.objective_span == span && final(self).cursor == after,
                (Err(d), Err(e)) => diag(d) == e,
                _ => false,
            },
    {
        let holder = match self.score_holder() {
            Ok(h) => h,
            Err(d) => return Err(d),
        };
        match self.expect(TokenKind::Comma, "计分持有者后需要 `,`") {
            Ok(_) => {},
            Err(d) => return Err(d),
        }
        let (objective, objective_span) = match self.ident("计分板目标名称") {
            Ok(found) => found,
            Err(d) => return Err(d),
        };
        Ok(ScoreTarget { holder, objective, objective_span })
    }

    /// `(holder, objective` of a score after `label`, the closing `)` left
    /// to the caller.
    pub fn score_target(&mut self, label: &str) -> (r: Result<ScoreTarget, Diagnostic>)
        requires
            old(self).wf(),
        ensures
            final(self).wf(),
            final(self).tokens@ == old(self).tokens@,
            macro_state(&*final(self)) == macro_state(&*old(self)),
            ({
                let t = old(self).tokens@;
                let c = old(self).cursor as int;
                if !kind_at(t, c, TokenKind::LeftParen) {
                    r matches Err(d) && diag(d) == (label@ + " 后需要 `(`"@, t[c].span)
                } else {
                    match (r, score_target_body_spec(t, c + 1)) {
                        (Ok(st), Ok((h, objective, span, after))) => holder_view(st.holder) == h && st.objective@
                            == objective && st.objective_span == span && final(self).cursor == after,
                        (Err(d), Err(e)) => diag(d) == e,
                        _ => false,
                    }
                }
            }),
    {
        let ghost t = self.tokens@;
        let ghost c = self.cursor as int;
        let mut message = label.to_owned();
        message.append(" 后需要 `(`");
        match self.expect(TokenKind::LeftParen, message.as_str()) {
            Ok(_) => {},
            Err(d) => return Err(d),
        }
        proof {
            super::cursor::lemma_not_last(t, c);
        }
        self.score_target_body(label)
    }
}

} // verus!
