//! Simple top-level declarations: `score 名称 = 初值;`, `data_slot 名称 =
//! item_data("键");` and `resource 类型 名称 = "JSON";`.

use vstd::prelude::*;
use crate::parser::keywords::actions::{data_slot_kind, data_slot_kind_spec};
use crate::parser::keywords::values::{resource_kind, resource_kind_spec};
use crate::parser::keywords::opt_str;
use super::cursor::{macro_state, 
    Parser, Token, TokenKind, Span, Diagnostic, diag, advanced, kind_at, word_at, ident_at, merged,
    expected_word_message, stream_ok, lemma_not_last,
};
use super::numbers::{after_minus, resource_path_spec};

verus! {

broadcast use vstd::string::group_string_axioms;

/// `score name = initial;`
pub struct ScoreDecl {
    pub exported: bool,
    pub name: String,
    pub name_span: Span,
    pub initial: i32,
    pub span: Span,
}

/// Where a data slot reads from.
#[derive(Clone, Copy, PartialEq, Eq, Structural, Debug)]
pub enum DataSlotKind {
    ItemData,
    EntityData,
}

/// `data_slot name = item_data("key");`
pub struct DataSlotDecl {
    pub exported: bool,
    pub name: String,
    pub name_span: Span,
    pub kind: DataSlotKind,
    pub key: String,
    pub key_span: Span,
    pub span: Span,
}

/// `resource kind name = "json";`
pub struct ResourceDecl {
    pub exported: bool,
    pub kind: String,
    pub name: String,
    pub name_span: Span,
    pub json: String,
    pub span: Span,
}

/// A score declaration at `c`: name, its span, the initial value and the
/// declaration's span.
pub open spec fn score_spec(t: Seq<Token>, c: int) -> Result<(Seq<char>, Span, i32, Span), (Seq<char>, Span)> {
    if !word_at(t, c, "score"@) {
        Err((expected_word_message("score"@), t[c].span))
    } else {
        match ident_at(t, c + 1, "计分变量名称"@) {
            Err(e) => Err(e),
            Ok((name, name_span)) => if !kind_at(t, c + 2, TokenKind::Equal) {
                Err(("计分变量需要初始值，例如 `score count = 0;`"@, t[c + 2].span))
            } else {
                let (negative, n) = after_minus(t, c + 3);
                match t[n].kind {
                    TokenKind::Number(v) => {
                        let value = if negative {
                            -v
                        } else {
                            v as int
                        };
                        if !(i32::MIN <= value <= i32::MAX) {
                            Err(("整数超出 32 位范围"@, t[n].span))
                        } else if !kind_at(t, n + 1, TokenKind::Semicolon) {
                            Err(("计分变量声明后需要 `;`"@, t[n + 1].span))
                        } else {
                            Ok((name, name_span, value as i32, merged(t[c].span, t[n + 1].span)))
                        }
                    },
                    _ => Err(("初始值必须是整数常量"@, t[n].span)),
                }
            },
        }
    }
}

/// A data slot declaration at `c`: name, its span, whether it reads item
/// data, the key, its span and the declaration's span.
pub open spec fn data_slot_spec(t: Seq<Token>, c: int) -> Result<
    (Seq<char>, Span, bool, Seq<char>, Span, Span),
    (Seq<char>, Span),
> {
    if !word_at(t, c, "data_slot"@) {
        Err((expected_word_message("data_slot"@), t[c].span))
    } else {
        match ident_at(t, c + 1, "数据槽名称"@) {
            Err(e) => Err(e),
            Ok((name, name_span)) => if !kind_at(t, c + 2, TokenKind::Equal) {
                Err(("数据槽名称后需要 `=`"@, t[c + 2].span))
            } else {
                match ident_at(t, c + 3, "数据槽来源 item_data 或 entity_data"@) {
                    Err(e) => Err(e),
                    Ok((source, source_span)) => match data_slot_kind_spec(source) {
                        None => Err(("数据槽来源只能是 item_data/物品数据 或 entity_data/实体数据"@, source_span)),
                        Some(kind) => if !kind_at(t, c + 4, TokenKind::LeftParen) {
                            Err(("数据槽来源后需要 `(`"@, t[c + 4].span))
                        } else {
                            match t[c + 5].kind {
                                TokenKind::String(key) => if !kind_at(t, c + 6, TokenKind::RightParen) {
                                    Err(("数据槽键后需要 `)`"@, t[c + 6].span))
                                } else if !kind_at(t, c + 7, TokenKind::Semicolon) {
                                    Err(("数据槽声明后需要 `;`"@, t[c + 7].span))
                                } else {
                                    Ok(
                                        (
                                            name,
                                            name_span,
                                            kind == "item_data"@,
                                            key@,
                                            t[c + 5].span,
                                            merged(t[c].span, t[c + 7].span),
                                        ),
                                    )
                                },
                                _ => Err(("数据槽需要键字符串"@, t[c + 5].span)),
                            }
                        },
                    },
                }
            },
        }
    }
}

/// A resource declaration at `c`: the (canonical) kind, the name, its
/// span, the JSON text and the declaration's span.
pub open spec fn resource_spec(t: Seq<Token>, c: int) -> Result<
    (Seq<char>, Seq<char>, Span, Seq<char>, Span),
    (Seq<char>, Span),
> {
    if !word_at(t, c, "resource"@) {
        Err((expected_word_message("resource"@), t[c].span))
    } else {
        match resource_path_spec(t, c + 1, "资源类型"@) {
            Err(e) => Err(e),
            Ok((kind_text, _)) => {
                let kind = match resource_kind_spec(kind_text) {
                    Some(k) => k,
                    None => kind_text,
                };
                match resource_path_spec(t, c + 2, "资源名称"@) {
                    Err(e) => Err(e),
                    Ok((name, name_span)) => if !kind_at(t, c + 3, TokenKind::Equal) {
                        Err(("资源名称后需要 `=`"@, t[c + 3].span))
                    } else {
                        match t[c + 4].kind {
                            TokenKind::String(json) => if !kind_at(t, c + 5, TokenKind::Semicolon) {
                                Err(("资源声明后需要 `;`"@, t[c + 5].span))
                            } else {
                                Ok((kind, name, name_span, json@, merged(t[c].span, t[c + 5].span)))
                            },
                            _ => Err(("资源内容需要 JSON 字符串"@, t[c + 4].span)),
                        }
                    },
                }
            },
        }
    }
}

impl Parser {
    /// A score declaration.
    pub fn score(&mut self) -> (r: Result<ScoreDecl, Diagnostic>)
        requires
            old(self).wf(),
        ensures
            final(self).wf(),
            final(self).tokens@ == old(self).tokens@,
            macro_state(&*final(self)) == macro_state(&*old(self)),
            match (r, score_spec(old(self).tokens@, old(self).cursor as int)) {
                (Ok(d), Ok(s)) => !d.exported && (d.name@, d.name_span, d.initial, d.span) == s && final(self).cursor
                    == after_minus(old(self).tokens@, old(self).cursor + 3).1 + 2,
                (Err(d), Err(e)) => diag(d) == e,
                _ => false,
            },
    {
        let ghost t = self.tokens@;
        let ghost c = self.cursor as int;
        let start = match self.expect_word("score") {
            Ok(token) => token.span,
            Err(d) => return Err(d),
        };
        proof {
            lemma_not_last(t, c);
        }
        let (name, name_span) = match self.ident("计分变量名称") {
            Ok(found) => found,
            Err(d) => return Err(d),
        };
        proof {
            lemma_not_last(t, c + 1);
        }
        match self.expect(TokenKind::Equal, "计分变量需要初始值，例如 `score count = 0;`") {
            Ok(_) => {},
            Err(d) => return Err(d),
        }
        proof {
            lemma_not_last(t, c + 2);
        }
        let negative = self.take(&TokenKind::Minus).is_some();
        let ghost n = self.cursor as int;
        assert(after_minus(t, c + 3) == (negative, n));
        let token = self.advance();
        let number = match token.kind {
            TokenKind::Number(number) => number,
            _ => return Err(Diagnostic { message: "初始值必须是整数常量".to_owned(), span: token.span }),
        };
        proof {
            lemma_not_last(t, n);
        }
        if negative && number == i64::MIN {
            return Err(Diagnostic { message: "整数超出 32 位范围".to_owned(), span: token.span });
        }
        let signed = if negative {
            -number
        } else {
            number
        };
        if signed < i32::MIN as i64 || signed > i32::MAX as i64 {
            return Err(Diagnostic { message: "整数超出 32 位范围".to_owned(), span: token.span });
        }
        let end = match self.expect(TokenKind::Semicolon, "计分变量声明后需要 `;`") {
            Ok(token) => token.span,
            Err(d) => return Err(d),
        };
        Ok(ScoreDecl { exported: false, name, name_span, initial: signed as i32, span: start.merge(end) })
    }

    /// A data slot declaration.
    pub fn data_slot(&mut self) -> (r: Result<DataSlotDecl, Diagnostic>)
        requires
            old(self).wf(),
        ensures
            final(self).wf(),
            final(self).tokens@ == old(self).tokens@,
            macro_state(&*final(self)) == macro_state(&*old(self)),
            match (r, data_slot_spec(old(self).tokens@, old(self).cursor as int)) {
                (Ok(d), Ok(s)) => !d.exported && (
                    d.name@,
                    d.name_span,
                    d.kind == DataSlotKind::ItemData,
                    d.key@,
                    d.key_span,
                    d.span,
                ) == s && final(self).cursor == old(self).cursor + 8,
                (Err(d), Err(e)) => diag(d) == e,
                _ => false,
            },
    {
        let ghost t = self.tokens@;
        let ghost c = self.cursor as int;
        let start = match self.expect_word("data_slot") {
            Ok(token) => token.span,
            Err(d) => return Err(d),
        };
        proof {
            lemma_not_last(t, c);
        }
        let (name, name_span) = match self.ident("数据槽名称") {
            Ok(found) => found,
            Err(d) => return Err(d),
        };
        proof {
            lemma_not_last(t, c + 1);
        }
        match self.expect(TokenKind::Equal, "数据槽名称后需要 `=`") {
            Ok(_) => {},
            Err(d) => return Err(d),
        }
        proof {
            lemma_not_last(t, c + 2);
        }
        let (source, source_span) = match self.ident("数据槽来源 item_data 或 entity_data") {
            Ok(found) => found,
            Err(d) => return Err(d),
        };
        proof {
            lemma_not_last(t, c + 3);
        }
        let kind = match data_slot_kind(source.as_str()) {
            Some(kind) => kind,
            None => {
                return Err(
                    Diagnostic {
                        message: "数据槽来源只能是 item_data/物品数据 或 entity_data/实体数据".to_owned(),
                        span: source_span,
                    },
                )
            },
        };
        match self.expect(TokenKind::LeftParen, "数据槽来源后需要 `(`") {
            Ok(_) => {},
            Err(d) => return Err(d),
        }
        proof {
            lemma_not_last(t, c + 4);
        }
        let (key, key_span) = match self.string("数据槽需要键字符串") {
            Ok(found) => found,
            Err(d) => return Err(d),
        };
        proof {
            lemma_not_last(t, c + 5);
        }
        match self.expect(TokenKind::RightParen, "数据槽键后需要 `)`") {
            Ok(_) => {},
            Err(d) => return Err(d),
        }
        proof {
            lemma_not_last(t, c + 6);
        }
        let end = match self.expect(TokenKind::Semicolon, "数据槽声明后需要 `;`") {
            Ok(token) => token.span,
            Err(d) => return Err(d),
        };
        let item = crate::chars::str_eq(kind, "item_data");
        Ok(
            DataSlotDecl {
                exported: false,
                name,
                name_span,
                kind: if item {
                    DataSlotKind::ItemData
                } else {
                    DataSlotKind::EntityData
                },
                key,
                key_span,
                span: start.merge(end),
            },
        )
    }

    /// A resource declaration; the kind is kept canonical (English) when
    /// it is a known one.
    pub fn resource(&mut self) -> (r: Result<ResourceDecl, Diagnostic>)
        requires
            old(self).wf(),
        ensures
            final(self).wf(),
            final(self).tokens@ == old(self).tokens@,
            macro_state(&*final(self)) == macro_state(&*old(self)),
            match (r, resource_spec(old(self).tokens@, old(self).cursor as int)) {
                (Ok(d), Ok(s)) => !d.exported && (d.kind@, d.name@, d.name_span, d.json@, d.span) == s && final(self).cursor
                    == old(self).cursor + 6,
                (Err(d), Err(e)) => diag(d) == e,
                _ => false,
            },
    {
        let ghost t = self.tokens@;
        let ghost c = self.cursor as int;
        let start = match self.expect_word("resource") {
            Ok(token) => token.span,
            Err(d) => return Err(d),
        };
        proof {
            lemma_not_last(t, c);
        }
        let (kind_text, _) = match self.resource_path("资源类型") {
            Ok(found) => found,
            Err(d) => return Err(d),
        };
        proof {
            lemma_not_last(t, c + 1);
        }
        let kind = match resource_kind(kind_text.as_str()) {
            Some(k) => k.to_owned(),
            None => kind_text,
        };
        let (name, name_span) = match self.resource_path("资源名称") {
            Ok(found) => found,
            Err(d) => return Err(d),
        };
        proof {
            lemma_not_last(t, c + 2);
        }
        match self.expect(TokenKind::Equal, "资源名称后需要 `=`") {
            Ok(_) => {},
            Err(d) => return Err(d),
        }
        proof {
            lemma_not_last(t, c + 3);
        }
        let (json, _) = match self.string("资源内容需要 JSON 字符串") {
            Ok(found) => found,
            Err(d) => return Err(d),
        };
        proof {
            lemma_not_last(t, c + 4);
        }
        let end = match self.expect(TokenKind::Semicolon, "资源声明后需要 `;`") {
            Ok(token) => token.span,
            Err(d) => return Err(d),
        };
        Ok(ResourceDecl { exported: false, kind, name, name_span, json, span: start.merge(end) })
    }
}

} // verus!
