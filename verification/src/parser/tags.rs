//! Function tags and item-list storages: `fn_tag 名称 { value(函数或#标签);
//! replace = 真; }` and `storage 名称 = item_list("存储", "路径");`.

use vstd::prelude::*;
use crate::chars::str_eq;
use crate::parser::keywords::actions::{boolean_word, boolean_word_spec};
use crate::parser::keywords::values::{function_tag_property, function_tag_property_spec};
use super::cursor::{macro_state, 
    Parser, Token, TokenKind, Span, Diagnostic, diag, advanced, kind_at, word_at, ident_at, merged,
    expected_word_message, stream_ok, lemma_not_last,
};

verus! {

broadcast use vstd::string::group_string_axioms;

/// One entry of a function tag.
pub enum FunctionTagEntry {
    /// A function of this namespace.
    Function(String, Span),
    /// `#tag`: a tag of this namespace.
    Tag(String, Span),
    /// A resource location written as a string (`#` kept for a tag).
    External(String, Span),
}

/// A function tag entry as the contracts speak of it: 0 function, 1 tag,
/// 2 external; the text; the span.
pub open spec fn entry_view(e: FunctionTagEntry) -> (int, Seq<char>, Span) {
    match e {
        FunctionTagEntry::Function(v, s) => (0, v@, s),
        FunctionTagEntry::Tag(v, s) => (1, v@, s),
        FunctionTagEntry::External(v, s) => (2, v@, s),
    }
}

/// `fn_tag name { ... }`
pub struct FunctionTagDecl {
    pub exported: bool,
    pub name: String,
    pub name_span: Span,
    pub values: Vec<FunctionTagEntry>,
    pub replace: bool,
    pub span: Span,
}

/// `storage name = item_list("id", "path");`
pub struct StorageDecl {
    pub exported: bool,
    pub name: String,
    pub name_span: Span,
    pub storage_id: String,
    pub path: String,
    pub span: Span,
}

/// A tag entry at `c` and the position after it.
pub open spec fn entry_spec(t: Seq<Token>, c: int) -> Result<((int, Seq<char>, Span), int), (Seq<char>, Span)> {
    if kind_at(t, c, TokenKind::Hash) {
        match t[c + 1].kind {
            TokenKind::Ident(v) => Ok(((1, v@, merged(t[c].span, t[c + 1].span)), c + 2)),
            TokenKind::String(v) => Ok(((2, seq!['#'] + v@, merged(t[c].span, t[c + 1].span)), c + 2)),
            _ => Err(("`#` 后需要函数标签名称或字符串资源位置"@, t[c + 1].span)),
        }
    } else {
        match t[c].kind {
            TokenKind::Ident(v) => Ok(((0, v@, t[c].span), c + 1)),
            TokenKind::String(v) => Ok(((2, v@, t[c].span), c + 1)),
            _ => Err(("标签条目需要函数名称、`#标签` 或字符串资源位置"@, t[c].span)),
        }
    }
}

/// The body of a function tag from `c` on, after the entries `values` and
/// the replace flag so far: the entries, the flag, and the position of the
/// closing `}`.
pub open spec fn tag_body_spec(
    t: Seq<Token>,
    c: int,
    values: Seq<(int, Seq<char>, Span)>,
    replace: bool,
    replace_seen: bool,
) -> Result<(Seq<(int, Seq<char>, Span)>, bool, int), (Seq<char>, Span)>
    decreases t.len() - c,
{
    if !stream_ok(t, c) {
        Err((seq![], Span { start: 0, end: 0 }))
    } else if kind_at(t, c, TokenKind::RightBrace) {
        Ok((values, replace, c))
    } else if t[c].kind is Eof {
        Err(("函数标签缺少 `}`"@, t[c].span))
    } else {
        match ident_at(t, c, "函数标签属性"@) {
            Err(e) => Err(e),
            Ok((property, property_span)) => match function_tag_property_spec(property) {
                None => Err(("未知函数标签属性 `"@ + property + "`"@, property_span)),
                Some(kind) => if kind == "value"@ {
                    if !kind_at(t, c + 1, TokenKind::LeftParen) {
                        Err(("value 后需要 `(`"@, t[c + 1].span))
                    } else {
                        match entry_spec(t, c + 2) {
                            Err(e) => Err(e),
                            Ok((entry, after)) => if !kind_at(t, after, TokenKind::RightParen) {
                                Err(("标签条目后需要 `)`"@, t[after].span))
                            } else if !kind_at(t, after + 1, TokenKind::Semicolon) {
                                Err(("标签条目后需要 `;`"@, t[after + 1].span))
                            } else {
                                tag_body_spec(t, after + 2, values.push(entry), replace, replace_seen)
                            },
                        }
                    }
                } else if replace_seen {
                    Err(("函数标签只能声明一次 replace"@, property_span))
                } else if !kind_at(t, c + 1, TokenKind::Equal) {
                    Err(("replace 后需要 `=`"@, t[c + 1].span))
                } else {
                    match ident_at(t, c + 2, "true 或 false"@) {
                        Err(e) => Err(e),
                        Ok((v, value_span)) => match boolean_word_spec(v) {
                            None => Err(("这里需要 true 或 false"@, value_span)),
                            Some(w) => if !kind_at(t, c + 3, TokenKind::Semicolon) {
                                Err(("replace 后需要 `;`"@, t[c + 3].span))
                            } else {
                                tag_body_spec(t, c + 4, values, w == "true"@, true)
                            },
                        },
                    }
                },
            },
        }
    }
}

/// A function tag declaration at `c`: name, its span, the entries, the
/// replace flag, and the span up to the closing `}`.
pub open spec fn function_tag_spec(t: Seq<Token>, c: int) -> Result<
    (Seq<char>, Span, Seq<(int, Seq<char>, Span)>, bool, Span),
    (Seq<char>, Span),
> {
    if !word_at(t, c, "fn_tag"@) {
        Err((expected_word_message("fn_tag"@), t[c].span))
    } else {
        match ident_at(t, c + 1, "函数标签名称"@) {
            Err(e) => Err(e),
            Ok((name, name_span)) => if !kind_at(t, c + 2, TokenKind::LeftBrace) {
                Err(("函数标签需要 `{`"@, t[c + 2].span))
            } else {
                match tag_body_spec(t, c + 3, seq![], false, false) {
                    Err(e) => Err(e),
                    Ok((values, replace, end)) => Ok((name, name_span, values, replace, merged(t[c].span, t[end].span))),
                }
            },
        }
    }
}

/// A storage declaration at `c`: name, its span, storage id, path and the
/// declaration's span.
pub open spec fn storage_spec(t: Seq<Token>, c: int) -> Result<
    (Seq<char>, Span, Seq<char>, Seq<char>, Span),
    (Seq<char>, Span),
> {
    if !word_at(t, c, "storage"@) {
        Err((expected_word_message("storage"@), t[c].span))
    } else {
        match ident_at(t, c + 1, "存储名称"@) {
            Err(e) => Err(e),
            Ok((name, name_span)) => if !kind_at(t, c + 2, TokenKind::Equal) {
                Err(("存储名称后需要 `=`"@, t[c + 2].span))
            } else if !word_at(t, c + 3, "item_list"@) {
                Err((expected_word_message("item_list"@), t[c + 3].span))
            } else if !kind_at(t, c + 4, TokenKind::LeftParen) {
                Err(("item_list 后需要 `(`"@, t[c + 4].span))
            } else {
                match t[c + 5].kind {
                    TokenKind::String(id) => if !kind_at(t, c + 6, TokenKind::Comma) {
                        Err(("存储资源位置后需要 `,`"@, t[c + 6].span))
                    } else {
                        match t[c + 7].kind {
                            TokenKind::String(path) => if !kind_at(t, c + 8, TokenKind::RightParen) {
                                Err(("存储声明缺少 `)`"@, t[c + 8].span))
                            } else if !kind_at(t, c + 9, TokenKind::Semicolon) {
                                Err(("存储声明后需要 `;`"@, t[c + 9].span))
                            } else {
                                Ok((name, name_span, id@, path@, merged(t[c].span, t[c + 9].span)))
                            },
                            _ => Err(("item_list 需要 NBT 路径"@, t[c + 7].span)),
                        }
                    },
                    _ => Err(("item_list 需要存储资源位置"@, t[c + 5].span)),
                }
            },
        }
    }
}

/// A function tag body that parses ends at a `}`.
proof fn lemma_tag_body_end(
    t: Seq<Token>,
    c: int,
    values: Seq<(int, Seq<char>, Span)>,
    replace: bool,
    replace_seen: bool,
)
    requires
        tag_body_spec(t, c, values, replace, replace_seen) is Ok,
    ensures
        stream_ok(t, tag_body_spec(t, c, values, replace, replace_seen)->Ok_0.2),
        kind_at(t, tag_body_spec(t, c, values, replace, replace_seen)->Ok_0.2, TokenKind::RightBrace),
    decreases t.len() - c,
{
    if stream_ok(t, c) && !kind_at(t, c, TokenKind::RightBrace) && !(t[c].kind is Eof) {
        if let Ok((property, property_span)) = ident_at(t, c, "函数标签属性"@) {
            if let Some(kind) = function_tag_property_spec(property) {
                if kind == "value"@ {
                    if let Ok((entry, after)) = entry_spec(t, c + 2) {
                        lemma_tag_body_end(t, after + 2, values.push(entry), replace, replace_seen);
                    }
                } else if let Ok((v, _)) = ident_at(t, c + 2, "true 或 false"@) {
                    if let Some(w) = boolean_word_spec(v) {
                        lemma_tag_body_end(t, c + 4, values, w == "true"@, true);
                    }
                }
            }
        }
    }
}

/// Where parsing continues after a function tag at `c`: past its `}` and an
/// optional `;`.
pub open spec fn tag_after(t: Seq<Token>, c: int) -> int {
    match tag_body_spec(t, c + 3, seq![], false, false) {
        Ok((_, _, end)) => if kind_at(t, end + 1, TokenKind::Semicolon) {
            end + 2
        } else {
            end + 1
        },
        Err(_) => c,
    }
}

pub open spec fn entries_view(v: Seq<FunctionTagEntry>) -> Seq<(int, Seq<char>, Span)> {
    v.map_values(|e: FunctionTagEntry| entry_view(e))
}

impl Parser {
    /// One function tag entry: a function, `#tag`, or a string resource
    /// location.
    pub fn function_tag_entry(&mut self) -> (r: Result<FunctionTagEntry, Diagnostic>)
        requires
            old(self).wf(),
        ensures
            final(self).wf(),
            final(self).tokens@ == old(self).tokens@,
            macro_state(&*final(self)) == macro_state(&*old(self)),
            match (r, entry_spec(old(self).tokens@, old(self).cursor as int)) {
                (Ok(e), Ok((s, after))) => entry_view(e) == s && final(self).cursor == after,
                (Err(d), Err(e)) => diag(d) == e,
                _ => false,
            },
    {
        let ghost t = self.tokens@;
        let ghost c = self.cursor as int;
        if let Some(hash) = self.take(&TokenKind::Hash) {
            proof {
                lemma_not_last(t, c);
            }
            let token = self.advance();
            return match token.kind {
                TokenKind::Ident(value) => {
                    proof {
                        lemma_not_last(t, c + 1);
                    }
                    Ok(FunctionTagEntry::Tag(value, hash.span.merge(token.span)))
                },
                TokenKind::String(value) => {
                    proof {
                        lemma_not_last(t, c + 1);
                    }
                    let mut text = "#".to_owned();
                    text.append(value.as_str());
                    proof {
                        reveal_strlit("#");
                        assert(text@ =~= seq!['#'] + value@);
                    }
                    Ok(FunctionTagEntry::External(text, hash.span.merge(token.span)))
                },
                _ => Err(
                    Diagnostic { message: "`#` 后需要函数标签名称或字符串资源位置".to_owned(), span: token.span },
                ),
            };
        }
        let token = self.advance();
        match token.kind {
            TokenKind::Ident(value) => {
                proof {
                    lemma_not_last(t, c);
                }
                Ok(FunctionTagEntry::Function(value, token.span))
            },
            TokenKind::String(value) => {
                proof {
                    lemma_not_last(t, c);
                }
                Ok(FunctionTagEntry::External(value, token.span))
            },
            _ => Err(
                Diagnostic { message: "标签条目需要函数名称、`#标签` 或字符串资源位置".to_owned(), span: token.span },
            ),
        }
    }

    /// The body of a function tag after `{`, up to its closing `}` (not
    /// consumed).
    fn tag_body(
        &mut self,
        values: Vec<FunctionTagEntry>,
        replace: bool,
        replace_seen: bool,
    ) -> (r: Result<(Vec<FunctionTagEntry>, bool), Diagnostic>)
        requires
            old(self).wf(),
        ensures
            final(self).wf(),
            final(self).tokens@ == old(self).tokens@,
            macro_state(&*final(self)) == macro_state(&*old(self)),
            match (r, tag_body_spec(old(self).tokens@, old(self).cursor as int, entries_view(values@), replace, replace_seen)) {
                (Ok((v, rep)), Ok((s, srep, end))) => entries_view(v@) == s && rep == srep && final(self).cursor == end,
                (Err(d), Err(e)) => diag(d) == e,
                _ => false,
            },
        decreases old(self).tokens@.len() - old(self).cursor,
    {
        let ghost t = self.tokens@;
        let ghost c = self.cursor as int;
        if self.check(&TokenKind::RightBrace) {
            return Ok((values, replace));
        }
        if self.check(&TokenKind::Eof) {
            return Err(Diagnostic { message: "函数标签缺少 `}`".to_owned(), span: self.tokens[self.cursor].span });
        }
        let (property, property_span) = match self.ident("函数标签属性") {
            Ok(found) => found,
            Err(d) => return Err(d),
        };
        proof {
            lemma_not_last(t, c);
        }
        let kind = match function_tag_property(property.as_str()) {
            Some(kind) => kind,
            None => {
                let mut m = "未知函数标签属性 `".to_owned();
                m.append(property.as_str());
                m.append("`");
                return Err(Diagnostic { message: m, span: property_span });
            },
        };
        if str_eq(kind, "value") {
            match self.expect(TokenKind::LeftParen, "value 后需要 `(`") {
                Ok(_) => {},
                Err(d) => return Err(d),
            }
            proof {
                lemma_not_last(t, c + 1);
            }
            let entry = match self.function_tag_entry() {
                Ok(e) => e,
                Err(d) => return Err(d),
            };
            let ghost after = self.cursor as int;
            match self.expect(TokenKind::RightParen, "标签条目后需要 `)`") {
                Ok(_) => {},
                Err(d) => return Err(d),
            }
            proof {
                lemma_not_last(t, after);
            }
            match self.expect(TokenKind::Semicolon, "标签条目后需要 `;`") {
                Ok(_) => {},
                Err(d) => return Err(d),
            }
            proof {
                lemma_not_last(t, after + 1);
            }
            let mut values = values;
            let ghost before = entries_view(values@);
            let ghost ev = entry_view(entry);
            values.push(entry);
            assert(entries_view(values@) =~= before.push(ev));
            return self.tag_body(values, replace, replace_seen);
        }
        if replace_seen {
            return Err(Diagnostic { message: "函数标签只能声明一次 replace".to_owned(), span: property_span });
        }
        match self.expect(TokenKind::Equal, "replace 后需要 `=`") {
            Ok(_) => {},
            Err(d) => return Err(d),
        }
        proof {
            lemma_not_last(t, c + 1);
        }
        let (value, value_span) = match self.ident("true 或 false") {
            Ok(found) => found,
            Err(d) => return Err(d),
        };
        proof {
            lemma_not_last(t, c + 2);
        }
        let flag = match boolean_word(value.as_str()) {
            Some(w) => str_eq(w, "true"),
            None => return Err(Diagnostic { message: "这里需要 true 或 false".to_owned(), span: value_span }),
        };
        match self.expect(TokenKind::Semicolon, "replace 后需要 `;`") {
            Ok(_) => {},
            Err(d) => return Err(d),
        }
        proof {
            lemma_not_last(t, c + 3);
        }
        self.tag_body(values, flag, true)
    }

    /// A function tag declaration; a `;` after its `}` is allowed.
    pub fn function_tag(&mut self) -> (r: Result<FunctionTagDecl, Diagnostic>)
        requires
            old(self).wf(),
        ensures
            final(self).wf(),
            final(self).tokens@ == old(self).tokens@,
            macro_state(&*final(self)) == macro_state(&*old(self)),
            match (r, function_tag_spec(old(self).tokens@, old(self).cursor as int)) {
                (Ok(d), Ok(s)) => !d.exported && (d.name@, d.name_span, entries_view(d.values@), d.replace, d.span) == s
                    && final(self).cursor == tag_after(old(self).tokens@, old(self).cursor as int),
                (Err(d), Err(e)) => diag(d) == e,
                _ => false,
            },
    {
        let ghost t = self.tokens@;
        let ghost c = self.cursor as int;
        let start = match self.expect_word("fn_tag") {
            Ok(token) => token.span,
            Err(d) => return Err(d),
        };
        proof {
            lemma_not_last(t, c);
        }
        let (name, name_span) = match self.ident("函数标签名称") {
            Ok(found) => found,
            Err(d) => return Err(d),
        };
        proof {
            lemma_not_last(t, c + 1);
        }
        match self.expect(TokenKind::LeftBrace, "函数标签需要 `{`") {
            Ok(_) => {},
            Err(d) => return Err(d),
        }
        proof {
            lemma_not_last(t, c + 2);
        }
        let empty: Vec<FunctionTagEntry> = Vec::new();
        assert(entries_view(empty@) =~= seq![]);
        let (values, replace) = match self.tag_body(empty, false, false) {
            Ok(found) => found,
            Err(d) => return Err(d),
        };
        proof {
            lemma_tag_body_end(t, c + 3, seq![], false, false);
            lemma_not_last(t, self.cursor as int);
        }
        let end = self.advance().span;
        self.take(&TokenKind::Semicolon);
        Ok(FunctionTagDecl { exported: false, name, name_span, values, replace, span: start.merge(end) })
    }

    /// A storage declaration.
    pub fn storage(&mut self) -> (r: Result<StorageDecl, Diagnostic>)
        requires
            old(self).wf(),
        ensures
            final(self).wf(),
            final(self).tokens@ == old(self).tokens@,
            macro_state(&*final(self)) == macro_state(&*old(self)),
            match (r, storage_spec(old(self).tokens@, old(self).cursor as int)) {
                (Ok(d), Ok(s)) => !d.exported && (d.name@, d.name_span, d.storage_id@, d.path@, d.span) == s && final(self).cursor
                    == old(self).cursor + 10,
                (Err(d), Err(e)) => diag(d) == e,
                _ => false,
            },
    {
        let ghost t = self.tokens@;
        let ghost c = self.cursor as int;
        let start = match self.expect_word("storage") {
            Ok(token) => token.span,
            Err(d) => return Err(d),
        };
        proof {
            lemma_not_last(t, c);
        }
        let (name, name_span) = match self.ident("存储名称") {
            Ok(found) => found,
            Err(d) => return Err(d),
        };
        proof {
            lemma_not_last(t, c + 1);
        }
        match self.expect(TokenKind::Equal, "存储名称后需要 `=`") {
            Ok(_) => {},
            Err(d) => return Err(d),
        }
        proof {
            lemma_not_last(t, c + 2);
        }
        match self.expect_word("item_list") {
            Ok(_) => {},
            Err(d) => return Err(d),
        }
        proof {
            lemma_not_last(t, c + 3);
        }
        match self.expect(TokenKind::LeftParen, "item_list 后需要 `(`") {
            Ok(_) => {},
            Err(d) => return Err(d),
        }
        proof {
            lemma_not_last(t, c + 4);
        }
        let (storage_id, _) = match self.string("item_list 需要存储资源位置") {
            Ok(found) => found,
            Err(d) => return Err(d),
        };
        proof {
            lemma_not_last(t, c + 5);
        }
        match self.expect(TokenKind::Comma, "存储资源位置后需要 `,`") {
            Ok(_) => {},
            Err(d) => return Err(d),
        }
        proof {
            lemma_not_last(t, c + 6);
        }
        let (path, _) = match self.string("item_list 需要 NBT 路径") {
            Ok(found) => found,
            Err(d) => return Err(d),
        };
        proof {
            lemma_not_last(t, c + 7);
        }
        match self.expect(TokenKind::RightParen, "存储声明缺少 `)`") {
            Ok(_) => {},
            Err(d) => return Err(d),
        }
        proof {
            lemma_not_last(t, c + 8);
        }
        let end = match self.expect(TokenKind::Semicolon, "存储声明后需要 `;`") {
            Ok(token) => token.span,
            Err(d) => return Err(d),
        };
        Ok(StorageDecl { exported: false, name, name_span, storage_id, path, span: start.merge(end) })
    }
}

} // verus!
