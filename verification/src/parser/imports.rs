//! `import` declarations: `import 数学::几何;` imports a module's public
//! declarations, `import 数学::{加法, 减法 as 减};` named ones.

use vstd::prelude::*;
use super::cursor::{macro_state, 
    Parser, Token, TokenKind, Span, Diagnostic, diag, advanced, kind_at, word_at, ident_at, merged,
    expected_word_message, stream_ok, lemma_not_last,
};

verus! {

broadcast use vstd::string::group_string_axioms;

/// One imported name, with an optional local alias.
pub struct ImportItem {
    pub name: String,
    pub name_span: Span,
    pub alias: Option<String>,
}

/// An import: the module path (relative to the project root), its span, and
/// the imported names; `None` imports every public declaration.
pub struct ImportDecl {
    pub path: Vec<String>,
    pub path_span: Span,
    pub items: Option<Vec<ImportItem>>,
}

pub open spec fn opt_view(o: Option<String>) -> Option<Seq<char>> {
    match o {
        Some(s) => Some(s@),
        None => None,
    }
}

pub open spec fn item_view(i: ImportItem) -> (Seq<char>, Span, Option<Seq<char>>) {
    (i.name@, i.name_span, opt_view(i.alias))
}

pub open spec fn items_view(v: Seq<ImportItem>) -> Seq<(Seq<char>, Span, Option<Seq<char>>)> {
    v.map_values(|i: ImportItem| item_view(i))
}

pub open spec fn decl_view(d: ImportDecl) -> (
    Seq<Seq<char>>,
    Span,
    Option<Seq<(Seq<char>, Span, Option<Seq<char>>)>>,
) {
    (
        d.path@.map_values(|s: String| s@),
        d.path_span,
        match d.items {
            Some(v) => Some(items_view(v@)),
            None => None,
        },
    )
}

/// The optional `as alias` after an imported name at `c`: the alias and
/// the position after it.
pub open spec fn alias_spec(t: Seq<Token>, c: int) -> Result<(Option<Seq<char>>, int), (Seq<char>, Span)> {
    if word_at(t, c, "as"@) {
        match ident_at(t, c + 1, "导入别名"@) {
            Ok((v, _)) => Ok((Some(v), advanced(t, c + 1))),
            Err(e) => Err(e),
        }
    } else {
        Ok((None, c))
    }
}

/// The names of an import list from `c` on, after the names `acc`, up to
/// and including the closing `}`: the list and the position after it.
pub open spec fn items_spec(
    t: Seq<Token>,
    c: int,
    acc: Seq<(Seq<char>, Span, Option<Seq<char>>)>,
) -> Result<(Seq<(Seq<char>, Span, Option<Seq<char>>)>, int), (Seq<char>, Span)>
    decreases t.len() - c,
{
    if !stream_ok(t, c) {
        Err((seq![], Span { start: 0, end: 0 }))
    } else {
        match t[c].kind {
            TokenKind::Ident(name) => match alias_spec(t, c + 1) {
                Err(e) => Err(e),
                Ok((alias, c3)) => {
                    let acc2 = acc.push((name@, t[c].span, alias));
                    if c3 <= c || c3 >= t.len() {
                        Err((seq![], Span { start: 0, end: 0 }))
                    } else if kind_at(t, c3, TokenKind::Comma) {
                        items_spec(t, advanced(t, c3), acc2)
                    } else if kind_at(t, c3, TokenKind::RightBrace) {
                        Ok((acc2, advanced(t, c3)))
                    } else {
                        Err(("导入列表缺少 `}`"@, t[c3].span))
                    }
                },
            },
            _ => Err(("这里需要"@ + "导入的名称"@, t[c].span)),
        }
    }
}

/// The `;` that ends an import at `c`: the declaration and the position
/// after the `;`.
pub open spec fn import_end(
    t: Seq<Token>,
    c: int,
    path: Seq<Seq<char>>,
    span: Span,
    items: Option<Seq<(Seq<char>, Span, Option<Seq<char>>)>>,
) -> Result<((Seq<Seq<char>>, Span, Option<Seq<(Seq<char>, Span, Option<Seq<char>>)>>), int), (Seq<char>, Span)> {
    if kind_at(t, c, TokenKind::Semicolon) {
        Ok(((path, span, items), c + 1))
    } else {
        Err(("import 声明后需要 `;`"@, t[c].span))
    }
}

/// The rest of a module path from `c` on (`::segment`, or `::{` and a name
/// list), after the segments `path` spanning `span`.
pub open spec fn path_spec(t: Seq<Token>, c: int, path: Seq<Seq<char>>, span: Span) -> Result<
    ((Seq<Seq<char>>, Span, Option<Seq<(Seq<char>, Span, Option<Seq<char>>)>>), int),
    (Seq<char>, Span),
>
    decreases t.len() - c,
{
    if !stream_ok(t, c) {
        Err((seq![], Span { start: 0, end: 0 }))
    } else if kind_at(t, c, TokenKind::ColonColon) && c + 1 < t.len() {
        if kind_at(t, c + 1, TokenKind::LeftBrace) {
            match items_spec(t, c + 2, seq![]) {
                Err(e) => Err(e),
                Ok((items, after)) => if 0 <= after < t.len() {
                    import_end(t, after, path, span, Some(items))
                } else {
                    Err((seq![], Span { start: 0, end: 0 }))
                },
            }
        } else {
            match ident_at(t, c + 1, "模块路径分段"@) {
                Err(e) => Err(e),
                Ok((segment, s)) => path_spec(t, c + 2, path.push(segment), merged(span, s)),
            }
        }
    } else {
        import_end(t, c, path, span, None)
    }
}

/// An import declaration at `c`, and the position after its `;`.
pub open spec fn import_spec(t: Seq<Token>, c: int) -> Result<
    ((Seq<Seq<char>>, Span, Option<Seq<(Seq<char>, Span, Option<Seq<char>>)>>), int),
    (Seq<char>, Span),
> {
    if !word_at(t, c, "import"@) {
        Err((expected_word_message("import"@), t[c].span))
    } else {
        match ident_at(t, c + 1, "模块名称"@) {
            Err(e) => Err(e),
            Ok((first, s)) => path_spec(t, c + 2, seq![first], s),
        }
    }
}

impl Parser {
    /// The rest of an import list, after the names in `items`.
    fn import_items_from(&mut self, items: Vec<ImportItem>) -> (r: Result<Vec<ImportItem>, Diagnostic>)
        requires
            old(self).wf(),
        ensures
            final(self).wf(),
            final(self).tokens@ == old(self).tokens@,
            macro_state(&*final(self)) == macro_state(&*old(self)),
            match (r, items_spec(old(self).tokens@, old(self).cursor as int, items_view(items@))) {
                (Ok(v), Ok((s, after))) => items_view(v@) == s && final(self).cursor == after,
                (Err(d), Err(e)) => diag(d) == e,
                _ => false,
            },
        decreases old(self).tokens@.len() - old(self).cursor,
    {
        let ghost t = self.tokens@;
        let ghost c = self.cursor as int;
        let start = self.cursor;
        let (name, name_span) = match self.ident("导入的名称") {
            Ok(found) => found,
            Err(d) => return Err(d),
        };
        proof {
            lemma_not_last(t, c);
        }
        let mut alias: Option<String> = None;
        if self.check_word("as") {
            self.advance();
            proof {
                lemma_not_last(t, c + 1);
            }
            match self.ident("导入别名") {
                Ok((value, _)) => {
                    alias = Some(value);
                },
                Err(d) => return Err(d),
            }
        }
        let ghost c3 = self.cursor as int;
        let mut items = items;
        let ghost before = items_view(items@);
        items.push(ImportItem { name, name_span, alias });
        proof {
            assert(items_view(items@) =~= before.push((t[c].kind->Ident_0@, t[c].span, opt_view(alias))));
        }
        if self.take(&TokenKind::Comma).is_some() {
            return self.import_items_from(items);
        }
        match self.expect(TokenKind::RightBrace, "导入列表缺少 `}`") {
            Ok(_) => Ok(items),
            Err(d) => Err(d),
        }
    }

    /// The names of an import list, after its `{`, through the closing `}`.
    pub fn import_items(&mut self) -> (r: Result<Vec<ImportItem>, Diagnostic>)
        requires
            old(self).wf(),
        ensures
            final(self).wf(),
            final(self).tokens@ == old(self).tokens@,
            macro_state(&*final(self)) == macro_state(&*old(self)),
            match (r, items_spec(old(self).tokens@, old(self).cursor as int, seq![])) {
                (Ok(v), Ok((s, after))) => items_view(v@) == s && final(self).cursor == after,
                (Err(d), Err(e)) => diag(d) == e,
                _ => false,
            },
    {
        let items: Vec<ImportItem> = Vec::new();
        assert(items_view(items@) =~= seq![]);
        self.import_items_from(items)
    }

    /// The rest of a module path, after the segments in `path`.
    fn import_path(&mut self, path: Vec<String>, span: Span) -> (r: Result<ImportDecl, Diagnostic>)
        requires
            old(self).wf(),
        ensures
            final(self).wf(),
            final(self).tokens@ == old(self).tokens@,
            macro_state(&*final(self)) == macro_state(&*old(self)),
            match (r, path_spec(old(self).tokens@, old(self).cursor as int, path@.map_values(|s: String| s@), span)) {
                (Ok(d), Ok((s, end))) => decl_view(d) == s && final(self).cursor == end,
                (Err(d), Err(e)) => diag(d) == e,
                _ => false,
            },
        decreases old(self).tokens@.len() - old(self).cursor,
    {
        let ghost t = self.tokens@;
        let ghost c = self.cursor as int;
        let ghost pv = path@.map_values(|s: String| s@);
        if self.take(&TokenKind::ColonColon).is_some() {
            proof {
                lemma_not_last(t, c);
            }
            if self.take(&TokenKind::LeftBrace).is_some() {
                proof {
                    lemma_not_last(t, c + 1);
                }
                let items = match self.import_items() {
                    Ok(items) => items,
                    Err(d) => return Err(d),
                };
                return match self.expect(TokenKind::Semicolon, "import 声明后需要 `;`") {
                    Ok(_) => Ok(ImportDecl { path, path_span: span, items: Some(items) }),
                    Err(d) => Err(d),
                };
            }
            let (segment, segment_span) = match self.ident("模块路径分段") {
                Ok(found) => found,
                Err(d) => return Err(d),
            };
            proof {
                lemma_not_last(t, c + 1);
            }
            let mut path = path;
            let ghost segment_view = segment@;
            path.push(segment);
            assert(path@.map_values(|s: String| s@) =~= pv.push(segment_view));
            return self.import_path(path, span.merge(segment_span));
        }
        match self.expect(TokenKind::Semicolon, "import 声明后需要 `;`") {
            Ok(_) => Ok(ImportDecl { path, path_span: span, items: None }),
            Err(d) => Err(d),
        }
    }

    /// `import path::to::module;` or `import path::{name, name as alias};`.
    pub fn import(&mut self) -> (r: Result<ImportDecl, Diagnostic>)
        requires
            old(self).wf(),
        ensures
            final(self).wf(),
            final(self).tokens@ == old(self).tokens@,
            macro_state(&*final(self)) == macro_state(&*old(self)),
            match (r, import_spec(old(self).tokens@, old(self).cursor as int)) {
                (Ok(d), Ok((s, end))) => decl_view(d) == s && final(self).cursor == end,
                (Err(d), Err(e)) => diag(d) == e,
                _ => false,
            },
    {
        let ghost t = self.tokens@;
        let ghost c = self.cursor as int;
        match self.expect_word("import") {
            Ok(_) => {},
            Err(d) => return Err(d),
        }
        proof {
            lemma_not_last(t, c);
        }
        let (first, first_span) = match self.ident("模块名称") {
            Ok(found) => found,
            Err(d) => return Err(d),
        };
        proof {
            lemma_not_last(t, c + 1);
        }
        let ghost first_view = first@;
        let path = vec![first];
        assert(path@.map_values(|s: String| s@) =~= seq![first_view]);
        self.import_path(path, first_span)
    }
}

} // verus!
