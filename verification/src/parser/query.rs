//! Entity query declarations: `query 名称 = entity("minecraft:zombie")
//! { tag("boss"); limit(1); sort(nearest); box(0, 0, 0, 5, 5, 5); … }`,
//! the properties from which a target selector is built.

use vstd::prelude::*;
use crate::chars::str_eq;
use crate::parser::keywords::values::{
    entity_sort, entity_sort_spec, gamemode_value, gamemode_value_spec, query_property, query_property_spec,
};
use super::cursor::{
    macro_state, Parser, Token, TokenKind, Span, Diagnostic, diag, kind_at, word_at, ident_at, merged, stream_ok,
    lemma_not_last, expected_word_message,
};
use super::numbers::unsigned_spec;
use super::expressions::string_at;
use super::positions::signed_number_text_spec;
use super::components::{moved, stuck};

verus! {

broadcast use vstd::string::group_string_axioms;

/// How the entities a query finds are ordered.
#[derive(Clone, Copy, Debug, PartialEq, Eq, Structural)]
pub enum EntitySort {
    Nearest,
    Furthest,
    Random,
    Arbitrary,
}

/// An entity type (or `#tag`) that a query keeps or leaves out, with the
/// span of its string.
pub enum EntityTypeFilter {
    Include(String, Span),
    Exclude(String, Span),
}

/// A `name`, `nbt` or `team` filter, or its `without_` form.
pub struct QueryTextFilter {
    pub value: String,
    pub negated: bool,
    pub span: Span,
}

/// A `scores(objective, range)` filter.
pub struct QueryScoreFilter {
    pub objective: String,
    pub range: String,
    pub span: Span,
}

/// A `box(x, y, z, dx, dy, dz)` filter, each component kept as text.
pub struct QueryBox {
    pub x: String,
    pub y: String,
    pub z: String,
    pub dx: String,
    pub dy: String,
    pub dz: String,
    pub span: Span,
}

/// A `rotate(yaw, pitch)` filter.
pub struct QueryRotation {
    pub yaw: String,
    pub pitch: String,
    pub span: Span,
}

/// An entity query declaration.
pub struct EntityQueryDecl {
    pub exported: bool,
    pub name: String,
    pub name_span: Span,
    pub entity_type: String,
    pub type_filters: Vec<EntityTypeFilter>,
    pub tags: Vec<String>,
    pub excluded_tags: Vec<String>,
    pub limit: Option<u32>,
    pub sort: Option<EntitySort>,
    pub within: Option<u32>,
    pub name_filter: Option<QueryTextFilter>,
    pub scores: Vec<QueryScoreFilter>,
    pub nbt_filter: Option<QueryTextFilter>,
    pub box_filter: Option<QueryBox>,
    pub distance: Option<String>,
    pub level: Option<String>,
    pub gamemode: Option<String>,
    pub team_filter: Option<QueryTextFilter>,
    pub rotation: Option<QueryRotation>,
    pub predicate: Option<String>,
    pub advancements: Option<String>,
    pub span: Span,
}

/// The properties of a query as the contracts speak of them. A type filter
/// is `(kept, type, span)`; a text filter `(value, negated, span)`; a box
/// its six components in order and its span.
pub struct QueryView {
    pub type_filters: Seq<(bool, Seq<char>, Span)>,
    pub tags: Seq<Seq<char>>,
    pub excluded_tags: Seq<Seq<char>>,
    pub limit: Option<u32>,
    pub sort: Option<EntitySort>,
    pub within: Option<u32>,
    pub name_filter: Option<(Seq<char>, bool, Span)>,
    pub scores: Seq<(Seq<char>, Seq<char>, Span)>,
    pub nbt_filter: Option<(Seq<char>, bool, Span)>,
    pub box_filter: Option<(Seq<Seq<char>>, Span)>,
    pub distance: Option<Seq<char>>,
    pub level: Option<Seq<char>>,
    pub gamemode: Option<Seq<char>>,
    pub team_filter: Option<(Seq<char>, bool, Span)>,
    pub rotation: Option<(Seq<char>, Seq<char>, Span)>,
    pub predicate: Option<Seq<char>>,
    pub advancements: Option<Seq<char>>,
}

/// A query with no properties.
pub open spec fn empty_query() -> QueryView {
    QueryView {
        type_filters: seq![],
        tags: seq![],
        excluded_tags: seq![],
        limit: None,
        sort: None,
        within: None,
        name_filter: None,
        scores: seq![],
        nbt_filter: None,
        box_filter: None,
        distance: None,
        level: None,
        gamemode: None,
        team_filter: None,
        rotation: None,
        predicate: None,
        advancements: None,
    }
}

pub open spec fn query_texts(v: Seq<String>) -> Seq<Seq<char>> {
    v.map_values(|s: String| s@)
}

pub open spec fn text_opt(o: Option<String>) -> Option<Seq<char>> {
    match o {
        Some(s) => Some(s@),
        None => None,
    }
}

pub open spec fn type_filter_view(f: EntityTypeFilter) -> (bool, Seq<char>, Span) {
    match f {
        EntityTypeFilter::Include(v, span) => (true, v@, span),
        EntityTypeFilter::Exclude(v, span) => (false, v@, span),
    }
}

pub open spec fn text_filter_view(o: Option<QueryTextFilter>) -> Option<(Seq<char>, bool, Span)> {
    match o {
        Some(f) => Some((f.value@, f.negated, f.span)),
        None => None,
    }
}

pub open spec fn box_view(o: Option<QueryBox>) -> Option<(Seq<Seq<char>>, Span)> {
    match o {
        Some(b) => Some((seq![b.x@, b.y@, b.z@, b.dx@, b.dy@, b.dz@], b.span)),
        None => None,
    }
}

pub open spec fn rotation_view(o: Option<QueryRotation>) -> Option<(Seq<char>, Seq<char>, Span)> {
    match o {
        Some(r) => Some((r.yaw@, r.pitch@, r.span)),
        None => None,
    }
}

/// The properties that `d` holds.
pub open spec fn query_view(d: EntityQueryDecl) -> QueryView {
    QueryView {
        type_filters: d.type_filters@.map_values(|f: EntityTypeFilter| type_filter_view(f)),
        tags: query_texts(d.tags@),
        excluded_tags: query_texts(d.excluded_tags@),
        limit: d.limit,
        sort: d.sort,
        within: d.within,
        name_filter: text_filter_view(d.name_filter),
        scores: d.scores@.map_values(|f: QueryScoreFilter| (f.objective@, f.range@, f.span)),
        nbt_filter: text_filter_view(d.nbt_filter),
        box_filter: box_view(d.box_filter),
        distance: text_opt(d.distance),
        level: text_opt(d.level),
        gamemode: text_opt(d.gamemode),
        team_filter: text_filter_view(d.team_filter),
        rotation: rotation_view(d.rotation),
        predicate: text_opt(d.predicate),
        advancements: text_opt(d.advancements),
    }
}

/// `("…");` after the property word at `c`, with the messages for a
/// missing `(`, a missing string and a missing `)`: the text and its span.
pub open spec fn paren_text(t: Seq<Token>, c: int, open: Seq<char>, needed: Seq<char>, close: Seq<char>) -> Result<
    (Seq<char>, Span),
    (Seq<char>, Span),
> {
    if !kind_at(t, c + 1, TokenKind::LeftParen) {
        Err((open, t[c + 1].span))
    } else {
        match string_at(t, c + 2, needed) {
            Err(e) => Err(e),
            Ok((v, span)) => if !kind_at(t, c + 3, TokenKind::RightParen) {
                Err((close, t[c + 3].span))
            } else if !kind_at(t, c + 4, TokenKind::Semicolon) {
                Err(("查询属性后需要 `;`"@, t[c + 4].span))
            } else {
                Ok((v, span))
            },
        }
    }
}

/// `(n);` after the property word `name` at `c`.
pub open spec fn unsigned_call_spec(t: Seq<Token>, c: int, name: Seq<char>) -> Result<u32, (Seq<char>, Span)> {
    if !kind_at(t, c + 1, TokenKind::LeftParen) {
        Err((name + " 后需要 `(`"@, t[c + 1].span))
    } else {
        match unsigned_spec(t, c + 2, name) {
            Err(e) => Err(e),
            Ok((v, _)) => if !kind_at(t, c + 3, TokenKind::RightParen) {
                Err((name + " 后需要 `)`"@, t[c + 3].span))
            } else if !kind_at(t, c + 4, TokenKind::Semicolon) {
                Err(("查询属性后需要 `;`"@, t[c + 4].span))
            } else {
                Ok(v)
            },
        }
    }
}

/// The name of the box component `i` in its messages.
pub open spec fn box_label(i: int) -> Seq<char> {
    if i == 0 {
        "box x"@
    } else if i == 1 {
        "box y"@
    } else if i == 2 {
        "box z"@
    } else if i == 3 {
        "box dx"@
    } else if i == 4 {
        "box dy"@
    } else {
        "box dz"@
    }
}

/// The box components `i` to the last, the first at `c`, separated by
/// `,`: their texts and the position after the last.
pub open spec fn box_parts(t: Seq<Token>, c: int, i: int) -> Result<(Seq<Seq<char>>, int), (Seq<char>, Span)>
    decreases 5 - i,
{
    match signed_number_text_spec(t, c, box_label(i)) {
        Err(e) => Err(e),
        Ok((x, n)) => if i >= 5 {
            Ok((seq![x], n))
        } else if !kind_at(t, n, TokenKind::Comma) {
            Err(("box 分量之间需要 `,`"@, t[n].span))
        } else {
            match box_parts(t, n + 1, i + 1) {
                Err(e) => Err(e),
                Ok((rest, after)) => Ok((seq![x] + rest, after)),
            }
        },
    }
}

/// The sort order a sort word names.
pub open spec fn sort_value(v: Seq<char>) -> Option<EntitySort> {
    match entity_sort_spec(v) {
        None => None,
        Some(k) => if k == "nearest"@ {
            Some(EntitySort::Nearest)
        } else if k == "furthest"@ {
            Some(EntitySort::Furthest)
        } else if k == "random"@ {
            Some(EntitySort::Random)
        } else if k == "arbitrary"@ {
            Some(EntitySort::Arbitrary)
        } else {
            None
        },
    }
}

/// The box components that parse are six, from `c` on: as many as remain
/// from `i`, ending past `c`.
proof fn lemma_box_parts(t: Seq<Token>, c: int, i: int)
    requires
        0 <= i <= 5,
        box_parts(t, c, i) is Ok,
    ensures
        ({
            let (parts, after) = match box_parts(t, c, i) {
                Ok(found) => found,
                Err(_) => (seq![], 0),
            };
            parts.len() == 6 - i && after > c
        }),
    decreases 5 - i,
{
    if i < 5 {
        if let Ok((_, n)) = signed_number_text_spec(t, c, box_label(i)) {
            lemma_box_parts(t, n + 1, i + 1);
        }
    }
}

/// `tag("…");` or `without_tag("…");` at `c`.
pub open spec fn tag_spec(t: Seq<Token>, c: int, k: Seq<char>, s: QueryView) -> Result<(QueryView, int), (Seq<char>, Span)> {
    match paren_text(t, c, "查询属性后需要 `(`"@, "标签需要字符串"@, "标签后需要 `)`"@) {
        Err(e) => Err(e),
        Ok((v, _)) => Ok(
            (
                if k == "tag"@ {
                    QueryView { tags: s.tags.push(v), ..s }
                } else {
                    QueryView { excluded_tags: s.excluded_tags.push(v), ..s }
                },
                c + 5,
            ),
        ),
    }
}

/// `type("…");` or `without_type("…");` at `c`.
pub open spec fn type_spec(t: Seq<Token>, c: int, k: Seq<char>, s: QueryView) -> Result<(QueryView, int), (Seq<char>, Span)> {
    match paren_text(t, c, "type 后需要 `(`"@, "type 需要实体类型或 #标签字符串"@, "type 后需要 `)`"@) {
        Err(e) => Err(e),
        Ok((v, span)) => Ok((QueryView { type_filters: s.type_filters.push((k == "type"@, v, span)), ..s }, c + 5)),
    }
}

/// `limit(n);` or `within(n);` at `c`, each allowed once.
pub open spec fn count_spec(t: Seq<Token>, c: int, k: Seq<char>, ps: Span, s: QueryView) -> Result<(QueryView, int), (Seq<char>, Span)> {
    if (k == "limit"@ && s.limit is Some) || (k != "limit"@ && s.within is Some) {
        Err(("查询只能声明一次 "@ + k, ps))
    } else {
        match unsigned_call_spec(t, c, k) {
            Err(e) => Err(e),
            Ok(n) => Ok(
                (
                    if k == "limit"@ {
                        QueryView { limit: Some(n), ..s }
                    } else {
                        QueryView { within: Some(n), ..s }
                    },
                    c + 5,
                ),
            ),
        }
    }
}

/// `sort(nearest);` at `c`, allowed once.
pub open spec fn sort_spec(t: Seq<Token>, c: int, ps: Span, s: QueryView) -> Result<(QueryView, int), (Seq<char>, Span)> {
    if s.sort is Some {
        Err(("查询只能声明一次 sort"@, ps))
    } else if !kind_at(t, c + 1, TokenKind::LeftParen) {
        Err(("sort 后需要 `(`"@, t[c + 1].span))
    } else {
        match ident_at(t, c + 2, "排序方式"@) {
            Err(e) => Err(e),
            Ok((v, span)) => match sort_value(v) {
                None => Err(("排序方式只能是 nearest/最近、furthest/最远、random/随机或 arbitrary/任意"@, span)),
                Some(o) => if !kind_at(t, c + 3, TokenKind::RightParen) {
                    Err(("排序方式后需要 `)`"@, t[c + 3].span))
                } else if !kind_at(t, c + 4, TokenKind::Semicolon) {
                    Err(("查询属性后需要 `;`"@, t[c + 4].span))
                } else {
                    Ok((QueryView { sort: Some(o), ..s }, c + 5))
                },
            },
        }
    }
}

/// Whether the text property `k` names the `name` filter, the `nbt`
/// filter, or (otherwise) the `team` filter.
pub open spec fn names_name(k: Seq<char>) -> bool {
    k == "name"@ || k == "without_name"@
}

pub open spec fn names_nbt(k: Seq<char>) -> bool {
    k == "nbt"@ || k == "without_nbt"@
}

/// A text filter property `k` (spelled `p`) at `c`: `name`, `nbt` or
/// `team`, or their `without_` forms; each filter is allowed once.
pub open spec fn filter_spec(t: Seq<Token>, c: int, p: Seq<char>, k: Seq<char>, ps: Span, s: QueryView) -> Result<
    (QueryView, int),
    (Seq<char>, Span),
> {
    let current = if names_name(k) {
        s.name_filter
    } else if names_nbt(k) {
        s.nbt_filter
    } else {
        s.team_filter
    };
    if current is Some {
        Err(("查询只能声明一次 "@ + p, ps))
    } else {
        match paren_text(t, c, "查询属性后需要 `(`"@, "查询属性需要字符串"@, "查询属性后需要 `)`"@) {
            Err(e) => Err(e),
            Ok((v, span)) => {
                let f = Some((v, k == "without_name"@ || k == "without_nbt"@ || k == "without_team"@, span));
                Ok(
                    (
                        if names_name(k) {
                            QueryView { name_filter: f, ..s }
                        } else if names_nbt(k) {
                            QueryView { nbt_filter: f, ..s }
                        } else {
                            QueryView { team_filter: f, ..s }
                        },
                        c + 5,
                    ),
                )
            },
        }
    }
}

/// `scores("objective", "range");` at `c`.
pub open spec fn scores_spec(t: Seq<Token>, c: int, s: QueryView) -> Result<(QueryView, int), (Seq<char>, Span)> {
    if !kind_at(t, c + 1, TokenKind::LeftParen) {
        Err(("scores 后需要 `(`"@, t[c + 1].span))
    } else {
        match string_at(t, c + 2, "scores 需要计分板目标字符串"@) {
            Err(e) => Err(e),
            Ok((objective, _)) => if !kind_at(t, c + 3, TokenKind::Comma) {
                Err(("scores 目标后需要 `,`"@, t[c + 3].span))
            } else {
                match string_at(t, c + 4, "scores 需要区间字符串，例如 \"1..5\""@) {
                    Err(e) => Err(e),
                    Ok((range, span)) => if !kind_at(t, c + 5, TokenKind::RightParen) {
                        Err(("scores 后需要 `)`"@, t[c + 5].span))
                    } else if !kind_at(t, c + 6, TokenKind::Semicolon) {
                        Err(("查询属性后需要 `;`"@, t[c + 6].span))
                    } else {
                        Ok((QueryView { scores: s.scores.push((objective, range, span)), ..s }, c + 7))
                    },
                }
            },
        }
    }
}

/// `box(x, y, z, dx, dy, dz);` at `c`, allowed once; its span runs from
/// the property word to the `)`.
pub open spec fn box_spec(t: Seq<Token>, c: int, ps: Span, s: QueryView) -> Result<(QueryView, int), (Seq<char>, Span)> {
    if s.box_filter is Some {
        Err(("查询只能声明一次 box"@, ps))
    } else if !kind_at(t, c + 1, TokenKind::LeftParen) {
        Err(("box 后需要 `(`"@, t[c + 1].span))
    } else {
        match box_parts(t, c + 2, 0) {
            Err(e) => Err(e),
            Ok((parts, n)) => if !kind_at(t, n, TokenKind::RightParen) {
                Err(("box 后需要 `)`"@, t[n].span))
            } else if !kind_at(t, n + 1, TokenKind::Semicolon) {
                Err(("查询属性后需要 `;`"@, t[n + 1].span))
            } else {
                Ok((QueryView { box_filter: Some((parts, merged(ps, t[n].span))), ..s }, n + 2))
            },
        }
    }
}

/// The text that a string property `k` holds so far.
pub open spec fn text_property(k: Seq<char>, s: QueryView) -> Option<Seq<char>> {
    if k == "distance"@ {
        s.distance
    } else if k == "level"@ {
        s.level
    } else if k == "advancements"@ {
        s.advancements
    } else if k == "predicate"@ {
        s.predicate
    } else {
        s.gamemode
    }
}

/// `distance("…");`, `level`, `advancements`, `predicate` or `gamemode`
/// at `c`, each allowed once; a game mode is kept by its English name
/// where it names one.
pub open spec fn text_spec(t: Seq<Token>, c: int, k: Seq<char>, ps: Span, s: QueryView) -> Result<
    (QueryView, int),
    (Seq<char>, Span),
> {
    if text_property(k, s) is Some {
        Err(("查询只能声明一次 "@ + k, ps))
    } else {
        match paren_text(t, c, "查询属性后需要 `(`"@, k + " 需要字符串"@, "查询属性后需要 `)`"@) {
            Err(e) => Err(e),
            Ok((v, _)) => Ok(
                (
                    if k == "distance"@ {
                        QueryView { distance: Some(v), ..s }
                    } else if k == "level"@ {
                        QueryView { level: Some(v), ..s }
                    } else if k == "advancements"@ {
                        QueryView { advancements: Some(v), ..s }
                    } else if k == "predicate"@ {
                        QueryView { predicate: Some(v), ..s }
                    } else {
                        QueryView {
                            gamemode: Some(
                                match gamemode_value_spec(v) {
                                    Some(g) => g,
                                    None => v,
                                },
                            ),
                            ..s
                        }
                    },
                    c + 5,
                ),
            ),
        }
    }
}

/// `rotate("yaw", "pitch");` at `c`, allowed once; its span runs from the
/// property word to the `)`.
pub open spec fn rotate_spec(t: Seq<Token>, c: int, ps: Span, s: QueryView) -> Result<(QueryView, int), (Seq<char>, Span)> {
    if s.rotation is Some {
        Err(("查询只能声明一次 rotate"@, ps))
    } else if !kind_at(t, c + 1, TokenKind::LeftParen) {
        Err(("rotate 后需要 `(`"@, t[c + 1].span))
    } else {
        match string_at(t, c + 2, "rotate 需要偏航区间字符串"@) {
            Err(e) => Err(e),
            Ok((yaw, _)) => if !kind_at(t, c + 3, TokenKind::Comma) {
                Err(("rotate 偏航后需要 `,`"@, t[c + 3].span))
            } else {
                match string_at(t, c + 4, "rotate 需要俯仰区间字符串"@) {
                    Err(e) => Err(e),
                    Ok((pitch, _)) => if !kind_at(t, c + 5, TokenKind::RightParen) {
                        Err(("rotate 后需要 `)`"@, t[c + 5].span))
                    } else if !kind_at(t, c + 6, TokenKind::Semicolon) {
                        Err(("查询属性后需要 `;`"@, t[c + 6].span))
                    } else {
                        Ok((QueryView { rotation: Some((yaw, pitch, merged(ps, t[c + 5].span))), ..s }, c + 7))
                    },
                }
            },
        }
    }
}

/// The message for an `item` filter: its item predicate is not part of
/// the grammar this library parses.
pub open spec fn item_filter_message() -> Seq<char> {
    "不支持 item 过滤器：物品谓词不在本库的语法之内"@
}

/// The property `k` (spelled `p`) whose word stands at `c` (spanning
/// `ps`), added to `s`: the properties and the position after its `;`.
pub open spec fn query_step_spec(t: Seq<Token>, c: int, p: Seq<char>, k: Seq<char>, ps: Span, s: QueryView) -> Result<
    (QueryView, int),
    (Seq<char>, Span),
> {
    if k == "tag"@ || k == "without_tag"@ {
        tag_spec(t, c, k, s)
    } else if k == "type"@ || k == "without_type"@ {
        type_spec(t, c, k, s)
    } else if k == "limit"@ || k == "within"@ {
        count_spec(t, c, k, ps, s)
    } else if k == "sort"@ {
        sort_spec(t, c, ps, s)
    } else if names_name(k) || names_nbt(k) || k == "team"@ || k == "without_team"@ {
        filter_spec(t, c, p, k, ps, s)
    } else if k == "scores"@ {
        scores_spec(t, c, s)
    } else if k == "box"@ {
        box_spec(t, c, ps, s)
    } else if k == "distance"@ || k == "level"@ || k == "advancements"@ || k == "predicate"@ || k == "gamemode"@ {
        text_spec(t, c, k, ps, s)
    } else if k == "rotate"@ {
        rotate_spec(t, c, ps, s)
    } else {
        Err((item_filter_message(), ps))
    }
}

/// The properties of a query from `c` on, after `s`: the properties and
/// the position of the closing `}`.
pub open spec fn query_body_spec(t: Seq<Token>, c: int, s: QueryView) -> Result<(QueryView, int), (Seq<char>, Span)>
    decreases t.len() - c,
{
    if !stream_ok(t, c) {
        Err(stuck())
    } else if kind_at(t, c, TokenKind::RightBrace) {
        Ok((s, c))
    } else if t[c].kind is Eof {
        Err(("实体查询缺少 `}`"@, t[c].span))
    } else {
        match ident_at(t, c, "查询属性"@) {
            Err(e) => Err(e),
            Ok((property, ps)) => match query_property_spec(property) {
                None => Err(("未知实体查询属性 `"@ + property + "`"@, ps)),
                Some(k) => match query_step_spec(t, c, property, k, ps, s) {
                    Err(e) => Err(e),
                    Ok((s2, next)) => if !moved(t, c, next) {
                        Err(stuck())
                    } else {
                        query_body_spec(t, next, s2)
                    },
                },
            },
        }
    }
}

/// An entity query declaration at `c`: its name and the name's span, the
/// entity type, its properties, its span, and the position after it (past
/// an optional `;`).
pub open spec fn query_spec(t: Seq<Token>, c: int) -> Result<
    (Seq<char>, Span, Seq<char>, QueryView, Span, int),
    (Seq<char>, Span),
> {
    if !word_at(t, c, "query"@) {
        Err((expected_word_message("query"@), t[c].span))
    } else {
        match ident_at(t, c + 1, "查询名称"@) {
            Err(e) => Err(e),
            Ok((name, name_span)) => if !kind_at(t, c + 2, TokenKind::Equal) {
                Err(("查询名称后需要 `=`"@, t[c + 2].span))
            } else if !word_at(t, c + 3, "entity"@) {
                Err((expected_word_message("entity"@), t[c + 3].span))
            } else if !kind_at(t, c + 4, TokenKind::LeftParen) {
                Err(("entity 后需要 `(`"@, t[c + 4].span))
            } else {
                match string_at(t, c + 5, "entity 需要实体类型字符串"@) {
                    Err(e) => Err(e),
                    Ok((entity_type, _)) => if !kind_at(t, c + 6, TokenKind::RightParen) {
                        Err(("实体类型后需要 `)`"@, t[c + 6].span))
                    } else if !kind_at(t, c + 7, TokenKind::LeftBrace) {
                        Err(("实体查询需要 `{`"@, t[c + 7].span))
                    } else {
                        match query_body_spec(t, c + 8, empty_query()) {
                            Err(e) => Err(e),
                            Ok((s, end)) => Ok(
                                (
                                    name,
                                    name_span,
                                    entity_type,
                                    s,
                                    merged(t[c].span, t[end].span),
                                    if kind_at(t, end + 1, TokenKind::Semicolon) {
                                        end + 2
                                    } else {
                                        end + 1
                                    },
                                ),
                            ),
                        }
                    },
                }
            },
        }
    }
}

/// A query body that parses ends at a `}`.
proof fn lemma_query_body_end(t: Seq<Token>, c: int, s: QueryView)
    requires
        query_body_spec(t, c, s) is Ok,
    ensures
        ({
            let end = match query_body_spec(t, c, s) {
                Ok((_, end)) => end,
                Err(_) => 0,
            };
            stream_ok(t, end) && kind_at(t, end, TokenKind::RightBrace)
        }),
    decreases t.len() - c,
{
    if stream_ok(t, c) && !kind_at(t, c, TokenKind::RightBrace) && !(t[c].kind is Eof) {
        if let Ok((property, ps)) = ident_at(t, c, "查询属性"@) {
            if let Some(k) = query_property_spec(property) {
                if let Ok((s2, next)) = query_step_spec(t, c, property, k, ps, s) {
                    if moved(t, c, next) {
                        lemma_query_body_end(t, next, s2);
                    }
                }
            }
        }
    }
}

/// A property that parses ends past its word.
proof fn lemma_step_moves(t: Seq<Token>, c: int, p: Seq<char>, k: Seq<char>, ps: Span, s: QueryView)
    requires
        query_step_spec(t, c, p, k, ps, s) is Ok,
    ensures
        ({
            let after = match query_step_spec(t, c, p, k, ps, s) {
                Ok((_, after)) => after,
                Err(_) => 0,
            };
            after > c
        }),
{
    if k == "box"@ && !(k == "tag"@ || k == "without_tag"@ || k == "type"@ || k == "without_type"@ || k == "limit"@
        || k == "within"@ || k == "sort"@ || names_name(k) || names_nbt(k) || k == "team"@ || k == "without_team"@
        || k == "scores"@) {
        if s.box_filter is None && kind_at(t, c + 1, TokenKind::LeftParen) && box_parts(t, c + 2, 0) is Ok {
            lemma_box_parts(t, c + 2, 0);
        }
    }
}

fn joined(a: &str, b: &str) -> (r: String)
    ensures
        r@ == a@ + b@,
{
    let mut r = a.to_owned();
    r.append(b);
    r
}

fn concat(a: &str, b: &str, c: &str) -> (r: String)
    ensures
        r@ == a@ + b@ + c@,
{
    let mut r = a.to_owned();
    r.append(b);
    r.append(c);
    r
}

impl Parser {
    /// `("…");` after a property word.
    fn paren_text(&mut self, open: &str, needed: &str, close: &str) -> (r: Result<(String, Span), Diagnostic>)
        requires
            old(self).wf(),
            old(self).cursor > 0,
            !(old(self).tokens@[old(self).cursor - 1].kind is Eof),
        ensures
            final(self).wf(),
            final(self).tokens@ == old(self).tokens@,
            macro_state(&*final(self)) == macro_state(&*old(self)),
            match (r, paren_text(old(self).tokens@, old(self).cursor - 1, open@, needed@, close@)) {
                (Ok((v, span)), Ok((w, wspan))) => v@ == w && span == wspan && final(self).cursor == old(self).cursor + 4,
                (Err(d), Err(e)) => diag(d) == e,
                _ => false,
            },
    {
        let ghost t = self.tokens@;
        let ghost c = self.cursor - 1;
        match self.expect(TokenKind::LeftParen, open) {
            Ok(_) => {},
            Err(d) => return Err(d),
        }
        proof {
            lemma_not_last(t, c + 1);
        }
        let found = match self.string(needed) {
            Ok(found) => found,
            Err(d) => return Err(d),
        };
        proof {
            lemma_not_last(t, c + 2);
        }
        match self.expect(TokenKind::RightParen, close) {
            Ok(_) => {},
            Err(d) => return Err(d),
        }
        proof {
            lemma_not_last(t, c + 3);
        }
        match self.expect(TokenKind::Semicolon, "查询属性后需要 `;`") {
            Ok(_) => {},
            Err(d) => return Err(d),
        }
        proof {
            lemma_not_last(t, c + 4);
        }
        Ok(found)
    }

    /// `(n);` after the property word `name`.
    fn query_unsigned(&mut self, name: &str) -> (r: Result<u32, Diagnostic>)
        requires
            old(self).wf(),
            old(self).cursor > 0,
            !(old(self).tokens@[old(self).cursor - 1].kind is Eof),
        ensures
            final(self).wf(),
            final(self).tokens@ == old(self).tokens@,
            macro_state(&*final(self)) == macro_state(&*old(self)),
            match (r, unsigned_call_spec(old(self).tokens@, old(self).cursor - 1, name@)) {
                (Ok(v), Ok(w)) => v == w && final(self).cursor == old(self).cursor + 4,
                (Err(d), Err(e)) => diag(d) == e,
                _ => false,
            },
    {
        let ghost t = self.tokens@;
        let ghost c = self.cursor as int;
        let r = self.unsigned_call(name);
        proof {
            match unsigned_spec(t, c + 1, name@) {
                Ok((v, _)) => {
                    assert(unsigned_spec(t, c + 1, name@)->Ok_0.0 == v);
                },
                Err(_) => {},
            }
        }
        r
    }

    /// The box components `i` to the last.
    fn box_parts(&mut self, i: usize) -> (r: Result<Vec<String>, Diagnostic>)
        requires
            old(self).wf(),
            i <= 5,
        ensures
            final(self).wf(),
            final(self).tokens@ == old(self).tokens@,
            macro_state(&*final(self)) == macro_state(&*old(self)),
            match (r, box_parts(old(self).tokens@, old(self).cursor as int, i as int)) {
                (Ok(v), Ok((w, after))) => query_texts(v@) == w && final(self).cursor == after,
                (Err(d), Err(e)) => diag(d) == e,
                _ => false,
            },
        decreases 5 - i,
    {
        let label = if i == 0 {
            "box x"
        } else if i == 1 {
            "box y"
        } else if i == 2 {
            "box z"
        } else if i == 3 {
            "box dx"
        } else if i == 4 {
            "box dy"
        } else {
            "box dz"
        };
        let x = match self.signed_number_text(label) {
            Ok(x) => x,
            Err(d) => return Err(d),
        };
        if i >= 5 {
            let v = vec![x];
            assert(query_texts(v@) =~= seq![v@[0]@]);
            return Ok(v);
        }
        match self.expect(TokenKind::Comma, "box 分量之间需要 `,`") {
            Ok(_) => {},
            Err(d) => return Err(d),
        }
        let ghost xv = x@;
        let mut rest = match self.box_parts(i + 1) {
            Ok(v) => v,
            Err(d) => return Err(d),
        };
        let ghost old_rest = rest@;
        rest.insert(0, x);
        assert(query_texts(rest@) =~= seq![xv] + query_texts(old_rest));
        Ok(rest)
    }
}


impl Parser {
    /// `("…");` of `tag` or `without_tag`, after the property word.
    fn query_tag(&mut self, kind: &str, d: EntityQueryDecl) -> (r: Result<EntityQueryDecl, Diagnostic>)
        requires
            old(self).wf(),
            old(self).cursor > 0,
            !(old(self).tokens@[old(self).cursor - 1].kind is Eof),
        ensures
            final(self).wf(),
            final(self).tokens@ == old(self).tokens@,
            macro_state(&*final(self)) == macro_state(&*old(self)),
            match (r, tag_spec(old(self).tokens@, old(self).cursor - 1, kind@, query_view(d))) {
                (Ok(e), Ok((v, after))) => query_view(e) == v && final(self).cursor == after,
                (Err(x), Err(y)) => diag(x) == y,
                _ => false,
            },
    {
        let (v, _) = match self.paren_text("查询属性后需要 `(`", "标签需要字符串", "标签后需要 `)`") {
            Ok(found) => found,
            Err(x) => return Err(x),
        };
        let mut d = d;
        if str_eq(kind, "tag") {
            let ghost before = d.tags@;
            d.tags.push(v);
            assert(query_texts(d.tags@) =~= query_texts(before).push(d.tags@.last()@));
        } else {
            let ghost before = d.excluded_tags@;
            d.excluded_tags.push(v);
            assert(query_texts(d.excluded_tags@) =~= query_texts(before).push(d.excluded_tags@.last()@));
        }
        Ok(d)
    }

    /// `("…");` of `type` or `without_type`, after the property word.
    fn query_type(&mut self, kind: &str, d: EntityQueryDecl) -> (r: Result<EntityQueryDecl, Diagnostic>)
        requires
            old(self).wf(),
            old(self).cursor > 0,
            !(old(self).tokens@[old(self).cursor - 1].kind is Eof),
        ensures
            final(self).wf(),
            final(self).tokens@ == old(self).tokens@,
            macro_state(&*final(self)) == macro_state(&*old(self)),
            match (r, type_spec(old(self).tokens@, old(self).cursor - 1, kind@, query_view(d))) {
                (Ok(e), Ok((v, after))) => query_view(e) == v && final(self).cursor == after,
                (Err(x), Err(y)) => diag(x) == y,
                _ => false,
            },
    {
        let (v, span) = match self.paren_text("type 后需要 `(`", "type 需要实体类型或 #标签字符串", "type 后需要 `)`") {
            Ok(found) => found,
            Err(x) => return Err(x),
        };
        let mut d = d;
        let ghost before = d.type_filters@;
        let filter = if str_eq(kind, "type") {
            EntityTypeFilter::Include(v, span)
        } else {
            EntityTypeFilter::Exclude(v, span)
        };
        d.type_filters.push(filter);
        assert(d.type_filters@.map_values(|f: EntityTypeFilter| type_filter_view(f)) =~= before.map_values(
            |f: EntityTypeFilter| type_filter_view(f),
        ).push(type_filter_view(d.type_filters@.last())));
        Ok(d)
    }

    /// `(n);` of `limit` or `within`, after the property word.
    fn query_count(&mut self, kind: &str, span: Span, d: EntityQueryDecl) -> (r: Result<EntityQueryDecl, Diagnostic>)
        requires
            old(self).wf(),
            old(self).cursor > 0,
            !(old(self).tokens@[old(self).cursor - 1].kind is Eof),
        ensures
            final(self).wf(),
            final(self).tokens@ == old(self).tokens@,
            macro_state(&*final(self)) == macro_state(&*old(self)),
            match (r, count_spec(old(self).tokens@, old(self).cursor - 1, kind@, span, query_view(d))) {
                (Ok(e), Ok((v, after))) => query_view(e) == v && final(self).cursor == after,
                (Err(x), Err(y)) => diag(x) == y,
                _ => false,
            },
    {
        let limit = str_eq(kind, "limit");
        if (limit && d.limit.is_some()) || (!limit && d.within.is_some()) {
            return Err(Diagnostic { message: joined("查询只能声明一次 ", kind), span });
        }
        let n = match self.query_unsigned(kind) {
            Ok(n) => n,
            Err(x) => return Err(x),
        };
        let mut d = d;
        if limit {
            d.limit = Some(n);
        } else {
            d.within = Some(n);
        }
        Ok(d)
    }

    /// `(order);` of `sort`, after the property word.
    fn query_sort(&mut self, span: Span, d: EntityQueryDecl) -> (r: Result<EntityQueryDecl, Diagnostic>)
        requires
            old(self).wf(),
            old(self).cursor > 0,
            !(old(self).tokens@[old(self).cursor - 1].kind is Eof),
        ensures
            final(self).wf(),
            final(self).tokens@ == old(self).tokens@,
            macro_state(&*final(self)) == macro_state(&*old(self)),
            match (r, sort_spec(old(self).tokens@, old(self).cursor - 1, span, query_view(d))) {
                (Ok(e), Ok((v, after))) => query_view(e) == v && final(self).cursor == after,
                (Err(x), Err(y)) => diag(x) == y,
                _ => false,
            },
    {
        let ghost t = self.tokens@;
        let ghost c = self.cursor - 1;
        if d.sort.is_some() {
            return Err(Diagnostic { message: "查询只能声明一次 sort".to_owned(), span });
        }
        match self.expect(TokenKind::LeftParen, "sort 后需要 `(`") {
            Ok(_) => {},
            Err(x) => return Err(x),
        }
        proof {
            lemma_not_last(t, c + 1);
        }
        let (value, vspan) = match self.ident("排序方式") {
            Ok(found) => found,
            Err(x) => return Err(x),
        };
        proof {
            lemma_not_last(t, c + 2);
        }
        let message = "排序方式只能是 nearest/最近、furthest/最远、random/随机或 arbitrary/任意";
        let order = match entity_sort(value.as_str()) {
            Some(k) => if str_eq(k, "nearest") {
                EntitySort::Nearest
            } else if str_eq(k, "furthest") {
                EntitySort::Furthest
            } else if str_eq(k, "random") {
                EntitySort::Random
            } else if str_eq(k, "arbitrary") {
                EntitySort::Arbitrary
            } else {
                return Err(Diagnostic { message: message.to_owned(), span: vspan });
            },
            None => return Err(Diagnostic { message: message.to_owned(), span: vspan }),
        };
        match self.expect(TokenKind::RightParen, "排序方式后需要 `)`") {
            Ok(_) => {},
            Err(x) => return Err(x),
        }
        proof {
            lemma_not_last(t, c + 3);
        }
        match self.expect(TokenKind::Semicolon, "查询属性后需要 `;`") {
            Ok(_) => {},
            Err(x) => return Err(x),
        }
        proof {
            lemma_not_last(t, c + 4);
        }
        let mut d = d;
        d.sort = Some(order);
        Ok(d)
    }

    /// `("…");` of a `name`, `nbt` or `team` filter (or its `without_`
    /// form), after the property word `property`.
    fn query_filter(&mut self, property: &str, kind: &str, span: Span, d: EntityQueryDecl) -> (r: Result<
        EntityQueryDecl,
        Diagnostic,
    >)
        requires
            old(self).wf(),
            old(self).cursor > 0,
            !(old(self).tokens@[old(self).cursor - 1].kind is Eof),
        ensures
            final(self).wf(),
            final(self).tokens@ == old(self).tokens@,
            macro_state(&*final(self)) == macro_state(&*old(self)),
            match (r, filter_spec(old(self).tokens@, old(self).cursor - 1, property@, kind@, span, query_view(d))) {
                (Ok(e), Ok((v, after))) => query_view(e) == v && final(self).cursor == after,
                (Err(x), Err(y)) => diag(x) == y,
                _ => false,
            },
    {
        let is_name = str_eq(kind, "name") || str_eq(kind, "without_name");
        let is_nbt = str_eq(kind, "nbt") || str_eq(kind, "without_nbt");
        let taken = if is_name {
            d.name_filter.is_some()
        } else if is_nbt {
            d.nbt_filter.is_some()
        } else {
            d.team_filter.is_some()
        };
        if taken {
            return Err(Diagnostic { message: joined("查询只能声明一次 ", property), span });
        }
        let (value, vspan) = match self.paren_text("查询属性后需要 `(`", "查询属性需要字符串", "查询属性后需要 `)`") {
            Ok(found) => found,
            Err(x) => return Err(x),
        };
        let negated = str_eq(kind, "without_name") || str_eq(kind, "without_nbt") || str_eq(kind, "without_team");
        let filter = QueryTextFilter { value, negated, span: vspan };
        let mut d = d;
        if is_name {
            d.name_filter = Some(filter);
        } else if is_nbt {
            d.nbt_filter = Some(filter);
        } else {
            d.team_filter = Some(filter);
        }
        Ok(d)
    }

    /// `("objective", "range");` of `scores`, after the property word.
    fn query_scores(&mut self, d: EntityQueryDecl) -> (r: Result<EntityQueryDecl, Diagnostic>)
        requires
            old(self).wf(),
            old(self).cursor > 0,
            !(old(self).tokens@[old(self).cursor - 1].kind is Eof),
        ensures
            final(self).wf(),
            final(self).tokens@ == old(self).tokens@,
            macro_state(&*final(self)) == macro_state(&*old(self)),
            match (r, scores_spec(old(self).tokens@, old(self).cursor - 1, query_view(d))) {
                (Ok(e), Ok((v, after))) => query_view(e) == v && final(self).cursor == after,
                (Err(x), Err(y)) => diag(x) == y,
                _ => false,
            },
    {
        let ghost t = self.tokens@;
        let ghost c = self.cursor - 1;
        match self.expect(TokenKind::LeftParen, "scores 后需要 `(`") {
            Ok(_) => {},
            Err(x) => return Err(x),
        }
        proof {
            lemma_not_last(t, c + 1);
        }
        let (objective, _) = match self.string("scores 需要计分板目标字符串") {
            Ok(found) => found,
            Err(x) => return Err(x),
        };
        proof {
            lemma_not_last(t, c + 2);
        }
        match self.expect(TokenKind::Comma, "scores 目标后需要 `,`") {
            Ok(_) => {},
            Err(x) => return Err(x),
        }
        proof {
            lemma_not_last(t, c + 3);
        }
        let (range, rspan) = match self.string("scores 需要区间字符串，例如 \"1..5\"") {
            Ok(found) => found,
            Err(x) => return Err(x),
        };
        proof {
            lemma_not_last(t, c + 4);
        }
        match self.expect(TokenKind::RightParen, "scores 后需要 `)`") {
            Ok(_) => {},
            Err(x) => return Err(x),
        }
        proof {
            lemma_not_last(t, c + 5);
        }
        match self.expect(TokenKind::Semicolon, "查询属性后需要 `;`") {
            Ok(_) => {},
            Err(x) => return Err(x),
        }
        proof {
            lemma_not_last(t, c + 6);
        }
        let mut d = d;
        let ghost before = d.scores@;
        d.scores.push(QueryScoreFilter { objective, range, span: rspan });
        assert(d.scores@.map_values(|f: QueryScoreFilter| (f.objective@, f.range@, f.span)) =~= before.map_values(
            |f: QueryScoreFilter| (f.objective@, f.range@, f.span),
        ).push((d.scores@.last().objective@, d.scores@.last().range@, rspan)));
        Ok(d)
    }

    /// `(x, y, z, dx, dy, dz);` of `box`, after the property word.
    fn query_box(&mut self, span: Span, d: EntityQueryDecl) -> (r: Result<EntityQueryDecl, Diagnostic>)
        requires
            old(self).wf(),
            old(self).cursor > 0,
            !(old(self).tokens@[old(self).cursor - 1].kind is Eof),
        ensures
            final(self).wf(),
            final(self).tokens@ == old(self).tokens@,
            macro_state(&*final(self)) == macro_state(&*old(self)),
            match (r, box_spec(old(self).tokens@, old(self).cursor - 1, span, query_view(d))) {
                (Ok(e), Ok((v, after))) => query_view(e) == v && final(self).cursor == after,
                (Err(x), Err(y)) => diag(x) == y,
                _ => false,
            },
    {
        let ghost t = self.tokens@;
        let ghost c = self.cursor - 1;
        if d.box_filter.is_some() {
            return Err(Diagnostic { message: "查询只能声明一次 box".to_owned(), span });
        }
        match self.expect(TokenKind::LeftParen, "box 后需要 `(`") {
            Ok(_) => {},
            Err(x) => return Err(x),
        }
        proof {
            lemma_not_last(t, c + 1);
        }
        let mut parts = match self.box_parts(0) {
            Ok(v) => v,
            Err(x) => return Err(x),
        };
        proof {
            lemma_box_parts(t, c + 2, 0);
        }
        let ghost texts = query_texts(parts@);
        let end = match self.expect(TokenKind::RightParen, "box 后需要 `)`") {
            Ok(token) => token.span,
            Err(x) => return Err(x),
        };
        match self.expect(TokenKind::Semicolon, "查询属性后需要 `;`") {
            Ok(_) => {},
            Err(x) => return Err(x),
        }
        let dz = parts.pop().unwrap();
        let dy = parts.pop().unwrap();
        let dx = parts.pop().unwrap();
        let z = parts.pop().unwrap();
        let y = parts.pop().unwrap();
        let x = parts.pop().unwrap();
        assert(seq![x@, y@, z@, dx@, dy@, dz@] =~= texts);
        let mut d = d;
        d.box_filter = Some(QueryBox { x, y, z, dx, dy, dz, span: span.merge(end) });
        Ok(d)
    }

    /// `("…");` of `distance`, `level`, `advancements`, `predicate` or
    /// `gamemode`, after the property word.
    fn query_text(&mut self, kind: &str, span: Span, d: EntityQueryDecl) -> (r: Result<EntityQueryDecl, Diagnostic>)
        requires
            old(self).wf(),
            old(self).cursor > 0,
            !(old(self).tokens@[old(self).cursor - 1].kind is Eof),
        ensures
            final(self).wf(),
            final(self).tokens@ == old(self).tokens@,
            macro_state(&*final(self)) == macro_state(&*old(self)),
            match (r, text_spec(old(self).tokens@, old(self).cursor - 1, kind@, span, query_view(d))) {
                (Ok(e), Ok((v, after))) => query_view(e) == v && final(self).cursor == after,
                (Err(x), Err(y)) => diag(x) == y,
                _ => false,
            },
    {
        let distance = str_eq(kind, "distance");
        let level = str_eq(kind, "level");
        let advancements = str_eq(kind, "advancements");
        let predicate = str_eq(kind, "predicate");
        let taken = if distance {
            d.distance.is_some()
        } else if level {
            d.level.is_some()
        } else if advancements {
            d.advancements.is_some()
        } else if predicate {
            d.predicate.is_some()
        } else {
            d.gamemode.is_some()
        };
        if taken {
            return Err(Diagnostic { message: joined("查询只能声明一次 ", kind), span });
        }
        let needed = joined(kind, " 需要字符串");
        let (value, _) = match self.paren_text("查询属性后需要 `(`", needed.as_str(), "查询属性后需要 `)`") {
            Ok(found) => found,
            Err(x) => return Err(x),
        };
        let mut d = d;
        if distance {
            d.distance = Some(value);
        } else if level {
            d.level = Some(value);
        } else if advancements {
            d.advancements = Some(value);
        } else if predicate {
            d.predicate = Some(value);
        } else {
            let mode = match gamemode_value(value.as_str()) {
                Some(g) => g.to_owned(),
                None => value,
            };
            d.gamemode = Some(mode);
        }
        Ok(d)
    }

    /// `("yaw", "pitch");` of `rotate`, after the property word.
    fn query_rotate(&mut self, span: Span, d: EntityQueryDecl) -> (r: Result<EntityQueryDecl, Diagnostic>)
        requires
            old(self).wf(),
            old(self).cursor > 0,
            !(old(self).tokens@[old(self).cursor - 1].kind is Eof),
        ensures
            final(self).wf(),
            final(self).tokens@ == old(self).tokens@,
            macro_state(&*final(self)) == macro_state(&*old(self)),
            match (r, rotate_spec(old(self).tokens@, old(self).cursor - 1, span, query_view(d))) {
                (Ok(e), Ok((v, after))) => query_view(e) == v && final(self).cursor == after,
                (Err(x), Err(y)) => diag(x) == y,
                _ => false,
            },
    {
        let ghost t = self.tokens@;
        let ghost c = self.cursor - 1;
        if d.rotation.is_some() {
            return Err(Diagnostic { message: "查询只能声明一次 rotate".to_owned(), span });
        }
        match self.expect(TokenKind::LeftParen, "rotate 后需要 `(`") {
            Ok(_) => {},
            Err(x) => return Err(x),
        }
        proof {
            lemma_not_last(t, c + 1);
        }
        let (yaw, _) = match self.string("rotate 需要偏航区间字符串") {
            Ok(found) => found,
            Err(x) => return Err(x),
        };
        proof {
            lemma_not_last(t, c + 2);
        }
        match self.expect(TokenKind::Comma, "rotate 偏航后需要 `,`") {
            Ok(_) => {},
            Err(x) => return Err(x),
        }
        proof {
            lemma_not_last(t, c + 3);
        }
        let (pitch, _) = match self.string("rotate 需要俯仰区间字符串") {
            Ok(found) => found,
            Err(x) => return Err(x),
        };
        proof {
            lemma_not_last(t, c + 4);
        }
        let end = match self.expect(TokenKind::RightParen, "rotate 后需要 `)`") {
            Ok(token) => token.span,
            Err(x) => return Err(x),
        };
        proof {
            lemma_not_last(t, c + 5);
        }
        match self.expect(TokenKind::Semicolon, "查询属性后需要 `;`") {
            Ok(_) => {},
            Err(x) => return Err(x),
        }
        proof {
            lemma_not_last(t, c + 6);
        }
        let mut d = d;
        d.rotation = Some(QueryRotation { yaw, pitch, span: span.merge(end) });
        Ok(d)
    }
}


impl Parser {
    /// The value of the property `kind` (spelled `property`), after its
    /// word.
    fn query_step(&mut self, property: &str, kind: &str, span: Span, d: EntityQueryDecl) -> (r: Result<
        EntityQueryDecl,
        Diagnostic,
    >)
        requires
            old(self).wf(),
            old(self).cursor > 0,
            !(old(self).tokens@[old(self).cursor - 1].kind is Eof),
        ensures
            final(self).wf(),
            final(self).tokens@ == old(self).tokens@,
            macro_state(&*final(self)) == macro_state(&*old(self)),
            match (r, query_step_spec(old(self).tokens@, old(self).cursor - 1, property@, kind@, span, query_view(d))) {
                (Ok(e), Ok((v, after))) => query_view(e) == v && final(self).cursor == after,
                (Err(x), Err(y)) => diag(x) == y,
                _ => false,
            },
    {
        if str_eq(kind, "tag") || str_eq(kind, "without_tag") {
            self.query_tag(kind, d)
        } else if str_eq(kind, "type") || str_eq(kind, "without_type") {
            self.query_type(kind, d)
        } else if str_eq(kind, "limit") || str_eq(kind, "within") {
            self.query_count(kind, span, d)
        } else if str_eq(kind, "sort") {
            self.query_sort(span, d)
        } else if str_eq(kind, "name") || str_eq(kind, "without_name") || str_eq(kind, "nbt") || str_eq(
            kind,
            "without_nbt",
        ) || str_eq(kind, "team") || str_eq(kind, "without_team") {
            self.query_filter(property, kind, span, d)
        } else if str_eq(kind, "scores") {
            self.query_scores(d)
        } else if str_eq(kind, "box") {
            self.query_box(span, d)
        } else if str_eq(kind, "distance") || str_eq(kind, "level") || str_eq(kind, "advancements") || str_eq(
            kind,
            "predicate",
        ) || str_eq(kind, "gamemode") {
            self.query_text(kind, span, d)
        } else if str_eq(kind, "rotate") {
            self.query_rotate(span, d)
        } else {
            Err(Diagnostic { message: "不支持 item 过滤器：物品谓词不在本库的语法之内".to_owned(), span })
        }
    }

    /// The properties of a query after its `{`, up to its `}` (not
    /// consumed).
    fn query_body(&mut self, d: EntityQueryDecl) -> (r: Result<EntityQueryDecl, Diagnostic>)
        requires
            old(self).wf(),
        ensures
            final(self).wf(),
            final(self).tokens@ == old(self).tokens@,
            macro_state(&*final(self)) == macro_state(&*old(self)),
            match (r, query_body_spec(old(self).tokens@, old(self).cursor as int, query_view(d))) {
                (Ok(e), Ok((v, end))) => query_view(e) == v && final(self).cursor == end,
                (Err(x), Err(y)) => diag(x) == y,
                _ => false,
            },
        decreases old(self).tokens@.len() - old(self).cursor,
    {
        let ghost t = self.tokens@;
        let ghost c = self.cursor as int;
        let ghost old_d = query_view(d);
        if self.check(&TokenKind::RightBrace) {
            return Ok(d);
        }
        if self.check(&TokenKind::Eof) {
            return Err(Diagnostic { message: "实体查询缺少 `}`".to_owned(), span: self.tokens[self.cursor].span });
        }
        let (property, span) = match self.ident("查询属性") {
            Ok(found) => found,
            Err(x) => return Err(x),
        };
        proof {
            lemma_not_last(t, c);
        }
        let kind = match query_property(property.as_str()) {
            Some(k) => k,
            None => {
                let message = concat("未知实体查询属性 `", property.as_str(), "`");
                return Err(Diagnostic { message, span });
            },
        };
        let d = match self.query_step(property.as_str(), kind, span, d) {
            Ok(e) => e,
            Err(x) => return Err(x),
        };
        proof {
            lemma_step_moves(t, c, property@, kind@, span, old_d);
        }
        self.query_body(d)
    }

    /// An entity query declaration `query 名称 = entity("…") { … }`; a `;`
    /// after its `}` is allowed. An `item(…)` filter is answered with a
    /// diagnostic: the item predicate it holds is not part of the grammar
    /// this library parses.
    pub fn query(&mut self) -> (r: Result<EntityQueryDecl, Diagnostic>)
        requires
            old(self).wf(),
        ensures
            final(self).wf(),
            final(self).tokens@ == old(self).tokens@,
            macro_state(&*final(self)) == macro_state(&*old(self)),
            match (r, query_spec(old(self).tokens@, old(self).cursor as int)) {
                (Ok(d), Ok((name, name_span, entity_type, v, span, after))) => !d.exported && d.name@ == name
                    && d.name_span == name_span && d.entity_type@ == entity_type && query_view(d) == v && d.span
                    == span && final(self).cursor == after,
                (Err(x), Err(y)) => diag(x) == y,
                _ => false,
            },
    {
        let ghost t = self.tokens@;
        let ghost c = self.cursor as int;
        let start = match self.expect_word("query") {
            Ok(token) => token.span,
            Err(x) => return Err(x),
        };
        proof {
            lemma_not_last(t, c);
        }
        let (name, name_span) = match self.ident("查询名称") {
            Ok(found) => found,
            Err(x) => return Err(x),
        };
        proof {
            lemma_not_last(t, c + 1);
        }
        match self.expect(TokenKind::Equal, "查询名称后需要 `=`") {
            Ok(_) => {},
            Err(x) => return Err(x),
        }
        proof {
            lemma_not_last(t, c + 2);
        }
        match self.expect_word("entity") {
            Ok(_) => {},
            Err(x) => return Err(x),
        }
        proof {
            lemma_not_last(t, c + 3);
        }
        match self.expect(TokenKind::LeftParen, "entity 后需要 `(`") {
            Ok(_) => {},
            Err(x) => return Err(x),
        }
        proof {
            lemma_not_last(t, c + 4);
        }
        let (entity_type, _) = match self.string("entity 需要实体类型字符串") {
            Ok(found) => found,
            Err(x) => return Err(x),
        };
        proof {
            lemma_not_last(t, c + 5);
        }
        match self.expect(TokenKind::RightParen, "实体类型后需要 `)`") {
            Ok(_) => {},
            Err(x) => return Err(x),
        }
        proof {
            lemma_not_last(t, c + 6);
        }
        match self.expect(TokenKind::LeftBrace, "实体查询需要 `{`") {
            Ok(_) => {},
            Err(x) => return Err(x),
        }
        proof {
            lemma_not_last(t, c + 7);
        }
        let initial = EntityQueryDecl {
            exported: false,
            name: String::new(),
            name_span,
            entity_type: String::new(),
            type_filters: Vec::new(),
            tags: Vec::new(),
            excluded_tags: Vec::new(),
            limit: None,
            sort: None,
            within: None,
            name_filter: None,
            scores: Vec::new(),
            nbt_filter: None,
            box_filter: None,
            distance: None,
            level: None,
            gamemode: None,
            team_filter: None,
            rotation: None,
            predicate: None,
            advancements: None,
            span: start,
        };
        assert(query_view(initial) =~= empty_query()) by {
            assert(initial.type_filters@.map_values(|f: EntityTypeFilter| type_filter_view(f)) =~= seq![]);
            assert(query_texts(initial.tags@) =~= seq![]);
            assert(query_texts(initial.excluded_tags@) =~= seq![]);
            assert(initial.scores@.map_values(|f: QueryScoreFilter| (f.objective@, f.range@, f.span)) =~= seq![]);
        }
        let mut d = match self.query_body(initial) {
            Ok(e) => e,
            Err(x) => return Err(x),
        };
        proof {
            lemma_query_body_end(t, c + 8, empty_query());
            lemma_not_last(t, self.cursor as int);
        }
        let end = self.advance().span;
        self.take(&TokenKind::Semicolon);
        d.exported = false;
        d.name = name;
        d.name_span = name_span;
        d.entity_type = entity_type;
        d.span = start.merge(end);
        Ok(d)
    }
}

} // verus!
