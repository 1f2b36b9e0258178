//! What the property words of entity queries mean: each property word,
//! in either spelling, adds its own filter to the query.

use vstd::prelude::*;
use super::cursor::{Token, TokenKind, Span};
use super::query::{QueryView, query_step_spec};
use crate::parser::keywords::values::query_property_spec;
use crate::parser::keywords::spellings::lemma_query_property_spellings;

verus! {

broadcast use vstd::string::group_string_axioms;

proof fn lemma_property_words()
    ensures
        "tag"@ != "without_tag"@,
        "tag"@ != "type"@,
        "tag"@ != "without_type"@,
        "tag"@ != "limit"@,
        "tag"@ != "within"@,
        "tag"@ != "sort"@,
        "tag"@ != "name"@,
        "tag"@ != "without_name"@,
        "tag"@ != "scores"@,
        "tag"@ != "nbt"@,
        "tag"@ != "without_nbt"@,
        "tag"@ != "box"@,
        "tag"@ != "distance"@,
        "tag"@ != "level"@,
        "tag"@ != "gamemode"@,
        "tag"@ != "team"@,
        "tag"@ != "without_team"@,
        "tag"@ != "rotate"@,
        "tag"@ != "predicate"@,
        "tag"@ != "advancements"@,
        "tag"@ != "item"@,
        "without_tag"@ != "type"@,
        "without_tag"@ != "without_type"@,
        "without_tag"@ != "limit"@,
        "without_tag"@ != "within"@,
        "without_tag"@ != "sort"@,
        "without_tag"@ != "name"@,
        "without_tag"@ != "without_name"@,
        "without_tag"@ != "scores"@,
        "without_tag"@ != "nbt"@,
        "without_tag"@ != "without_nbt"@,
        "without_tag"@ != "box"@,
        "without_tag"@ != "distance"@,
        "without_tag"@ != "level"@,
        "without_tag"@ != "gamemode"@,
        "without_tag"@ != "team"@,
        "without_tag"@ != "without_team"@,
        "without_tag"@ != "rotate"@,
        "without_tag"@ != "predicate"@,
        "without_tag"@ != "advancements"@,
        "without_tag"@ != "item"@,
        "type"@ != "without_type"@,
        "type"@ != "limit"@,
        "type"@ != "within"@,
        "type"@ != "sort"@,
        "type"@ != "name"@,
        "type"@ != "without_name"@,
        "type"@ != "scores"@,
        "type"@ != "nbt"@,
        "type"@ != "without_nbt"@,
        "type"@ != "box"@,
        "type"@ != "distance"@,
        "type"@ != "level"@,
        "type"@ != "gamemode"@,
        "type"@ != "team"@,
        "type"@ != "without_team"@,
        "type"@ != "rotate"@,
        "type"@ != "predicate"@,
        "type"@ != "advancements"@,
        "type"@ != "item"@,
        "without_type"@ != "limit"@,
        "without_type"@ != "within"@,
        "without_type"@ != "sort"@,
        "without_type"@ != "name"@,
        "without_type"@ != "without_name"@,
        "without_type"@ != "scores"@,
        "without_type"@ != "nbt"@,
        "without_type"@ != "without_nbt"@,
        "without_type"@ != "box"@,
        "without_type"@ != "distance"@,
        "without_type"@ != "level"@,
        "without_type"@ != "gamemode"@,
        "without_type"@ != "team"@,
        "without_type"@ != "without_team"@,
        "without_type"@ != "rotate"@,
        "without_type"@ != "predicate"@,
        "without_type"@ != "advancements"@,
        "without_type"@ != "item"@,
        "limit"@ != "within"@,
        "limit"@ != "sort"@,
        "limit"@ != "name"@,
        "limit"@ != "without_name"@,
        "limit"@ != "scores"@,
        "limit"@ != "nbt"@,
        "limit"@ != "without_nbt"@,
        "limit"@ != "box"@,
        "limit"@ != "distance"@,
        "limit"@ != "level"@,
        "limit"@ != "gamemode"@,
        "limit"@ != "team"@,
        "limit"@ != "without_team"@,
        "limit"@ != "rotate"@,
        "limit"@ != "predicate"@,
        "limit"@ != "advancements"@,
        "limit"@ != "item"@,
        "within"@ != "sort"@,
        "within"@ != "name"@,
        "within"@ != "without_name"@,
        "within"@ != "scores"@,
        "within"@ != "nbt"@,
        "within"@ != "without_nbt"@,
        "within"@ != "box"@,
        "within"@ != "distance"@,
        "within"@ != "level"@,
        "within"@ != "gamemode"@,
        "within"@ != "team"@,
        "within"@ != "without_team"@,
        "within"@ != "rotate"@,
        "within"@ != "predicate"@,
        "within"@ != "advancements"@,
        "within"@ != "item"@,
        "sort"@ != "name"@,
        "sort"@ != "without_name"@,
        "sort"@ != "scores"@,
        "sort"@ != "nbt"@,
        "sort"@ != "without_nbt"@,
        "sort"@ != "box"@,
        "sort"@ != "distance"@,
        "sort"@ != "level"@,
        "sort"@ != "gamemode"@,
        "sort"@ != "team"@,
        "sort"@ != "without_team"@,
        "sort"@ != "rotate"@,
        "sort"@ != "predicate"@,
        "sort"@ != "advancements"@,
        "sort"@ != "item"@,
        "name"@ != "without_name"@,
        "name"@ != "scores"@,
        "name"@ != "nbt"@,
        "name"@ != "without_nbt"@,
        "name"@ != "box"@,
        "name"@ != "distance"@,
        "name"@ != "level"@,
        "name"@ != "gamemode"@,
        "name"@ != "team"@,
        "name"@ != "without_team"@,
        "name"@ != "rotate"@,
        "name"@ != "predicate"@,
        "name"@ != "advancements"@,
        "name"@ != "item"@,
        "without_name"@ != "scores"@,
        "without_name"@ != "nbt"@,
        "without_name"@ != "without_nbt"@,
        "without_name"@ != "box"@,
        "without_name"@ != "distance"@,
        "without_name"@ != "level"@,
        "without_name"@ != "gamemode"@,
        "without_name"@ != "team"@,
        "without_name"@ != "without_team"@,
        "without_name"@ != "rotate"@,
        "without_name"@ != "predicate"@,
        "without_name"@ != "advancements"@,
        "without_name"@ != "item"@,
        "scores"@ != "nbt"@,
        "scores"@ != "without_nbt"@,
        "scores"@ != "box"@,
        "scores"@ != "distance"@,
        "scores"@ != "level"@,
        "scores"@ != "gamemode"@,
        "scores"@ != "team"@,
        "scores"@ != "without_team"@,
        "scores"@ != "rotate"@,
        "scores"@ != "predicate"@,
        "scores"@ != "advancements"@,
        "scores"@ != "item"@,
        "nbt"@ != "without_nbt"@,
        "nbt"@ != "box"@,
        "nbt"@ != "distance"@,
        "nbt"@ != "level"@,
        "nbt"@ != "gamemode"@,
        "nbt"@ != "team"@,
        "nbt"@ != "without_team"@,
        "nbt"@ != "rotate"@,
        "nbt"@ != "predicate"@,
        "nbt"@ != "advancements"@,
        "nbt"@ != "item"@,
        "without_nbt"@ != "box"@,
        "without_nbt"@ != "distance"@,
        "without_nbt"@ != "level"@,
        "without_nbt"@ != "gamemode"@,
        "without_nbt"@ != "team"@,
        "without_nbt"@ != "without_team"@,
        "without_nbt"@ != "rotate"@,
        "without_nbt"@ != "predicate"@,
        "without_nbt"@ != "advancements"@,
        "without_nbt"@ != "item"@,
        "box"@ != "distance"@,
        "box"@ != "level"@,
        "box"@ != "gamemode"@,
        "box"@ != "team"@,
        "box"@ != "without_team"@,
        "box"@ != "rotate"@,
        "box"@ != "predicate"@,
        "box"@ != "advancements"@,
        "box"@ != "item"@,
        "distance"@ != "level"@,
        "distance"@ != "gamemode"@,
        "distance"@ != "team"@,
        "distance"@ != "without_team"@,
        "distance"@ != "rotate"@,
        "distance"@ != "predicate"@,
        "distance"@ != "advancements"@,
        "distance"@ != "item"@,
        "level"@ != "gamemode"@,
        "level"@ != "team"@,
        "level"@ != "without_team"@,
        "level"@ != "rotate"@,
        "level"@ != "predicate"@,
        "level"@ != "advancements"@,
        "level"@ != "item"@,
        "gamemode"@ != "team"@,
        "gamemode"@ != "without_team"@,
        "gamemode"@ != "rotate"@,
        "gamemode"@ != "predicate"@,
        "gamemode"@ != "advancements"@,
        "gamemode"@ != "item"@,
        "team"@ != "without_team"@,
        "team"@ != "rotate"@,
        "team"@ != "predicate"@,
        "team"@ != "advancements"@,
        "team"@ != "item"@,
        "without_team"@ != "rotate"@,
        "without_team"@ != "predicate"@,
        "without_team"@ != "advancements"@,
        "without_team"@ != "item"@,
        "rotate"@ != "predicate"@,
        "rotate"@ != "advancements"@,
        "rotate"@ != "item"@,
        "predicate"@ != "advancements"@,
        "predicate"@ != "item"@,
        "advancements"@ != "item"@,
{
    reveal_strlit("tag");
    reveal_strlit("without_tag");
    reveal_strlit("type");
    reveal_strlit("without_type");
    reveal_strlit("limit");
    reveal_strlit("within");
    reveal_strlit("sort");
    reveal_strlit("name");
    reveal_strlit("without_name");
    reveal_strlit("scores");
    reveal_strlit("nbt");
    reveal_strlit("without_nbt");
    reveal_strlit("box");
    reveal_strlit("distance");
    reveal_strlit("level");
    reveal_strlit("gamemode");
    reveal_strlit("team");
    reveal_strlit("without_team");
    reveal_strlit("rotate");
    reveal_strlit("predicate");
    reveal_strlit("advancements");
    reveal_strlit("item");
    assert("tag"@.len() == 3 && "tag"@[0] == 't');
    assert("without_tag"@.len() == 11 && "without_tag"@[8] == 't');
    assert("type"@.len() == 4 && "type"@[0] == 't' && "type"@[1] == 'y');
    assert("without_type"@.len() == 12 && "without_type"@[0] == 'w' && "without_type"@[8] == 't' && "without_type"@[9] == 'y');
    assert("limit"@.len() == 5 && "limit"@[1] == 'i');
    assert("within"@.len() == 6 && "within"@[0] == 'w');
    assert("sort"@.len() == 4 && "sort"@[0] == 's');
    assert("name"@.len() == 4 && "name"@[0] == 'n');
    assert("without_name"@.len() == 12 && "without_name"@[0] == 'w' && "without_name"@[8] == 'n');
    assert("scores"@.len() == 6 && "scores"@[0] == 's');
    assert("nbt"@.len() == 3 && "nbt"@[0] == 'n');
    assert("without_nbt"@.len() == 11 && "without_nbt"@[8] == 'n');
    assert("box"@.len() == 3 && "box"@[0] == 'b');
    assert("distance"@.len() == 8 && "distance"@[0] == 'd');
    assert("level"@.len() == 5 && "level"@[1] == 'e');
    assert("gamemode"@.len() == 8 && "gamemode"@[0] == 'g');
    assert("team"@.len() == 4 && "team"@[0] == 't' && "team"@[1] == 'e');
    assert("without_team"@.len() == 12 && "without_team"@[0] == 'w' && "without_team"@[8] == 't' && "without_team"@[9] == 'e');
    assert("rotate"@.len() == 6 && "rotate"@[0] == 'r');
    assert("predicate"@.len() == 9);
    assert("advancements"@.len() == 12 && "advancements"@[0] == 'a');
    assert("item"@.len() == 4 && "item"@[0] == 'i');
}

/// `tag("x");` keeps the entities tagged `x` and `without_tag("x");` leaves
/// them out, in either spelling of the property.
pub proof fn lemma_tag_words(t: Seq<Token>, c: int, p: Seq<char>, ps: Span, s: QueryView, v: String)
    requires
        0 <= c,
        c + 4 < t.len(),
        (p == "tag"@ || p == "标签"@) || (p == "without_tag"@ || p == "排除标签"@),
        t[c + 1].kind is LeftParen,
        t[c + 2].kind == TokenKind::String(v),
        t[c + 3].kind is RightParen,
        t[c + 4].kind is Semicolon,
    ensures
        (p == "tag"@ || p == "标签"@) ==> query_step_spec(t, c, p, query_property_spec(p)->0, ps, s) == Ok::<(QueryView, int), (Seq<char>, Span)>((QueryView { tags: s.tags.push(v@), ..s }, c + 5)),
        (p == "without_tag"@ || p == "排除标签"@) ==> query_step_spec(t, c, p, query_property_spec(p)->0, ps, s) == Ok::<(QueryView, int), (Seq<char>, Span)>((QueryView { excluded_tags: s.excluded_tags.push(v@), ..s }, c + 5)),
{
    lemma_query_property_spellings(p);
    lemma_property_words();
}

/// `type("x");` keeps the entities of type `x` and `without_type("x");`
/// leaves them out: the filter records which, with the type and its span.
pub proof fn lemma_type_words(t: Seq<Token>, c: int, p: Seq<char>, ps: Span, s: QueryView, v: String)
    requires
        0 <= c,
        c + 4 < t.len(),
        (p == "type"@ || p == "实体类型"@) || (p == "without_type"@ || p == "排除类型"@),
        t[c + 1].kind is LeftParen,
        t[c + 2].kind == TokenKind::String(v),
        t[c + 3].kind is RightParen,
        t[c + 4].kind is Semicolon,
    ensures
        query_step_spec(t, c, p, query_property_spec(p)->0, ps, s) == Ok::<(QueryView, int), (Seq<char>, Span)>(
            (QueryView { type_filters: s.type_filters.push(((p == "type"@ || p == "实体类型"@), v@, t[c + 2].span)), ..s }, c + 5),
        ),
{
    lemma_query_property_spellings(p);
    lemma_property_words();
}

/// `name`, `nbt` and `team` each set their own filter, and their
/// `without_` forms set the same filter negated.
pub proof fn lemma_filter_words(t: Seq<Token>, c: int, p: Seq<char>, ps: Span, s: QueryView, v: String)
    requires
        0 <= c,
        c + 4 < t.len(),
        s.name_filter is None,
        s.nbt_filter is None,
        s.team_filter is None,
        t[c + 1].kind is LeftParen,
        t[c + 2].kind == TokenKind::String(v),
        t[c + 3].kind is RightParen,
        t[c + 4].kind is Semicolon,
    ensures
        (p == "name"@ || p == "名称"@) ==> query_step_spec(t, c, p, query_property_spec(p)->0, ps, s) == Ok::<(QueryView, int), (Seq<char>, Span)>((QueryView { name_filter: Some((v@, false, t[c + 2].span)), ..s }, c + 5)),
        (p == "without_name"@ || p == "排除名称"@) ==> query_step_spec(t, c, p, query_property_spec(p)->0, ps, s) == Ok::<(QueryView, int), (Seq<char>, Span)>((QueryView { name_filter: Some((v@, true, t[c + 2].span)), ..s }, c + 5)),
        (p == "nbt"@ || p == "数据"@) ==> query_step_spec(t, c, p, query_property_spec(p)->0, ps, s) == Ok::<(QueryView, int), (Seq<char>, Span)>((QueryView { nbt_filter: Some((v@, false, t[c + 2].span)), ..s }, c + 5)),
        (p == "without_nbt"@ || p == "排除数据"@) ==> query_step_spec(t, c, p, query_property_spec(p)->0, ps, s) == Ok::<(QueryView, int), (Seq<char>, Span)>((QueryView { nbt_filter: Some((v@, true, t[c + 2].span)), ..s }, c + 5)),
        (p == "team"@ || p == "队伍"@) ==> query_step_spec(t, c, p, query_property_spec(p)->0, ps, s) == Ok::<(QueryView, int), (Seq<char>, Span)>((QueryView { team_filter: Some((v@, false, t[c + 2].span)), ..s }, c + 5)),
        (p == "without_team"@ || p == "排除队伍"@) ==> query_step_spec(t, c, p, query_property_spec(p)->0, ps, s) == Ok::<(QueryView, int), (Seq<char>, Span)>((QueryView { team_filter: Some((v@, true, t[c + 2].span)), ..s }, c + 5)),
{
    lemma_query_property_spellings(p);
    lemma_property_words();
}

/// `limit(n);` caps how many entities a query finds and `within(n);` how
/// far it looks.
pub proof fn lemma_count_words(t: Seq<Token>, c: int, p: Seq<char>, ps: Span, s: QueryView, n: i64)
    requires
        0 <= c,
        c + 4 < t.len(),
        s.limit is None,
        s.within is None,
        0 <= n <= u32::MAX,
        t[c + 1].kind is LeftParen,
        t[c + 2].kind == TokenKind::Number(n),
        t[c + 3].kind is RightParen,
        t[c + 4].kind is Semicolon,
    ensures
        (p == "limit"@ || p == "上限"@) ==> query_step_spec(t, c, p, query_property_spec(p)->0, ps, s) == Ok::<(QueryView, int), (Seq<char>, Span)>((QueryView { limit: Some(n as u32), ..s }, c + 5)),
        (p == "within"@ || p == "范围"@) ==> query_step_spec(t, c, p, query_property_spec(p)->0, ps, s) == Ok::<(QueryView, int), (Seq<char>, Span)>((QueryView { within: Some(n as u32), ..s }, c + 5)),
{
    lemma_query_property_spellings(p);
    lemma_property_words();
}

} // verus!
