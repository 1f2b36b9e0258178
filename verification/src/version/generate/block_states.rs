//! Block state properties, as the client's blockstate model files show
//! them: each property with every value a variant selector or a multipart
//! condition names. Properties that no model depends on (such as
//! waterlogging) may be missing; checks treat them conservatively.

use vstd::prelude::*;
use crate::chars::{chars_of, find_from, find_from_spec, lemma_find_from, slice_vec, str_eq};
use crate::json::{Json, get, json_get, parse_json, parsed_json};
use crate::sorted::{seq_views, StringSet, represents, map_has, map_insert, lookup, lemma_empty_represents, lemma_push_to_set};

verus! {

broadcast use vstd::string::group_string_axioms;

/// The pieces of `s` between the separators `sep` (`str::split`).
pub open spec fn split_on(s: Seq<char>, sep: char) -> Seq<Seq<char>>
    decreases s.len(),
{
    match find_from_spec(s, seq![sep], 0) {
        Some(i) => if 0 <= i < s.len() {
            seq![s.take(i)] + split_on(s.skip(i + 1), sep)
        } else {
            seq![s]
        },
        None => seq![s],
    }
}

/// Each property with its values.
pub type Properties = Map<Seq<char>, Set<Seq<char>>>;

/// The properties after adding every `|`-separated value of `value` to
/// property `name`.
pub open spec fn with_values(m: Properties, name: Seq<char>, value: Seq<char>) -> Properties {
    let known = if m.contains_key(name) {
        m[name]
    } else {
        Set::empty()
    };
    m.insert(name, known.union(split_on(value, '|').to_set()))
}

/// The pieces of a text split at `sep`.
pub fn split_pieces(s: &[char], sep: char) -> (r: Vec<Vec<char>>)
    ensures
        seq_views(r@) == split_on(s@, sep),
    decreases s.len(),
{
    let marker = vec![sep];
    assert(marker@ =~= seq![sep]);
    match find_from(s, marker.as_slice(), 0) {
        Some(i) => {
            proof {
                lemma_find_from(s@, seq![sep], 0);
            }
            let head = slice_vec(s, 0, i);
            let tail = slice_vec(s, i + 1, s.len());
            assert(head@ =~= s@.take(i as int));
            assert(tail@ =~= s@.skip(i + 1));
            let rest = split_pieces(tail.as_slice(), sep);
            let mut r = Vec::new();
            r.push(head);
            let mut k: usize = 0;
            let ghost first = r@;
            while k < rest.len()
                invariant
                    k <= rest@.len(),
                    r@.len() == k + 1,
                    seq_views(r@) == seq![s@.take(i as int)] + seq_views(rest@).take(
                        k as int,
                    ),
                decreases rest.len() - k,
            {
                let piece = slice_vec(rest[k].as_slice(), 0, rest[k].len());
                assert(piece@ =~= rest@[k as int]@);
                proof {
                    crate::sorted::lemma_seq_views_push(r@, piece);
                    assert(seq_views(rest@).take(k + 1) =~= seq_views(rest@).take(k as int).push(piece@));
                }
                r.push(piece);
                k += 1;
                assert(seq_views(r@) =~= seq![s@.take(i as int)] + seq_views(rest@).take(k as int));
            }
            assert(seq_views(rest@).take(k as int) =~= seq_views(rest@));
            r
        },
        None => {
            let mut r: Vec<Vec<char>> = Vec::new();
            let piece = slice_vec(s, 0, s.len());
            assert(piece@ =~= s@);
            proof {
                crate::sorted::lemma_seq_views_push(r@, piece);
            }
            r.push(piece);
            assert(seq_views(r@) =~= seq![s@]);
            r
        },
    }
}

/// Adds every `|`-separated value of `value` to property `name`.
pub fn insert_values(properties: &mut Vec<(Vec<char>, StringSet)>, name: &[char], value: &[char], Ghost(m): Ghost<Properties>)
    requires
        represents(old(properties)@, m),
    ensures
        represents(final(properties)@, with_values(m, name@, value@)),
{
    let pieces = split_pieces(value, '|');
    let ghost ps = seq_views(pieces@);
    let mut set = match lookup(properties, name, Ghost(m)) {
        Some(existing) => existing.copy(),
        None => StringSet::new(),
    };
    let ghost known = set@;
    assert(known == (if m.contains_key(name@) {
        m[name@]
    } else {
        Set::<Seq<char>>::empty()
    }));
    let mut k: usize = 0;
    while k < pieces.len()
        invariant
            k <= pieces@.len(),
            ps == seq_views(pieces@),
            set@ == known.union(ps.take(k as int).to_set()),
        decreases pieces.len() - k,
    {
        let piece = slice_vec(pieces[k].as_slice(), 0, pieces[k].len());
        assert(piece@ == ps[k as int]);
        set.insert(piece);
        proof {
            assert(ps.take(k + 1) =~= ps.take(k as int).push(ps[k as int]));
            lemma_push_to_set(ps.take(k as int), ps[k as int]);
            assert(set@ =~= known.union(ps.take(k + 1).to_set()));
        }
        k += 1;
    }
    assert(ps.take(k as int) =~= ps);
    assert(ps == split_on(value@, '|'));
    let key = slice_vec(name, 0, name.len());
    assert(key@ =~= name@);
    map_insert(properties, key, set);
}

/// The properties that a multipart condition names, added to `m`: each
/// member `property: "a|b"` adds its values; `OR` and `AND` members and
/// arrays are read recursively.
pub open spec fn conditions(m: Properties, v: Json) -> Properties
    decreases v, 0int,
{
    match v {
        Json::Object(ms) => {
            proof {
                assert(decreases_to!(ms => ms@));
            }
            member_conditions(m, ms@, ms@.len() as int)
        },
        Json::Array(items) => {
            proof {
                assert(decreases_to!(items => items@));
            }
            item_conditions(m, items@, items@.len() as int)
        },
        _ => m,
    }
}

/// `conditions` over the first `n` members of an object.
pub open spec fn member_conditions(m: Properties, ms: Seq<(String, Json)>, n: int) -> Properties
    decreases ms, n,
{
    if n <= 0 || n > ms.len() {
        m
    } else {
        let before = member_conditions(m, ms, n - 1);
        let key = ms[n - 1].0@;
        if key == "OR"@ || key == "AND"@ {
            proof {
                assert(decreases_to!(ms => ms[n - 1]));
            }
            conditions(before, ms[n - 1].1)
        } else {
            match ms[n - 1].1 {
                Json::Str(s) => with_values(before, key, s@),
                _ => before,
            }
        }
    }
}

/// `conditions` over the first `n` items of an array.
pub open spec fn item_conditions(m: Properties, items: Seq<Json>, n: int) -> Properties
    decreases items, n,
{
    if n <= 0 || n > items.len() {
        m
    } else {
        proof {
            assert(decreases_to!(items => items[n - 1]));
        }
        conditions(item_conditions(m, items, n - 1), items[n - 1])
    }
}

/// Adds the properties that a multipart condition names.
pub fn collect_conditions(value: &Json, properties: &mut Vec<(Vec<char>, StringSet)>, Ghost(m): Ghost<Properties>)
    requires
        represents(old(properties)@, m),
    ensures
        represents(final(properties)@, conditions(m, *value)),
    decreases value, 0int,
{
    match value {
        Json::Object(ms) => {
            let ghost mut current = m;
            let mut i: usize = 0;
            while i < ms.len()
                invariant
                    i <= ms@.len(),
                    *value == Json::Object(*ms),
                    represents(properties@, current),
                    current == member_conditions(m, ms@, i as int),
                decreases ms.len() - i,
            {
                let key = ms[i].0.as_str();
                if str_eq(key, "OR") || str_eq(key, "AND") {
                    proof {
                        assert(value->Object_0 == *ms);
                        assert(decreases_to!(*value => value->Object_0));
                        assert(decreases_to!(*ms => ms@));
                        assert(decreases_to!(ms@ => ms@[i as int]));
                        assert(decreases_to!(ms@[i as int] => ms@[i as int].1));
                        assert(decreases_to!(*value => ms@[i as int].1));
                    }
                    collect_conditions(&ms[i].1, properties, Ghost(current));
                    proof {
                        current = conditions(current, ms@[i as int].1);
                    }
                } else if let Json::Str(text) = &ms[i].1 {
                    let k = chars_of(key);
                    let v = chars_of(text.as_str());
                    insert_values(properties, k.as_slice(), v.as_slice(), Ghost(current));
                    proof {
                        current = with_values(current, key@, text@);
                    }
                }
                i += 1;
            }
        },
        Json::Array(items) => {
            let ghost mut current = m;
            let mut i: usize = 0;
            while i < items.len()
                invariant
                    i <= items@.len(),
                    *value == Json::Array(*items),
                    represents(properties@, current),
                    current == item_conditions(m, items@, i as int),
                decreases items.len() - i,
            {
                proof {
                    assert(value->Array_0 == *items);
                    assert(decreases_to!(*value => value->Array_0));
                    assert(decreases_to!(*items => items@));
                    assert(decreases_to!(items@ => items@[i as int]));
                    assert(decreases_to!(*value => items@[i as int]));
                }
                collect_conditions(&items[i], properties, Ghost(current));
                proof {
                    current = conditions(current, items@[i as int]);
                }
                i += 1;
            }
        },
        _ => {},
    }
}

/// The properties of the first `n` `name=value` pieces of a variant
/// selector (empty pieces and pieces without `=` add nothing).
pub open spec fn pieces_props(m: Properties, pieces: Seq<Seq<char>>, n: int) -> Properties
    decreases n,
{
    if n <= 0 || n > pieces.len() {
        m
    } else {
        let before = pieces_props(m, pieces, n - 1);
        let p = pieces[n - 1];
        if p.len() == 0 {
            before
        } else {
            match find_from_spec(p, seq!['='], 0) {
                Some(e) => with_values(before, p.take(e), p.skip(e + 1)),
                None => before,
            }
        }
    }
}

/// The properties of the first `n` variant selectors.
pub open spec fn variant_props(m: Properties, variants: Seq<(String, Json)>, n: int) -> Properties
    decreases n,
{
    if n <= 0 || n > variants.len() {
        m
    } else {
        let pieces = split_on(variants[n - 1].0@, ',');
        pieces_props(variant_props(m, variants, n - 1), pieces, pieces.len() as int)
    }
}

/// The properties of the conditions of the first `n` multipart parts.
pub open spec fn parts_props(m: Properties, parts: Seq<Json>, n: int) -> Properties
    decreases n,
{
    if n <= 0 || n > parts.len() {
        m
    } else {
        let before = parts_props(m, parts, n - 1);
        match json_get(parts[n - 1], "when"@) {
            Some(condition) => conditions(before, condition),
            None => before,
        }
    }
}

/// The properties that one blockstate file shows: from its variant
/// selectors, then from its multipart conditions.
pub open spec fn block_props(document: Json) -> Properties {
    let from_variants = match json_get(document, "variants"@) {
        Some(Json::Object(ms)) => variant_props(Map::empty(), ms@, ms@.len() as int),
        _ => Map::empty(),
    };
    match json_get(document, "multipart"@) {
        Some(Json::Array(parts)) => parts_props(from_variants, parts@, parts@.len() as int),
        _ => from_variants,
    }
}

/// Each property of one blockstate file with its values, sorted by name.
pub fn block_properties(document: &Json) -> (r: Vec<(Vec<char>, StringSet)>)
    ensures
        represents(r@, block_props(*document)),
{
    let mut properties: Vec<(Vec<char>, StringSet)> = Vec::new();
    let ghost mut current: Properties = Map::empty();
    proof {
        lemma_empty_represents(properties@);
    }
    if let Some(Json::Object(variants)) = get(document, "variants") {
        let mut i: usize = 0;
        while i < variants.len()
            invariant
                i <= variants@.len(),
                represents(properties@, current),
                current == variant_props(Map::empty(), variants@, i as int),
            decreases variants.len() - i,
        {
            let selector = chars_of(variants[i].0.as_str());
            let pieces = split_pieces(selector.as_slice(), ',');
            let ghost ps = seq_views(pieces@);
            let ghost start = current;
            let mut k: usize = 0;
            while k < pieces.len()
                invariant
                    k <= pieces@.len(),
                    ps == seq_views(pieces@),
                    represents(properties@, current),
                    current == pieces_props(start, ps, k as int),
                decreases pieces.len() - k,
            {
                let piece = &pieces[k];
                assert(ps[k as int] == piece@);
                if piece.len() > 0 {
                    let equals = vec!['='];
                    assert(equals@ =~= seq!['=']);
                    if let Some(e) = find_from(piece.as_slice(), equals.as_slice(), 0) {
                        proof {
                            lemma_find_from(piece@, seq!['='], 0);
                        }
                        let name = slice_vec(piece.as_slice(), 0, e);
                        let value = slice_vec(piece.as_slice(), e + 1, piece.len());
                        assert(name@ =~= piece@.take(e as int));
                        assert(value@ =~= piece@.skip(e + 1));
                        insert_values(&mut properties, name.as_slice(), value.as_slice(), Ghost(current));
                        proof {
                            current = with_values(current, name@, value@);
                        }
                    }
                }
                k += 1;
            }
            i += 1;
        }
    }
    if let Some(Json::Array(parts)) = get(document, "multipart") {
        let ghost start = current;
        let mut i: usize = 0;
        while i < parts.len()
            invariant
                i <= parts@.len(),
                represents(properties@, current),
                current == parts_props(start, parts@, i as int),
            decreases parts.len() - i,
        {
            if let Some(condition) = get(&parts[i], "when") {
                collect_conditions(condition, &mut properties, Ghost(current));
                proof {
                    current = conditions(current, *condition);
                }
            }
            i += 1;
        }
    }
    properties
}

/// The properties of a blockstate file given as text, or the JSON parser's
/// error text.
pub fn block_state_properties(text: &str) -> (r: Result<Vec<(Vec<char>, StringSet)>, String>)
    ensures
        match (r, parsed_json(text@)) {
            (Ok(p), Ok(doc)) => represents(p@, block_props(doc)),
            (Err(e), Err(m)) => e@ == m,
            _ => false,
        },
{
    match parse_json(text) {
        Ok(doc) => Ok(block_properties(&doc)),
        Err(e) => Err(e),
    }
}

} // verus!
