//! The registry id table: each registry with the `minecraft:` ids that the
//! bundled sources register, and the derived ids (colored and copper
//! variants, spawn eggs, music discs, trim templates).

use vstd::prelude::*;
use vstd::string::StringExecFns;
use crate::chars::chars_of;
use crate::json::{Json, json_get, parsed_json};
use crate::sorted::{seq_less, StringSet, represents, entry_keys, map_has, map_insert, lookup, lemma_empty_represents, lemma_push_to_set, string_views, strictly_sorted};
use super::text::{
    call_args, string_args_in_calls, ident_args_in_calls, first_string, last_integer, first_string_spec,
    last_integer_spec, constant_string_pairs, first_strings, ident_args, call_args_spec,
    represents_strings, pairs_has, pairs_spec, split_lines_spec,
};

verus! {

broadcast use vstd::string::group_string_axioms;

/// The sixteen dye colors, in their source order.
pub open spec fn dye_colors() -> Seq<Seq<char>> {
    seq![
        "white"@, "orange"@, "magenta"@, "light_blue"@, "yellow"@, "lime"@, "pink"@, "gray"@,
        "light_gray"@, "cyan"@, "purple"@, "blue"@, "brown"@, "green"@, "red"@, "black"@,
    ]
}

/// The eight copper weathering prefixes.
pub open spec fn copper_prefixes() -> Seq<Seq<char>> {
    seq![
        ""@, "exposed_"@, "weathered_"@, "oxidized_"@, "waxed_"@, "waxed_exposed_"@,
        "waxed_weathered_"@, "waxed_oxidized_"@,
    ]
}

pub fn dye_color_table() -> (r: Vec<&'static str>)
    ensures
        r@.map_values(|s: &str| s@) == dye_colors(),
{
    let r = vec![
        "white", "orange", "magenta", "light_blue", "yellow", "lime", "pink", "gray",
        "light_gray", "cyan", "purple", "blue", "brown", "green", "red", "black",
    ];
    assert(r@.map_values(|s: &str| s@) =~= dye_colors());
    r
}

pub fn copper_prefix_table() -> (r: Vec<&'static str>)
    ensures
        r@.map_values(|s: &str| s@) == copper_prefixes(),
{
    let r = vec![
        "", "exposed_", "weathered_", "oxidized_", "waxed_", "waxed_exposed_",
        "waxed_weathered_", "waxed_oxidized_",
    ];
    assert(r@.map_values(|s: &str| s@) =~= copper_prefixes());
    r
}

/// The ids of a registry, or none.
pub open spec fn ids_of(m: Map<Seq<char>, Set<Seq<char>>>, kind: Seq<char>) -> Set<Seq<char>> {
    if m.contains_key(kind) {
        m[kind]
    } else {
        Set::empty()
    }
}

/// The table with `ids` added to registry `kind`; a registry is created by
/// its first id.
pub open spec fn with_ids(m: Map<Seq<char>, Set<Seq<char>>>, kind: Seq<char>, ids: Set<Seq<char>>) -> Map<
    Seq<char>,
    Set<Seq<char>>,
> {
    if ids == Set::<Seq<char>>::empty() && !m.contains_key(kind) {
        m
    } else {
        m.insert(kind, ids_of(m, kind).union(ids))
    }
}

/// `minecraft:` before each of `ids`.
pub open spec fn namespaced(ids: Set<Seq<char>>) -> Set<Seq<char>> {
    Set::new(|x: Seq<char>| exists|id: Seq<char>| ids.contains(id) && x == "minecraft:"@ + id)
}

proof fn lemma_namespaced_insert(ids: Set<Seq<char>>, v: Seq<char>)
    ensures
        namespaced(ids.insert(v)) == namespaced(ids).insert("minecraft:"@ + v),
{
    let a = namespaced(ids.insert(v));
    let b = namespaced(ids).insert("minecraft:"@ + v);
    assert forall|x: Seq<char>| a.contains(x) implies b.contains(x) by {
        let id = choose|id: Seq<char>| ids.insert(v).contains(id) && x == "minecraft:"@ + id;
        if id != v {
            assert(ids.contains(id));
        }
    }
    assert forall|x: Seq<char>| b.contains(x) implies a.contains(x) by {
        if x == "minecraft:"@ + v {
            assert(ids.insert(v).contains(v));
        } else {
            let id = choose|id: Seq<char>| ids.contains(id) && x == "minecraft:"@ + id;
            assert(ids.insert(v).contains(id));
        }
    }
    assert(a =~= b);
}

proof fn lemma_namespaced_empty()
    ensures
        namespaced(Set::empty()) == Set::<Seq<char>>::empty(),
{
    assert(namespaced(Set::empty()) =~= Set::<Seq<char>>::empty());
}

proof fn lemma_with_ids_twice(
    m: Map<Seq<char>, Set<Seq<char>>>,
    kind: Seq<char>,
    a: Set<Seq<char>>,
    b: Set<Seq<char>>,
)
    ensures
        with_ids(with_ids(m, kind, a), kind, b) == with_ids(m, kind, a.union(b)),
{
    if a == Set::<Seq<char>>::empty() && !m.contains_key(kind) {
        assert(a.union(b) =~= b);
    } else {
        assert(ids_of(with_ids(m, kind, a), kind) == ids_of(m, kind).union(a));
        assert(ids_of(m, kind).union(a).union(b) =~= ids_of(m, kind).union(a.union(b)));
        if a.union(b) == Set::<Seq<char>>::empty() {
            assert(a =~= Set::<Seq<char>>::empty());
        }
        assert(with_ids(with_ids(m, kind, a), kind, b) =~= with_ids(m, kind, a.union(b)));
    }
}

proof fn lemma_with_ids_empty(m: Map<Seq<char>, Set<Seq<char>>>, kind: Seq<char>)
    ensures
        with_ids(m, kind, Set::empty()) == m,
{
    if m.contains_key(kind) {
        assert(ids_of(m, kind).union(Set::empty()) =~= ids_of(m, kind));
        assert(with_ids(m, kind, Set::empty()) =~= m);
    }
}

proof fn lemma_with_ids_commute(
    m: Map<Seq<char>, Set<Seq<char>>>,
    k1: Seq<char>,
    a: Set<Seq<char>>,
    k2: Seq<char>,
    b: Set<Seq<char>>,
)
    requires
        k1 != k2,
    ensures
        with_ids(with_ids(m, k1, a), k2, b) == with_ids(with_ids(m, k2, b), k1, a),
{
    assert(ids_of(with_ids(m, k1, a), k2) == ids_of(m, k2));
    assert(ids_of(with_ids(m, k2, b), k1) == ids_of(m, k1));
    assert(with_ids(with_ids(m, k1, a), k2, b) =~= with_ids(with_ids(m, k2, b), k1, a));
}

/// Every `{prefix}{joiner}{base}` for a prefix of `prefixes` and a base of
/// `bases`.
pub open spec fn joined(prefixes: Seq<Seq<char>>, joiner: Seq<char>, bases: Set<Seq<char>>) -> Set<Seq<char>> {
    Set::new(
        |x: Seq<char>|
            exists|k: int, b: Seq<char>| 0 <= k < prefixes.len() && bases.contains(b) && x == prefixes[k] + joiner + b,
    )
}

/// Every `{color}_{base}` id.
pub open spec fn colored(bases: Set<Seq<char>>) -> Set<Seq<char>> {
    joined(dye_colors(), "_"@, bases)
}

/// Every `{prefix}{base}` copper id.
pub open spec fn coppered(bases: Set<Seq<char>>) -> Set<Seq<char>> {
    joined(copper_prefixes(), ""@, bases)
}

/// The joined ids of the bases before `i`, and of base `i` with the prefixes
/// before `j`.
spec fn joined_upto(pre: Seq<Seq<char>>, joiner: Seq<char>, bs: Seq<Seq<char>>, i: int, j: int) -> Set<Seq<char>> {
    Set::new(
        |x: Seq<char>|
            exists|a: int, k: int|
                0 <= a < bs.len() && 0 <= k < pre.len() && (a < i || (a == i && k < j)) && x == pre[k] + joiner + bs[a],
    )
}

proof fn lemma_joined_step(pre: Seq<Seq<char>>, joiner: Seq<char>, bs: Seq<Seq<char>>, i: int, j: int)
    requires
        0 <= i < bs.len(),
        0 <= j < pre.len(),
    ensures
        joined_upto(pre, joiner, bs, i, j + 1) == joined_upto(pre, joiner, bs, i, j).insert(pre[j] + joiner + bs[i]),
{
    let a = joined_upto(pre, joiner, bs, i, j + 1);
    let b = joined_upto(pre, joiner, bs, i, j).insert(pre[j] + joiner + bs[i]);
    assert forall|x: Seq<char>| a.contains(x) implies b.contains(x) by {
        let (p, k) = choose|p: int, k: int|
            0 <= p < bs.len() && 0 <= k < pre.len() && (p < i || (p == i && k < j + 1)) && x == pre[k] + joiner + bs[p];
        if !(p == i && k == j) {
            assert(joined_upto(pre, joiner, bs, i, j).contains(x));
        }
    }
    assert forall|x: Seq<char>| b.contains(x) implies a.contains(x) by {
        if x == pre[j] + joiner + bs[i] {
            assert(0 <= i < bs.len() && 0 <= j < pre.len() && (i < i || (i == i && j < j + 1)) && x == pre[j] + joiner + bs[i]);
        } else {
            let (p, k) = choose|p: int, k: int|
                0 <= p < bs.len() && 0 <= k < pre.len() && (p < i || (p == i && k < j)) && x == pre[k] + joiner + bs[p];
            assert(0 <= p < bs.len() && 0 <= k < pre.len() && (p < i || (p == i && k < j + 1)) && x == pre[k] + joiner + bs[p]);
        }
    }
    assert(a =~= b);
}

proof fn lemma_joined_row(pre: Seq<Seq<char>>, joiner: Seq<char>, bs: Seq<Seq<char>>, i: int)
    requires
        0 <= i < bs.len(),
    ensures
        joined_upto(pre, joiner, bs, i, pre.len() as int) == joined_upto(pre, joiner, bs, i + 1, 0),
{
    assert(joined_upto(pre, joiner, bs, i, pre.len() as int) =~= joined_upto(pre, joiner, bs, i + 1, 0));
}

proof fn lemma_joined_done(pre: Seq<Seq<char>>, joiner: Seq<char>, bs: Seq<Seq<char>>)
    ensures
        joined_upto(pre, joiner, bs, bs.len() as int, 0) == joined(pre, joiner, bs.to_set()),
        joined_upto(pre, joiner, bs, 0, 0) == Set::<Seq<char>>::empty(),
{
    let a = joined_upto(pre, joiner, bs, bs.len() as int, 0);
    let b = joined(pre, joiner, bs.to_set());
    assert forall|x: Seq<char>| a.contains(x) implies b.contains(x) by {
        let (p, k) = choose|p: int, k: int|
            0 <= p < bs.len() && 0 <= k < pre.len() && (p < bs.len() || (p == bs.len() && k < 0)) && x == pre[k] + joiner + bs[p];
        assert(bs.to_set().contains(bs[p]));
    }
    assert forall|x: Seq<char>| b.contains(x) implies a.contains(x) by {
        let (k, c) = choose|k: int, c: Seq<char>| 0 <= k < pre.len() && bs.to_set().contains(c) && x == pre[k] + joiner + c;
        let p = choose|p: int| 0 <= p < bs.len() && bs[p] == c;
        assert(0 <= p < bs.len() && 0 <= k < pre.len() && (p < bs.len() || (p == bs.len() && k < 0)) && x == pre[k] + joiner + bs[p]);
    }
    assert(a =~= b);
    assert(joined_upto(pre, joiner, bs, 0, 0) =~= Set::<Seq<char>>::empty());
}

/// Every `{prefix}{joiner}{base}`.
pub fn joined_ids(prefixes: &Vec<&str>, joiner: &str, bases: &Vec<String>) -> (r: Vec<String>)
    ensures
        string_views(r@).to_set() == joined(prefixes@.map_values(|s: &str| s@), joiner@, string_views(bases@).to_set()),
{
    let ghost pre = prefixes@.map_values(|s: &str| s@);
    let ghost bs = string_views(bases@);
    let mut out: Vec<String> = Vec::new();
    proof {
        lemma_joined_done(pre, joiner@, bs);
    }
    let mut i: usize = 0;
    while i < bases.len()
        invariant
            i <= bases@.len(),
            pre == prefixes@.map_values(|s: &str| s@),
            bs == string_views(bases@),
            string_views(out@).to_set() == joined_upto(pre, joiner@, bs, i as int, 0),
        decreases bases.len() - i,
    {
        let mut j: usize = 0;
        while j < prefixes.len()
            invariant
                i < bases@.len(),
                j <= prefixes@.len(),
                pre == prefixes@.map_values(|s: &str| s@),
                bs == string_views(bases@),
                string_views(out@).to_set() == joined_upto(pre, joiner@, bs, i as int, j as int),
            decreases prefixes.len() - j,
        {
            let mut id = prefixes[j].to_owned();
            id.append(joiner);
            id.append(bases[i].as_str());
            proof {
                assert(pre[j as int] == prefixes@[j as int]@);
                assert(bs[i as int] == bases@[i as int]@);
                lemma_joined_step(pre, joiner@, bs, i as int, j as int);
                crate::sorted::lemma_string_views_push(out@, id);
                lemma_push_to_set(string_views(out@), id@);
            }
            out.push(id);
            j += 1;
        }
        proof {
            lemma_joined_row(pre, joiner@, bs, i as int);
        }
        i += 1;
    }
    out
}

/// The first string argument of each `call(...)` in `text`.
pub open spec fn call_ids(text: Seq<char>, call: Seq<char>) -> Set<Seq<char>> {
    first_strings(call_args_spec(text, call, 0)).to_set()
}

/// The first of `cs` that `m` lacks.
pub open spec fn first_missing(cs: Seq<Seq<char>>, m: Map<Seq<char>, Seq<char>>) -> Option<Seq<char>>
    decreases cs.len(),
{
    if cs.len() == 0 {
        None
    } else if !m.contains_key(cs[0]) {
        Some(cs[0])
    } else {
        first_missing(cs.drop_first(), m)
    }
}

/// `c` is the least member of `s` that `m` lacks.
pub open spec fn is_least_missing(s: Set<Seq<char>>, m: Map<Seq<char>, Seq<char>>, c: Seq<char>) -> bool {
    &&& s.contains(c)
    &&& !m.contains_key(c)
    &&& forall|d: Seq<char>| #[trigger] s.contains(d) && !m.contains_key(d) ==> !seq_less(d, c)
}

/// The least member of `s` that `m` lacks, if any.
pub open spec fn least_missing(s: Set<Seq<char>>, m: Map<Seq<char>, Seq<char>>) -> Option<Seq<char>> {
    if exists|c: Seq<char>| is_least_missing(s, m, c) {
        Some(choose|c: Seq<char>| is_least_missing(s, m, c))
    } else {
        None
    }
}

/// `{before}{m[c]}{after}` for each `c` of `s`.
pub open spec fn derived(s: Set<Seq<char>>, m: Map<Seq<char>, Seq<char>>, before: Seq<char>, after: Seq<char>) -> Set<
    Seq<char>,
> {
    Set::new(|x: Seq<char>| exists|c: Seq<char>| s.contains(c) && x == before + m[c] + after)
}

proof fn lemma_first_missing_at(cs: Seq<Seq<char>>, m: Map<Seq<char>, Seq<char>>, i: int)
    requires
        0 <= i <= cs.len(),
        forall|k: int| 0 <= k < i ==> m.contains_key(#[trigger] cs[k]),
        i < cs.len() ==> !m.contains_key(cs[i]),
    ensures
        first_missing(cs, m) == (if i < cs.len() { Some(cs[i]) } else { None::<Seq<char>> }),
    decreases i,
{
    if i > 0 {
        assert(m.contains_key(cs[0]));
        let rest = cs.drop_first();
        assert forall|k: int| 0 <= k < i - 1 implies m.contains_key(#[trigger] rest[k]) by {
            assert(rest[k] == cs[k + 1]);
        }
        if i < cs.len() {
            assert(rest[i - 1] == cs[i]);
        }
        lemma_first_missing_at(rest, m, i - 1);
    }
}

/// In a strictly sorted sequence the first missing member is the least.
pub proof fn lemma_first_missing_least(cs: Seq<Seq<char>>, m: Map<Seq<char>, Seq<char>>, i: int)
    requires
        strictly_sorted(cs),
        0 <= i <= cs.len(),
        forall|k: int| 0 <= k < i ==> m.contains_key(#[trigger] cs[k]),
        i < cs.len() ==> !m.contains_key(cs[i]),
    ensures
        first_missing(cs, m) == least_missing(cs.to_set(), m),
{
    lemma_first_missing_at(cs, m, i);
    let s = cs.to_set();
    if i < cs.len() {
        let c = cs[i];
        assert forall|d: Seq<char>| #[trigger] s.contains(d) && !m.contains_key(d) implies !seq_less(d, c) by {
            let k = choose|k: int| 0 <= k < cs.len() && cs[k] == d;
            if k > i {
                crate::sorted::lemma_less_asymmetric(c, d);
            } else if k == i {
                crate::sorted::lemma_less_irreflexive(c);
            }
        }
        assert(is_least_missing(s, m, c));
        let e = choose|e: Seq<char>| is_least_missing(s, m, e);
        assert(is_least_missing(s, m, e));
        crate::sorted::lemma_less_total(c, e);
    } else {
        assert forall|c: Seq<char>| !is_least_missing(s, m, c) by {
            if s.contains(c) {
                let k = choose|k: int| 0 <= k < cs.len() && cs[k] == c;
                assert(m.contains_key(cs[k]));
            }
        }
    }
}

proof fn lemma_derived_insert(
    s: Set<Seq<char>>,
    m: Map<Seq<char>, Seq<char>>,
    before: Seq<char>,
    after: Seq<char>,
    c: Seq<char>,
)
    ensures
        derived(s.insert(c), m, before, after) == derived(s, m, before, after).insert(before + m[c] + after),
{
    let a = derived(s.insert(c), m, before, after);
    let b = derived(s, m, before, after).insert(before + m[c] + after);
    assert forall|x: Seq<char>| a.contains(x) implies b.contains(x) by {
        let d = choose|d: Seq<char>| s.insert(c).contains(d) && x == before + m[d] + after;
        if d != c {
            assert(s.contains(d));
        }
    }
    assert forall|x: Seq<char>| b.contains(x) implies a.contains(x) by {
        if x == before + m[c] + after {
            assert(s.insert(c).contains(c));
        } else {
            let d = choose|d: Seq<char>| s.contains(d) && x == before + m[d] + after;
            assert(s.insert(c).contains(d));
        }
    }
    assert(a =~= b);
}

/// The value that the sorted pairs give `key`.
fn pair_lookup<'a>(pairs: &'a Vec<(String, String)>, key: &str) -> (r: Option<&'a String>)
    ensures
        match r {
            Some(v) => pairs_has(pairs@, key@, v@),
            None => forall|v: Seq<char>| !pairs_has(pairs@, key@, v),
        },
{
    let mut i: usize = 0;
    while i < pairs.len()
        invariant
            i <= pairs@.len(),
            forall|k: int| 0 <= k < i ==> (#[trigger] pairs@[k]).0@ != key@,
        decreases pairs.len() - i,
    {
        if crate::chars::str_eq(pairs[i].0.as_str(), key) {
            return Some(&pairs[i].1);
        }
        i += 1;
    }
    None
}

/// `{before}{value}{after}` for each constant, with the value the table
/// gives it; or the first constant the table lacks.
fn derive_ids(
    constants: &Vec<String>,
    pairs: &Vec<(String, String)>,
    Ghost(m): Ghost<Map<Seq<char>, Seq<char>>>,
    before: &str,
    after: &str,
) -> (r: Result<Vec<String>, String>)
    requires
        represents_strings(pairs@, m),
    ensures
        match r {
            Ok(ids) => first_missing(string_views(constants@), m) is None && string_views(ids@).to_set() == derived(
                string_views(constants@).to_set(),
                m,
                before@,
                after@,
            ),
            Err(c) => first_missing(string_views(constants@), m) == Some(c@),
        },
{
    let ghost cs = string_views(constants@);
    let mut out: Vec<String> = Vec::new();
    let mut i: usize = 0;
    proof {
        assert(cs.take(0).to_set() =~= Set::empty());
        assert(derived(Set::empty(), m, before@, after@) =~= Set::empty());
    }
    while i < constants.len()
        invariant
            i <= constants@.len(),
            cs == string_views(constants@),
            represents_strings(pairs@, m),
            forall|k: int| 0 <= k < i ==> m.contains_key(#[trigger] cs[k]),
            string_views(out@).to_set() == derived(cs.take(i as int).to_set(), m, before@, after@),
        decreases constants.len() - i,
    {
        assert(cs[i as int] == constants@[i as int]@);
        match pair_lookup(pairs, constants[i].as_str()) {
            None => {
                proof {
                    assert(!m.contains_key(cs[i as int])) by {
                        if m.contains_key(cs[i as int]) {
                            assert(pairs_has(pairs@, cs[i as int], m[cs[i as int]]));
                        }
                    }
                    lemma_first_missing_at(cs, m, i as int);
                }
                return Err(constants[i].clone());
            },
            Some(v) => {
                let mut id = before.to_owned();
                id.append(v.as_str());
                id.append(after);
                proof {
                    assert(m.contains_key(cs[i as int]) && m[cs[i as int]] == v@);
                    assert(cs.take(i + 1) =~= cs.take(i as int).push(cs[i as int]));
                    lemma_push_to_set(cs.take(i as int), cs[i as int]);
                    lemma_derived_insert(cs.take(i as int).to_set(), m, before@, after@, cs[i as int]);
                    crate::sorted::lemma_string_views_push(out@, id);
                    lemma_push_to_set(string_views(out@), id@);
                }
                out.push(id);
            },
        }
        i += 1;
    }
    proof {
        lemma_first_missing_at(cs, m, i as int);
        assert(cs.take(i as int) =~= cs);
    }
    Ok(out)
}

/// The constants named by `call(prefix.NAME ...)` calls in `items`.
pub open spec fn constants_in(items: Seq<char>, call: Seq<char>, prefix: Seq<char>) -> Set<Seq<char>> {
    ident_args(call_args_spec(items, call, 0), prefix).to_set()
}

/// The `NAME = call("id", ...)` table of a source text.
pub open spec fn constant_table(text: Seq<char>) -> Map<Seq<char>, Seq<char>> {
    pairs_spec(split_lines_spec(text, 0))
}

/// Spawn eggs: `{entity}_spawn_egg` for each `createSpawnEgg(EntityTypeIds.X)`.
pub open spec fn spawn_eggs(items: Seq<char>, entities: Seq<char>) -> Set<Seq<char>> {
    derived(constants_in(items, "createSpawnEgg"@, "EntityTypeIds"@), constant_table(entities), ""@, "_spawn_egg"@)
}

/// Music discs: `music_disc_{song}` for each `createMusicDisc(JukeboxSongs.X)`.
pub open spec fn music_discs(items: Seq<char>, songs: Seq<char>) -> Set<Seq<char>> {
    derived(constants_in(items, "createMusicDisc"@, "JukeboxSongs"@), constant_table(songs), "music_disc_"@, ""@)
}

/// Trim templates: `{pattern}_armor_trim_smithing_template` for each
/// `createArmorTrimSmithingTemplate(TrimPatterns.X)`.
pub open spec fn trim_templates(items: Seq<char>, trims: Seq<char>) -> Set<Seq<char>> {
    derived(
        constants_in(items, "createArmorTrimSmithingTemplate"@, "TrimPatterns"@),
        constant_table(trims),
        ""@,
        "_armor_trim_smithing_template"@,
    )
}

/// The error for the first derived item whose constant is undeclared:
/// spawn eggs are checked first, then discs, then trim templates, each in
/// name order.
pub open spec fn derivation_error(items: Seq<char>, entities: Seq<char>, songs: Seq<char>, trims: Seq<char>) -> Option<
    Seq<char>,
> {
    match least_missing(constants_in(items, "createSpawnEgg"@, "EntityTypeIds"@), constant_table(entities)) {
        Some(c) => Some("ItemIds.java 引用未知实体常量 EntityTypeIds."@ + c),
        None => match least_missing(constants_in(items, "createMusicDisc"@, "JukeboxSongs"@), constant_table(songs)) {
            Some(c) => Some("ItemIds.java 引用未知唱片常量 JukeboxSongs."@ + c),
            None => match least_missing(
                constants_in(items, "createArmorTrimSmithingTemplate"@, "TrimPatterns"@),
                constant_table(trims),
            ) {
                Some(c) => Some("ItemIds.java 引用未知纹饰常量 TrimPatterns."@ + c),
                None => None,
            },
        },
    }
}

/// The derived ids of the `call(prefix.X)` constants of `items`, each
/// looked up in the constant table of `table_text`; or `message` followed by
/// the least undeclared constant.
fn derive_from(
    items: &str,
    call: &str,
    prefix: &str,
    table_text: &str,
    before: &str,
    after: &str,
    message: &str,
) -> (r: Result<Vec<String>, String>)
    requires
        call@.len() > 0,
    ensures
        match r {
            Ok(ids) => least_missing(constants_in(items@, call@, prefix@), constant_table(table_text@)) is None
                && string_views(ids@).to_set() == derived(
                constants_in(items@, call@, prefix@),
                constant_table(table_text@),
                before@,
                after@,
            ),
            Err(msg) => exists|c: Seq<char>|
                least_missing(constants_in(items@, call@, prefix@), constant_table(table_text@)) == Some(c) && msg@
                    == message@ + c,
        },
{
    let table = constant_string_pairs(table_text);
    let constants = ident_args_in_calls(items, call, prefix);
    let ghost m = constant_table(table_text@);
    let ghost cs = string_views(constants@);
    match derive_ids(&constants, &table, Ghost(m), before, after) {
        Ok(ids) => {
            proof {
                assert forall|k: int| 0 <= k < cs.len() implies m.contains_key(#[trigger] cs[k]) by {
                    lemma_no_missing(cs, m, k);
                }
                lemma_first_missing_least(cs, m, cs.len() as int);
            }
            Ok(ids)
        },
        Err(c) => {
            proof {
                lemma_first_missing_found(cs, m);
            }
            let mut msg = message.to_owned();
            msg.append(c.as_str());
            Err(msg)
        },
    }
}

proof fn lemma_no_missing(cs: Seq<Seq<char>>, m: Map<Seq<char>, Seq<char>>, k: int)
    requires
        first_missing(cs, m) is None,
        0 <= k < cs.len(),
    ensures
        m.contains_key(cs[k]),
    decreases k,
{
    if k > 0 {
        assert(cs.drop_first()[k - 1] == cs[k]);
        lemma_no_missing(cs.drop_first(), m, k - 1);
    }
}

proof fn lemma_first_missing_found(cs: Seq<Seq<char>>, m: Map<Seq<char>, Seq<char>>)
    requires
        strictly_sorted(cs),
        first_missing(cs, m) is Some,
    ensures
        first_missing(cs, m) == least_missing(cs.to_set(), m),
{
    let i = first_missing_index(cs, m);
    lemma_first_missing_least(cs, m, i);
}

/// The index of the first member of `cs` that `m` lacks.
proof fn first_missing_index(cs: Seq<Seq<char>>, m: Map<Seq<char>, Seq<char>>) -> (i: int)
    requires
        first_missing(cs, m) is Some,
    ensures
        0 <= i < cs.len(),
        forall|k: int| 0 <= k < i ==> m.contains_key(#[trigger] cs[k]),
        !m.contains_key(cs[i]),
    decreases cs.len(),
{
    if !m.contains_key(cs[0]) {
        0
    } else {
        let rest = cs.drop_first();
        let j = first_missing_index(rest, m);
        assert forall|k: int| 0 <= k < j + 1 implies m.contains_key(#[trigger] cs[k]) by {
            if k > 0 {
                assert(cs[k] == rest[k - 1]);
            }
        }
        assert(cs[j + 1] == rest[j]);
        j + 1
    }
}

/// The block ids: block items (plain, colored and copper) and the plain
/// blocks of `BlockIds`.
pub open spec fn block_ids(block_items: Seq<char>, blocks: Seq<char>) -> Set<Seq<char>> {
    call_ids(block_items, "BlockItemId.create"@).union(colored(call_ids(block_items, "createSimpleColored"@))).union(
        coppered(call_ids(block_items, "createSimpleCopper"@)),
    ).union(call_ids(blocks, "create"@))
}

/// The item ids: block items, the plain items of `ItemIds`, the derived
/// items, and the colored items.
pub open spec fn item_ids(
    block_items: Seq<char>,
    items: Seq<char>,
    entities: Seq<char>,
    songs: Seq<char>,
    trims: Seq<char>,
) -> Set<Seq<char>> {
    call_ids(block_items, "BlockItemId.create"@).union(colored(call_ids(block_items, "createSimpleColored"@))).union(
        coppered(call_ids(block_items, "createSimpleCopper"@)),
    ).union(call_ids(items, "create"@)).union(spawn_eggs(items, entities)).union(music_discs(items, songs)).union(
        trim_templates(items, trims),
    ).union(colored(call_ids(items, "createSimpleColored"@)))
}

/// The table with `x` added to the blocks and `y` to the items.
pub open spec fn blocks_and_items(m: Map<Seq<char>, Set<Seq<char>>>, x: Set<Seq<char>>, y: Set<Seq<char>>) -> Map<
    Seq<char>,
    Set<Seq<char>>,
> {
    with_ids(with_ids(m, "block"@, x), "item"@, y)
}

proof fn lemma_block_item_differ()
    ensures
        "block"@ != "item"@,
{
    reveal_strlit("block");
    reveal_strlit("item");
    assert("block"@.len() == 5);
    assert("item"@.len() == 4);
}

proof fn lemma_add_block(m: Map<Seq<char>, Set<Seq<char>>>, x: Set<Seq<char>>, y: Set<Seq<char>>, z: Set<Seq<char>>)
    ensures
        with_ids(blocks_and_items(m, x, y), "block"@, z) == blocks_and_items(m, x.union(z), y),
{
    lemma_block_item_differ();
    lemma_with_ids_commute(with_ids(m, "block"@, x), "item"@, y, "block"@, z);
    lemma_with_ids_twice(m, "block"@, x, z);
}

proof fn lemma_add_item(m: Map<Seq<char>, Set<Seq<char>>>, x: Set<Seq<char>>, y: Set<Seq<char>>, z: Set<Seq<char>>)
    ensures
        with_ids(blocks_and_items(m, x, y), "item"@, z) == blocks_and_items(m, x, y.union(z)),
{
    lemma_with_ids_twice(with_ids(m, "block"@, x), "item"@, y, z);
}

proof fn lemma_namespaced_union(a: Set<Seq<char>>, b: Set<Seq<char>>)
    ensures
        namespaced(a.union(b)) == namespaced(a).union(namespaced(b)),
{
    let l = namespaced(a.union(b));
    let r = namespaced(a).union(namespaced(b));
    assert forall|x: Seq<char>| l.contains(x) implies r.contains(x) by {
        let id = choose|id: Seq<char>| a.union(b).contains(id) && x == "minecraft:"@ + id;
        if a.contains(id) {
            assert(namespaced(a).contains(x));
        } else {
            assert(namespaced(b).contains(x));
        }
    }
    assert forall|x: Seq<char>| r.contains(x) implies l.contains(x) by {
        if namespaced(a).contains(x) {
            let id = choose|id: Seq<char>| a.contains(id) && x == "minecraft:"@ + id;
            assert(a.union(b).contains(id));
        } else {
            let id = choose|id: Seq<char>| b.contains(id) && x == "minecraft:"@ + id;
            assert(a.union(b).contains(id));
        }
    }
    assert(l =~= r);
}

/// The `addSlotRange("prefix", ..., count)` table of the given call
/// arguments: each prefix with the last integer of its call, a later call of
/// the same prefix winning; calls without both are skipped.
pub open spec fn slot_ranges_spec(args: Seq<Seq<char>>) -> Map<Seq<char>, u64>
    decreases args.len(),
{
    if args.len() == 0 {
        Map::empty()
    } else {
        let m = slot_ranges_spec(args.drop_last());
        match (first_string_spec(args.last()), last_integer_spec(args.last())) {
            (Some(p), Some(n)) => m.insert(p, n),
            _ => m,
        }
    }
}

/// The keys of a list of string pairs.
pub open spec fn range_keys(r: Seq<(String, u64)>) -> Seq<Seq<char>> {
    r.map_values(|e: (String, u64)| e.0@)
}

/// The slot names of `SlotRanges`: single slots, multi-slot groups, and
/// range prefixes with their counts.
pub struct SlotTable {
    pub single: Vec<String>,
    pub multi: Vec<String>,
    pub ranges: Vec<(String, u64)>,
}

/// Reads the slot table from the text of `SlotRanges.java`.
pub fn slot_table(text: &str) -> (r: SlotTable)
    ensures
        strictly_sorted(string_views(r.single@)),
        string_views(r.single@).to_set() == call_ids(text@, "addSingleSlot"@),
        strictly_sorted(string_views(r.multi@)),
        string_views(r.multi@).to_set() == call_ids(text@, "addSlots"@),
        strictly_sorted(range_keys(r.ranges@)),
        range_keys(r.ranges@).to_set() == slot_ranges_spec(call_args_spec(text@, "addSlotRange"@, 0)).dom(),
        forall|i: int|
            0 <= i < r.ranges@.len() ==> slot_ranges_spec(call_args_spec(text@, "addSlotRange"@, 0))[#[trigger] r.ranges@[i].0@]
                == r.ranges@[i].1,
{
    proof {
        reveal_strlit("addSingleSlot");
        reveal_strlit("addSlots");
        reveal_strlit("addSlotRange");
    }
    let single = string_args_in_calls(text, "addSingleSlot");
    let multi = string_args_in_calls(text, "addSlots");
    let args = call_args(text, "addSlotRange");
    let ghost all = string_views(args@);
    let mut map: Vec<(Vec<char>, u64)> = Vec::new();
    proof {
        lemma_empty_represents(map@);
    }
    let mut i: usize = 0;
    while i < args.len()
        invariant
            i <= args@.len(),
            all == string_views(args@),
            represents(map@, slot_ranges_spec(all.take(i as int))),
        decreases args.len() - i,
    {
        proof {
            assert(all.take(i + 1).drop_last() =~= all.take(i as int));
            assert(all.take(i + 1).last() == args@[i as int]@);
        }
        match (first_string(args[i].as_str()), last_integer(args[i].as_str())) {
            (Some(prefix), Some(count)) => {
                map_insert(&mut map, chars_of(prefix.as_str()), count);
            },
            _ => {},
        }
        i += 1;
    }
    proof {
        assert(all.take(i as int) =~= all);
    }
    let ghost target = slot_ranges_spec(all);
    let mut ranges: Vec<(String, u64)> = Vec::new();
    let mut k: usize = 0;
    while k < map.len()
        invariant
            k <= map@.len(),
            represents(map@, target),
            ranges@.len() == k,
            forall|j: int| 0 <= j < k ==> (#[trigger] ranges@[j]).0@ == map@[j].0@ && ranges@[j].1 == map@[j].1,
        decreases map.len() - k,
    {
        let name = crate::chars::string_from(map[k].0.as_slice());
        ranges.push((name, map[k].1));
        k += 1;
    }
    proof {
        assert(range_keys(ranges@) =~= entry_keys(map@));
        assert forall|j: int| 0 <= j < ranges@.len() implies target[#[trigger] ranges@[j].0@] == ranges@[j].1 by {
            assert(map_has(map@, map@[j].0@, map@[j].1));
        }
        assert forall|key: Seq<char>| range_keys(ranges@).to_set().contains(key) <==> target.dom().contains(key) by {
            if range_keys(ranges@).to_set().contains(key) {
                let j = choose|j: int| 0 <= j < range_keys(ranges@).len() && range_keys(ranges@)[j] == key;
                assert(map_has(map@, key, map@[j].1));
            }
            if target.dom().contains(key) {
                assert(map_has(map@, key, target[key]));
                let j = choose|j: int| 0 <= j < map@.len() && map@[j].0@ == key && map@[j].1@ == target[key];
                assert(range_keys(ranges@)[j] == key);
            }
        }
        assert(range_keys(ranges@).to_set() =~= target.dom());
    }
    SlotTable { single, multi, ranges }
}

/// The resource kinds that a `resource` declaration accepts: the data kinds
/// but structures, with dimensions and item modifiers.
pub open spec fn resource_kinds_spec(kinds: Set<Seq<char>>) -> Set<Seq<char>> {
    kinds.remove("structure"@).insert("dimension"@).insert("item_modifier"@)
}

/// The resource kinds, in ascending order.
pub fn resource_kinds(kinds: &Vec<String>) -> (r: Vec<String>)
    ensures
        strictly_sorted(string_views(r@)),
        string_views(r@).to_set() == resource_kinds_spec(string_views(kinds@).to_set()),
{
    let mut set = StringSet::new();
    let mut i: usize = 0;
    while i < kinds.len()
        invariant
            i <= kinds@.len(),
            set@ == string_views(kinds@).take(i as int).to_set().remove("structure"@),
        decreases kinds.len() - i,
    {
        let views = Ghost(string_views(kinds@));
        proof {
            assert(views@.take(i + 1) =~= views@.take(i as int).push(kinds@[i as int]@));
            lemma_push_to_set(views@.take(i as int), kinds@[i as int]@);
        }
        if !crate::chars::str_eq(kinds[i].as_str(), "structure") {
            set.insert(chars_of(kinds[i].as_str()));
        }
        i += 1;
        proof {
            assert(set@ =~= string_views(kinds@).take(i as int).to_set().remove("structure"@));
        }
    }
    set.insert(chars_of("dimension"));
    set.insert(chars_of("item_modifier"));
    proof {
        assert(string_views(kinds@).take(i as int) =~= string_views(kinds@));
    }
    let r = set.keys();
    r
}

/// What a top-level directory of `data/minecraft` contributes.
pub enum DataDirectory {
    /// Not a resource kind (`datapacks`, `tags`).
    Skipped,
    /// Each subdirectory is a kind `worldgen/{name}` of JSON resources.
    Worldgen,
    /// Structure files (`.nbt`).
    Structures,
    /// A kind of JSON resources named after the directory.
    Resources,
}

pub open spec fn data_directory_spec(name: Seq<char>) -> DataDirectory {
    if name == "datapacks"@ || name == "tags"@ {
        DataDirectory::Skipped
    } else if name == "worldgen"@ {
        DataDirectory::Worldgen
    } else if name == "structure"@ {
        DataDirectory::Structures
    } else {
        DataDirectory::Resources
    }
}

/// Classifies a top-level data directory by its name.
pub fn data_directory(name: &str) -> (r: DataDirectory)
    ensures
        r == data_directory_spec(name@),
{
    if crate::chars::str_eq(name, "datapacks") || crate::chars::str_eq(name, "tags") {
        DataDirectory::Skipped
    } else if crate::chars::str_eq(name, "worldgen") {
        DataDirectory::Worldgen
    } else if crate::chars::str_eq(name, "structure") {
        DataDirectory::Structures
    } else {
        DataDirectory::Resources
    }
}

/// A path with each backslash turned into a slash.
pub open spec fn slashed(path: Seq<char>) -> Seq<char> {
    path.map_values(|c: char| if c == '\\' { '/' } else { c })
}

/// The resource id of a file at `relative` (below its kind's directory):
/// the path without `.{extension}`, when the file name has that extension.
pub open spec fn resource_id_spec(relative: Seq<char>, extension: Seq<char>) -> Option<Seq<char>> {
    let path = slashed(relative);
    let n = path.len() - extension.len() - 1;
    if !extension.contains('.') && n > 0 && path[n - 1] != '/' && path[n] == '.' && path.skip(n + 1) == extension {
        Some(path.take(n))
    } else {
        None
    }
}

/// The resource id of a file, or none when its name lacks the extension.
pub fn resource_id(relative: &str, extension: &str) -> (r: Option<String>)
    ensures
        match (r, resource_id_spec(relative@, extension@)) {
            (Some(id), Some(s)) => id@ == s,
            (None, None) => true,
            _ => false,
        },
{
    let ext = chars_of(extension);
    let mut k: usize = 0;
    while k < ext.len()
        invariant
            k <= ext@.len(),
            ext@ == extension@,
            forall|j: int| 0 <= j < k ==> ext@[j] != '.',
        decreases ext.len() - k,
    {
        if ext[k] == '.' {
            return None;
        }
        k += 1;
    }
    let raw = chars_of(relative);
    let mut path: Vec<char> = Vec::new();
    let mut i: usize = 0;
    while i < raw.len()
        invariant
            i <= raw@.len(),
            raw@ == relative@,
            path@ == slashed(relative@).take(i as int),
        decreases raw.len() - i,
    {
        let c = if raw[i] == '\\' { '/' } else { raw[i] };
        path.push(c);
        i += 1;
        assert(path@ =~= slashed(relative@).take(i as int));
    }
    assert(path@ =~= slashed(relative@));
    if path.len() < 2 || path.len() - 2 < ext.len() {
        return None;
    }
    let n = path.len() - ext.len() - 1;
    if path[n - 1] == '/' || path[n] != '.' {
        return None;
    }
    if !crate::chars::starts_at(path.as_slice(), n + 1, ext.as_slice()) {
        return None;
    }
    assert(path@.skip(n + 1) =~= path@.subrange(n + 1, n + 1 + ext@.len()));
    Some(crate::chars::string_of(path.as_slice(), 0, n))
}

/// The `max_level` of an enchantment document, when it is an unsigned
/// integer.
pub open spec fn max_level_spec(doc: Json) -> Option<u64> {
    match json_get(doc, "max_level"@) {
        Some(Json::Number(Some(n))) => Some(n),
        _ => None,
    }
}

pub fn max_level(doc: &Json) -> (r: Option<u64>)
    ensures
        r == max_level_spec(*doc),
{
    match crate::json::get(doc, "max_level") {
        Some(Json::Number(Some(n))) => Some(*n),
        _ => None,
    }
}

/// The `max_level` of an enchantment file given as text, or the JSON
/// parser's error text.
pub fn enchantment_level(text: &str) -> (r: Result<Option<u64>, String>)
    ensures
        match (r, parsed_json(text@)) {
            (Ok(level), Ok(doc)) => level == max_level_spec(doc),
            (Err(e), Err(m)) => e@ == m,
            _ => false,
        },
{
    match crate::json::parse_json(text) {
        Ok(doc) => Ok(max_level(&doc)),
        Err(e) => Err(e),
    }
}

/// `id` with every leading `minecraft:` removed.
pub open spec fn without_namespace(id: Seq<char>) -> Seq<char>
    decreases id.len(),
{
    if id.len() >= 10 && id.take(10) == "minecraft:"@ {
        without_namespace(id.skip(10))
    } else {
        id
    }
}

/// The data file of an enchantment id.
pub fn enchantment_path(id: &str) -> (r: String)
    ensures
        r@ == "data/minecraft/enchantment/"@ + without_namespace(id@) + ".json"@,
{
    proof {
        reveal_strlit("minecraft:");
    }
    let t = chars_of(id);
    let mut start: usize = 0;
    let prefix = chars_of("minecraft:");
    assert(prefix@.len() == 10);
    assert(t@.skip(0) =~= t@);
    while t.len() - start >= 10 && crate::chars::starts_at(t.as_slice(), start, prefix.as_slice())
        invariant
            start <= t@.len(),
            t@ == id@,
            prefix@ == "minecraft:"@,
            prefix@.len() == 10,
            without_namespace(t@.skip(start as int)) == without_namespace(id@),
        decreases t.len() - start,
    {
        proof {
            let rest = t@.skip(start as int);
            assert(rest.take(10) =~= t@.subrange(start as int, start + 10));
            assert(rest.skip(10) =~= t@.skip(start + 10));
            assert(without_namespace(rest) == without_namespace(rest.skip(10)));
        }
        start += 10;
    }
    proof {
        let rest = t@.skip(start as int);
        if rest.len() >= 10 {
            assert(rest.take(10) =~= t@.subrange(start as int, start + 10));
        }
    }
    let mut r = "data/minecraft/enchantment/".to_owned();
    let tail = crate::chars::string_of(t.as_slice(), start, t.len());
    r.append(tail.as_str());
    r.append(".json");
    proof {
        assert(tail@ =~= t@.skip(start as int));
    }
    r
}

/// The registries that source files register by calls: the registry, the
/// file below the source root, and the call whose first string argument is
/// an id.
pub open spec fn code_sources_spec() -> Seq<(Seq<char>, Seq<char>, Seq<char>)> {
    seq![
        ("entity_type"@, "net/minecraft/world/entity/EntityTypeIds.java"@, "create"@),
        ("biome"@, "net/minecraft/world/level/biome/Biomes.java"@, "register"@),
        ("dimension"@, "net/minecraft/world/level/dimension/LevelStem.java"@, "withDefaultNamespace"@),
        ("damage_type"@, "net/minecraft/world/damagesource/DamageTypes.java"@, "withDefaultNamespace"@),
        ("mob_effect"@, "net/minecraft/world/effect/MobEffects.java"@, "register"@),
        ("enchantment"@, "net/minecraft/world/item/enchantment/Enchantments.java"@, "key"@),
        ("point_of_interest_type"@, "net/minecraft/world/entity/ai/village/poi/PoiTypes.java"@, "createKey"@),
        ("attribute"@, "net/minecraft/world/entity/ai/attributes/Attributes.java"@, "register"@),
        ("data_component_type"@, "net/minecraft/core/component/DataComponents.java"@, "register"@),
        ("data_component_predicate_type"@, "net/minecraft/core/component/predicates/DataComponentPredicates.java"@, "register"@),
        ("particle"@, "net/minecraft/core/particles/ParticleTypes.java"@, "register"@),
        ("sound"@, "net/minecraft/sounds/SoundEvents.java"@, "register"@),
        ("sound"@, "net/minecraft/sounds/SoundEvents.java"@, "registerForHolder"@),
        ("potion"@, "net/minecraft/world/item/alchemy/PotionIds.java"@, "create"@),
        ("jukebox_song"@, "net/minecraft/world/item/JukeboxSongs.java"@, "create"@),
        ("painting_variant"@, "net/minecraft/world/entity/decoration/painting/PaintingVariants.java"@, "create"@),
        ("instrument"@, "net/minecraft/world/item/Instruments.java"@, "create"@),
        ("banner_pattern"@, "net/minecraft/world/level/block/entity/BannerPatterns.java"@, "create"@),
        ("decorated_pot_pattern"@, "net/minecraft/world/level/block/entity/DecoratedPotPatterns.java"@, "create"@),
        ("trim_material"@, "net/minecraft/world/item/equipment/trim/TrimMaterials.java"@, "registryKey"@),
        ("trim_pattern"@, "net/minecraft/world/item/equipment/trim/TrimPatterns.java"@, "registryKey"@),
        ("game_rule"@, "net/minecraft/world/level/gamerules/GameRules.java"@, "registerBoolean"@),
        ("game_rule"@, "net/minecraft/world/level/gamerules/GameRules.java"@, "registerInteger"@),
        ("criteria_trigger"@, "net/minecraft/advancements/triggers/CriteriaTriggers.java"@, "register"@),
    ]
}

/// The table of `code_sources_spec`.
pub fn code_sources() -> (r: Vec<(&'static str, &'static str, &'static str)>)
    ensures
        r@.map_values(|t: (&'static str, &'static str, &'static str)| (t.0@, t.1@, t.2@)) == code_sources_spec(),
        forall|i: int| 0 <= i < r@.len() ==> (#[trigger] r@[i]).2@.len() > 0,
{
    let r = vec![
        ("entity_type", "net/minecraft/world/entity/EntityTypeIds.java", "create"),
        ("biome", "net/minecraft/world/level/biome/Biomes.java", "register"),
        ("dimension", "net/minecraft/world/level/dimension/LevelStem.java", "withDefaultNamespace"),
        ("damage_type", "net/minecraft/world/damagesource/DamageTypes.java", "withDefaultNamespace"),
        ("mob_effect", "net/minecraft/world/effect/MobEffects.java", "register"),
        ("enchantment", "net/minecraft/world/item/enchantment/Enchantments.java", "key"),
        ("point_of_interest_type", "net/minecraft/world/entity/ai/village/poi/PoiTypes.java", "createKey"),
        ("attribute", "net/minecraft/world/entity/ai/attributes/Attributes.java", "register"),
        ("data_component_type", "net/minecraft/core/component/DataComponents.java", "register"),
        (
            "data_component_predicate_type",
            "net/minecraft/core/component/predicates/DataComponentPredicates.java",
            "register",
        ),
        ("particle", "net/minecraft/core/particles/ParticleTypes.java", "register"),
        ("sound", "net/minecraft/sounds/SoundEvents.java", "register"),
        ("sound", "net/minecraft/sounds/SoundEvents.java", "registerForHolder"),
        ("potion", "net/minecraft/world/item/alchemy/PotionIds.java", "create"),
        ("jukebox_song", "net/minecraft/world/item/JukeboxSongs.java", "create"),
        ("painting_variant", "net/minecraft/world/entity/decoration/painting/PaintingVariants.java", "create"),
        ("instrument", "net/minecraft/world/item/Instruments.java", "create"),
        ("banner_pattern", "net/minecraft/world/level/block/entity/BannerPatterns.java", "create"),
        ("decorated_pot_pattern", "net/minecraft/world/level/block/entity/DecoratedPotPatterns.java", "create"),
        ("trim_material", "net/minecraft/world/item/equipment/trim/TrimMaterials.java", "registryKey"),
        ("trim_pattern", "net/minecraft/world/item/equipment/trim/TrimPatterns.java", "registryKey"),
        ("game_rule", "net/minecraft/world/level/gamerules/GameRules.java", "registerBoolean"),
        ("game_rule", "net/minecraft/world/level/gamerules/GameRules.java", "registerInteger"),
        ("criteria_trigger", "net/minecraft/advancements/triggers/CriteriaTriggers.java", "register"),
    ];
    proof {
        reveal_strlit("create");
        reveal_strlit("register");
        reveal_strlit("withDefaultNamespace");
        reveal_strlit("key");
        reveal_strlit("createKey");
        reveal_strlit("registerForHolder");
        reveal_strlit("registryKey");
        reveal_strlit("registerBoolean");
        reveal_strlit("registerInteger");
    }
    assert(r@.map_values(|t: (&'static str, &'static str, &'static str)| (t.0@, t.1@, t.2@)) =~= code_sources_spec());
    r
}

/// The registry table: each registry with its namespaced ids.
pub struct RegistryTable {
    entries: Vec<(Vec<char>, StringSet)>,
    table: Ghost<Map<Seq<char>, Set<Seq<char>>>>,
}

impl View for RegistryTable {
    type V = Map<Seq<char>, Set<Seq<char>>>;

    closed spec fn view(&self) -> Map<Seq<char>, Set<Seq<char>>> {
        self.table@
    }
}

impl RegistryTable {
    pub closed spec fn wf(&self) -> bool {
        represents(self.entries@, self.table@)
    }

    pub fn new() -> (r: RegistryTable)
        ensures
            r.wf(),
            r@ == Map::<Seq<char>, Set<Seq<char>>>::empty(),
    {
        let entries: Vec<(Vec<char>, StringSet)> = Vec::new();
        proof {
            lemma_empty_represents(entries@);
        }
        RegistryTable { entries, table: Ghost(Map::empty()) }
    }

    /// Registry `kind` with its ids, sorted by name.
    pub fn entries(&self) -> (r: &Vec<(Vec<char>, StringSet)>)
        requires
            self.wf(),
        ensures
            represents(r@, self@),
    {
        &self.entries
    }

    /// Adds `minecraft:{id}` to registry `kind`.
    pub fn insert(&mut self, kind: &str, id: &str)
        requires
            old(self).wf(),
        ensures
            final(self).wf(),
            final(self)@ == with_ids(old(self)@, kind@, set!["minecraft:"@ + id@]),
    {
        let k = chars_of(kind);
        let mut ids = match lookup(&self.entries, k.as_slice(), Ghost(self.table@)) {
            Some(existing) => existing.copy(),
            None => StringSet::new(),
        };
        let mut full = "minecraft:".to_owned();
        full.append(id);
        let ghost before = ids@;
        ids.insert(chars_of(full.as_str()));
        assert(ids@ =~= ids_of(self.table@, kind@).union(set!["minecraft:"@ + id@]));
        map_insert(&mut self.entries, k, ids);
        proof {
            assert(set!["minecraft:"@ + id@].contains("minecraft:"@ + id@));
            self.table@ = with_ids(self.table@, kind@, set!["minecraft:"@ + id@]);
        }
    }

    /// Makes sure registry `kind` exists, without adding ids.
    pub fn ensure(&mut self, kind: &str)
        requires
            old(self).wf(),
        ensures
            final(self).wf(),
            final(self)@ == old(self)@.insert(kind@, ids_of(old(self)@, kind@)),
    {
        let k = chars_of(kind);
        let ids = match lookup(&self.entries, k.as_slice(), Ghost(self.table@)) {
            Some(existing) => existing.copy(),
            None => StringSet::new(),
        };
        map_insert(&mut self.entries, k, ids);
        proof {
            self.table@ = self.table@.insert(kind@, ids_of(self.table@, kind@));
        }
    }

    /// Adds `minecraft:{id}` to registry `kind` for every id listed.
    pub fn insert_all(&mut self, kind: &str, ids: &Vec<String>)
        requires
            old(self).wf(),
        ensures
            final(self).wf(),
            final(self)@ == with_ids(old(self)@, kind@, namespaced(string_views(ids@).to_set())),
    {
        let ghost start = self@;
        proof {
            lemma_namespaced_empty();
            assert(string_views(ids@).take(0).to_set() =~= Set::empty());
            lemma_with_ids_empty(start, kind@);
        }
        let mut i: usize = 0;
        while i < ids.len()
            invariant
                i <= ids@.len(),
                self.wf(),
                self@ == with_ids(start, kind@, namespaced(string_views(ids@).take(i as int).to_set())),
            decreases ids.len() - i,
        {
            self.insert(kind, ids[i].as_str());
            proof {
                let views = string_views(ids@);
                assert(views[i as int] == ids@[i as int]@);
                assert(views.take(i + 1) =~= views.take(i as int).push(views[i as int]));
                lemma_push_to_set(views.take(i as int), views[i as int]);
                let a = namespaced(views.take(i as int).to_set());
                let b = namespaced(views.take(i + 1).to_set());
                lemma_namespaced_insert(views.take(i as int).to_set(), views[i as int]);
                lemma_with_ids_twice(start, kind@, a, set!["minecraft:"@ + ids@[i as int]@]);
                assert(a.union(set!["minecraft:"@ + ids@[i as int]@]) =~= b);
            }
            i += 1;
        }
        proof {
            assert(string_views(ids@).take(i as int) =~= string_views(ids@));
        }
    }

    /// Adds `minecraft:{id}` to registry `kind` for the first string argument
    /// of every `call(...)` in `text`.
    pub fn add_calls(&mut self, kind: &str, text: &str, call: &str)
        requires
            old(self).wf(),
            call@.len() > 0,
        ensures
            final(self).wf(),
            final(self)@ == with_ids(old(self)@, kind@, namespaced(call_ids(text@, call@))),
    {
        let ids = string_args_in_calls(text, call);
        self.insert_all(kind, &ids);
    }

    /// Adds the blocks and items that `BlockItemIds`, `BlockIds` and
    /// `ItemIds` register, the items derived from entity, song and trim
    /// constants among them; or, where `ItemIds` names a constant that its
    /// table lacks, the error, with the table unchanged.
    pub fn add_blocks_and_items(
        &mut self,
        block_items: &str,
        blocks: &str,
        items: &str,
        entities: &str,
        songs: &str,
        trims: &str,
    ) -> (r: Result<(), String>)
        requires
            old(self).wf(),
        ensures
            final(self).wf(),
            match r {
                Ok(()) => derivation_error(items@, entities@, songs@, trims@) is None && final(self)@ == blocks_and_items(
                    old(self)@,
                    namespaced(block_ids(block_items@, blocks@)),
                    namespaced(item_ids(block_items@, items@, entities@, songs@, trims@)),
                ),
                Err(msg) => derivation_error(items@, entities@, songs@, trims@) == Some(msg@) && final(self)@ == old(
                    self,
                )@,
            },
    {
        proof {
            reveal_strlit("createSpawnEgg");
            reveal_strlit("createMusicDisc");
            reveal_strlit("createArmorTrimSmithingTemplate");
            reveal_strlit("BlockItemId.create");
            reveal_strlit("createSimpleColored");
            reveal_strlit("createSimpleCopper");
            reveal_strlit("create");
        }
        let eggs = match derive_from(
            items,
            "createSpawnEgg",
            "EntityTypeIds",
            entities,
            "",
            "_spawn_egg",
            "ItemIds.java 引用未知实体常量 EntityTypeIds.",
        ) {
            Ok(ids) => ids,
            Err(msg) => return Err(msg),
        };
        let discs = match derive_from(
            items,
            "createMusicDisc",
            "JukeboxSongs",
            songs,
            "music_disc_",
            "",
            "ItemIds.java 引用未知唱片常量 JukeboxSongs.",
        ) {
            Ok(ids) => ids,
            Err(msg) => return Err(msg),
        };
        let templates = match derive_from(
            items,
            "createArmorTrimSmithingTemplate",
            "TrimPatterns",
            trims,
            "",
            "_armor_trim_smithing_template",
            "ItemIds.java 引用未知纹饰常量 TrimPatterns.",
        ) {
            Ok(ids) => ids,
            Err(msg) => return Err(msg),
        };
        let ghost start = self@;
        let ghost bi = namespaced(call_ids(block_items@, "BlockItemId.create"@));
        let ghost bc = namespaced(colored(call_ids(block_items@, "createSimpleColored"@)));
        let ghost bk = namespaced(coppered(call_ids(block_items@, "createSimpleCopper"@)));
        let ghost bb = namespaced(call_ids(blocks@, "create"@));
        let ghost ii = namespaced(call_ids(items@, "create"@));
        let ghost ie = namespaced(spawn_eggs(items@, entities@));
        let ghost id = namespaced(music_discs(items@, songs@));
        let ghost it = namespaced(trim_templates(items@, trims@));
        let ghost ic = namespaced(colored(call_ids(items@, "createSimpleColored"@)));
        let ghost e = Set::<Seq<char>>::empty();
        proof {
            lemma_with_ids_empty(start, "block"@);
            lemma_with_ids_empty(start, "item"@);
        }
        assert(self@ == blocks_and_items(start, e, e));
        let colors = dye_color_table();
        let coppers = copper_prefix_table();

        let shared = string_args_in_calls(block_items, "BlockItemId.create");
        self.insert_all("block", &shared);
        proof { lemma_add_block(start, e, e, bi); }
        self.insert_all("item", &shared);
        proof { lemma_add_item(start, e.union(bi), e, bi); }

        let bases = string_args_in_calls(block_items, "createSimpleColored");
        let shared = joined_ids(&colors, "_", &bases);
        self.insert_all("block", &shared);
        proof { lemma_add_block(start, e.union(bi), e.union(bi), bc); }
        self.insert_all("item", &shared);
        proof { lemma_add_item(start, e.union(bi).union(bc), e.union(bi), bc); }

        let bases = string_args_in_calls(block_items, "createSimpleCopper");
        let shared = joined_ids(&coppers, "", &bases);
        self.insert_all("block", &shared);
        proof { lemma_add_block(start, e.union(bi).union(bc), e.union(bi).union(bc), bk); }
        self.insert_all("item", &shared);
        proof { lemma_add_item(start, e.union(bi).union(bc).union(bk), e.union(bi).union(bc), bk); }
        let ghost x = e.union(bi).union(bc).union(bk);
        let ghost y = e.union(bi).union(bc).union(bk);

        self.add_calls("block", blocks, "create");
        proof { lemma_add_block(start, x, y, bb); }
        self.add_calls("item", items, "create");
        proof { lemma_add_item(start, x.union(bb), y, ii); }
        self.insert_all("item", &eggs);
        proof { lemma_add_item(start, x.union(bb), y.union(ii), ie); }
        self.insert_all("item", &discs);
        proof { lemma_add_item(start, x.union(bb), y.union(ii).union(ie), id); }
        self.insert_all("item", &templates);
        proof { lemma_add_item(start, x.union(bb), y.union(ii).union(ie).union(id), it); }
        let bases = string_args_in_calls(items, "createSimpleColored");
        let more = joined_ids(&colors, "_", &bases);
        self.insert_all("item", &more);
        proof {
            lemma_add_item(start, x.union(bb), y.union(ii).union(ie).union(id).union(it), ic);
            let b1 = call_ids(block_items@, "BlockItemId.create"@);
            let b2 = colored(call_ids(block_items@, "createSimpleColored"@));
            let b3 = coppered(call_ids(block_items@, "createSimpleCopper"@));
            let b4 = call_ids(blocks@, "create"@);
            lemma_namespaced_union(b1, b2);
            lemma_namespaced_union(b1.union(b2), b3);
            lemma_namespaced_union(b1.union(b2).union(b3), b4);
            assert(x.union(bb) =~= namespaced(block_ids(block_items@, blocks@)));
            let i4 = call_ids(items@, "create"@);
            let i5 = spawn_eggs(items@, entities@);
            let i6 = music_discs(items@, songs@);
            let i7 = trim_templates(items@, trims@);
            let i8 = colored(call_ids(items@, "createSimpleColored"@));
            lemma_namespaced_union(b1.union(b2).union(b3), i4);
            lemma_namespaced_union(b1.union(b2).union(b3).union(i4), i5);
            lemma_namespaced_union(b1.union(b2).union(b3).union(i4).union(i5), i6);
            lemma_namespaced_union(b1.union(b2).union(b3).union(i4).union(i5).union(i6), i7);
            lemma_namespaced_union(b1.union(b2).union(b3).union(i4).union(i5).union(i6).union(i7), i8);
            assert(y.union(ii).union(ie).union(id).union(it).union(ic) =~= namespaced(
                item_ids(block_items@, items@, entities@, songs@, trims@),
            ));
        }
        Ok(())
    }

    /// Creates registry `kind` if missing and adds `minecraft:{id}` for each
    /// resource id found under its directory.
    pub fn add_resources(&mut self, kind: &str, ids: &Vec<String>)
        requires
            old(self).wf(),
        ensures
            final(self).wf(),
            final(self)@ == with_ids(
                old(self)@.insert(kind@, ids_of(old(self)@, kind@)),
                kind@,
                namespaced(string_views(ids@).to_set()),
            ),
    {
        self.ensure(kind);
        self.insert_all(kind, ids);
    }
}

} // verus!
