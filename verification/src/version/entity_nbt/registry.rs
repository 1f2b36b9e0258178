//! Entity registrations and class inheritance: which class each entity id
//! uses, and which tags a class writes through its ancestors.

use vstd::prelude::*;
use crate::chars::{chars_of, string_from, find_from, find_from_spec, matches_at, slice_vec, trimmed, trim_spec, skip_ws_back, skip_ws_back_spec, lemma_skip_ws_bounds};
use crate::sorted::{map_insert, represents, map_has, entry_keys};
use crate::version::generate::text::{represents_strings, pairs_has, split_lines_spec, lines_of, views};
use super::scan::{identifier_char, is_identifier, parse_string, parse_string_spec, after_last, ident_end};
use crate::sorted::{StringSet, strictly_sorted, string_views};
use super::EntityTagType;
use super::scan::{ClassTable, ClassView};

verus! {

broadcast use vstd::string::group_string_axioms;

/// Dropping `c` from what is left to visit shrinks it.
pub proof fn lemma_unvisited_shrinks(d: Set<Seq<char>>, v: Set<Seq<char>>, c: Seq<char>)
    requires
        d.finite(),
        d.contains(c),
        !v.contains(c),
    ensures
        d.difference(v.insert(c)).len() < d.difference(v).len(),
{
    assert(d.difference(v.insert(c)) =~= d.difference(v).remove(c));
    vstd::set_lib::lemma_set_subset_finite(d, d.difference(v));
}

/// The tags written by `c` and its ancestors, walking up the parents until
/// a class is unknown or already in `visiting`.
pub open spec fn chain_tags(m: Map<Seq<char>, ClassView>, c: Seq<char>, visiting: Set<Seq<char>>) -> Set<Seq<char>>
    decreases m.dom().difference(visiting).len(),
    when m.dom().finite()
{
    if !m.contains_key(c) || visiting.contains(c) {
        Set::empty()
    } else {
        proof {
            lemma_unvisited_shrinks(m.dom(), visiting, c);
        }
        match m[c].0 {
            Some(p) => m[c].1.dom().union(chain_tags(m, p, visiting.insert(c))),
            None => m[c].1.dom(),
        }
    }
}

/// The type of `key` in the nearest of `c` and its ancestors that writes
/// it, walking up as `chain_tags` does.
pub open spec fn chain_category(m: Map<Seq<char>, ClassView>, c: Seq<char>, key: Seq<char>, visiting: Set<Seq<char>>) -> Option<
    EntityTagType,
>
    decreases m.dom().difference(visiting).len(),
    when m.dom().finite()
{
    if !m.contains_key(c) || visiting.contains(c) {
        None
    } else if m[c].1.contains_key(key) {
        Some(m[c].1[key])
    } else {
        proof {
            lemma_unvisited_shrinks(m.dom(), visiting, c);
        }
        match m[c].0 {
            Some(p) => chain_category(m, p, key, visiting.insert(c)),
            None => None,
        }
    }
}

/// Adds to `resolved` every key that `class` can write along its
/// inheritance chain; `visiting` holds the classes already walked.
pub fn inherited_tags(classes: &ClassTable, class: &[char], resolved: &mut StringSet, visiting: &mut StringSet)
    requires
        classes.wf(),
    ensures
        final(resolved)@ == old(resolved)@.union(chain_tags(classes@, class@, old(visiting)@)),
        old(visiting)@.subset_of(final(visiting)@),
    decreases classes@.dom().difference(old(visiting)@).len(),
{
    proof {
        classes.lemma_finite();
    }
    let info = match classes.get(class) {
        None => {
            assert(old(resolved)@.union(Set::empty()) =~= old(resolved)@);
            return;
        },
        Some(info) => info,
    };
    if visiting.has(class) {
        assert(old(resolved)@.union(Set::empty()) =~= old(resolved)@);
        return;
    }
    proof {
        lemma_unvisited_shrinks(classes@.dom(), visiting@, class@);
    }
    visiting.insert(class_copy(class));
    let keys = info.keys();
    let ghost start = resolved@;
    let mut i: usize = 0;
    while i < keys.len()
        invariant
            i <= keys@.len(),
            string_views(keys@).to_set() == info@.1.dom(),
            resolved@ == start.union(string_views(keys@).take(i as int).to_set()),
        decreases keys.len() - i,
    {
        let k = chars_of(keys[i].as_str());
        resolved.insert(k);
        proof {
            assert(string_views(keys@)[i as int] == keys@[i as int]@);
            assert(string_views(keys@).take(i + 1) =~= string_views(keys@).take(i as int).push(keys@[i as int]@));
            crate::sorted::lemma_push_to_set(string_views(keys@).take(i as int), keys@[i as int]@);
            assert(resolved@ =~= start.union(string_views(keys@).take(i + 1).to_set()));
        }
        i += 1;
    }
    assert(string_views(keys@).take(i as int) =~= string_views(keys@));
    let ghost own_added = resolved@;
    match info.parent() {
        Some(parent) => {
            let ghost v1 = visiting@;
            inherited_tags(classes, parent.as_slice(), resolved, visiting);
            proof {
                assert(v1 == old(visiting)@.insert(class@));
                assert(resolved@ =~= old(resolved)@.union(chain_tags(classes@, class@, old(visiting)@)));
            }
        },
        None => {
            assert(resolved@ =~= old(resolved)@.union(chain_tags(classes@, class@, old(visiting)@)));
        },
    }
}

fn class_copy(class: &[char]) -> (r: Vec<char>)
    ensures
        r@ == class@,
{
    crate::chars::slice_vec(class, 0, class.len())
}

/// The type of `key` in the nearest class of the chain from `class` that
/// writes it. A cycle in the parent links ends the walk.
fn inherited_category(classes: &ClassTable, class: &[char], key: &[char], visiting: &mut StringSet) -> (r: Option<EntityTagType>)
    requires
        classes.wf(),
    ensures
        r == chain_category(classes@, class@, key@, old(visiting)@),
    decreases classes@.dom().difference(old(visiting)@).len(),
{
    proof {
        classes.lemma_finite();
    }
    let info = match classes.get(class) {
        None => return None,
        Some(info) => info,
    };
    if visiting.has(class) {
        return None;
    }
    if let Some(t) = info.tag_type(key) {
        return Some(t);
    }
    proof {
        lemma_unvisited_shrinks(classes@.dom(), visiting@, class@);
    }
    visiting.insert(class_copy(class));
    match info.parent() {
        Some(parent) => inherited_category(classes, parent.as_slice(), key, visiting),
        None => None,
    }
}

/// Every key that `class` writes along its inheritance chain, in ascending
/// order, with its type in the nearest class that writes it.
pub fn all_class_tags(classes: &ClassTable, class: &[char]) -> (r: Vec<(String, EntityTagType)>)
    requires
        classes.wf(),
    ensures
        strictly_sorted(r@.map_values(|e: (String, EntityTagType)| e.0@)),
        r@.map_values(|e: (String, EntityTagType)| e.0@).to_set() == chain_tags(classes@, class@, Set::empty()),
        forall|i: int| 0 <= i < r@.len() ==> #[trigger] r@[i].1 == match chain_category(
            classes@,
            class@,
            r@[i].0@,
            Set::empty(),
        ) {
            Some(t) => t,
            None => EntityTagType::Any,
        },
{
    let mut resolved = StringSet::new();
    let mut visiting = StringSet::new();
    inherited_tags(classes, class, &mut resolved, &mut visiting);
    assert(Set::<Seq<char>>::empty().union(chain_tags(classes@, class@, Set::empty())) =~= chain_tags(classes@, class@, Set::empty()));
    let keys = resolved.keys();
    let mut categories: Vec<(String, EntityTagType)> = Vec::new();
    let mut i: usize = 0;
    while i < keys.len()
        invariant
            i <= keys@.len(),
            classes.wf(),
            categories@.len() == i,
            forall|j: int| 0 <= j < i ==> #[trigger] categories@[j].0@ == keys@[j]@,
            forall|j: int| 0 <= j < i ==> #[trigger] categories@[j].1 == match chain_category(
                classes@,
                class@,
                categories@[j].0@,
                Set::empty(),
            ) {
                Some(t) => t,
                None => EntityTagType::Any,
            },
        decreases keys.len() - i,
    {
        let key = chars_of(keys[i].as_str());
        let mut seen = StringSet::new();
        let category = match inherited_category(classes, class, key.as_slice(), &mut seen) {
            Some(t) => t,
            None => EntityTagType::Any,
        };
        categories.push((keys[i].clone(), category));
        i += 1;
    }
    assert(categories@.map_values(|e: (String, EntityTagType)| e.0@) =~= string_views(keys@));
    categories
}

/// The start of the run of `=` that ends at `e`.
pub open spec fn eq_back(t: Seq<char>, e: int) -> int
    decreases e,
{
    if e <= 0 || e > t.len() || t[e - 1] != '=' {
        e
    } else {
        eq_back(t, e - 1)
    }
}

/// The start of the identifier run that ends at `e`.
pub open spec fn ident_back(t: Seq<char>, e: int) -> int
    decreases e,
{
    if e <= 0 || e > t.len() || !identifier_char(t[e - 1]) {
        e
    } else {
        ident_back(t, e - 1)
    }
}

/// The constant declared before `index`: the last identifier before it,
/// skipping whitespace and the `=` of the declaration.
pub open spec fn constant_before(t: Seq<char>, index: int) -> Seq<char> {
    let a = skip_ws_back_spec(t, 0, index);
    let b = eq_back(t, a);
    let c = skip_ws_back_spec(t, 0, b);
    t.subrange(ident_back(t, c), c)
}

/// The `NAME = create("id")` declarations from `search` on, added to `acc`.
pub open spec fn ids_scan(t: Seq<char>, search: int, acc: Map<Seq<char>, Seq<char>>) -> Map<Seq<char>, Seq<char>>
    decreases t.len() - search,
{
    let marker = "create(\""@;
    if search < 0 || marker.len() == 0 {
        acc
    } else {
        match find_from_spec(t, marker, search) {
            None => acc,
            Some(index) => {
                let next = index + marker.len();
                let with = match parse_string_spec(t, index + "create("@.len()) {
                    Some((id, _)) => {
                        let name = constant_before(t, index);
                        if name.len() > 0 {
                            acc.insert(name, id)
                        } else {
                            acc
                        }
                    },
                    None => acc,
                };
                if next <= search || next > t.len() {
                    with
                } else {
                    ids_scan(t, next, with)
                }
            },
        }
    }
}

fn back_while(t: &[char], e: usize, equals: bool) -> (r: usize)
    requires
        e <= t@.len(),
    ensures
        equals ==> r == eq_back(t@, e as int),
        !equals ==> r == ident_back(t@, e as int),
        r <= e,
    decreases e,
{
    if e > 0 && ((equals && t[e - 1] == '=') || (!equals && is_identifier(t[e - 1]))) {
        back_while(t, e - 1, equals)
    } else {
        e
    }
}

/// `EntityTypeIds.java`: constant name to entity id, sorted by name; a
/// later declaration of a name wins.
pub fn entity_ids(text: &str) -> (r: Vec<(String, String)>)
    ensures
        represents_strings(r@, ids_scan(text@, 0, Map::empty())),
{
    let t = chars_of(text);
    let marker = chars_of("create(\"");
    proof {
        reveal_strlit("create(\"");
        reveal_strlit("create(");
    }
    assert(marker@.len() == 8);
    assert("create("@.len() == 7);
    let tl = t.len();
    let mut ids: Vec<(Vec<char>, String)> = Vec::new();
    let ghost mut acc: Map<Seq<char>, Seq<char>> = Map::empty();
    proof {
        crate::sorted::lemma_empty_represents(ids@);
    }
    let mut search: usize = 0;
    loop
        invariant
            t@ == text@,
            tl == t@.len(),
            marker@ == "create(\""@,
            marker@.len() == 8,
            "create("@.len() == 7,
            search <= t@.len(),
            represents(ids@, acc),
            ids_scan(t@, search as int, acc) == ids_scan(t@, 0, Map::empty()),
        ensures
            represents(ids@, ids_scan(t@, 0, Map::empty())),
        decreases t@.len() - search,
    {
        let index = match find_from(t.as_slice(), marker.as_slice(), search) {
            None => break,
            Some(i) => i,
        };
        assert(matches_at(t@, index as int, marker@));
        let next = index + 8;
        match parse_string(t.as_slice(), index + 7) {
            Some((id, _)) => {
                let a = skip_ws_back(t.as_slice(), 0, index);
                proof {
                    lemma_skip_ws_bounds(t@, 0, index as int);
                }
                let b = back_while(t.as_slice(), a, true);
                let c = skip_ws_back(t.as_slice(), 0, b);
                proof {
                    lemma_skip_ws_bounds(t@, 0, b as int);
                }
                let d = back_while(t.as_slice(), c, false);
                if d < c {
                    let name = slice_vec(t.as_slice(), d, c);
                    map_insert(&mut ids, name, id);
                    proof {
                        acc = acc.insert(constant_before(t@, index as int), id@);
                    }
                }
            },
            None => {},
        }
        search = next;
    }
    string_pairs(&ids)
}

/// The entries of a sorted map of strings, keys as strings.
fn string_pairs(map: &Vec<(Vec<char>, String)>) -> (r: Vec<(String, String)>)
    requires
        crate::sorted::strictly_sorted(entry_keys(map@)),
    ensures
        forall|target: Map<Seq<char>, Seq<char>>| #[trigger] represents(map@, target) ==> represents_strings(r@, target),
{
    let mut out: Vec<(String, String)> = Vec::new();
    let mut i: usize = 0;
    while i < map.len()
        invariant
            i <= map@.len(),
            out@.len() == i,
            forall|j: int| 0 <= j < i ==> out@[j].0@ == map@[j].0@ && out@[j].1@ == map@[j].1@,
        decreases map.len() - i,
    {
        let k = string_from(map[i].0.as_slice());
        let v = map[i].1.clone();
        out.push((k, v));
        i += 1;
    }
    proof {
        assert forall|target: Map<Seq<char>, Seq<char>>| #[trigger] represents(map@, target) implies represents_strings(out@, target) by {
            assert(out@.map_values(|e: (String, String)| e.0@) =~= entry_keys(map@));
            assert forall|key: Seq<char>, value: Seq<char>|
                #[trigger] pairs_has(out@, key, value) <==> (target.contains_key(key) && target[key] == value) by {
                if pairs_has(out@, key, value) {
                    let i = choose|i: int| 0 <= i < out@.len() && out@[i].0@ == key && out@[i].1@ == value;
                    assert(map_has(map@, key, map@[i].1@));
                }
                if target.contains_key(key) && target[key] == value {
                    assert(map_has(map@, key, value));
                    let i = choose|i: int| 0 <= i < map@.len() && map@[i].0@ == key && map@[i].1@ == value;
                    assert(out@[i].0@ == key && out@[i].1@ == value);
                }
            }
        }
    }
    out
}

/// The registration on one line of `EntityTypes.java`:
/// `EntityType<Class> NAME = register(EntityTypeIds.NAME, …` gives the id
/// constant and the class's simple name.
pub open spec fn line_registration(line: Seq<char>) -> Option<(Seq<char>, Seq<char>)> {
    match find_from_spec(line, "register(EntityTypeIds."@, 0) {
        None => None,
        Some(register) => match find_from_spec(line, "EntityType<"@, 0) {
            None => None,
            Some(generic) => {
                let type_start = generic + "EntityType<"@.len();
                match find_from_spec(line, seq!['>'], type_start) {
                    None => None,
                    Some(type_end) => {
                        let raw = after_last(line.subrange(type_start, type_end), '.');
                        let class = trim_spec(raw, 0, raw.len() as int);
                        let id_start = register + "register(EntityTypeIds."@.len();
                        let identifier = line.subrange(id_start, ident_end(line, id_start));
                        if class.len() > 0 && identifier.len() > 0 {
                            Some((identifier, class))
                        } else {
                            None
                        }
                    },
                }
            },
        },
    }
}

/// The registrations of the first `n` lines, in order.
pub open spec fn registrations_of(lines: Seq<Seq<char>>, n: int) -> Seq<(Seq<char>, Seq<char>)>
    decreases n,
{
    if n <= 0 {
        seq![]
    } else {
        match line_registration(lines[n - 1]) {
            Some(p) => registrations_of(lines, n - 1).push(p),
            None => registrations_of(lines, n - 1),
        }
    }
}

fn registration(line: &[char]) -> (r: Option<(String, String)>)
    ensures
        match (r, line_registration(line@)) {
            (Some(p), Some(q)) => p.0@ == q.0 && p.1@ == q.1,
            (None, None) => true,
            _ => false,
        },
{
    let register_marker = chars_of("register(EntityTypeIds.");
    let generic_marker = chars_of("EntityType<");
    proof {
        reveal_strlit("register(EntityTypeIds.");
        reveal_strlit("EntityType<");
    }
    assert(register_marker@.len() == 23);
    assert(generic_marker@.len() == 11);
    let ll = line.len();
    let register = match find_from(line, register_marker.as_slice(), 0) {
        None => return None,
        Some(r) => r,
    };
    let generic = match find_from(line, generic_marker.as_slice(), 0) {
        None => return None,
        Some(g) => g,
    };
    assert(matches_at(line@, register as int, register_marker@));
    assert(matches_at(line@, generic as int, generic_marker@));
    let type_start = generic + 11;
    let close = vec!['>'];
    assert(close@ =~= seq!['>']);
    let type_end = match find_from(line, close.as_slice(), type_start) {
        None => return None,
        Some(e) => e,
    };
    proof {
        crate::chars::lemma_find_from(line@, seq!['>'], type_start as int);
    }
    let inner = slice_vec(line, type_start, type_end);
    let raw = super::scan::last_piece(inner.as_slice(), '.');
    let class = trimmed(raw.as_slice(), 0, raw.len());
    let id_start = register + 23;
    let id_end = super::scan::identifier_end(line, id_start);
    let identifier = slice_vec(line, id_start, id_end);
    if class.len() > 0 && identifier.len() > 0 {
        Some((string_from(identifier.as_slice()), string_from(class.as_slice())))
    } else {
        None
    }
}

/// `EntityTypes.java`: the (id constant, class) registrations, in order.
pub fn entity_registrations(text: &str) -> (r: Vec<(String, String)>)
    ensures
        r@.map_values(|p: (String, String)| (p.0@, p.1@)) == registrations_of(
            split_lines_spec(text@, 0),
            split_lines_spec(text@, 0).len() as int,
        ),
{
    let t = chars_of(text);
    let lines = lines_of(t.as_slice());
    let ghost ls = split_lines_spec(text@, 0);
    let mut out: Vec<(String, String)> = Vec::new();
    let mut i: usize = 0;
    while i < lines.len()
        invariant
            i <= lines@.len(),
            views(lines@) == ls,
            out@.map_values(|p: (String, String)| (p.0@, p.1@)) == registrations_of(ls, i as int),
        decreases lines.len() - i,
    {
        assert(views(lines@)[i as int] == lines@[i as int]@);
        let ghost before = out@;
        match registration(lines[i].as_slice()) {
            Some(p) => {
                out.push(p);
                assert(out@.map_values(|p: (String, String)| (p.0@, p.1@)) =~= before.map_values(
                    |p: (String, String)| (p.0@, p.1@),
                ).push((p.0@, p.1@)));
            },
            None => {},
        }
        i += 1;
    }
    out
}

/// The value paired with `key` in the first entry that has it.
pub open spec fn pair_value(pairs: Seq<(Seq<char>, Seq<char>)>, key: Seq<char>, i: int) -> Option<Seq<char>>
    decreases pairs.len() - i,
{
    if i < 0 || i >= pairs.len() {
        None
    } else if pairs[i].0 == key {
        Some(pairs[i].1)
    } else {
        pair_value(pairs, key, i + 1)
    }
}

/// The category `all_class_tags` gives a key of `class`.
pub open spec fn class_category(m: Map<Seq<char>, ClassView>, class: Seq<char>, key: Seq<char>) -> EntityTagType {
    match chain_category(m, class, key, Set::empty()) {
        Some(t) => t,
        None => EntityTagType::Any,
    }
}

/// The tag table after adding every key of `class`: a new key takes its
/// category, a known one merges with it.
pub open spec fn merge_class(acc: Map<Seq<char>, EntityTagType>, m: Map<Seq<char>, ClassView>, class: Seq<char>) -> Map<
    Seq<char>,
    EntityTagType,
> {
    let keys = chain_tags(m, class, Set::empty());
    Map::new(
        |k: Seq<char>| acc.contains_key(k) || keys.contains(k),
        |k: Seq<char>|
            if keys.contains(k) {
                if acc.contains_key(k) {
                    super::merged(acc[k], class_category(m, class, k))
                } else {
                    class_category(m, class, k)
                }
            } else {
                acc[k]
            },
    )
}

/// The two tables after the first `n` registrations: every tag with its
/// merged type, and each registered entity (`minecraft:` id) with the keys
/// of its class chain. Registrations with an unknown id constant are
/// skipped; a later registration of an id replaces an earlier one.
pub open spec fn entity_tables(
    m: Map<Seq<char>, ClassView>,
    ids: Seq<(Seq<char>, Seq<char>)>,
    regs: Seq<(Seq<char>, Seq<char>)>,
    n: int,
) -> (Map<Seq<char>, EntityTagType>, Map<Seq<char>, Set<Seq<char>>>)
    decreases n,
{
    if n <= 0 {
        (Map::empty(), Map::empty())
    } else {
        let before = entity_tables(m, ids, regs, n - 1);
        match pair_value(ids, regs[n - 1].0, 0) {
            None => before,
            Some(id) => (
                merge_class(before.0, m, regs[n - 1].1),
                before.1.insert("minecraft:"@ + id, chain_tags(m, regs[n - 1].1, Set::empty())),
            ),
        }
    }
}

/// The views of a list of string pairs.
pub open spec fn pair_views(v: Seq<(String, String)>) -> Seq<(Seq<char>, Seq<char>)> {
    v.map_values(|p: (String, String)| (p.0@, p.1@))
}

fn find_pair<'a>(pairs: &'a Vec<(String, String)>, key: &str) -> (r: Option<&'a String>)
    ensures
        match r {
            Some(v) => pair_value(pair_views(pairs@), key@, 0) == Some(v@),
            None => pair_value(pair_views(pairs@), key@, 0) is None,
        },
{
    let mut i: usize = 0;
    while i < pairs.len()
        invariant
            i <= pairs@.len(),
            pair_value(pair_views(pairs@), key@, i as int) == pair_value(pair_views(pairs@), key@, 0),
        decreases pairs.len() - i,
    {
        assert(pair_views(pairs@)[i as int] == (pairs@[i as int].0@, pairs@[i as int].1@));
        if crate::chars::str_eq(pairs[i].0.as_str(), key) {
            return Some(&pairs[i].1);
        }
        i += 1;
    }
    None
}

/// The entity tag table of the scanned classes: every tag with its merged
/// type, and each entity (`minecraft:` id) with the keys it writes.
pub fn entity_table(classes: &ClassTable, ids: &Vec<(String, String)>, registrations: &Vec<(String, String)>) -> (r: (
    Vec<(Vec<char>, EntityTagType)>,
    Vec<(Vec<char>, StringSet)>,
))
    requires
        classes.wf(),
    ensures
        represents(r.0@, entity_tables(classes@, pair_views(ids@), pair_views(registrations@), registrations@.len() as int).0),
        represents(r.1@, entity_tables(classes@, pair_views(ids@), pair_views(registrations@), registrations@.len() as int).1),
{
    let ghost regs = pair_views(registrations@);
    proof {
        classes.lemma_finite();
    }
    let mut tags: Vec<(Vec<char>, EntityTagType)> = Vec::new();
    let mut entities: Vec<(Vec<char>, StringSet)> = Vec::new();
    proof {
        crate::sorted::lemma_empty_represents(tags@);
        crate::sorted::lemma_empty_represents(entities@);
    }
    let mut n: usize = 0;
    while n < registrations.len()
        invariant
            n <= registrations@.len(),
            classes.wf(),
            regs == pair_views(registrations@),
            represents(tags@, entity_tables(classes@, pair_views(ids@), regs, n as int).0),
            represents(entities@, entity_tables(classes@, pair_views(ids@), regs, n as int).1),
        decreases registrations.len() - n,
    {
        assert(regs[n as int] == (registrations@[n as int].0@, registrations@[n as int].1@));
        let identifier = registrations[n].0.as_str();
        let class = chars_of(registrations[n].1.as_str());
        let ghost before = entity_tables(classes@, pair_views(ids@), regs, n as int);
        match find_pair(ids, identifier) {
            None => {},
            Some(id) => {
                let mut resolved = StringSet::new();
                let mut visiting = StringSet::new();
                inherited_tags(classes, class.as_slice(), &mut resolved, &mut visiting);
                assert(resolved@ =~= chain_tags(classes@, class@, Set::empty()));
                let entries = all_class_tags(classes, class.as_slice());
                let ghost keys = entries@.map_values(|e: (String, EntityTagType)| e.0@);
                let ghost mut acc = before.0;
                let mut k: usize = 0;
                while k < entries.len()
                    invariant
                        k <= entries@.len(),
                        keys == entries@.map_values(|e: (String, EntityTagType)| e.0@),
                        crate::sorted::strictly_sorted(keys),
                        forall|i: int| 0 <= i < entries@.len() ==> #[trigger] entries@[i].1 == class_category(classes@, class@, entries@[i].0@),
                        represents(tags@, acc),
                        acc == Map::new(
                            |key: Seq<char>| before.0.contains_key(key) || keys.take(k as int).contains(key),
                            |key: Seq<char>|
                                if keys.take(k as int).contains(key) {
                                    if before.0.contains_key(key) {
                                        super::merged(before.0[key], class_category(classes@, class@, key))
                                    } else {
                                        class_category(classes@, class@, key)
                                    }
                                } else {
                                    before.0[key]
                                },
                        ),
                    decreases entries.len() - k,
                {
                    let key = chars_of(entries[k].0.as_str());
                    let category = entries[k].1;
                    assert(keys[k as int] == key@);
                    assert(category == class_category(classes@, class@, key@));
                    let existing = crate::sorted::lookup(&tags, key.as_slice(), Ghost(acc));
                    let value = match existing {
                        Some(t) => t.merge(category),
                        None => category,
                    };
                    map_insert(&mut tags, key, value);
                    proof {
                        let next = acc.insert(keys[k as int], value);
                        assert(!keys.take(k as int).contains(keys[k as int])) by {
                            if keys.take(k as int).contains(keys[k as int]) {
                                let j = choose|j: int| 0 <= j < k && keys.take(k as int)[j] == keys[k as int];
                                assert(crate::sorted::seq_less(keys[j], keys[k as int]));
                                crate::sorted::lemma_less_irreflexive(keys[k as int]);
                            }
                        }
                        assert(keys.take(k + 1) =~= keys.take(k as int).push(keys[k as int]));
                        crate::sorted::lemma_push_to_set(keys.take(k as int), keys[k as int]);
                        let x = keys[k as int];
                        assert(before.0.contains_key(x) <==> acc.contains_key(x));
                        assert(before.0.contains_key(x) ==> acc[x] == before.0[x]);
                        assert(value == (if before.0.contains_key(x) {
                            super::merged(before.0[x], class_category(classes@, class@, x))
                        } else {
                            class_category(classes@, class@, x)
                        }));
                        acc = next;
                        assert forall|key: Seq<char>| keys.take(k + 1).contains(key) <==> (keys.take(k as int).contains(key) || key == x) by {
                            assert(keys.take(k + 1).to_set().contains(key) == keys.take(k + 1).contains(key));
                        }
                        assert(acc =~= Map::new(
                            |key: Seq<char>| before.0.contains_key(key) || keys.take(k + 1).contains(key),
                            |key: Seq<char>|
                                if keys.take(k + 1).contains(key) {
                                    if before.0.contains_key(key) {
                                        super::merged(before.0[key], class_category(classes@, class@, key))
                                    } else {
                                        class_category(classes@, class@, key)
                                    }
                                } else {
                                    before.0[key]
                                },
                        ));
                    }
                    k += 1;
                }
                proof {
                    assert(keys.take(k as int) =~= keys);
                    assert forall|key: Seq<char>| keys.contains(key) <==> chain_tags(classes@, class@, Set::empty()).contains(key) by {
                        if keys.contains(key) {
                            let j = choose|j: int| 0 <= j < keys.len() && keys[j] == key;
                            assert(keys.to_set().contains(key));
                        }
                        if chain_tags(classes@, class@, Set::empty()).contains(key) {
                            assert(keys.to_set().contains(key));
                        }
                    }
                    assert(acc =~= merge_class(before.0, classes@, class@));
                }
                let mut full = chars_of("minecraft:");
                let id_chars = chars_of(id.as_str());
                let mut j: usize = 0;
                let ghost prefix = full@;
                while j < id_chars.len()
                    invariant
                        j <= id_chars@.len(),
                        full@ == prefix + id_chars@.take(j as int),
                    decreases id_chars.len() - j,
                {
                    full.push(id_chars[j]);
                    j += 1;
                    assert(full@ =~= prefix + id_chars@.take(j as int));
                }
                assert(id_chars@.take(j as int) =~= id_chars@);
                map_insert(&mut entities, full, resolved);
            },
        }
        n += 1;
    }
    (tags, entities)
}

} // verus!
