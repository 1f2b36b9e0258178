//! Ordered collections of texts: sets and maps kept as vectors sorted by
//! the code-point order that `String`'s `Ord` uses.

use vstd::prelude::*;
use crate::chars::{chars_of, eq_chars};

verus! {

/// Lexicographic order on character sequences (code-point order, which is
/// the byte order of their UTF-8 forms).
pub open spec fn seq_less(a: Seq<char>, b: Seq<char>) -> bool
    decreases a.len(),
{
    if a.len() == 0 {
        b.len() > 0
    } else if b.len() == 0 {
        false
    } else if a[0] != b[0] {
        (a[0] as u32) < (b[0] as u32)
    } else {
        seq_less(a.drop_first(), b.drop_first())
    }
}

pub proof fn lemma_less_irreflexive(a: Seq<char>)
    ensures
        !seq_less(a, a),
    decreases a.len(),
{
    if a.len() > 0 {
        lemma_less_irreflexive(a.drop_first());
    }
}

pub proof fn lemma_less_total(a: Seq<char>, b: Seq<char>)
    ensures
        seq_less(a, b) || a == b || seq_less(b, a),
    decreases a.len(),
{
    if a.len() > 0 && b.len() > 0 {
        if a[0] == b[0] {
            lemma_less_total(a.drop_first(), b.drop_first());
            if a.drop_first() == b.drop_first() {
                assert(a =~= seq![a[0]] + a.drop_first());
                assert(b =~= seq![b[0]] + b.drop_first());
            }
        } else {
            vstd::utf8::char_u32_cast(a[0], a[0] as u32);
            vstd::utf8::char_u32_cast(b[0], b[0] as u32);
        }
    } else if a.len() == 0 && b.len() == 0 {
        assert(a =~= b);
    }
}

pub proof fn lemma_less_transitive(a: Seq<char>, b: Seq<char>, c: Seq<char>)
    requires
        seq_less(a, b),
        seq_less(b, c),
    ensures
        seq_less(a, c),
    decreases a.len(),
{
    if a.len() > 0 && b.len() > 0 && c.len() > 0 {
        if a[0] == b[0] && b[0] == c[0] {
            lemma_less_transitive(a.drop_first(), b.drop_first(), c.drop_first());
        }
    }
}

pub proof fn lemma_less_asymmetric(a: Seq<char>, b: Seq<char>)
    requires
        seq_less(a, b),
    ensures
        !seq_less(b, a),
{
    if seq_less(b, a) {
        lemma_less_transitive(a, b, a);
        lemma_less_irreflexive(a);
    }
}

/// Every element is strictly less than every later one.
pub open spec fn strictly_sorted(s: Seq<Seq<char>>) -> bool {
    forall|i: int, j: int| 0 <= i < j < s.len() ==> seq_less(s[i], s[j])
}

/// A strictly sorted sequence holds no element twice.
pub proof fn lemma_sorted_no_duplicates(s: Seq<Seq<char>>)
    requires
        strictly_sorted(s),
    ensures
        s.no_duplicates(),
{
    assert forall|i: int, j: int| 0 <= i < s.len() && 0 <= j < s.len() && i != j implies s[i] != s[j] by {
        if i < j {
            lemma_less_irreflexive(s[i]);
        } else {
            lemma_less_irreflexive(s[j]);
        }
    }
}

/// Whether `a` comes strictly before `b`.
pub fn less_chars(a: &[char], b: &[char]) -> (r: bool)
    ensures
        r == seq_less(a@, b@),
{
    let mut i: usize = 0;
    assert(a@.skip(0) =~= a@);
    assert(b@.skip(0) =~= b@);
    while i < a.len() && i < b.len() && a[i] == b[i]
        invariant
            i <= a@.len(),
            i <= b@.len(),
            seq_less(a@, b@) == seq_less(a@.skip(i as int), b@.skip(i as int)),
        decreases a.len() - i,
    {
        proof {
            assert(a@.skip(i as int).drop_first() =~= a@.skip(i + 1));
            assert(b@.skip(i as int).drop_first() =~= b@.skip(i + 1));
        }
        i += 1;
    }
    if i == a.len() {
        i < b.len()
    } else if i == b.len() {
        false
    } else {
        (a[i] as u32) < (b[i] as u32)
    }
}

/// The views of a sequence of character vectors.
pub open spec fn seq_views(v: Seq<Vec<char>>) -> Seq<Seq<char>> {
    v.map_values(|x: Vec<char>| x@)
}

/// Pushing a vector pushes its view.
pub proof fn lemma_seq_views_push(v: Seq<Vec<char>>, x: Vec<char>)
    ensures
        seq_views(v.push(x)) == seq_views(v).push(x@),
{
    assert(seq_views(v.push(x)) =~= seq_views(v).push(x@));
}

/// Inserts `x` into the strictly sorted `set`, unless it is already there.
pub fn insert_sorted(set: &mut Vec<Vec<char>>, x: Vec<char>)
    requires
        strictly_sorted(seq_views(old(set)@)),
    ensures
        strictly_sorted(seq_views(final(set)@)),
        seq_views(final(set)@).to_set() == seq_views(old(set)@).to_set().insert(x@),
{
    let ghost old_views = seq_views(set@);
    let mut p: usize = 0;
    while p < set.len() && less_chars(set[p].as_slice(), x.as_slice())
        invariant
            p <= set@.len(),
            set@ == old(set)@,
            old_views == seq_views(set@),
            strictly_sorted(old_views),
            forall|i: int| 0 <= i < p ==> seq_less(old_views[i], x@),
        decreases set.len() - p,
    {
        p += 1;
    }
    if p < set.len() && crate::chars::eq_chars(set[p].as_slice(), x.as_slice()) {
        proof {
            assert(old_views[p as int] == x@);
            assert(old_views.to_set().insert(x@) =~= old_views.to_set());
        }
        return;
    }
    proof {
        if p < set@.len() {
            lemma_less_total(old_views[p as int], x@);
        }
        assert forall|j: int| p <= j < old_views.len() implies seq_less(x@, old_views[j]) by {
            if j > p {
                lemma_less_transitive(x@, old_views[p as int], old_views[j]);
            }
        }
    }
    set.insert(p, x);
    proof {
        let nv = seq_views(set@);
        assert(nv =~= old_views.insert(p as int, x@));
        assert forall|i: int, j: int| 0 <= i < j < nv.len() implies seq_less(nv[i], nv[j]) by {
            if j < p {
            } else if j == p {
            } else if i < p {
                lemma_less_transitive(nv[i], x@, nv[j]);
            } else if i == p {
            } else {
            }
        }
        assert(nv.to_set() =~= old_views.to_set().insert(x@)) by {
            assert forall|y: Seq<char>| nv.to_set().contains(y) implies old_views.to_set().insert(
                x@,
            ).contains(y) by {
                let k = choose|k: int| 0 <= k < nv.len() && nv[k] == y;
                if k < p {
                    assert(old_views[k] == y);
                } else if k > p {
                    assert(old_views[k - 1] == y);
                }
            }
            assert forall|y: Seq<char>| old_views.to_set().insert(x@).contains(y) implies nv.to_set().contains(
                y,
            ) by {
                if y == x@ {
                    assert(nv[p as int] == y);
                } else {
                    let k = choose|k: int| 0 <= k < old_views.len() && old_views[k] == y;
                    if k < p {
                        assert(nv[k] == y);
                    } else {
                        assert(nv[k + 1] == y);
                    }
                }
            }
        }
    }
}

/// The keys of a sorted map.
pub open spec fn entry_keys<V: View>(m: Seq<(Vec<char>, V)>) -> Seq<Seq<char>> {
    m.map_values(|e: (Vec<char>, V)| e.0@)
}

/// The map holds `key` with value `value`.
pub open spec fn map_has<V: View>(m: Seq<(Vec<char>, V)>, key: Seq<char>, value: V::V) -> bool {
    exists|i: int| 0 <= i < m.len() && m[i].0@ == key && m[i].1@ == value
}

/// The sorted map `m` stands for the mathematical map `target`.
pub open spec fn represents<V: View>(m: Seq<(Vec<char>, V)>, target: Map<Seq<char>, V::V>) -> bool {
    &&& strictly_sorted(entry_keys(m))
    &&& forall|key: Seq<char>, value: V::V|
        map_has(m, key, value) <==> (target.contains_key(key) && target[key] == value)
}

pub proof fn lemma_sorted_unique<V: View>(m: Seq<(Vec<char>, V)>, i: int, j: int)
    requires
        strictly_sorted(entry_keys(m)),
        0 <= i < m.len(),
        0 <= j < m.len(),
        m[i].0@ == m[j].0@,
    ensures
        i == j,
{
    if i < j {
        assert(seq_less(entry_keys(m)[i], entry_keys(m)[j]));
        lemma_less_irreflexive(m[i].0@);
    } else if j < i {
        assert(seq_less(entry_keys(m)[j], entry_keys(m)[i]));
        lemma_less_irreflexive(m[i].0@);
    }
}

/// Every entry of `new` holds `value` or is an entry of `old`.
pub open spec fn values_drawn_from<V>(new: Seq<(Vec<char>, V)>, old: Seq<(Vec<char>, V)>, value: V) -> bool {
    forall|j: int| 0 <= j < new.len() ==> #[trigger] new[j].1 == value || exists|i: int|
        0 <= i < old.len() && new[j] == old[i]
}

/// Sets `key` to `value` in the sorted map, replacing an earlier value.
pub fn map_insert<V: View>(map: &mut Vec<(Vec<char>, V)>, key: Vec<char>, value: V)
    requires
        strictly_sorted(entry_keys(old(map)@)),
    ensures
        forall|target: Map<Seq<char>, V::V>| #[trigger]
            represents(old(map)@, target) ==> represents(final(map)@, target.insert(key@, value@)),
        values_drawn_from(final(map)@, old(map)@, value),
{
    let ghost old_keys = entry_keys(map@);
    let ghost old_m = map@;
    let mut p: usize = 0;
    while p < map.len() && less_chars(map[p].0.as_slice(), key.as_slice())
        invariant
            p <= map@.len(),
            map@ == old_m,
            old_keys == entry_keys(map@),
            strictly_sorted(old_keys),
            forall|i: int| 0 <= i < p ==> seq_less(old_keys[i], key@),
        decreases map.len() - p,
    {
        p += 1;
    }
    if p < map.len() && crate::chars::eq_chars(map[p].0.as_slice(), key.as_slice()) {
        map.set(p, (key, value));
        proof {
            let nm = map@;
            assert forall|j: int| 0 <= j < nm.len() implies #[trigger] nm[j].1 == value || exists|i: int|
                0 <= i < old_m.len() && nm[j] == old_m[i] by {
                if j != p {
                    assert(nm[j] == old_m[j]);
                }
            }
            assert(entry_keys(nm) =~= old_keys);
            assert forall|target: Map<Seq<char>, V::V>| #[trigger]
                represents(old_m, target) implies represents(nm, target.insert(key@, value@)) by {
                assert forall|k: Seq<char>, v: V::V|
                    map_has(nm, k, v) <==> (target.insert(key@, value@).contains_key(k)
                        && target.insert(key@, value@)[k] == v) by {
                    if k == key@ {
                        if map_has(nm, k, v) {
                            let i = choose|i: int| 0 <= i < nm.len() && nm[i].0@ == k && nm[i].1@ == v;
                            lemma_sorted_unique(nm, i, p as int);
                        }
                        if v == value@ {
                            assert(nm[p as int].0@ == k && nm[p as int].1@ == v);
                        }
                    } else {
                        if map_has(nm, k, v) {
                            let i = choose|i: int| 0 <= i < nm.len() && nm[i].0@ == k && nm[i].1@ == v;
                            assert(old_m[i] == nm[i]);
                            assert(map_has(old_m, k, v));
                        }
                        if map_has(old_m, k, v) {
                            let i = choose|i: int| 0 <= i < old_m.len() && old_m[i].0@ == k && old_m[i].1@ == v;
                            assert(i != p);
                            assert(nm[i] == old_m[i]);
                        }
                    }
                }
            }
        }
        return;
    }
    proof {
        if p < map@.len() {
            lemma_less_total(old_keys[p as int], key@);
        }
        assert forall|j: int| p <= j < old_keys.len() implies seq_less(key@, old_keys[j]) by {
            if j > p {
                lemma_less_transitive(key@, old_keys[p as int], old_keys[j]);
            }
        }
        assert forall|j: int| 0 <= j < old_m.len() implies old_m[j].0@ != key@ by {
            assert(old_keys[j] == old_m[j].0@);
            lemma_less_irreflexive(key@);
        }
    }
    let ghost kv = key@;
    let ghost vv = value@;
    map.insert(p, (key, value));
    proof {
        let nm = map@;
        let nk = entry_keys(nm);
        assert forall|j: int| 0 <= j < nm.len() implies #[trigger] nm[j].1 == value || exists|i: int|
            0 <= i < old_m.len() && nm[j] == old_m[i] by {
            if j < p {
                assert(nm[j] == old_m[j]);
            } else if j > p {
                assert(nm[j] == old_m[j - 1]);
            }
        }
        assert(nk =~= old_keys.insert(p as int, kv));
        assert forall|i: int, j: int| 0 <= i < j < nk.len() implies seq_less(nk[i], nk[j]) by {
            if j < p {
            } else if j == p {
            } else if i < p {
                lemma_less_transitive(nk[i], kv, nk[j]);
            } else if i == p {
            } else {
            }
        }
        assert forall|target: Map<Seq<char>, V::V>| #[trigger]
            represents(old_m, target) implies represents(nm, target.insert(kv, vv)) by {
            assert forall|k: Seq<char>, v: V::V|
                map_has(nm, k, v) <==> (target.insert(kv, vv).contains_key(k)
                    && target.insert(kv, vv)[k] == v) by {
                if k == kv {
                    if map_has(nm, k, v) {
                        let i = choose|i: int| 0 <= i < nm.len() && nm[i].0@ == k && nm[i].1@ == v;
                        if i < p {
                            assert(old_m[i] == nm[i]);
                        } else if i > p {
                            assert(old_m[i - 1] == nm[i]);
                        }
                    }
                    if v == vv {
                        assert(nm[p as int].0@ == k && nm[p as int].1@ == v);
                    }
                } else {
                    if map_has(nm, k, v) {
                        let i = choose|i: int| 0 <= i < nm.len() && nm[i].0@ == k && nm[i].1@ == v;
                        if i < p {
                            assert(old_m[i] == nm[i]);
                            assert(map_has(old_m, k, v));
                        } else if i > p {
                            assert(old_m[i - 1] == nm[i]);
                            assert(map_has(old_m, k, v));
                        }
                    }
                    if map_has(old_m, k, v) {
                        let i = choose|i: int| 0 <= i < old_m.len() && old_m[i].0@ == k && old_m[i].1@ == v;
                        if i < p {
                            assert(nm[i] == old_m[i]);
                        } else {
                            assert(nm[i + 1] == old_m[i]);
                        }
                    }
                }
            }
        }
    }
}

/// The index at which `k` belongs among the sorted `keys`, searching from `i`.
pub open spec fn insert_pos_from(keys: Seq<Seq<char>>, k: Seq<char>, i: int) -> int
    decreases keys.len() - i,
{
    if i < 0 || i >= keys.len() || !seq_less(keys[i], k) {
        i
    } else {
        insert_pos_from(keys, k, i + 1)
    }
}

/// The first key equal to `k`, if any.
pub open spec fn has_key<V>(s: Seq<(Seq<char>, V)>, k: Seq<char>) -> bool {
    exists|i: int| 0 <= i < s.len() && s[i].0 == k
}

/// Keys of a spec entry sequence.
pub open spec fn spec_keys<V>(s: Seq<(Seq<char>, V)>) -> Seq<Seq<char>> {
    s.map_values(|e: (Seq<char>, V)| e.0)
}

/// Inserts `(k, v)` at its sorted place unless `k` is already present
/// (the first value for a key is kept).
pub open spec fn insert_absent<V>(s: Seq<(Seq<char>, V)>, k: Seq<char>, v: V) -> Seq<(Seq<char>, V)> {
    if has_key(s, k) {
        s
    } else {
        s.insert(insert_pos_from(spec_keys(s), k, 0), (k, v))
    }
}

pub proof fn lemma_insert_pos(keys: Seq<Seq<char>>, k: Seq<char>, i: int)
    requires
        0 <= i <= keys.len(),
    ensures
        i <= insert_pos_from(keys, k, i) <= keys.len(),
        forall|j: int| i <= j < insert_pos_from(keys, k, i) ==> seq_less(keys[j], k),
        insert_pos_from(keys, k, i) < keys.len() ==> !seq_less(
            keys[insert_pos_from(keys, k, i)],
            k,
        ),
    decreases keys.len() - i,
{
    if i < keys.len() && seq_less(keys[i], k) {
        lemma_insert_pos(keys, k, i + 1);
    }
}

/// Inserting an absent key keeps the keys strictly sorted.
pub proof fn lemma_insert_absent_sorted<V>(s: Seq<(Seq<char>, V)>, k: Seq<char>, v: V)
    requires
        strictly_sorted(spec_keys(s)),
    ensures
        strictly_sorted(spec_keys(insert_absent(s, k, v))),
        has_key(insert_absent(s, k, v), k),
        forall|key: Seq<char>| has_key(s, key) ==> has_key(insert_absent(s, k, v), key),
        forall|key: Seq<char>|
            has_key(insert_absent(s, k, v), key) ==> has_key(s, key) || key == k,
        insert_absent(s, k, v).len() == s.len() + if has_key(s, k) {
            0int
        } else {
            1int
        },
{
    let keys = spec_keys(s);
    if !has_key(s, k) {
        lemma_insert_pos(keys, k, 0);
        let p = insert_pos_from(keys, k, 0);
        let ns = s.insert(p, (k, v));
        let nk = spec_keys(ns);
        assert(nk =~= keys.insert(p, k));
        if p < keys.len() {
            lemma_less_total(keys[p], k);
            assert(keys[p] != k) by {
                assert(s[p].0 == keys[p]);
            }
        }
        assert forall|j: int| p <= j < keys.len() implies seq_less(k, keys[j]) by {
            if j > p {
                lemma_less_transitive(k, keys[p], keys[j]);
            }
        }
        assert forall|i: int, j: int| 0 <= i < j < nk.len() implies seq_less(nk[i], nk[j]) by {
            if j < p {
            } else if j == p {
            } else if i < p {
                lemma_less_transitive(nk[i], k, nk[j]);
            } else if i == p {
            } else {
            }
        }
        assert(ns[p].0 == k);
        assert forall|key: Seq<char>| has_key(s, key) implies has_key(ns, key) by {
            let i = choose|i: int| 0 <= i < s.len() && s[i].0 == key;
            if i < p {
                assert(ns[i] == s[i]);
            } else {
                assert(ns[i + 1] == s[i]);
            }
        }
        assert forall|key: Seq<char>| has_key(ns, key) implies has_key(s, key) || key == k by {
            let i = choose|i: int| 0 <= i < ns.len() && ns[i].0 == key;
            if i < p {
                assert(ns[i] == s[i]);
            } else if i > p {
                assert(ns[i] == s[i - 1]);
            }
        }
    } else {
        let i = choose|i: int| 0 <= i < s.len() && s[i].0 == k;
        assert(s[i].0 == k);
    }
}

/// Finds where `key` belongs in the sorted map: its index if present, and
/// the sorted insertion index.
pub fn locate<V>(map: &Vec<(Vec<char>, V)>, key: &[char]) -> (r: (usize, bool))
    requires
        strictly_sorted(seq_views_of_keys(map@)),
    ensures
        r.0 as int == insert_pos_from(seq_views_of_keys(map@), key@, 0),
        r.0 <= map@.len(),
        r.1 == (exists|i: int| 0 <= i < map@.len() && map@[i].0@ == key@),
        r.1 ==> r.0 < map@.len() && map@[r.0 as int].0@ == key@,
{
    let ghost keys = seq_views_of_keys(map@);
    proof {
        lemma_insert_pos(keys, key@, 0);
    }
    let mut p: usize = 0;
    while p < map.len() && less_chars(map[p].0.as_slice(), key)
        invariant
            p <= map@.len(),
            keys == seq_views_of_keys(map@),
            insert_pos_from(keys, key@, p as int) == insert_pos_from(keys, key@, 0),
        decreases map.len() - p,
    {
        p += 1;
    }
    proof {
        lemma_insert_pos(keys, key@, 0);
    }
    let found = p < map.len() && crate::chars::eq_chars(map[p].0.as_slice(), key);
    proof {
        if !found {
            assert forall|i: int| 0 <= i < map@.len() implies map@[i].0@ != key@ by {
                assert(keys[i] == map@[i].0@);
                if i < p {
                    lemma_less_irreflexive(key@);
                } else if i == p {
                    lemma_less_irreflexive(key@);
                } else {
                    assert(seq_less(keys[p as int], keys[i]));
                    lemma_less_irreflexive(key@);
                }
            }
        }
    }
    (p, found)
}

/// The key views of a map's entries.
pub open spec fn seq_views_of_keys<V>(m: Seq<(Vec<char>, V)>) -> Seq<Seq<char>> {
    m.map_values(|e: (Vec<char>, V)| e.0@)
}

/// The empty sorted map stands for the empty map.
pub proof fn lemma_empty_represents<V: View>(m: Seq<(Vec<char>, V)>)
    requires
        m.len() == 0,
    ensures
        represents(m, Map::empty()),
{
}

/// No element comes strictly before an earlier one.
pub open spec fn ascending(s: Seq<Seq<char>>) -> bool {
    forall|i: int, j: int| 0 <= i < j < s.len() ==> !seq_less(s[j], s[i])
}

/// The views of a sequence of strings.
pub open spec fn string_views(v: Seq<String>) -> Seq<Seq<char>> {
    v.map_values(|s: String| s@)
}

/// Pushing a string pushes its view.
pub proof fn lemma_string_views_push(v: Seq<String>, s: String)
    ensures
        string_views(v.push(s)) == string_views(v).push(s@),
{
    assert(string_views(v.push(s)) =~= string_views(v).push(s@));
}

/// Sorts strings into ascending order (a stable insertion sort).
pub fn sort_strings(v: Vec<String>) -> (r: Vec<String>)
    ensures
        ascending(string_views(r@)),
        string_views(r@).to_multiset() == string_views(v@).to_multiset(),
{
    let mut r: Vec<String> = Vec::new();
    let mut i: usize = 0;
    assert(string_views(r@) =~= string_views(v@.take(0)));
    while i < v.len()
        invariant
            i <= v@.len(),
            ascending(string_views(r@)),
            string_views(r@).to_multiset() == string_views(v@.take(i as int)).to_multiset(),
        decreases v.len() - i,
    {
        let x = v[i].clone();
        let xc = x.as_str();
        let ghost xs = x@;
        let xchars = crate::chars::chars_of(xc);
        let mut p: usize = 0;
        loop
            invariant
                p <= r@.len(),
                xs == x@,
                xchars@ == xs,
                forall|k: int| 0 <= k < p ==> !seq_less(xs, string_views(r@)[k]),
            ensures
                p <= r@.len(),
                forall|k: int| 0 <= k < p ==> !seq_less(xs, string_views(r@)[k]),
                p < r@.len() ==> seq_less(xs, string_views(r@)[p as int]),
            decreases r.len() - p,
        {
            if p == r.len() {
                break;
            }
            let other = crate::chars::chars_of(r[p].as_str());
            assert(other@ == string_views(r@)[p as int]);
            if less_chars(xchars.as_slice(), other.as_slice()) {
                break;
            }
            p += 1;
        }
        let ghost before = string_views(r@);
        proof {
            assert forall|k: int| p <= k < before.len() implies seq_less(xs, before[k]) by {
                assert(seq_less(xs, before[p as int]));
                if k > p {
                    assert(!seq_less(before[k], before[p as int]));
                    lemma_less_total(before[p as int], before[k]);
                    if before[p as int] != before[k] {
                        lemma_less_transitive(xs, before[p as int], before[k]);
                    }
                }
            }
        }
        r.insert(p, x);
        proof {
            assert(string_views(r@) =~= before.insert(p as int, xs));
            assert(v@.take(i + 1) =~= v@.take(i as int).push(v@[i as int]));
            assert(string_views(v@.take(i + 1)) =~= string_views(v@.take(i as int)).push(xs));
            vstd::seq_lib::to_multiset_insert(before, p as int, xs);
            vstd::seq_lib::to_multiset_build(string_views(v@.take(i as int)), xs);
            let after = string_views(r@);
            assert forall|a: int, b: int| 0 <= a < b < after.len() implies !seq_less(after[b], after[a]) by {
                if a < p && b == p {
                } else if a == p && b > p {
                    lemma_less_asymmetric(xs, before[b - 1]);
                } else if a < p && b > p {
                    assert(!seq_less(before[b - 1], before[a]));
                } else if b < p {
                } else {
                    assert(!seq_less(before[b - 1], before[a - 1]));
                }
            }
        }
        i += 1;
    }
    assert(v@.take(i as int) =~= v@);
    r
}

/// A set of strings, kept strictly sorted.
pub struct StringSet {
    keys: Vec<Vec<char>>,
}

impl StringSet {
    #[verifier::type_invariant]
    spec fn well_formed(self) -> bool {
        strictly_sorted(seq_views(self.keys@))
    }
}

impl View for StringSet {
    type V = Set<Seq<char>>;

    closed spec fn view(&self) -> Set<Seq<char>> {
        seq_views(self.keys@).to_set()
    }
}

impl StringSet {
    /// The empty set.
    pub fn new() -> (r: StringSet)
        ensures
            r@ == Set::<Seq<char>>::empty(),
    {
        let r = StringSet { keys: Vec::new() };
        assert(seq_views(r.keys@) =~= Seq::<Seq<char>>::empty());
        r
    }

    /// Adds a key.
    pub fn insert(&mut self, key: Vec<char>)
        ensures
            final(self)@ == old(self)@.insert(key@),
    {
        proof {
            use_type_invariant(&*self);
        }
        let mut keys = Vec::new();
        std::mem::swap(&mut keys, &mut self.keys);
        insert_sorted(&mut keys, key);
        self.keys = keys;
    }

    /// A copy of the set.
    pub fn copy(&self) -> (r: StringSet)
        ensures
            r@ == self@,
    {
        proof {
            use_type_invariant(self);
        }
        let mut keys: Vec<Vec<char>> = Vec::new();
        let mut i: usize = 0;
        while i < self.keys.len()
            invariant
                i <= self.keys@.len(),
                keys@.len() == i,
                strictly_sorted(seq_views(self.keys@)),
                seq_views(keys@) == seq_views(self.keys@).take(i as int),
            decreases self.keys.len() - i,
        {
            let k = crate::chars::slice_vec(self.keys[i].as_slice(), 0, self.keys[i].len());
            assert(k@ =~= self.keys@[i as int]@);
            let ghost before = keys@;
            keys.push(k);
            assert(seq_views(keys@) =~= seq_views(before).push(k@));
            assert(seq_views(self.keys@).take(i + 1) =~= seq_views(self.keys@).take(i as int).push(self.keys@[i as int]@));
            i += 1;
        }
        assert(seq_views(self.keys@).take(i as int) =~= seq_views(self.keys@));
        StringSet { keys }
    }

    /// Whether `key` is in the set.
    pub fn contains(&self, key: &str) -> (r: bool)
        ensures
            r == self@.contains(key@),
    {
        let k = chars_of(key);
        self.has(k.as_slice())
    }

    /// Whether the key spelled by `key` is in the set.
    pub fn has(&self, key: &[char]) -> (r: bool)
        ensures
            r == self@.contains(key@),
    {
        let mut i: usize = 0;
        while i < self.keys.len()
            invariant
                i <= self.keys@.len(),
                forall|j: int| 0 <= j < i ==> self.keys@[j]@ != key@,
            decreases self.keys.len() - i,
        {
            let same = eq_chars(self.keys[i].as_slice(), key);
            assert(self.keys[i as int]@ == self.keys@[i as int]@);
            if same {
                assert(seq_views(self.keys@)[i as int] == key@);
                return true;
            }
            i += 1;
        }
        proof {
            if seq_views(self.keys@).to_set().contains(key@) {
                let j = choose|j: int| 0 <= j < seq_views(self.keys@).len() && seq_views(self.keys@)[j] == key@;
                assert(self.keys@[j]@ == key@);
            }
        }
        false
    }

    /// The number of keys.
    pub fn len(&self) -> (r: usize)
        ensures
            r == self@.len(),
    {
        proof {
            use_type_invariant(self);
            crate::sorted::lemma_sorted_no_duplicates(seq_views(self.keys@));
            seq_views(self.keys@).unique_seq_to_set();
        }
        self.keys.len()
    }

    /// The keys in ascending order.
    pub closed spec fn listing(&self) -> Seq<Seq<char>> {
        seq_views(self.keys@)
    }

    /// The listing holds exactly the set's keys.
    pub proof fn lemma_listing(&self)
        ensures
            self.listing().to_set() == self@,
    {
    }

    /// The keys, in ascending order.
    pub fn keys(&self) -> (r: Vec<String>)
        ensures
            string_views(r@) == self.listing(),
            self.listing().to_set() == self@,
            strictly_sorted(self.listing()),
    {
        proof {
            use_type_invariant(self);
        }
        let mut r: Vec<String> = Vec::new();
        let mut i: usize = 0;
        while i < self.keys.len()
            invariant
                i <= self.keys@.len(),
                r@.len() == i,
                r@.map_values(|s: String| s@) =~= seq_views(self.keys@).take(i as int),
            decreases self.keys.len() - i,
        {
            let s = crate::chars::string_from(self.keys[i].as_slice());
            assert(s@ == seq_views(self.keys@)[i as int]);
            let ghost prev = r@;
            r.push(s);
            proof {
                assert forall|j: int| 0 <= j < i implies r@[j]@ == seq_views(self.keys@)[j] by {
                    assert(r@[j] == prev[j]);
                    assert(prev.map_values(|s: String| s@)[j] == seq_views(self.keys@).take(i as int)[j]);
                }
            }
            i += 1;
            assert(r@.map_values(|s: String| s@) =~= seq_views(self.keys@).take(i as int));
        }
        assert(seq_views(self.keys@).take(i as int) =~= seq_views(self.keys@));
        r
    }
}

/// The value stored under `key` in a sorted map that stands for `m`.
pub(crate) fn lookup<'a, V: View>(map: &'a Vec<(Vec<char>, V)>, key: &[char], Ghost(m): Ghost<Map<Seq<char>, V::V>>) -> (r: Option<&'a V>)
    requires
        represents(map@, m),
    ensures
        match r {
            Some(v) => m.contains_key(key@) && v@ == m[key@],
            None => !m.contains_key(key@),
        },
{
    assert(entry_keys(map@) =~= seq_views_of_keys(map@));
    let (at, found) = locate(map, key);
    if found {
        assert(map_has(map@, key@, map@[at as int].1@));
        Some(&map[at].1)
    } else {
        proof {
            if m.contains_key(key@) {
                assert(map_has(map@, key@, m[key@]));
            }
        }
        None
    }
}

/// The keys of a sorted map, in ascending order.
pub(crate) fn map_keys<V: View>(map: &Vec<(Vec<char>, V)>, Ghost(m): Ghost<Map<Seq<char>, V::V>>) -> (r: Vec<String>)
    requires
        represents(map@, m),
    ensures
        strictly_sorted(string_views(r@)),
        string_views(r@).to_set() == m.dom(),
{
    let mut r: Vec<String> = Vec::new();
    let mut i: usize = 0;
    while i < map.len()
        invariant
            i <= map@.len(),
            represents(map@, m),
            string_views(r@) == entry_keys(map@).take(i as int),
        decreases map.len() - i,
    {
        let x = crate::chars::string_from(map[i].0.as_slice());
        proof {
            lemma_string_views_push(r@, x);
            assert(entry_keys(map@).take(i + 1) =~= entry_keys(map@).take(i as int).push(x@));
        }
        r.push(x);
        i += 1;
    }
    proof {
        assert(entry_keys(map@).take(i as int) =~= entry_keys(map@));
        assert forall|k: Seq<char>| string_views(r@).to_set().contains(k) <==> m.dom().contains(k) by {
            if string_views(r@).to_set().contains(k) {
                let j = choose|j: int| 0 <= j < string_views(r@).len() && string_views(r@)[j] == k;
                assert(map_has(map@, k, map@[j].1@));
            }
            if m.dom().contains(k) {
                assert(map_has(map@, k, m[k]));
                let j = choose|j: int| 0 <= j < map@.len() && map@[j].0@ == k && map@[j].1@ == m[k];
                assert(string_views(r@)[j] == k);
            }
        }
        assert(string_views(r@).to_set() =~= m.dom());
    }
    r
}

/// Replaces the value at `at`, keeping the key; returns the old value.
pub fn map_update_at<V: View>(map: &mut Vec<(Vec<char>, V)>, at: usize, value: V) -> (previous: V)
    requires
        at < old(map)@.len(),
    ensures
        previous == old(map)@[at as int].1,
        final(map)@.len() == old(map)@.len(),
        final(map)@[at as int].0 == old(map)@[at as int].0,
        final(map)@[at as int].1 == value,
        forall|j: int| 0 <= j < old(map)@.len() && j != at ==> final(map)@[j] == old(map)@[j],
        forall|target: Map<Seq<char>, V::V>| #[trigger]
            represents(old(map)@, target) ==> represents(final(map)@, target.insert(old(map)@[at as int].0@, value@)),
{
    let ghost old_m = map@;
    let (key, previous) = map.remove(at);
    map.insert(at, (key, value));
    proof {
        let nm = map@;
        assert(nm =~= old_m.update(at as int, (old_m[at as int].0, value)));
        assert(entry_keys(nm) =~= entry_keys(old_m));
        assert forall|target: Map<Seq<char>, V::V>| #[trigger]
            represents(old_m, target) implies represents(nm, target.insert(old_m[at as int].0@, value@)) by {
            let k0 = old_m[at as int].0@;
            assert forall|k: Seq<char>, v: V::V|
                map_has(nm, k, v) <==> (target.insert(k0, value@).contains_key(k) && target.insert(k0, value@)[k] == v) by {
                if map_has(nm, k, v) {
                    let i = choose|i: int| 0 <= i < nm.len() && nm[i].0@ == k && nm[i].1@ == v;
                    if i != at {
                        assert(map_has(old_m, k, v));
                        if k == k0 {
                            lemma_sorted_unique(old_m, i, at as int);
                        }
                    }
                }
                if target.insert(k0, value@).contains_key(k) && target.insert(k0, value@)[k] == v {
                    if k == k0 {
                        assert(nm[at as int].0@ == k && nm[at as int].1@ == v);
                    } else {
                        assert(map_has(old_m, k, v));
                        let i = choose|i: int| 0 <= i < old_m.len() && old_m[i].0@ == k && old_m[i].1@ == v;
                        assert(nm[i] == old_m[i]);
                    }
                }
            }
        }
    }
    previous
}

/// The map a sorted map stands for has a finite domain, of the entries'
/// keys.
pub proof fn lemma_represents_finite<V: View>(m: Seq<(Vec<char>, V)>, target: Map<Seq<char>, V::V>)
    requires
        represents(m, target),
    ensures
        target.dom() == entry_keys(m).to_set(),
        target.dom().finite(),
{
    assert forall|k: Seq<char>| target.dom().contains(k) <==> entry_keys(m).to_set().contains(k) by {
        if target.dom().contains(k) {
            assert(map_has(m, k, target[k]));
            let i = choose|i: int| 0 <= i < m.len() && m[i].0@ == k && m[i].1@ == target[k];
            assert(entry_keys(m)[i] == k);
        }
        if entry_keys(m).to_set().contains(k) {
            let i = choose|i: int| 0 <= i < entry_keys(m).len() && entry_keys(m)[i] == k;
            assert(map_has(m, k, m[i].1@));
        }
    }
    assert(target.dom() =~= entry_keys(m).to_set());
    vstd::seq_lib::seq_to_set_is_finite(entry_keys(m));
}

/// Pushing onto a sequence adds to its set.
pub proof fn lemma_push_to_set<A>(s: Seq<A>, x: A)
    ensures
        s.push(x).to_set() == s.to_set().insert(x),
{
    assert forall|k: A| s.push(x).to_set().contains(k) <==> s.to_set().insert(x).contains(k) by {
        if s.push(x).to_set().contains(k) {
            let i = choose|i: int| 0 <= i < s.push(x).len() && s.push(x)[i] == k;
            if i < s.len() {
                assert(s[i] == k);
            }
        }
        if s.to_set().contains(k) {
            let i = choose|i: int| 0 <= i < s.len() && s[i] == k;
            assert(s.push(x)[i] == k);
        }
        if k == x {
            assert(s.push(x)[s.len() as int] == x);
        }
    }
    assert(s.push(x).to_set() =~= s.to_set().insert(x));
}

/// Each element below the next one makes the whole sequence strictly
/// sorted.
pub proof fn lemma_adjacent_sorted(s: Seq<Seq<char>>)
    requires
        forall|k: int| 0 <= k < s.len() - 1 ==> #[trigger] seq_less(s[k], s[k + 1]),
    ensures
        strictly_sorted(s),
{
    assert forall|i: int, j: int| 0 <= i < j < s.len() implies seq_less(s[i], s[j]) by {
        lemma_adjacent_chain(s, i, j);
    }
}

proof fn lemma_adjacent_chain(s: Seq<Seq<char>>, i: int, j: int)
    requires
        forall|k: int| 0 <= k < s.len() - 1 ==> #[trigger] seq_less(s[k], s[k + 1]),
        0 <= i < j < s.len(),
    ensures
        seq_less(s[i], s[j]),
    decreases j - i,
{
    let k = j - 1;
    assert(seq_less(s[k], s[k + 1]));
    assert(k + 1 == j);
    if j > i + 1 {
        lemma_adjacent_chain(s, i, k);
        lemma_less_transitive(s[i], s[k], s[j]);
    }
}

/// A sequence that reorders a strictly sorted one holds no element twice:
/// `column[i] == sorted[pos[i]]`, with `perm` undoing `pos`.
pub proof fn lemma_reordered_distinct(column: Seq<Seq<char>>, sorted: Seq<Seq<char>>, pos: Seq<int>, perm: Seq<int>)
    requires
        strictly_sorted(sorted),
        pos.len() == column.len(),
        forall|i: int| 0 <= i < column.len() ==> 0 <= #[trigger] pos[i] < sorted.len() && column[i] == sorted[pos[i]] && perm[pos[i]] == i,
    ensures
        forall|i: int, j: int| 0 <= i < column.len() && 0 <= j < column.len() && i != j ==> column[i] != column[j],
{
    assert forall|i: int, j: int| 0 <= i < column.len() && 0 <= j < column.len() && i != j implies column[i] != column[j] by {
        assert(0 <= pos[i] < sorted.len() && 0 <= pos[j] < sorted.len());
        if pos[i] < pos[j] {
            assert(seq_less(sorted[pos[i]], sorted[pos[j]]));
            lemma_less_irreflexive(sorted[pos[i]]);
        } else if pos[j] < pos[i] {
            assert(seq_less(sorted[pos[j]], sorted[pos[i]]));
            lemma_less_irreflexive(sorted[pos[j]]);
        }
    }
}

} // verus!
