//! The bundled version snapshot: registry ids, enums, commands and
//! advancement trigger fields. Checks only apply to ids in the `minecraft:`
//! namespace; other namespaces may come from data packs, whose contents the
//! compiler does not know, and answer `None` ("cannot tell").

use vstd::prelude::*;
use vstd::string::StringExecFns;
use crate::chars::{chars_of, eq_chars, starts_at, matches_at, slice_vec, string_from, is_ascii_digit, is_ascii_digit_spec};
use crate::sorted::{StringSet, represents, seq_less, strictly_sorted, seq_views, seq_views_of_keys, less_chars, lemma_less_total, lemma_less_transitive, lemma_less_irreflexive};
use crate::version::generate::text::digits_value;
use crate::json::{Json, get, json_get, members_of, string_items, string_set};
use crate::sorted::map_insert;

pub mod tables;

verus! {

broadcast use vstd::string::group_string_axioms;

/// The version of the shipped snapshot: its files are `data/version/<VERSION>/`.
pub const VERSION: &'static str = "26.3";

/// Every character is an ASCII digit.
pub open spec fn all_digits(s: Seq<char>) -> bool {
    forall|i: int| 0 <= i < s.len() ==> is_ascii_digit_spec(s[i])
}

/// What `usize::from_str` reads: an optional `+`, then at least one ASCII
/// digit, with a value that fits.
pub open spec fn usize_parsed(s: Seq<char>) -> Option<usize> {
    let d = if s.len() > 0 && s[0] == '+' {
        s.drop_first()
    } else {
        s
    };
    if d.len() > 0 && all_digits(d) && digits_value(d) <= usize::MAX {
        Some(digits_value(d) as usize)
    } else {
        None
    }
}

/// The character of a decimal digit.
pub open spec fn digit_char(d: nat) -> char {
    ((48 + d) as u8) as char
}

/// The decimal spelling of `n`, as `to_string` writes it.
pub open spec fn decimal(n: nat) -> Seq<char>
    decreases n,
{
    if n < 10 {
        seq![digit_char(n)]
    } else {
        decimal(n / 10).push(digit_char(n % 10))
    }
}

/// A longer run of digits is worth at least as much as its prefix.
proof fn lemma_digits_prefix(s: Seq<char>, k: int)
    requires
        0 <= k <= s.len(),
    ensures
        digits_value(s.take(k)) <= digits_value(s),
    decreases s.len(),
{
    if k < s.len() {
        assert(s.drop_last().take(k) =~= s.take(k));
        lemma_digits_prefix(s.drop_last(), k);
    } else {
        assert(s.take(k) =~= s);
    }
}

/// Reads an unsigned index as `usize::from_str` does.
pub fn parse_usize(text: &[char]) -> (r: Option<usize>)
    ensures
        r == usize_parsed(text@),
{
    let start: usize = if text.len() > 0 && text[0] == '+' {
        1
    } else {
        0
    };
    let ghost d = if text@.len() > 0 && text@[0] == '+' {
        text@.drop_first()
    } else {
        text@
    };
    assert(d =~= text@.subrange(start as int, text@.len() as int));
    if start == text.len() {
        return None;
    }
    let mut value: usize = 0;
    let mut i = start;
    while i < text.len()
        invariant
            start <= i <= text@.len(),
            d == (if text@.len() > 0 && text@[0] == '+' {
                text@.drop_first()
            } else {
                text@
            }),
            d == text@.subrange(start as int, text@.len() as int),
            all_digits(d.take(i - start)),
            value == digits_value(d.take(i - start)),
        decreases text.len() - i,
    {
        let c = text[i];
        assert(d[i - start] == c);
        if !is_ascii_digit(c) {
            assert(!all_digits(d));
            return None;
        }
        let digit = (c as u32 - '0' as u32) as usize;
        let ghost next = d.take(i - start + 1);
        assert(next.drop_last() =~= d.take(i - start));
        assert(digits_value(next) == value * 10 + digit);
        proof {
            lemma_digits_prefix(d, i - start + 1);
            assert(d.take(i - start + 1).take(i - start + 1) =~= next);
        }
        match value.checked_mul(10) {
            None => {
                proof {
                    if all_digits(d) {
                        assert(value * 10 + digit > usize::MAX) by (nonlinear_arith)
                            requires
                                value * 10 > usize::MAX,
                        ;
                    }
                }
                return None;
            },
            Some(m) => match m.checked_add(digit) {
                None => {
                    proof {
                        if all_digits(d) {
                            assert(digits_value(d) >= digits_value(next));
                        }
                    }
                    return None;
                },
                Some(v) => {
                    value = v;
                },
            },
        }
        i += 1;
        assert(all_digits(d.take(i - start))) by {
            assert forall|j: int| 0 <= j < i - start implies is_ascii_digit_spec(#[trigger] d.take(i - start)[j]) by {
                if j < i - start - 1 {
                    assert(d.take(i - start)[j] == d.take(i - start - 1)[j]);
                }
            }
        }
    }
    assert(d.take(i - start) =~= d);
    Some(value)
}

/// The decimal spelling of `n`.
pub fn decimal_chars(n: usize) -> (r: Vec<char>)
    ensures
        r@ == decimal(n as nat),
    decreases n,
{
    let d = (n % 10) as u8;
    let c = (48u8 + d) as char;
    if n < 10 {
        let mut r = Vec::new();
        r.push(c);
        assert(r@ =~= decimal(n as nat));
        r
    } else {
        let mut r = decimal_chars(n / 10);
        r.push(c);
        r
    }
}

/// `name` with the prefix `p` removed, when it starts with `p`.
pub open spec fn suffix_after(name: Seq<char>, p: Seq<char>) -> Option<Seq<char>> {
    if matches_at(name, 0, p) {
        Some(name.skip(p.len() as int))
    } else {
        None
    }
}

/// One range slot accepts `name` as a single slot: `prefix` followed by
/// the canonical decimal spelling of an index below `count`.
pub open spec fn range_takes_single(p: Seq<char>, count: usize, name: Seq<char>) -> bool {
    match suffix_after(name, p) {
        Some(suffix) => match usize_parsed(suffix) {
            Some(index) => index < count && decimal(index as nat) == suffix,
            None => false,
        },
        None => false,
    }
}

/// `name` is a single slot of the table: listed, or a range prefix with an
/// index in range written canonically.
pub open spec fn single_accepted(slots: Slots, name: Seq<char>) -> bool {
    slots.single().contains(name) || exists|k: int| 0 <= k < slots.ranges().len()
        && #[trigger] range_takes_single(slots.ranges()[k].0, slots.ranges()[k].1, name)
}

/// `name` is one of the slots of a range: `prefix` followed by the decimal
/// spelling of an index below `count`.
pub open spec fn range_slot(p: Seq<char>, count: usize, name: Seq<char>) -> bool {
    exists|i: int| 0 <= i < count && name == p + #[trigger] decimal(i as nat)
}

/// `name` is in the slot table: a single slot, a multi-slot set, a whole
/// range (`prefix*`), or one slot of a range.
pub open spec fn slot_listed(slots: Slots, name: Seq<char>) -> bool {
    ||| slots.single().contains(name)
    ||| slots.multi().contains(name)
    ||| exists|k: int|
        #![trigger slots.ranges()[k]]
        0 <= k < slots.ranges().len() && (name == slots.ranges()[k].0 + "*"@ || range_slot(
            slots.ranges()[k].0,
            slots.ranges()[k].1,
            name,
        ))
}

/// The names of the slot table that `names` lists: the single and multi
/// slots, and every slot of every range.
pub open spec fn slot_names(slots: Slots) -> Set<Seq<char>> {
    slots.single().union(slots.multi()).union(
        Set::new(
            |name: Seq<char>|
                exists|k: int| 0 <= k < slots.ranges().len() && #[trigger] range_slot(slots.ranges()[k].0, slots.ranges()[k].1, name),
        ),
    )
}

/// A range takes `name` as a canonically written index exactly when `name`
/// is one of the range's slots.
pub proof fn lemma_range_slot(p: Seq<char>, count: usize, name: Seq<char>)
    ensures
        range_takes_single(p, count, name) <==> range_slot(p, count, name),
{
    if range_takes_single(p, count, name) {
        let suffix = suffix_after(name, p)->0;
        let index = usize_parsed(suffix)->0;
        assert(name.subrange(0, p.len() as int) == p);
        assert(name =~= p + suffix);
        assert(name == p + decimal(index as nat));
    }
    if range_slot(p, count, name) {
        let i = choose|i: int| 0 <= i < count && name == p + #[trigger] decimal(i as nat);
        let d = decimal(i as nat);
        assert(name.subrange(0, p.len() as int) =~= p);
        assert(name.skip(p.len() as int) =~= d);
        lemma_decimal_round_trip(i as usize);
    }
}

/// The names a range slot expands to, `prefix0` to `prefix{count-1}`.
pub open spec fn range_names(p: Seq<char>, count: usize) -> Seq<Seq<char>> {
    Seq::new(count as nat, |i: int| p + decimal(i as nat))
}

/// The names of the range slots from `k` on.
pub open spec fn ranges_names(rs: Seq<(Seq<char>, usize)>, k: int) -> Seq<Seq<char>>
    decreases rs.len() - k,
{
    if k < 0 || k >= rs.len() {
        Seq::empty()
    } else {
        range_names(rs[k].0, rs[k].1) + ranges_names(rs, k + 1)
    }
}

/// The slot table: single slots, range slots (prefix and count) and
/// multi-slot sets.
pub struct Slots {
    single: StringSet,
    ranges: Vec<(Vec<char>, usize)>,
    multi: StringSet,
    range_map: Ghost<Map<Seq<char>, usize>>,
}

/// Whether `name` is `prefix` followed by a canonically written index
/// below `count`.
fn range_hit(prefix: &[char], count: usize, name: &[char]) -> (r: bool)
    ensures
        r == range_takes_single(prefix@, count, name@),
{
    if starts_at(name, 0, prefix) {
        let suffix = slice_vec(name, prefix.len(), name.len());
        assert(suffix@ =~= name@.skip(prefix@.len() as int));
        assert(suffix_after(name@, prefix@) == Some(suffix@));
        if let Some(index) = parse_usize(suffix.as_slice()) {
            if index < count {
                let written = decimal_chars(index);
                return eq_chars(written.as_slice(), suffix.as_slice());
            }
        }
    }
    false
}

impl Slots {
    #[verifier::type_invariant]
    spec fn well_formed(self) -> bool {
        represents(self.ranges@, self.range_map@)
    }

    /// The single slot names.
    pub closed spec fn single(&self) -> Set<Seq<char>> {
        self.single@
    }

    /// The multi-slot names.
    pub closed spec fn multi(&self) -> Set<Seq<char>> {
        self.multi@
    }

    /// Each range prefix with its slot count.
    pub closed spec fn range_map(&self) -> Map<Seq<char>, usize> {
        self.range_map@
    }

    /// The single slot names, in ascending order.
    pub closed spec fn single_names(&self) -> Seq<Seq<char>> {
        self.single.listing()
    }

    /// The multi-slot names, in ascending order.
    pub closed spec fn multi_names(&self) -> Seq<Seq<char>> {
        self.multi.listing()
    }

    /// The range slots, by ascending prefix.
    pub closed spec fn ranges(&self) -> Seq<(Seq<char>, usize)> {
        self.ranges@.map_values(|e: (Vec<char>, usize)| (e.0@, e.1))
    }

    /// Whether `name` is a single slot: a listed one, or a range prefix
    /// with an index in range written canonically.
    pub fn accepts_single(&self, name: &str) -> (r: bool)
        ensures
            r == single_accepted(*self, name@),
    {
        let n = chars_of(name);
        if self.single.has(n.as_slice()) {
            return true;
        }
        let mut k: usize = 0;
        while k < self.ranges.len()
            invariant
                k <= self.ranges@.len(),
                n@ == name@,
                forall|j: int| 0 <= j < k ==> !#[trigger] range_takes_single(self.ranges()[j].0, self.ranges()[j].1, name@),
            decreases self.ranges.len() - k,
        {
            let prefix = &self.ranges[k].0;
            let count = self.ranges[k].1;
            assert(self.ranges()[k as int] == (prefix@, count));
            if starts_at(n.as_slice(), 0, prefix.as_slice()) {
                let suffix = slice_vec(n.as_slice(), prefix.len(), n.len());
                assert(suffix@ =~= n@.skip(prefix@.len() as int));
                if let Some(index) = parse_usize(suffix.as_slice()) {
                    if index < count {
                        let written = decimal_chars(index);
                        if eq_chars(written.as_slice(), suffix.as_slice()) {
                            assert(suffix_after(name@, prefix@) == Some(suffix@));
                            assert(range_takes_single(self.ranges()[k as int].0, self.ranges()[k as int].1, name@));
                            return true;
                        }
                    }
                }
            }
            k += 1;
        }
        false
    }

    /// Whether `name` is in this version's slot table.
    pub fn accepts(&self, name: &str) -> (r: bool)
        ensures
            r == slot_listed(*self, name@),
    {
        let n = chars_of(name);
        if self.single.has(n.as_slice()) || self.multi.has(n.as_slice()) {
            return true;
        }
        let mut k: usize = 0;
        while k < self.ranges.len()
            invariant
                k <= self.ranges@.len(),
                n@ == name@,
                forall|j: int|
                    #![trigger self.ranges()[j]]
                    0 <= j < k ==> name@ != self.ranges()[j].0 + "*"@ && !range_slot(
                        self.ranges()[j].0,
                        self.ranges()[j].1,
                        name@,
                    ),
            decreases self.ranges.len() - k,
        {
            let prefix = &self.ranges[k].0;
            let count = self.ranges[k].1;
            assert(self.ranges()[k as int] == (prefix@, count));
            proof {
                lemma_range_slot(prefix@, count, name@);
            }
            let mut whole = crate::chars::string_from(prefix.as_slice());
            whole.append("*");
            assert(whole@ == prefix@ + "*"@);
            if crate::chars::str_eq(whole.as_str(), name) {
                return true;
            }
            if range_hit(prefix.as_slice(), count, n.as_slice()) {
                return true;
            }
            k += 1;
        }
        false
    }

    /// Every slot name, range slots expanded to their indices, in ascending
    /// order (a name listed twice appears twice).
    pub fn names(&self) -> (r: Vec<String>)
        ensures
            crate::sorted::ascending(crate::sorted::string_views(r@)),
            crate::sorted::string_views(r@).to_multiset() == (self.single_names() + self.multi_names()
                + ranges_names(self.ranges(), 0)).to_multiset(),
    {
        let mut names = self.single.keys();
        let more = self.multi.keys();
        let mut i: usize = 0;
        while i < more.len()
            invariant
                i <= more@.len(),
                crate::sorted::string_views(more@) == self.multi_names(),
                crate::sorted::string_views(names@) == self.single_names() + self.multi_names().take(i as int),
            decreases more.len() - i,
        {
            let x = more[i].clone();
            proof {
                crate::sorted::lemma_string_views_push(names@, x);
                assert(crate::sorted::string_views(more@)[i as int] == x@);
                assert(self.multi_names().take(i + 1) =~= self.multi_names().take(i as int).push(x@));
            }
            names.push(x);
            i += 1;
        }
        assert(self.multi_names().take(i as int) =~= self.multi_names());
        let ghost listed = self.single_names() + self.multi_names();
        let mut k: usize = 0;
        while k < self.ranges.len()
            invariant
                k <= self.ranges@.len(),
                listed == self.single_names() + self.multi_names(),
                crate::sorted::string_views(names@) + ranges_names(self.ranges(), k as int) == listed + ranges_names(self.ranges(), 0),
            decreases self.ranges.len() - k,
        {
            let prefix = &self.ranges[k].0;
            let count = self.ranges[k].1;
            assert(self.ranges()[k as int] == (prefix@, count));
            let ghost start = crate::sorted::string_views(names@);
            let mut index: usize = 0;
            while index < count
                invariant
                    index <= count,
                    crate::sorted::string_views(names@) == start + range_names(prefix@, count).take(index as int),
                decreases count - index,
            {
                let mut name = string_from(prefix.as_slice());
                let digits = decimal_chars(index);
                let mut j: usize = 0;
                while j < digits.len()
                    invariant
                        j <= digits@.len(),
                        name@ == prefix@ + digits@.take(j as int),
                    decreases digits.len() - j,
                {
                    crate::chars::push_char(&mut name, digits[j]);
                    j += 1;
                    assert(name@ =~= prefix@ + digits@.take(j as int));
                }
                assert(digits@.take(j as int) =~= digits@);
                proof {
                    crate::sorted::lemma_string_views_push(names@, name);
                    assert(range_names(prefix@, count).take(index + 1) =~= range_names(prefix@, count).take(index as int).push(name@));
                }
                names.push(name);
                index += 1;
                assert(crate::sorted::string_views(names@) =~= start + range_names(prefix@, count).take(index as int));
            }
            assert(range_names(prefix@, count).take(index as int) =~= range_names(prefix@, count));
            assert(start + ranges_names(self.ranges(), k as int) =~= start + range_names(prefix@, count) + ranges_names(self.ranges(), k + 1));
            k += 1;
        }
        assert(crate::sorted::string_views(names@) + ranges_names(self.ranges(), k as int) =~= crate::sorted::string_views(names@));
        crate::sorted::sort_strings(names)
    }
}


/// The strings of an optional array; none for anything else.
pub open spec fn json_strings(v: Option<Json>) -> Set<Seq<char>> {
    match v {
        Some(Json::Array(items)) => string_items(items@),
        _ => Set::empty(),
    }
}

/// The strings of an optional array, as a set.
pub fn strings_of(v: Option<&Json>) -> (r: StringSet)
    ensures
        r@ == json_strings(opt_json(v)),
{
    match v {
        Some(Json::Array(items)) => string_set(items),
        _ => StringSet::new(),
    }
}

/// The value behind an optional reference.
pub open spec fn opt_json(v: Option<&Json>) -> Option<Json> {
    match v {
        Some(j) => Some(*j),
        None => None,
    }
}

/// The range counts read from the first `n` members: members whose value
/// is an unsigned integer.
pub open spec fn counts_read(ms: Seq<(String, Json)>, n: int) -> Map<Seq<char>, usize>
    decreases n,
{
    if n <= 0 {
        Map::empty()
    } else {
        match ms[n - 1].1 {
            Json::Number(Some(c)) => counts_read(ms, n - 1).insert(ms[n - 1].0@, c as usize),
            _ => counts_read(ms, n - 1),
        }
    }
}

/// `slots` is the table that the value `v` describes: for an object, its
/// `single` and `multi` string arrays and its `ranges` counts; the empty
/// table for anything else.
pub open spec fn slots_read(v: Option<Json>, slots: Slots) -> bool {
    match v {
        Some(Json::Object(ms)) => {
            let object = Json::Object(ms);
            let rs = members_of(json_get(object, "ranges"@));
            &&& slots.single() == json_strings(json_get(object, "single"@))
            &&& slots.multi() == json_strings(json_get(object, "multi"@))
            &&& slots.range_map() == counts_read(rs, rs.len() as int)
        },
        _ => slots.single() == Set::<Seq<char>>::empty() && slots.multi() == Set::<Seq<char>>::empty()
            && slots.range_map() == Map::<Seq<char>, usize>::empty(),
    }
}

impl Slots {
    /// The empty slot table.
    pub fn empty() -> (r: Slots)
        ensures
            r.single() == Set::<Seq<char>>::empty(),
            r.multi() == Set::<Seq<char>>::empty(),
            r.range_map() == Map::<Seq<char>, usize>::empty(),
    {
        let ranges: Vec<(Vec<char>, usize)> = Vec::new();
        proof {
            crate::sorted::lemma_empty_represents(ranges@);
        }
        Slots { single: StringSet::new(), ranges, multi: StringSet::new(), range_map: Ghost(Map::empty()) }
    }

    /// Reads the slot table of the registry snapshot; anything but an
    /// object gives the empty table.
    pub fn from_value(value: Option<&Json>) -> (r: Slots)
        ensures
            slots_read(opt_json(value), r),
    {
        let object = match value {
            Some(v) => v,
            None => {
                return Slots::empty();
            },
        };
        match object {
            Json::Object(_) => {},
            _ => {
                return Slots::empty();
            },
        }
        let mut ranges: Vec<(Vec<char>, usize)> = Vec::new();
        let ghost mut range_map: Map<Seq<char>, usize> = Map::empty();
        let ghost rs = members_of(json_get(*object, "ranges"@));
        proof {
            crate::sorted::lemma_empty_represents(ranges@);
        }
        if let Some(Json::Object(ms)) = get(object, "ranges") {
            let mut i: usize = 0;
            while i < ms.len()
                invariant
                    i <= ms@.len(),
                    rs == ms@,
                    represents(ranges@, range_map),
                    range_map == counts_read(rs, i as int),
                decreases ms.len() - i,
            {
                if let Json::Number(Some(c)) = &ms[i].1 {
                    let count = *c as usize;
                    map_insert(&mut ranges, chars_of(ms[i].0.as_str()), count);
                    proof {
                        range_map = range_map.insert(ms@[i as int].0@, count);
                    }
                }
                i += 1;
            }
        }
        let single = strings_of(get(object, "single"));
        let multi = strings_of(get(object, "multi"));
        Slots { single, ranges, multi, range_map: Ghost(range_map) }
    }
}

/// The decimal spelling of `n` reads back as `n`: `usize::from_str` undoes
/// `to_string`.
pub proof fn lemma_decimal_round_trip(n: usize)
    ensures
        usize_parsed(decimal(n as nat)) == Some(n),
{
    lemma_decimal_digits(n as nat);
    let d = decimal(n as nat);
    assert(d[0] != '+');
}

proof fn lemma_decimal_digits(n: nat)
    ensures
        decimal(n).len() > 0,
        all_digits(decimal(n)),
        digits_value(decimal(n)) == n,
    decreases n,
{
    let c = digit_char(n % 10);
    assert(((48 + n % 10) as u8) as char == c);
    assert((c as u32) - ('0' as u32) == n % 10) by {
        let b = (48 + n % 10) as u8;
        assert(b == 48 + n % 10);
        assert((b as char) as u32 == b as u32);
    }
    if n < 10 {
        let d = decimal(n);
        assert(d.drop_last() =~= Seq::<char>::empty());
        assert(n % 10 == n);
        assert(digits_value(d) == digits_value(d.drop_last()) * 10 + ((d.last() as u32) - ('0' as u32)) as nat);
    } else {
        lemma_decimal_digits(n / 10);
        let d = decimal(n);
        assert(d.drop_last() =~= decimal(n / 10));
        assert((n / 10) * 10 + n % 10 == n) by (nonlinear_arith);
        assert(d.last() == c);
        assert(digits_value(d) == digits_value(d.drop_last()) * 10 + ((d.last() as u32) - ('0' as u32)) as nat);
        assert(digits_value(d) == (n / 10) * 10 + n % 10);
        assert(all_digits(d)) by {
            assert forall|i: int| 0 <= i < d.len() implies is_ascii_digit_spec(#[trigger] d[i]) by {
                if i < d.len() - 1 {
                    assert(d[i] == decimal(n / 10)[i]);
                }
            }
        }
    }
}

/// A name that the range slots from `k` on expand to comes from one of
/// them.
proof fn lemma_range_name(rs: Seq<(Seq<char>, usize)>, k: int, name: Seq<char>)
    requires
        0 <= k,
        ranges_names(rs, k).contains(name),
    ensures
        exists|j: int, i: int| #![trigger rs[j], decimal(i as nat)] k <= j < rs.len() && 0 <= i < rs[j].1 && name == rs[j].0 + decimal(i as nat),
    decreases rs.len() - k,
{
    if k < rs.len() {
        let here = range_names(rs[k].0, rs[k].1);
        let idx = choose|idx: int| 0 <= idx < ranges_names(rs, k).len() && ranges_names(rs, k)[idx] == name;
        if idx < here.len() {
            assert(name == rs[k].0 + decimal(idx as nat));
        } else {
            assert(ranges_names(rs, k + 1)[idx - here.len()] == name);
            lemma_range_name(rs, k + 1, name);
        }
    }
}

/// Every name that `names` lists is a multi-slot set or a single slot that
/// `accepts_single` takes: range slots expand to canonical indices in
/// range.
pub proof fn lemma_listed_names_accepted(slots: Slots, name: Seq<char>)
    requires
        (slots.single_names() + slots.multi_names() + ranges_names(slots.ranges(), 0)).contains(name),
    ensures
        single_accepted(slots, name) || slots.multi().contains(name),
{
    slots.single.lemma_listing();
    slots.multi.lemma_listing();
    let all = slots.single_names() + slots.multi_names() + ranges_names(slots.ranges(), 0);
    let idx = choose|idx: int| 0 <= idx < all.len() && all[idx] == name;
    let a = slots.single_names().len();
    let b = slots.multi_names().len();
    if idx < a {
        assert(slots.single_names()[idx] == name);
        assert(slots.single_names().to_set().contains(name));
    } else if idx < a + b {
        assert(slots.multi_names()[idx - a] == name);
        assert(slots.multi_names().to_set().contains(name));
    } else {
        assert(ranges_names(slots.ranges(), 0)[idx - a - b] == name);
        lemma_range_name(slots.ranges(), 0, name);
        let (j, i) = choose|j: int, i: int| #![trigger slots.ranges()[j], decimal(i as nat)] 0 <= j < slots.ranges().len() && 0 <= i < slots.ranges()[j].1 && name
            == slots.ranges()[j].0 + decimal(i as nat);
        let p = slots.ranges()[j].0;
        let d = decimal(i as nat);
        assert(name.subrange(0, p.len() as int) =~= p);
        assert(name.skip(p.len() as int) =~= d);
        lemma_decimal_round_trip(i as usize);
        assert(range_takes_single(p, slots.ranges()[j].1, name));
    }
}

/// The names that `names` lists are exactly the slot table's names, and
/// each of them is accepted.
pub proof fn lemma_names_are_the_slots(slots: Slots)
    ensures
        (slots.single_names() + slots.multi_names() + ranges_names(slots.ranges(), 0)).to_set() == slot_names(slots),
        forall|name: Seq<char>| #[trigger] slot_names(slots).contains(name) ==> slot_listed(slots, name),
{
    slots.single.lemma_listing();
    slots.multi.lemma_listing();
    let a = slots.single_names();
    let b = slots.multi_names();
    let rs = slots.ranges();
    let all = a + b + ranges_names(rs, 0);
    assert forall|name: Seq<char>| all.to_set().contains(name) implies slot_names(slots).contains(name) by {
        let idx = choose|idx: int| 0 <= idx < all.len() && all[idx] == name;
        if idx < a.len() {
            assert(a[idx] == name);
            assert(a.to_set().contains(name));
        } else if idx < a.len() + b.len() {
            assert(b[idx - a.len()] == name);
            assert(b.to_set().contains(name));
        } else {
            assert(ranges_names(rs, 0)[idx - a.len() - b.len()] == name);
            lemma_range_name(rs, 0, name);
            let (j, i) = choose|j: int, i: int| #![trigger rs[j], decimal(i as nat)] 0 <= j < rs.len() && 0 <= i < rs[j].1 && name
                == rs[j].0 + decimal(i as nat);
            assert(range_slot(rs[j].0, rs[j].1, name));
        }
    }
    assert forall|name: Seq<char>| slot_names(slots).contains(name) implies all.to_set().contains(name) by {
        if a.to_set().contains(name) {
            let x = choose|x: int| 0 <= x < a.len() && a[x] == name;
            assert(all[x] == name);
        } else if b.to_set().contains(name) {
            let x = choose|x: int| 0 <= x < b.len() && b[x] == name;
            assert(all[a.len() + x] == name);
        } else {
            let k = choose|k: int| 0 <= k < rs.len() && #[trigger] range_slot(rs[k].0, rs[k].1, name);
            let i = choose|i: int| 0 <= i < rs[k].1 && name == rs[k].0 + #[trigger] decimal(i as nat);
            let x = lemma_range_names_index(rs, 0, k, i);
            assert(all[a.len() + b.len() + x] == name);
        }
    }
    assert(all.to_set() =~= slot_names(slots));
}

/// Where the `i`-th slot of range `k` stands in `ranges_names(rs, m)`.
proof fn lemma_range_names_index(rs: Seq<(Seq<char>, usize)>, m: int, k: int, i: int) -> (x: int)
    requires
        0 <= m <= k < rs.len(),
        0 <= i < rs[k].1,
    ensures
        0 <= x < ranges_names(rs, m).len(),
        ranges_names(rs, m)[x] == rs[k].0 + decimal(i as nat),
    decreases k - m,
{
    let here = range_names(rs[m].0, rs[m].1);
    if m == k {
        assert(ranges_names(rs, m) == here + ranges_names(rs, m + 1));
        assert(here[i] == rs[k].0 + decimal(i as nat));
        i
    } else {
        let y = lemma_range_names_index(rs, m + 1, k, i);
        assert(ranges_names(rs, m) == here + ranges_names(rs, m + 1));
        here.len() + y
    }
}

} // verus!
