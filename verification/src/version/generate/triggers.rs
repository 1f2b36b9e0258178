//! Advancement triggers: the registered trigger classes, and the condition
//! fields that each trigger's `TriggerInstance` codec declares, with a
//! coarse type taken from the codec expression next to each field.

use vstd::prelude::*;
use crate::chars::{chars_of, find_from, find_from_spec, matches_at, slice_vec, trimmed, trim_spec, contains_str, contains_spec, string_from, lemma_find_from, is_whitespace_spec};
use crate::sorted::{map_insert, represents, map_has, entry_keys};
use super::text::{matching_paren, paren_range_spec, byte_window_end, byte_window_fits, lemma_byte_window, utf8_chars, utf8_chars_spec, represents_strings, pairs_has};
use vstd::utf8::encode_scalar;

verus! {

broadcast use vstd::string::group_string_axioms;

/// The coarse type of a codec expression; `other` when unrecognized, in
/// which case only the field name is checked.
pub open spec fn codec_kind_spec(codec: Seq<char>) -> Seq<char> {
    if contains_spec(codec, "LootItemCondition"@) {
        "loot_condition"@
    } else if contains_spec(codec, "ItemPredicate"@) {
        "item_predicate"@
    } else if contains_spec(codec, "EntityPredicate"@) {
        "entity_predicate"@
    } else if contains_spec(codec, "DamageSourcePredicate"@) {
        "damage_source"@
    } else if contains_spec(codec, "StatePropertiesPredicate"@) {
        "state_properties"@
    } else if contains_spec(codec, "holderSet"@) || contains_spec(codec, "RegistryCodecs.holder"@) || contains_spec(
        codec,
        "LIST_CODEC"@,
    ) {
        "id_or_list"@
    } else if contains_spec(codec, "ResourceKey"@) || contains_spec(codec, "Identifier.CODEC"@) {
        "id"@
    } else if contains_spec(codec, "MinMaxBounds"@) {
        "range"@
    } else {
        "other"@
    }
}

pub fn codec_kind(codec: &[char]) -> (r: &'static str)
    ensures
        r@ == codec_kind_spec(codec@),
{
    if contains_str(codec, "LootItemCondition") {
        "loot_condition"
    } else if contains_str(codec, "ItemPredicate") {
        "item_predicate"
    } else if contains_str(codec, "EntityPredicate") {
        "entity_predicate"
    } else if contains_str(codec, "DamageSourcePredicate") {
        "damage_source"
    } else if contains_str(codec, "StatePropertiesPredicate") {
        "state_properties"
    } else if contains_str(codec, "holderSet") || contains_str(codec, "RegistryCodecs.holder") || contains_str(
        codec,
        "LIST_CODEC",
    ) {
        "id_or_list"
    } else if contains_str(codec, "ResourceKey") || contains_str(codec, "Identifier.CODEC") {
        "id"
    } else if contains_str(codec, "MinMaxBounds") {
        "range"
    } else {
        "other"
    }
}

/// Walking left from `pos` (bracket depth `depth`) over `t[start..index]`:
/// the codec expression ends at the first `,` at depth zero or at the
/// unmatched `(` of `group(`, and is trimmed.
pub open spec fn codec_back(t: Seq<char>, start: int, index: int, pos: int, depth: int) -> Seq<char>
    decreases pos - start,
{
    if pos <= start {
        trim_spec(t, start, index)
    } else if t[pos - 1] == ')' {
        codec_back(t, start, index, pos - 1, depth + 1)
    } else if t[pos - 1] == '(' {
        if depth - 1 < 0 {
            trim_spec(t, pos, index)
        } else {
            codec_back(t, start, index, pos - 1, depth - 1)
        }
    } else if t[pos - 1] == ',' && depth == 0 {
        trim_spec(t, pos, index)
    } else {
        codec_back(t, start, index, pos - 1, depth)
    }
}

/// The balanced codec expression before the field call at `index`, looking
/// no further left than `start`.
pub fn codec_before(text: &[char], start: usize, index: usize) -> (r: Vec<char>)
    requires
        start <= index <= text@.len(),
    ensures
        r@ == codec_back(text@, start as int, index as int, index as int, 0),
{
    let mut depth: usize = 0;
    let mut position = index;
    while position > start
        invariant
            start <= position <= index <= text@.len(),
            depth <= index - position,
            codec_back(text@, start as int, index as int, position as int, depth as int) == codec_back(
                text@,
                start as int,
                index as int,
                index as int,
                0,
            ),
        decreases position - start,
    {
        position -= 1;
        let c = text[position];
        if c == ')' {
            depth += 1;
        } else if c == '(' {
            if depth == 0 {
                return trimmed(text, position + 1, index);
            }
            depth -= 1;
        } else if c == ',' && depth == 0 {
            return trimmed(text, position + 1, index);
        }
    }
    trimmed(text, start, index)
}

/// The argument text of the trigger's own `RecordCodecBuilder.create(...)`.
pub open spec fn codec_region_spec(t: Seq<char>) -> Option<Seq<char>> {
    let marker = "TriggerInstance> CODEC = RecordCodecBuilder.create("@;
    match find_from_spec(t, marker, 0) {
        Some(start) => match paren_range_spec(t, start + marker.len() - 1) {
            Some((inner, _)) => Some(inner),
            None => None,
        },
        None => None,
    }
}

pub fn trigger_codec_region(text: &[char]) -> (r: Option<Vec<char>>)
    ensures
        match (r, codec_region_spec(text@)) {
            (Some(region), Some(s)) => region@ == s,
            (None, None) => true,
            _ => false,
        },
{
    let marker = chars_of("TriggerInstance> CODEC = RecordCodecBuilder.create(");
    match find_from(text, marker.as_slice(), 0) {
        Some(start) => {
            proof {
                reveal_strlit("TriggerInstance> CODEC = RecordCodecBuilder.create(");
            }
            assert(marker@.len() == 51);
            let tl = text.len();
            assert(matches_at(text@, start as int, marker@));
            matching_paren(text, start + marker.len() - 1)
        },
        None => None,
    }
}

/// The fields that calls of `marker` name in `region` from `search` on,
/// added to `acc`: each call's first string argument, typed by the codec
/// expression before it; a later field replaces an equal earlier one.
pub open spec fn fields_scan(region: Seq<char>, marker: Seq<char>, search: int, acc: Map<Seq<char>, Seq<char>>) -> Map<
    Seq<char>,
    Seq<char>,
>
    decreases region.len() - search,
{
    if search < 0 || marker.len() == 0 {
        acc
    } else {
        match find_from_spec(region, marker, search) {
            None => acc,
            Some(i) => {
                let a = i + marker.len();
                match find_from_spec(region, seq!['"'], a) {
                    None => acc,
                    Some(e) => {
                        let name = region.subrange(a, e);
                        let next = if name.len() > 0 {
                            acc.insert(name, codec_kind_spec(codec_back(region, search, i, i, 0)))
                        } else {
                            acc
                        };
                        if a <= search {
                            next
                        } else {
                            fields_scan(region, marker, a, next)
                        }
                    },
                }
            },
        }
    }
}

/// The condition fields of a trigger class: in its own codec region (the
/// whole text when that is not found), optional fields then required ones.
pub open spec fn trigger_fields_spec(t: Seq<char>) -> Map<Seq<char>, Seq<char>> {
    let region = match codec_region_spec(t) {
        Some(r) => r,
        None => t,
    };
    fields_scan(region, ".fieldOf(\""@, 0, fields_scan(region, ".optionalFieldOf(\""@, 0, Map::empty()))
}

/// Adds the fields named by calls of `marker` in `region`.
fn scan_fields(region: &[char], marker: &str, fields: &mut Vec<(Vec<char>, String)>, Ghost(acc): Ghost<Map<Seq<char>, Seq<char>>>)
    requires
        represents(old(fields)@, acc),
    ensures
        represents(final(fields)@, fields_scan(region@, marker@, 0, acc)),
{
    let m = chars_of(marker);
    if m.len() == 0 {
        return;
    }
    let quote = vec!['"'];
    assert(quote@ =~= seq!['"']);
    let ghost mut current = acc;
    let mut search: usize = 0;
    let rlen = region.len();
    loop
        invariant
            rlen == region@.len(),
            m@ == marker@,
            m@.len() > 0,
            quote@ == seq!['"'],
            search <= region@.len(),
            represents(fields@, current),
            fields_scan(region@, marker@, search as int, current) == fields_scan(region@, marker@, 0, acc),
        ensures
            represents(fields@, fields_scan(region@, marker@, 0, acc)),
        decreases region@.len() - search,
    {
        let i = match find_from(region, m.as_slice(), search) {
            None => {
                break;
            },
            Some(i) => i,
        };
        assert(matches_at(region@, i as int, m@));
        let a = i + m.len();
        let e = match find_from(region, quote.as_slice(), a) {
            None => {
                break;
            },
            Some(e) => e,
        };
        proof {
            lemma_find_from(region@, seq!['"'], a as int);
        }
        let name = slice_vec(region, a, e);
        let codec = codec_before(region, search, i);
        let ghost next = if name@.len() > 0 {
            current.insert(name@, codec_kind_spec(codec@))
        } else {
            current
        };
        if name.len() > 0 {
            let kind = codec_kind(codec.as_slice());
            map_insert(fields, name, kind.to_owned());
        }
        proof {
            current = next;
        }
        search = a;
    }
}

/// The condition fields of a trigger class, field name to coarse type,
/// sorted by name. Only the class's own `TriggerInstance` codec is read
/// when it is found, so nested records do not contribute; required and
/// optional fields both count.
pub fn trigger_fields(text: &str) -> (r: Vec<(String, String)>)
    ensures
        represents_strings(r@, trigger_fields_spec(text@)),
{
    let t = chars_of(text);
    let region = match trigger_codec_region(t.as_slice()) {
        Some(r) => r,
        None => t,
    };
    let mut fields: Vec<(Vec<char>, String)> = Vec::new();
    proof {
        crate::sorted::lemma_empty_represents(fields@);
    }
    scan_fields(region.as_slice(), ".optionalFieldOf(\"", &mut fields, Ghost(Map::empty()));
    scan_fields(
        region.as_slice(),
        ".fieldOf(\"",
        &mut fields,
        Ghost(fields_scan(region@, ".optionalFieldOf(\""@, 0, Map::empty())),
    );
    let ghost target = trigger_fields_spec(text@);
    assert(represents(fields@, target));
    let mut out: Vec<(String, String)> = Vec::new();
    let mut i: usize = 0;
    while i < fields.len()
        invariant
            i <= fields@.len(),
            out@.len() == i,
            forall|j: int| 0 <= j < i ==> out@[j].0@ == fields@[j].0@ && out@[j].1@ == fields@[j].1@,
        decreases fields.len() - i,
    {
        let k = string_from(fields[i].0.as_slice());
        let v = fields[i].1.clone();
        out.push((k, v));
        i += 1;
    }
    proof {
        assert(out@.map_values(|e: (String, String)| e.0@) =~= entry_keys(fields@));
        assert forall|key: Seq<char>, value: Seq<char>|
            #[trigger] pairs_has(out@, key, value) <==> (target.contains_key(key) && target[key] == value) by {
            if pairs_has(out@, key, value) {
                let i = choose|i: int| 0 <= i < out@.len() && out@[i].0@ == key && out@[i].1@ == value;
                assert(map_has(fields@, key, fields@[i].1@));
            }
            if target.contains_key(key) && target[key] == value {
                assert(map_has(fields@, key, value));
                let i = choose|i: int| 0 <= i < fields@.len() && fields@[i].0@ == key && fields@[i].1@ == value;
                assert(out@[i].0@ == key && out@[i].1@ == value);
            }
        }
    }
    out
}

/// A class-name character: ASCII alphanumeric or `_`.
pub open spec fn class_char(c: char) -> bool {
    crate::chars::is_ascii_alphanumeric_spec(c) || c == '_'
}

/// The end of the class-name run starting at `k`.
pub open spec fn class_run_end(w: Seq<char>, k: int) -> int
    decreases w.len() - k,
{
    if k < 0 || k >= w.len() || !class_char(w[k]) {
        k
    } else {
        class_run_end(w, k + 1)
    }
}

/// The `register("id", new Class…)` pairs from `search` on. The class is
/// looked for only in the 240 bytes after the id's opening quote, so that
/// a call without `new` on its own line does not pick up a later class.
pub open spec fn registered_spec(t: Seq<char>, search: int) -> Seq<(Seq<char>, Seq<char>)>
    decreases t.len() - search,
{
    let marker = "register(\""@;
    if search < 0 || marker.len() == 0 {
        seq![]
    } else {
        match find_from_spec(t, marker, search) {
            None => seq![],
            Some(i) => {
                let a = i + marker.len();
                match find_from_spec(t, seq!['"'], a) {
                    None => seq![],
                    Some(e) => {
                        let id = t.subrange(a, e);
                        let window = t.subrange(a, byte_window_end(t, a, 0, 240));
                        let class = match find_from_spec(window, "new "@, 0) {
                            Some(n) => window.subrange(n + "new "@.len(), class_run_end(window, n + "new "@.len())),
                            None => seq![],
                        };
                        let rest = if a <= search {
                            seq![]
                        } else {
                            registered_spec(t, a)
                        };
                        if id.len() > 0 && class.len() > 0 {
                            seq![(id, class)] + rest
                        } else {
                            rest
                        }
                    },
                }
            },
        }
    }
}

/// The views of a list of string pairs.
pub open spec fn pair_views(v: Seq<(String, String)>) -> Seq<(Seq<char>, Seq<char>)> {
    v.map_values(|p: (String, String)| (p.0@, p.1@))
}

/// The end of the class-name run at `k`.
fn class_run(w: &[char], k: usize) -> (r: usize)
    requires
        k <= w@.len(),
    ensures
        r == class_run_end(w@, k as int),
        k <= r <= w@.len(),
    decreases w.len() - k,
{
    if k < w.len() && (crate::chars::is_ascii_alphanumeric(w[k]) || w[k] == '_') {
        class_run(w, k + 1)
    } else {
        k
    }
}

/// The `register("id", new Class())` pairs of `CriteriaTriggers.java`, in
/// order. Cutting the 240-byte window must fall on a character boundary.
pub fn registered_triggers(text: &str) -> (r: Vec<(String, String)>)
    requires
        forall|p: int| #[trigger] matches_at(text@, p, "register(\""@) ==> byte_window_fits(
            text@,
            p + "register(\""@.len(),
            0,
            240,
        ),
    ensures
        pair_views(r@) == registered_spec(text@, 0),
{
    let t = chars_of(text);
    let marker = chars_of("register(\"");
    let quote = vec!['"'];
    let new_word = chars_of("new ");
    assert(quote@ =~= seq!['"']);
    proof {
        reveal_strlit("register(\"");
        reveal_strlit("new ");
    }
    assert(marker@.len() == 10);
    assert(new_word@.len() == 4);
    let tl = t.len();
    let mut pairs: Vec<(String, String)> = Vec::new();
    let mut search: usize = 0;
    loop
        invariant
            t@ == text@,
            tl == t@.len(),
            marker@ == "register(\""@,
            marker@.len() == 10,
            new_word@ == "new "@,
            new_word@.len() == 4,
            quote@ == seq!['"'],
            search <= t@.len(),
            forall|p: int| #[trigger] matches_at(text@, p, "register(\""@) ==> byte_window_fits(
                text@,
                p + "register(\""@.len(),
                0,
                240,
            ),
            registered_spec(t@, 0) == pair_views(pairs@) + registered_spec(t@, search as int),
        ensures
            registered_spec(t@, 0) == pair_views(pairs@),
        decreases t@.len() - search,
    {
        let i = match find_from(t.as_slice(), marker.as_slice(), search) {
            None => {
                assert(pair_views(pairs@) + seq![] =~= pair_views(pairs@));
                break;
            },
            Some(i) => i,
        };
        let a = i + marker.len();
        let e = match find_from(t.as_slice(), quote.as_slice(), a) {
            None => {
                assert(pair_views(pairs@) + seq![] =~= pair_views(pairs@));
                break;
            },
            Some(e) => e,
        };
        proof {
            lemma_find_from(t@, seq!['"'], a as int);
            lemma_byte_window(t@, a as int, 0, 240);
        }
        let id = slice_vec(t.as_slice(), a, e);
        let mut k = a;
        let mut used: usize = 0;
        while k < t.len() && used < 240
            invariant
                a <= k <= t@.len(),
                used <= 240 + 4,
                byte_window_end(t@, k as int, used as int, 240) == byte_window_end(t@, a as int, 0, 240),
            decreases t.len() - k,
        {
            let w = utf8_chars(t[k]).len();
            assert(utf8_chars_spec(t@[k as int]).len() == encode_scalar(t@[k as int] as u32).len());
            used += w;
            k += 1;
        }
        let window = slice_vec(t.as_slice(), a, k);
        let class = match find_from(window.as_slice(), new_word.as_slice(), 0) {
            Some(n) => {
                assert(matches_at(window@, n as int, new_word@));
                let end = class_run(window.as_slice(), n + 4);
                slice_vec(window.as_slice(), n + 4, end)
            },
            None => Vec::new(),
        };
        let ghost rest = registered_spec(t@, a as int);
        if id.len() > 0 && class.len() > 0 {
            let pair = (string_from(id.as_slice()), string_from(class.as_slice()));
            let ghost before = pairs@;
            pairs.push(pair);
            proof {
                assert(pair_views(pairs@) =~= pair_views(before).push((id@, class@)));
                assert(pair_views(before) + (seq![(id@, class@)] + rest) =~= pair_views(pairs@) + rest);
            }
        }
        search = a;
    }
    pairs
}

} // verus!
