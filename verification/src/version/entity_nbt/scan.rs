//! Source scanning for the entity tag table: class declarations and their
//! bodies, and the tag keys that each class reads and writes.

use vstd::prelude::*;
use crate::chars::{chars_of, contains_str, contains_spec, find_from, find_from_spec, lemma_find_from, matches_at, slice_vec, string_from, string_of, trimmed, trim_spec};
use super::EntityTagType;
use crate::sorted::{map_insert, map_update_at, represents, map_has, locate, entry_keys, seq_views_of_keys};

verus! {

broadcast use vstd::string::group_string_axioms;

/// Whether `char::is_alphanumeric` holds of `c` (Unicode Alphabetic or
/// Numeric).
pub uninterp spec fn unicode_alphanumeric(c: char) -> bool;

/// Calls std's `char::is_alphanumeric` (Alphabetic or Numeric); the
/// contract names its result, which depends on the character alone, and
/// states the ASCII cases: letters and digits are alphanumeric, every other
/// ASCII character is not. Which other characters are alphanumeric (the
/// Unicode tables) is not stated.
#[verifier::external_body]
fn is_alphanumeric(c: char) -> (r: bool)
    ensures
        r == unicode_alphanumeric(c),
        (c as u32) < 128 ==> (r <==> (('a' <= c && c <= 'z') || ('A' <= c && c <= 'Z') || ('0' <= c && c <= '9'))),
{
    c.is_alphanumeric()
}

/// A character of a Java identifier: alphanumeric or `_`. Among ASCII
/// characters these are the letters, the digits and `_`.
pub open spec fn identifier_char(c: char) -> bool {
    if (c as u32) < 128 {
        ('a' <= c && c <= 'z') || ('A' <= c && c <= 'Z') || ('0' <= c && c <= '9') || c == '_'
    } else {
        unicode_alphanumeric(c)
    }
}

pub fn is_identifier(c: char) -> (r: bool)
    ensures
        r == identifier_char(c),
{
    is_alphanumeric(c) || c == '_'
}

/// Reading a string literal's body from `k`: up to the closing `"`; a `\`
/// is dropped and the character after it read as usual.
pub open spec fn string_body(t: Seq<char>, k: int, acc: Seq<char>) -> Option<(Seq<char>, int)>
    decreases t.len() - k,
{
    if k < 0 || k >= t.len() {
        None
    } else if t[k] == '"' {
        Some((acc, k + 1))
    } else if t[k] == '\\' {
        string_body(t, k + 1, acc)
    } else {
        string_body(t, k + 1, acc.push(t[k]))
    }
}

/// The string literal at `start`: its value and the position after its
/// closing quote.
pub open spec fn parse_string_spec(t: Seq<char>, start: int) -> Option<(Seq<char>, int)> {
    if 0 <= start < t.len() && t[start] == '"' {
        string_body(t, start + 1, seq![])
    } else {
        None
    }
}

pub fn parse_string(text: &[char], start: usize) -> (r: Option<(String, usize)>)
    ensures
        match (r, parse_string_spec(text@, start as int)) {
            (Some((value, end)), Some((v, e))) => value@ == v && end == e,
            (None, None) => true,
            _ => false,
        },
{
    if start >= text.len() || text[start] != '"' {
        return None;
    }
    let mut value = String::new();
    let mut k = start + 1;
    while k < text.len()
        invariant
            start < k <= text@.len(),
            text@[start as int] == '"',
            string_body(text@, start + 1, seq![]) == string_body(text@, k as int, value@),
        decreases text.len() - k,
    {
        let c = text[k];
        if c == '"' {
            return Some((value, k + 1));
        }
        if c != '\\' {
            crate::chars::push_char(&mut value, c);
        }
        k += 1;
    }
    None
}

/// Where an argument expression starting at `k` (bracket depth `depth`)
/// ends: before a closing bracket at depth zero, or before `,`, `;` or a
/// line break at depth zero, or at the end of the text.
pub open spec fn expression_end(t: Seq<char>, k: int, depth: int) -> int
    decreases t.len() - k,
{
    if k < 0 || k >= t.len() {
        k
    } else if t[k] == '(' || t[k] == '[' || t[k] == '{' {
        expression_end(t, k + 1, depth + 1)
    } else if t[k] == ')' || t[k] == ']' || t[k] == '}' {
        if depth == 0 {
            k
        } else {
            expression_end(t, k + 1, depth - 1)
        }
    } else if (t[k] == ',' || t[k] == ';' || t[k] == '\n') && depth == 0 {
        k
    } else {
        expression_end(t, k + 1, depth)
    }
}

proof fn lemma_expression_end(t: Seq<char>, k: int, depth: int)
    requires
        0 <= k <= t.len(),
    ensures
        k <= expression_end(t, k, depth) <= t.len(),
    decreases t.len() - k,
{
    if k < t.len() {
        lemma_expression_end(t, k + 1, depth + 1);
        lemma_expression_end(t, k + 1, depth - 1);
        lemma_expression_end(t, k + 1, depth);
    }
}

/// One argument expression from `start`: its text and where it ends.
pub fn capture_expression(text: &[char], start: usize) -> (r: (String, usize))
    requires
        start <= text@.len(),
    ensures
        r.1 == expression_end(text@, start as int, 0),
        r.0@ == text@.subrange(start as int, r.1 as int),
{
    proof {
        lemma_expression_end(text@, start as int, 0);
    }
    let mut depth: usize = 0;
    let mut k = start;
    loop
        invariant
            start <= k <= text@.len(),
            depth <= k - start,
            expression_end(text@, start as int, 0) == expression_end(text@, k as int, depth as int),
        ensures
            start <= k <= text@.len(),
            expression_end(text@, start as int, 0) == k,
        decreases text.len() - k,
    {
        if k == text.len() {
            break;
        }
        let c = text[k];
        if c == '(' || c == '[' || c == '{' {
            depth += 1;
        } else if c == ')' || c == ']' || c == '}' {
            if depth == 0 {
                break;
            }
            depth -= 1;
        } else if (c == ',' || c == ';' || c == '\n') && depth == 0 {
            break;
        }
        k += 1;
    }
    (string_of(text, start, k), k)
}

/// The coarse tag type of a codec expression.
pub open spec fn codec_type(expression: Seq<char>) -> EntityTagType {
    let e = trim_spec(expression, 0, expression.len() as int);
    if contains_spec(e, "Vec3.CODEC"@) || contains_spec(e, "Vec2.CODEC"@) || contains_spec(e, "DropChances.CODEC"@)
        || contains_spec(e, "DoubleStream"@) || contains_spec(e, "FloatStream"@) || contains_spec(e, "Quaternion"@)
        || contains_spec(e, "Rotations"@) {
        EntityTagType::NumericList
    } else if contains_spec(e, "BlockPos.CODEC"@) || contains_spec(e, "UUIDUtil.CODEC"@) || contains_spec(e, "UUID.CODEC"@)
        || contains_spec(e, "INT_STREAM"@) || contains_spec(e, "IntStream"@) {
        EntityTagType::IntArray
    } else if contains_spec(e, "ComponentSerialization"@) {
        EntityTagType::Component
    } else if contains_spec(e, "CustomData.CODEC"@) || contains_spec(e, "CompoundTag"@) || contains_spec(e, "ItemStack"@)
        || contains_spec(e, "BlockState"@) {
        EntityTagType::Compound
    } else if contains_spec(e, "TAG_LIST_CODEC"@) {
        EntityTagType::StringList
    } else if contains_spec(e, "Codec.STRING"@) || contains_spec(e, "KEY_CODEC"@) || contains_spec(e, "Identifier.CODEC"@)
        || contains_spec(e, "ResourceKey"@) || contains_spec(e, "Registry"@) || contains_spec(e, "TagKey"@) || contains_spec(
        e,
        "Holder"@,
    ) {
        EntityTagType::String
    } else if contains_spec(e, "Codec.BOOL"@) {
        EntityTagType::Bool
    } else if contains_spec(e, "Codec.BYTE"@) || contains_spec(e, "Codec.SHORT"@) || contains_spec(e, "Codec.INT"@)
        || contains_spec(e, "Codec.LONG"@) || contains_spec(e, "Codec.FLOAT"@) || contains_spec(e, "Codec.DOUBLE"@) {
        EntityTagType::Number
    } else if contains_spec(e, "listOf"@) {
        EntityTagType::List
    } else {
        EntityTagType::Any
    }
}

pub fn classify_codec(expression: &str) -> (r: EntityTagType)
    ensures
        r == codec_type(expression@),
{
    let x = chars_of(expression);
    let t = trimmed(x.as_slice(), 0, x.len());
    let e = t.as_slice();
    if contains_str(e, "Vec3.CODEC") || contains_str(e, "Vec2.CODEC") || contains_str(e, "DropChances.CODEC")
        || contains_str(e, "DoubleStream") || contains_str(e, "FloatStream") || contains_str(e, "Quaternion")
        || contains_str(e, "Rotations") {
        EntityTagType::NumericList
    } else if contains_str(e, "BlockPos.CODEC") || contains_str(e, "UUIDUtil.CODEC") || contains_str(e, "UUID.CODEC")
        || contains_str(e, "INT_STREAM") || contains_str(e, "IntStream") {
        EntityTagType::IntArray
    } else if contains_str(e, "ComponentSerialization") {
        EntityTagType::Component
    } else if contains_str(e, "CustomData.CODEC") || contains_str(e, "CompoundTag") || contains_str(e, "ItemStack")
        || contains_str(e, "BlockState") {
        EntityTagType::Compound
    } else if contains_str(e, "TAG_LIST_CODEC") {
        EntityTagType::StringList
    } else if contains_str(e, "Codec.STRING") || contains_str(e, "KEY_CODEC") || contains_str(e, "Identifier.CODEC")
        || contains_str(e, "ResourceKey") || contains_str(e, "Registry") || contains_str(e, "TagKey") || contains_str(
        e,
        "Holder",
    ) {
        EntityTagType::String
    } else if contains_str(e, "Codec.BOOL") {
        EntityTagType::Bool
    } else if contains_str(e, "Codec.BYTE") || contains_str(e, "Codec.SHORT") || contains_str(e, "Codec.INT")
        || contains_str(e, "Codec.LONG") || contains_str(e, "Codec.FLOAT") || contains_str(e, "Codec.DOUBLE") {
        EntityTagType::Number
    } else if contains_str(e, "listOf") {
        EntityTagType::List
    } else {
        EntityTagType::Any
    }
}

/// A tag found in the source: where its call starts, its key and its
/// expected type.
pub struct TagHit {
    pub position: usize,
    pub name: String,
    pub category: EntityTagType,
}

pub open spec fn hit_view(h: TagHit) -> (int, Seq<char>, EntityTagType) {
    (h.position as int, h.name@, h.category)
}

pub open spec fn hit_views(v: Seq<TagHit>) -> Seq<(int, Seq<char>, EntityTagType)> {
    v.map_values(|h: TagHit| hit_view(h))
}

/// The direct writes `putX("key"` and reads `getX("key"` / `getXOr("key"`,
/// with the type each implies.
pub open spec fn access_markers() -> Seq<(Seq<char>, EntityTagType)> {
    seq![
        ("putBoolean("@, EntityTagType::Bool),
        ("putByte("@, EntityTagType::Number),
        ("putShort("@, EntityTagType::Number),
        ("putInt("@, EntityTagType::Number),
        ("putLong("@, EntityTagType::Number),
        ("putFloat("@, EntityTagType::Number),
        ("putDouble("@, EntityTagType::Number),
        ("putString("@, EntityTagType::String),
        ("putIntArray("@, EntityTagType::IntArray),
        ("putLongArray("@, EntityTagType::IntArray),
        ("putByteArray("@, EntityTagType::IntArray),
        ("getBooleanOr("@, EntityTagType::Bool),
        ("getByteOr("@, EntityTagType::Number),
        ("getShortOr("@, EntityTagType::Number),
        ("getIntOr("@, EntityTagType::Number),
        ("getLongOr("@, EntityTagType::Number),
        ("getFloatOr("@, EntityTagType::Number),
        ("getDoubleOr("@, EntityTagType::Number),
        ("getStringOr("@, EntityTagType::String),
        ("getString("@, EntityTagType::String),
        ("getInt("@, EntityTagType::Number),
        ("getLong("@, EntityTagType::Number),
        ("getFloat("@, EntityTagType::Number),
        ("getDouble("@, EntityTagType::Number),
        ("getIntArray("@, EntityTagType::IntArray),
        ("getCompound("@, EntityTagType::Compound),
        ("getList("@, EntityTagType::List),
    ]
}

/// The codec-based reads and writes `store("key", codec` /
/// `read("key", codec`.
pub open spec fn codec_markers() -> Seq<Seq<char>> {
    seq!["store("@, "storeNullable("@, "read("@, "readNullable("@]
}

fn access_marker_table() -> (r: Vec<(&'static str, EntityTagType)>)
    ensures
        r@.map_values(|p: (&str, EntityTagType)| (p.0@, p.1)) == access_markers(),
{
    let r = vec![
        ("putBoolean(", EntityTagType::Bool),
        ("putByte(", EntityTagType::Number),
        ("putShort(", EntityTagType::Number),
        ("putInt(", EntityTagType::Number),
        ("putLong(", EntityTagType::Number),
        ("putFloat(", EntityTagType::Number),
        ("putDouble(", EntityTagType::Number),
        ("putString(", EntityTagType::String),
        ("putIntArray(", EntityTagType::IntArray),
        ("putLongArray(", EntityTagType::IntArray),
        ("putByteArray(", EntityTagType::IntArray),
        ("getBooleanOr(", EntityTagType::Bool),
        ("getByteOr(", EntityTagType::Number),
        ("getShortOr(", EntityTagType::Number),
        ("getIntOr(", EntityTagType::Number),
        ("getLongOr(", EntityTagType::Number),
        ("getFloatOr(", EntityTagType::Number),
        ("getDoubleOr(", EntityTagType::Number),
        ("getStringOr(", EntityTagType::String),
        ("getString(", EntityTagType::String),
        ("getInt(", EntityTagType::Number),
        ("getLong(", EntityTagType::Number),
        ("getFloat(", EntityTagType::Number),
        ("getDouble(", EntityTagType::Number),
        ("getIntArray(", EntityTagType::IntArray),
        ("getCompound(", EntityTagType::Compound),
        ("getList(", EntityTagType::List),
    ];
    assert(r@.map_values(|p: (&str, EntityTagType)| (p.0@, p.1)) =~= access_markers());
    r
}

fn codec_marker_table() -> (r: Vec<&'static str>)
    ensures
        r@.map_values(|s: &str| s@) == codec_markers(),
{
    let r = vec!["store(", "storeNullable(", "read(", "readNullable("];
    assert(r@.map_values(|s: &str| s@) =~= codec_markers());
    r
}

/// The tags that calls `pattern` write from `search` on: each call whose
/// first argument is a string literal.
pub open spec fn marker_hits(t: Seq<char>, pattern: Seq<char>, category: EntityTagType, search: int) -> Seq<
    (int, Seq<char>, EntityTagType),
>
    decreases t.len() - search,
{
    if search < 0 || pattern.len() == 0 {
        seq![]
    } else {
        match find_from_spec(t, pattern, search) {
            None => seq![],
            Some(p) => {
                let key = p + pattern.len();
                let rest = if key <= search || key > t.len() {
                    seq![]
                } else {
                    marker_hits(t, pattern, category, key)
                };
                match parse_string_spec(t, key) {
                    Some((name, _)) => seq![(p, name, category)] + rest,
                    None => rest,
                }
            },
        }
    }
}

/// The tags that codec calls `pattern` read or write from `search` on,
/// typed by the codec argument after the key.
pub open spec fn codec_hits(t: Seq<char>, pattern: Seq<char>, search: int) -> Seq<(int, Seq<char>, EntityTagType)>
    decreases t.len() - search,
{
    if search < 0 || pattern.len() == 0 {
        seq![]
    } else {
        match find_from_spec(t, pattern, search) {
            None => seq![],
            Some(p) => {
                let key = p + pattern.len();
                let rest = if key <= search || key > t.len() {
                    seq![]
                } else {
                    codec_hits(t, pattern, key)
                };
                match parse_string_spec(t, key) {
                    Some((name, key_end)) => match find_from_spec(t, seq![','], key_end) {
                        Some(comma) => seq![
                            (p, name, codec_type(t.subrange(comma + 1, expression_end(t, comma + 1, 0)))),
                        ] + rest,
                        None => rest,
                    },
                    None => rest,
                }
            },
        }
    }
}

/// The hits of the first `n` access markers, marker by marker.
pub open spec fn access_hits(t: Seq<char>, n: int) -> Seq<(int, Seq<char>, EntityTagType)>
    decreases n,
{
    if n <= 0 {
        seq![]
    } else {
        access_hits(t, n - 1) + marker_hits(t, "."@ + access_markers()[n - 1].0, access_markers()[n - 1].1, 0)
    }
}

/// The hits of the first `n` codec markers, marker by marker.
pub open spec fn all_codec_hits(t: Seq<char>, n: int) -> Seq<(int, Seq<char>, EntityTagType)>
    decreases n,
{
    if n <= 0 {
        seq![]
    } else {
        all_codec_hits(t, n - 1) + codec_hits(t, "."@ + codec_markers()[n - 1], 0)
    }
}

/// Every tag hit in the text: access markers first, then codec markers.
pub open spec fn scan_tags_spec(t: Seq<char>) -> Seq<(int, Seq<char>, EntityTagType)> {
    access_hits(t, access_markers().len() as int) + all_codec_hits(t, codec_markers().len() as int)
}

/// `.` followed by `marker`.
fn dotted(marker: &str) -> (r: Vec<char>)
    ensures
        r@ == "."@ + marker@,
{
    let mut r = chars_of(".");
    let m = chars_of(marker);
    let mut i: usize = 0;
    while i < m.len()
        invariant
            i <= m@.len(),
            r@ == "."@ + m@.take(i as int),
        decreases m.len() - i,
    {
        r.push(m[i]);
        i += 1;
        assert(r@ =~= "."@ + m@.take(i as int));
    }
    assert(m@.take(i as int) =~= m@);
    r
}

/// Appends the hits of `pattern` (typed `category`, or by codec when
/// `category` is `None`).
fn scan_marker(t: &[char], pattern: &[char], category: Option<EntityTagType>, hits: &mut Vec<TagHit>)
    ensures
        hit_views(final(hits)@) == hit_views(old(hits)@) + match category {
            Some(c) => marker_hits(t@, pattern@, c, 0),
            None => codec_hits(t@, pattern@, 0),
        },
{
    let ghost target = match category {
        Some(c) => marker_hits(t@, pattern@, c, 0),
        None => codec_hits(t@, pattern@, 0),
    };
    let ghost start = hit_views(hits@);
    if pattern.len() == 0 {
        assert(hit_views(hits@) =~= start + target);
        return;
    }
    let comma = vec![','];
    assert(comma@ =~= seq![',']);
    let tl = t.len();
    let mut search: usize = 0;
    loop
        invariant
            tl == t@.len(),
            pattern@.len() > 0,
            comma@ == seq![','],
            search <= t@.len(),
            target == match category {
                Some(c) => marker_hits(t@, pattern@, c, 0),
                None => codec_hits(t@, pattern@, 0),
            },
            start + target == hit_views(hits@) + match category {
                Some(c) => marker_hits(t@, pattern@, c, search as int),
                None => codec_hits(t@, pattern@, search as int),
            },
        ensures
            start + target == hit_views(hits@),
        decreases t@.len() - search,
    {
        let p = match find_from(t, pattern, search) {
            None => {
                assert(hit_views(hits@) + seq![] =~= hit_views(hits@));
                break;
            },
            Some(p) => p,
        };
        assert(matches_at(t@, p as int, pattern@));
        let key = p + pattern.len();
        let ghost rest = match category {
            Some(c) => marker_hits(t@, pattern@, c, key as int),
            None => codec_hits(t@, pattern@, key as int),
        };
        match parse_string(t, key) {
            None => {},
            Some((name, key_end)) => {
                match category {
                    Some(c) => {
                        let ghost before = hits@;
                        hits.push(TagHit { position: p, name, category: c });
                        assert(hit_views(hits@) =~= hit_views(before).push((p as int, name@, c)));
                        assert(hit_views(before) + (seq![(p as int, name@, c)] + rest) =~= hit_views(hits@) + rest);
                    },
                    None => {
                        match find_from(t, comma.as_slice(), key_end) {
                            None => {},
                            Some(c) => {
                                proof {
                                    lemma_find_from(t@, seq![','], key_end as int);
                                }
                                let (expression, _) = capture_expression(t, c + 1);
                                let kind = classify_codec(expression.as_str());
                                let ghost before = hits@;
                                hits.push(TagHit { position: p, name, category: kind });
                                assert(hit_views(hits@) =~= hit_views(before).push((p as int, name@, kind)));
                                assert(hit_views(before) + (seq![(p as int, name@, kind)] + rest) =~= hit_views(hits@) + rest);
                            },
                        }
                    },
                }
            },
        }
        search = key;
    }
}

/// Every tag the text reads or writes, in marker order.
pub fn scan_tags(text: &[char]) -> (r: Vec<TagHit>)
    ensures
        hit_views(r@) == scan_tags_spec(text@),
{
    let mut hits: Vec<TagHit> = Vec::new();
    let access = access_marker_table();
    let mut i: usize = 0;
    assert(hit_views(hits@) =~= access_hits(text@, 0));
    while i < access.len()
        invariant
            i <= access@.len(),
            access@.map_values(|p: (&str, EntityTagType)| (p.0@, p.1)) == access_markers(),
            hit_views(hits@) == access_hits(text@, i as int),
        decreases access.len() - i,
    {
        let (marker, category) = access[i];
        assert(access_markers()[i as int] == (marker@, category));
        let pattern = dotted(marker);
        scan_marker(text, pattern.as_slice(), Some(category), &mut hits);
        i += 1;
    }
    let codecs = codec_marker_table();
    let ghost first = hit_views(hits@);
    let mut j: usize = 0;
    assert(first + all_codec_hits(text@, 0) =~= first);
    while j < codecs.len()
        invariant
            j <= codecs@.len(),
            codecs@.map_values(|s: &str| s@) == codec_markers(),
            first == access_hits(text@, access_markers().len() as int),
            hit_views(hits@) == first + all_codec_hits(text@, j as int),
        decreases codecs.len() - j,
    {
        let marker = codecs[j];
        assert(codec_markers()[j as int] == marker@);
        let pattern = dotted(marker);
        let ghost before = hit_views(hits@);
        scan_marker(text, pattern.as_slice(), None, &mut hits);
        assert(first + all_codec_hits(text@, j + 1) =~= before + codec_hits(text@, "."@ + marker@, 0));
        j += 1;
    }
    hits
}

/// Where the brace scanner stands: in code, a comment, or a literal.
#[derive(Clone, Copy, Debug, PartialEq, Eq, Structural)]
pub enum ScanState {
    Normal,
    LineComment,
    BlockComment,
    Str,
    Chr,
}

/// Whether the character after `i` is `c`.
pub open spec fn next_is(t: Seq<char>, i: int, c: char) -> bool {
    i + 1 < t.len() && t[i + 1] == c
}

/// Scanning from `i` at brace depth `depth` in state `state`: the position
/// of the `}` that brings the depth back to zero, skipping comments and
/// string and character literals (with `\` escapes).
pub open spec fn brace_scan(t: Seq<char>, i: int, depth: int, state: ScanState) -> Option<int>
    decreases t.len() + 1 - i,
{
    if i < 0 || i >= t.len() {
        None
    } else {
        let c = t[i];
        match state {
            ScanState::Normal => if c == '/' && next_is(t, i, '/') {
                brace_scan(t, i + 1, depth, ScanState::LineComment)
            } else if c == '/' && next_is(t, i, '*') {
                brace_scan(t, i + 1, depth, ScanState::BlockComment)
            } else if c == '"' {
                brace_scan(t, i + 1, depth, ScanState::Str)
            } else if c == '\'' {
                brace_scan(t, i + 1, depth, ScanState::Chr)
            } else if c == '{' {
                brace_scan(t, i + 1, depth + 1, ScanState::Normal)
            } else if c == '}' {
                if depth - 1 == 0 {
                    Some(i)
                } else {
                    brace_scan(t, i + 1, depth - 1, ScanState::Normal)
                }
            } else {
                brace_scan(t, i + 1, depth, ScanState::Normal)
            },
            ScanState::LineComment => if c == '\n' {
                brace_scan(t, i + 1, depth, ScanState::Normal)
            } else {
                brace_scan(t, i + 1, depth, ScanState::LineComment)
            },
            ScanState::BlockComment => if c == '*' && next_is(t, i, '/') {
                brace_scan(t, i + 2, depth, ScanState::Normal)
            } else {
                brace_scan(t, i + 1, depth, ScanState::BlockComment)
            },
            ScanState::Str => if c == '\\' {
                brace_scan(t, i + 2, depth, ScanState::Str)
            } else if c == '"' {
                brace_scan(t, i + 1, depth, ScanState::Normal)
            } else {
                brace_scan(t, i + 1, depth, ScanState::Str)
            },
            ScanState::Chr => if c == '\\' {
                brace_scan(t, i + 2, depth, ScanState::Chr)
            } else if c == '\'' {
                brace_scan(t, i + 1, depth, ScanState::Normal)
            } else {
                brace_scan(t, i + 1, depth, ScanState::Chr)
            },
        }
    }
}

/// The `}` closing the body that opens at `open`. The text is far shorter
/// than the depth counter's range.
pub fn matching_brace(text: &[char], open: usize) -> (r: Option<usize>)
    requires
        text@.len() < 0x4000_0000_0000_0000,
        text@.len() < usize::MAX,
    ensures
        match r {
            Some(c) => brace_scan(text@, open as int, 0, ScanState::Normal) == Some(c as int),
            None => brace_scan(text@, open as int, 0, ScanState::Normal) is None,
        },
{
    let n = text.len();
    if open >= n {
        return None;
    }
    let mut depth: i64 = 0;
    let mut index = open;
    let mut state = ScanState::Normal;
    while index < n
        invariant
            n == text@.len(),
            n < 0x4000_0000_0000_0000,
            n < usize::MAX,
            open <= index <= n + 1,
            -(index - open) <= depth <= index - open,
            brace_scan(text@, open as int, 0, ScanState::Normal) == brace_scan(text@, index as int, depth as int, state),
        decreases n + 1 - index,
    {
        let c = text[index];
        let next = if index + 1 < n {
            Some(text[index + 1])
        } else {
            None
        };
        match state {
            ScanState::Normal => {
                if c == '/' && next == Some('/') {
                    state = ScanState::LineComment;
                } else if c == '/' && next == Some('*') {
                    state = ScanState::BlockComment;
                } else if c == '"' {
                    state = ScanState::Str;
                } else if c == '\'' {
                    state = ScanState::Chr;
                } else if c == '{' {
                    depth += 1;
                } else if c == '}' {
                    depth -= 1;
                    if depth == 0 {
                        return Some(index);
                    }
                }
            },
            ScanState::LineComment => {
                if c == '\n' {
                    state = ScanState::Normal;
                }
            },
            ScanState::BlockComment => {
                if c == '*' && next == Some('/') {
                    state = ScanState::Normal;
                    index += 1;
                }
            },
            ScanState::Str => {
                if c == '\\' {
                    index += 1;
                } else if c == '"' {
                    state = ScanState::Normal;
                }
            },
            ScanState::Chr => {
                if c == '\\' {
                    index += 1;
                } else if c == '\'' {
                    state = ScanState::Normal;
                }
            },
        }
        index += 1;
        if index >= n {
            assert(brace_scan(text@, index as int, depth as int, state) is None);
        }
    }
    None
}


/// The end of the identifier run starting at `k`.
pub open spec fn ident_end(t: Seq<char>, k: int) -> int
    decreases t.len() - k,
{
    if k < 0 || k >= t.len() || !identifier_char(t[k]) {
        k
    } else {
        ident_end(t, k + 1)
    }
}

/// A character of a possibly qualified, possibly generic type name.
pub open spec fn type_char(c: char) -> bool {
    identifier_char(c) || c == '.' || c == '<'
}

/// The end of the type-name run starting at `k`.
pub open spec fn type_end(t: Seq<char>, k: int) -> int
    decreases t.len() - k,
{
    if k < 0 || k >= t.len() || !type_char(t[k]) {
        k
    } else {
        type_end(t, k + 1)
    }
}

/// The text before the first `sep` (all of it when there is none).
pub open spec fn before_first(s: Seq<char>, sep: char) -> Seq<char> {
    match find_from_spec(s, seq![sep], 0) {
        Some(i) => s.take(i),
        None => s,
    }
}

/// The text after the last `sep` (all of it when there is none).
pub open spec fn after_last(s: Seq<char>, sep: char) -> Seq<char>
    decreases s.len(),
{
    if s.len() == 0 {
        s
    } else if s.last() == sep {
        seq![]
    } else {
        after_last(s.drop_last(), sep).push(s.last())
    }
}

/// The simple name of the class a header `extends`, when it has one.
pub open spec fn parent_spec(header: Seq<char>) -> Option<Seq<char>> {
    match find_from_spec(header, "extends"@, 0) {
        None => None,
        Some(offset) => {
            let rest = header.skip(offset + "extends"@.len());
            let tail = rest.skip(crate::chars::skip_ws_spec(rest, 0, rest.len() as int));
            let stop = type_end(tail, 0);
            if stop == 0 {
                None
            } else {
                let token = before_first(tail.take(stop), '<');
                let token = trim_spec(token, 0, token.len() as int);
                let simple = after_last(token, '.');
                let simple = trim_spec(simple, 0, simple.len() as int);
                if simple.len() > 0 {
                    Some(simple)
                } else {
                    None
                }
            }
        },
    }
}

/// The class declaration whose `class ` keyword is at `index`: its name,
/// the simple name of its parent, and the position of the body's `{`.
pub open spec fn header_spec(t: Seq<char>, index: int) -> Option<(Seq<char>, Option<Seq<char>>, int)> {
    let after = index + "class "@.len();
    let name_end = ident_end(t, after);
    if name_end == after {
        None
    } else {
        match find_from_spec(t, seq!['{'], after) {
            None => None,
            Some(open) => Some((t.subrange(after, name_end), parent_spec(t.subrange(after, open)), open)),
        }
    }
}

/// The end of the identifier run at `k`.
pub fn identifier_end(t: &[char], k: usize) -> (r: usize)
    requires
        k <= t@.len(),
    ensures
        r == ident_end(t@, k as int),
        k <= r <= t@.len(),
{
    run_end(t, k, false)
}

/// The text after the last `sep`.
pub fn last_piece(s: &[char], sep: char) -> (r: Vec<char>)
    ensures
        r@ == after_last(s@, sep),
{
    piece_after_last(s, sep)
}

fn run_end(t: &[char], k: usize, typed: bool) -> (r: usize)
    requires
        k <= t@.len(),
    ensures
        typed ==> r == type_end(t@, k as int),
        !typed ==> r == ident_end(t@, k as int),
        k <= r <= t@.len(),
    decreases t.len() - k,
{
    if k < t.len() && (is_identifier(t[k]) || (typed && (t[k] == '.' || t[k] == '<'))) {
        run_end(t, k + 1, typed)
    } else {
        k
    }
}

fn piece_after_last(s: &[char], sep: char) -> (r: Vec<char>)
    ensures
        r@ == after_last(s@, sep),
    decreases s.len(),
{
    if s.len() == 0 {
        return Vec::new();
    }
    let last = s[s.len() - 1];
    if last == sep {
        return Vec::new();
    }
    let mut r = piece_after_last(slice_of(s, s.len() - 1), sep);
    assert(s@.subrange(0, s@.len() - 1) =~= s@.drop_last());
    r.push(last);
    r
}

fn slice_of(s: &[char], to: usize) -> (r: &[char])
    requires
        to <= s@.len(),
    ensures
        r@ == s@.subrange(0, to as int),
{
    let (a, _) = s.split_at(to);
    a
}

/// The class declaration at `index`: name, parent's simple name, and the
/// position of the body's `{`.
pub fn parse_header(text: &[char], index: usize) -> (r: Option<(String, Option<String>, usize)>)
    requires
        index + 6 <= text@.len(),
    ensures
        match (r, header_spec(text@, index as int)) {
            (Some((name, parent, open)), Some((n, p, o))) => name@ == n && open == o && match (parent, p) {
                (Some(a), Some(b)) => a@ == b,
                (None, None) => true,
                _ => false,
            },
            (None, None) => true,
            _ => false,
        },
{
    proof {
        reveal_strlit("class ");
    }
    assert("class "@.len() == 6);
    let tl = text.len();
    let after = index + 6;
    let name_end = run_end(text, after, false);
    if name_end == after {
        return None;
    }
    let brace = vec!['{'];
    assert(brace@ =~= seq!['{']);
    let open = match find_from(text, brace.as_slice(), after) {
        None => return None,
        Some(open) => open,
    };
    proof {
        lemma_find_from(text@, seq!['{'], after as int);
    }
    let name = string_of(text, after, name_end);
    let header = slice_vec(text, after, open);
    let parent = parent_of(header.as_slice());
    Some((name, parent, open))
}

/// The simple name of the parent class in a class header.
fn parent_of(header: &[char]) -> (r: Option<String>)
    ensures
        match (r, parent_spec(header@)) {
            (Some(a), Some(b)) => a@ == b,
            (None, None) => true,
            _ => false,
        },
{
    let extends = chars_of("extends");
    proof {
        reveal_strlit("extends");
    }
    assert(extends@.len() == 7);
    let offset = match find_from(header, extends.as_slice(), 0) {
        None => return None,
        Some(offset) => offset,
    };
    assert(matches_at(header@, offset as int, extends@));
    let hl = header.len();
    let rest = slice_vec(header, offset + 7, header.len());
    assert(rest@ =~= header@.skip(offset + 7));
    let start = crate::chars::skip_ws(rest.as_slice(), 0, rest.len());
    proof {
        crate::chars::lemma_skip_ws_bounds(rest@, 0, rest@.len() as int);
    }
    let tail = slice_vec(rest.as_slice(), start, rest.len());
    assert(tail@ =~= rest@.skip(start as int));
    let stop = run_end(tail.as_slice(), 0, true);
    if stop == 0 {
        return None;
    }
    let run = slice_vec(tail.as_slice(), 0, stop);
    assert(run@ =~= tail@.take(stop as int));
    let angle = vec!['<'];
    assert(angle@ =~= seq!['<']);
    let cut = match find_from(run.as_slice(), angle.as_slice(), 0) {
        Some(i) => i,
        None => run.len(),
    };
    proof {
        crate::chars::lemma_find_from(run@, seq!['<'], 0);
    }
    let first = slice_vec(run.as_slice(), 0, cut);
    assert(first@ =~= before_first(run@, '<'));
    let token = trimmed(first.as_slice(), 0, first.len());
    let piece = piece_after_last(token.as_slice(), '.');
    let simple = trimmed(piece.as_slice(), 0, piece.len());
    if simple.len() > 0 {
        Some(string_from(simple.as_slice()))
    } else {
        None
    }
}

/// What is known of a class: the simple name of its parent, and the tags it
/// writes itself (not inherited ones) with their types.
pub type ClassView = (Option<Seq<char>>, Map<Seq<char>, EntityTagType>);

/// The view of an optional name.
pub open spec fn opt_chars(o: Option<Vec<char>>) -> Option<Seq<char>> {
    match o {
        Some(v) => Some(v@),
        None => None,
    }
}

/// A class's parent and its own tags.
pub struct ClassInfo {
    parent: Option<Vec<char>>,
    tags: Vec<(Vec<char>, EntityTagType)>,
    tag_map: Ghost<Map<Seq<char>, EntityTagType>>,
}

impl View for ClassInfo {
    type V = ClassView;

    closed spec fn view(&self) -> ClassView {
        (opt_chars(self.parent), self.tag_map@)
    }
}

/// The tags after one more occurrence of `name` with `category`: a new key
/// takes the category, a known one merges with it.
pub open spec fn with_tag(tags: Map<Seq<char>, EntityTagType>, name: Seq<char>, category: EntityTagType) -> Map<
    Seq<char>,
    EntityTagType,
> {
    if tags.contains_key(name) {
        tags.insert(name, super::merged(tags[name], category))
    } else {
        tags.insert(name, category)
    }
}

impl ClassInfo {
    pub closed spec fn wf(&self) -> bool {
        represents(self.tags@, self.tag_map@)
    }

    pub fn empty() -> (r: ClassInfo)
        ensures
            r.wf(),
            r@ == (None::<Seq<char>>, Map::<Seq<char>, EntityTagType>::empty()),
    {
        let tags: Vec<(Vec<char>, EntityTagType)> = Vec::new();
        proof {
            crate::sorted::lemma_empty_represents(tags@);
        }
        ClassInfo { parent: None, tags, tag_map: Ghost(Map::empty()) }
    }

    /// The simple name of the parent class.
    pub fn parent(&self) -> (r: Option<&Vec<char>>)
        ensures
            match r {
                Some(p) => self@.0 == Some(p@),
                None => self@.0 is None,
            },
    {
        match &self.parent {
            Some(p) => Some(p),
            None => None,
        }
    }

    fn set_parent(&mut self, parent: Option<Vec<char>>)
        requires
            old(self).wf(),
        ensures
            final(self).wf(),
            final(self)@ == (opt_chars(parent), old(self)@.1),
    {
        self.parent = parent;
    }

    fn record(&mut self, name: Vec<char>, category: EntityTagType)
        requires
            old(self).wf(),
        ensures
            final(self).wf(),
            final(self)@ == (old(self)@.0, with_tag(old(self)@.1, name@, category)),
    {
        let t = self.tag_type(name.as_slice());
        let value = match t {
            Some(existing) => existing.merge(category),
            None => category,
        };
        map_insert(&mut self.tags, name, value);
        proof {
            self.tag_map@ = with_tag(self.tag_map@, name@, category);
        }
    }

    /// The type of a tag the class writes itself.
    pub fn tag_type(&self, key: &[char]) -> (r: Option<EntityTagType>)
        requires
            self.wf(),
        ensures
            r == (if self@.1.contains_key(key@) {
                Some(self@.1[key@])
            } else {
                None
            }),
    {
        match crate::sorted::lookup(&self.tags, key, Ghost(self.tag_map@)) {
            Some(t) => Some(*t),
            None => None,
        }
    }

    /// The tags the class writes itself, in ascending order.
    pub fn keys(&self) -> (r: Vec<String>)
        requires
            self.wf(),
        ensures
            crate::sorted::strictly_sorted(crate::sorted::string_views(r@)),
            crate::sorted::string_views(r@).to_set() == self@.1.dom(),
    {
        crate::sorted::map_keys(&self.tags, Ghost(self.tag_map@))
    }
}

/// Declaring class `name` with `parent`: a new class starts without tags;
/// a known class keeps its parent once it has one.
pub open spec fn declared(m: Map<Seq<char>, ClassView>, name: Seq<char>, parent: Option<Seq<char>>) -> Map<Seq<char>, ClassView> {
    if m.contains_key(name) {
        if m[name].0 is None {
            m.insert(name, (parent, m[name].1))
        } else {
            m
        }
    } else {
        m.insert(name, (parent, Map::empty()))
    }
}

/// Recording tag `name` of `category` for class `owner`.
pub open spec fn recorded(m: Map<Seq<char>, ClassView>, owner: Seq<char>, name: Seq<char>, category: EntityTagType) -> Map<
    Seq<char>,
    ClassView,
> {
    let info: ClassView = if m.contains_key(owner) {
        m[owner]
    } else {
        (None, Map::empty())
    };
    m.insert(owner, (info.0, with_tag(info.1, name, category)))
}


/// The class declarations from `search` on: name, parent, and the body's
/// braces. A `class ` that continues an identifier, a header that does
/// not parse, or a body that does not close is skipped.
pub open spec fn class_decls(t: Seq<char>, search: int) -> Seq<(Seq<char>, Option<Seq<char>>, int, int)>
    decreases t.len() - search,
{
    let marker = "class "@;
    if search < 0 || marker.len() == 0 {
        seq![]
    } else {
        match find_from_spec(t, marker, search) {
            None => seq![],
            Some(i) => {
                let next = i + marker.len();
                let rest = if next <= search || next > t.len() {
                    seq![]
                } else {
                    class_decls(t, next)
                };
                if i > 0 && identifier_char(t[i - 1]) {
                    rest
                } else {
                    match header_spec(t, i) {
                        None => rest,
                        Some((name, parent, open)) => match brace_scan(t, open, 0, ScanState::Normal) {
                            None => rest,
                            Some(close) => seq![(name, parent, open, close)] + rest,
                        },
                    }
                }
            },
        }
    }
}

/// The table after declaring the first `n` classes of `ds`.
pub open spec fn declare_all(m: Map<Seq<char>, ClassView>, ds: Seq<(Seq<char>, Option<Seq<char>>, int, int)>, n: int) -> Map<
    Seq<char>,
    ClassView,
>
    decreases n,
{
    if n <= 0 {
        m
    } else {
        declared(declare_all(m, ds, n - 1), ds[n - 1].0, ds[n - 1].1)
    }
}

/// Declaring depends only on the declarations declared.
proof fn lemma_declare_all_prefix(
    m: Map<Seq<char>, ClassView>,
    a: Seq<(Seq<char>, Option<Seq<char>>, int, int)>,
    b: Seq<(Seq<char>, Option<Seq<char>>, int, int)>,
    n: int,
)
    requires
        0 <= n <= a.len(),
        n <= b.len(),
        a.take(n) == b.take(n),
    ensures
        declare_all(m, a, n) == declare_all(m, b, n),
    decreases n,
{
    if n > 0 {
        assert(a.take(n - 1) =~= a.take(n).take(n - 1));
        assert(b.take(n - 1) =~= b.take(n).take(n - 1));
        assert(a[n - 1] == a.take(n)[n - 1]);
        assert(b[n - 1] == b.take(n)[n - 1]);
        lemma_declare_all_prefix(m, a, b, n - 1);
    }
}

/// The innermost of the first `n` declarations whose body holds `pos`:
/// the narrowest, the first among equally narrow ones.
pub open spec fn owner_upto(ds: Seq<(Seq<char>, Option<Seq<char>>, int, int)>, pos: int, n: int) -> Option<(int, Seq<char>)>
    decreases n,
{
    if n <= 0 {
        None
    } else {
        let before = owner_upto(ds, pos, n - 1);
        let d = ds[n - 1];
        if d.2 <= pos < d.3 && (before is None || d.3 - d.2 < (before->0).0) {
            Some((d.3 - d.2, d.0))
        } else {
            before
        }
    }
}

/// The table after recording the first `n` hits, each for the innermost
/// class around it (hits outside every class are dropped).
pub open spec fn record_all(
    m: Map<Seq<char>, ClassView>,
    ds: Seq<(Seq<char>, Option<Seq<char>>, int, int)>,
    hits: Seq<(int, Seq<char>, EntityTagType)>,
    n: int,
) -> Map<Seq<char>, ClassView>
    decreases n,
{
    if n <= 0 {
        m
    } else {
        let before = record_all(m, ds, hits, n - 1);
        match owner_upto(ds, hits[n - 1].0, ds.len() as int) {
            Some((_, owner)) => recorded(before, owner, hits[n - 1].1, hits[n - 1].2),
            None => before,
        }
    }
}

/// The table after scanning a source file into `m`.
pub open spec fn scanned(m: Map<Seq<char>, ClassView>, t: Seq<char>) -> Map<Seq<char>, ClassView> {
    let ds = class_decls(t, 0);
    let hits = scan_tags_spec(t);
    record_all(declare_all(m, ds, ds.len() as int), ds, hits, hits.len() as int)
}

/// The declarations' views.
pub open spec fn decl_views(v: Seq<(Vec<char>, Option<Vec<char>>, usize, usize)>) -> Seq<(Seq<char>, Option<Seq<char>>, int, int)> {
    v.map_values(|d: (Vec<char>, Option<Vec<char>>, usize, usize)| (d.0@, opt_chars(d.1), d.2 as int, d.3 as int))
}

/// Every class's parent and own tags.
pub struct ClassTable {
    entries: Vec<(Vec<char>, ClassInfo)>,
    table: Ghost<Map<Seq<char>, ClassView>>,
}

impl View for ClassTable {
    type V = Map<Seq<char>, ClassView>;

    closed spec fn view(&self) -> Map<Seq<char>, ClassView> {
        self.table@
    }
}

impl ClassTable {
    pub closed spec fn wf(&self) -> bool {
        &&& represents(self.entries@, self.table@)
        &&& forall|i: int| 0 <= i < self.entries@.len() ==> #[trigger] self.entries@[i].1.wf()
    }

    pub fn new() -> (r: ClassTable)
        ensures
            r.wf(),
            r@ == Map::<Seq<char>, ClassView>::empty(),
    {
        let entries: Vec<(Vec<char>, ClassInfo)> = Vec::new();
        proof {
            crate::sorted::lemma_empty_represents(entries@);
        }
        ClassTable { entries, table: Ghost(Map::empty()) }
    }

    /// The table knows finitely many classes.
    pub proof fn lemma_finite(&self)
        requires
            self.wf(),
        ensures
            self@.dom().finite(),
    {
        crate::sorted::lemma_represents_finite(self.entries@, self.table@);
    }

    /// The class named `name`.
    pub fn get(&self, name: &[char]) -> (r: Option<&ClassInfo>)
        requires
            self.wf(),
        ensures
            match r {
                Some(info) => self@.contains_key(name@) && info@ == self@[name@] && info.wf(),
                None => !self@.contains_key(name@),
            },
    {
        assert(entry_keys(self.entries@) =~= seq_views_of_keys(self.entries@));
        let (at, found) = locate(&self.entries, name);
        if found {
            assert(map_has(self.entries@, name@, self.entries@[at as int].1@));
            Some(&self.entries[at].1)
        } else {
            proof {
                if self.table@.contains_key(name@) {
                    assert(map_has(self.entries@, name@, self.table@[name@]));
                }
            }
            None
        }
    }

    /// Scans one source file: declares its classes, then files each tag
    /// under the innermost class whose body holds it (nested classes such
    /// as `Display.BlockDisplay` stay apart).
    pub fn scan(&mut self, text: &str)
        requires
            old(self).wf(),
            text@.len() < 0x4000_0000_0000_0000,
            text@.len() < usize::MAX,
        ensures
            final(self).wf(),
            final(self)@ == scanned(old(self)@, text@),
    {
        let t = chars_of(text);
        let marker = chars_of("class ");
        proof {
            reveal_strlit("class ");
        }
        assert(marker@.len() == 6);
        let tl = t.len();
        let ghost start_table = self@;
        let ghost all = class_decls(t@, 0);
        let mut decls: Vec<(Vec<char>, Option<Vec<char>>, usize, usize)> = Vec::new();
        let mut search: usize = 0;
        loop
            invariant
                t@ == text@,
                tl == t@.len(),
                tl < 0x4000_0000_0000_0000,
                tl < usize::MAX,
                marker@ == "class "@,
                marker@.len() == 6,
                search <= t@.len(),
                self.wf(),
                all == class_decls(t@, 0),
                all == decl_views(decls@) + class_decls(t@, search as int),
                self@ == declare_all(start_table, decl_views(decls@), decls@.len() as int),
            ensures
                self.wf(),
                all == decl_views(decls@),
                self@ == declare_all(start_table, decl_views(decls@), decls@.len() as int),
            decreases t@.len() - search,
        {
            let i = match find_from(t.as_slice(), marker.as_slice(), search) {
                None => {
                    assert(decl_views(decls@) + seq![] =~= decl_views(decls@));
                    break;
                },
                Some(i) => i,
            };
            assert(matches_at(t@, i as int, marker@));
            let next = i + 6;
            let ghost rest = class_decls(t@, next as int);
            let ghost s0 = search as int;
            search = next;
            if i > 0 && is_identifier(t[i - 1]) {
                assert(class_decls(t@, s0) == rest);
                continue;
            }
            let (name, parent, open) = match parse_header(t.as_slice(), i) {
                None => {
                    assert(class_decls(t@, s0) == rest);
                    continue;
                },
                Some(h) => h,
            };
            let close = match matching_brace(t.as_slice(), open) {
                None => {
                    assert(class_decls(t@, s0) == rest);
                    continue;
                },
                Some(c) => c,
            };
            let name_chars = chars_of(name.as_str());
            let parent_chars = match &parent {
                Some(p) => Some(chars_of(p.as_str())),
                None => None,
            };
            let ghost before = decls@;
            let ghost d = (name@, opt_chars(parent_chars), open as int, close as int);
            self.declare(name_chars, parent_chars);
            decls.push((chars_of(name.as_str()), match &parent {
                Some(p) => Some(chars_of(p.as_str())),
                None => None,
            }, open, close));
            proof {
                assert(decl_views(decls@) =~= decl_views(before).push(d));
                assert(class_decls(t@, s0) == seq![d] + rest);
                assert(decl_views(before) + (seq![d] + rest) =~= decl_views(decls@) + rest);
                assert(decl_views(decls@).take(before.len() as int) =~= decl_views(before).take(before.len() as int));
                lemma_declare_all_prefix(start_table, decl_views(decls@), decl_views(before), before.len() as int);
            }
        }
        let hits = scan_tags(t.as_slice());
        let ghost declared_table = self@;
        let mut h: usize = 0;
        while h < hits.len()
            invariant
                h <= hits@.len(),
                self.wf(),
                all == decl_views(decls@),
                hit_views(hits@) == scan_tags_spec(t@),
                t@ == text@,
                declared_table == declare_all(start_table, all, all.len() as int),
                self@ == record_all(declared_table, all, hit_views(hits@), h as int),
            decreases hits.len() - h,
        {
            let position = hits[h].position;
            let mut best: Option<(usize, usize)> = None;
            let mut k: usize = 0;
            while k < decls.len()
                invariant
                    k <= decls@.len(),
                    all == decl_views(decls@),
                    match (best, owner_upto(all, position as int, k as int)) {
                        (Some((w, at)), Some((sw, sn))) => w == sw && at < k && all[at as int].0 == sn,
                        (None, None) => true,
                        _ => false,
                    },
                decreases decls.len() - k,
            {
                let (ref _n, ref _p, start, end) = decls[k];
                assert(all[k as int] == (decls@[k as int].0@, opt_chars(decls@[k as int].1), start as int, end as int));
                if start <= position && position < end {
                    let width = end - start;
                    let closer = match best {
                        Some((w, _)) => width < w,
                        None => true,
                    };
                    if closer {
                        best = Some((width, k));
                    }
                }
                k += 1;
            }
            assert(hit_views(hits@)[h as int] == (position as int, hits@[h as int].name@, hits@[h as int].category));
            if let Some((_, at)) = best {
                let owner = &decls[at].0;
                let name = chars_of(hits[h].name.as_str());
                self.record_tag(owner, name, hits[h].category);
            }
            h += 1;
        }
    }

    /// Replaces the entry at `at` by `f(entry)`, as spelled out by the two
    /// callers below.
    fn take_info(&mut self, at: usize) -> (info: ClassInfo)
        requires
            old(self).wf(),
            at < old(self).entries@.len(),
        ensures
            info == old(self).entries@[at as int].1,
            info.wf(),
            final(self).entries@.len() == old(self).entries@.len(),
            final(self).entries@[at as int].0 == old(self).entries@[at as int].0,
            forall|j: int| 0 <= j < old(self).entries@.len() && j != at ==> final(self).entries@[j] == old(self).entries@[j],
            final(self).table@ == old(self).table@,
    {
        let info = map_update_at(&mut self.entries, at, ClassInfo::empty());
        info
    }

    fn put_info(&mut self, at: usize, info: ClassInfo, Ghost(before): Ghost<Seq<(Vec<char>, ClassInfo)>>)
        requires
            represents(before, old(self).table@),
            forall|i: int| 0 <= i < before.len() ==> #[trigger] before[i].1.wf(),
            at < before.len(),
            old(self).entries@.len() == before.len(),
            old(self).entries@[at as int].0 == before[at as int].0,
            forall|j: int| 0 <= j < before.len() && j != at ==> old(self).entries@[j] == before[j],
            info.wf(),
        ensures
            final(self).wf(),
            final(self)@ == old(self)@.insert(before[at as int].0@, info@),
    {
        let ghost mid = self.entries@;
        map_update_at(&mut self.entries, at, info);
        proof {
            assert(self.entries@ =~= before.update(at as int, (before[at as int].0, info)));
            let nm = self.entries@;
            let k0 = before[at as int].0@;
            let target = self.table@.insert(k0, info@);
            assert(entry_keys(nm) =~= entry_keys(before));
            assert forall|k: Seq<char>, v: ClassView| map_has(nm, k, v) <==> (target.contains_key(k) && target[k] == v) by {
                if map_has(nm, k, v) {
                    let i = choose|i: int| 0 <= i < nm.len() && nm[i].0@ == k && nm[i].1@ == v;
                    if i != at {
                        assert(map_has(before, k, v));
                        if k == k0 {
                            crate::sorted::lemma_sorted_unique(before, i, at as int);
                        }
                    }
                }
                if target.contains_key(k) && target[k] == v {
                    if k == k0 {
                        assert(nm[at as int].0@ == k && nm[at as int].1@ == v);
                    } else {
                        assert(map_has(before, k, v));
                        let i = choose|i: int| 0 <= i < before.len() && before[i].0@ == k && before[i].1@ == v;
                        assert(nm[i] == before[i]);
                    }
                }
            }
            self.table@ = target;
            assert forall|i: int| 0 <= i < nm.len() implies #[trigger] nm[i].1.wf() by {
                if i != at {
                    assert(nm[i] == before[i]);
                }
            }
        }
    }

    /// Declares class `name` with `parent`; a class keeps the first parent
    /// it is given.
    pub fn declare(&mut self, name: Vec<char>, parent: Option<Vec<char>>)
        requires
            old(self).wf(),
        ensures
            final(self).wf(),
            final(self)@ == declared(old(self)@, name@, opt_chars(parent)),
    {
        let at = self.slot(&name);
        let ghost before = self.entries@;
        assert(map_has(before, name@, before[at as int].1@));
        assert(before[at as int].1.wf());
        if self.entries[at].1.parent.is_none() {
            let mut info = self.take_info(at);
            info.set_parent(parent);
            self.put_info(at, info, Ghost(before));
        }
    }

    /// Records that class `owner` writes tag `name` of `category`.
    pub fn record_tag(&mut self, owner: &Vec<char>, name: Vec<char>, category: EntityTagType)
        requires
            old(self).wf(),
        ensures
            final(self).wf(),
            final(self)@ == recorded(old(self)@, owner@, name@, category),
    {
        let at = self.slot(owner);
        let ghost before = self.entries@;
        assert(map_has(before, owner@, before[at as int].1@));
        assert(before[at as int].1.wf());
        let mut info = self.take_info(at);
        info.record(name, category);
        self.put_info(at, info, Ghost(before));
    }

    /// Where `name` stands, inserting it (without parent or tags) first
    /// when it is new.
    fn slot(&mut self, name: &Vec<char>) -> (at: usize)
        requires
            old(self).wf(),
        ensures
            final(self).wf(),
            at < final(self).entries@.len(),
            final(self).entries@[at as int].0@ == name@,
            final(self)@ == (if old(self)@.contains_key(name@) {
                old(self)@
            } else {
                old(self)@.insert(name@, (None::<Seq<char>>, Map::<Seq<char>, EntityTagType>::empty()))
            }),
    {
        assert(entry_keys(self.entries@) =~= seq_views_of_keys(self.entries@));
        let (at, found) = locate(&self.entries, name.as_slice());
        if found {
            assert(map_has(self.entries@, name@, self.entries@[at as int].1@));
            return at;
        }
        proof {
            if self.table@.contains_key(name@) {
                assert(map_has(self.entries@, name@, self.table@[name@]));
            }
        }
        let ghost before = self.entries@;
        let mut k: Vec<char> = Vec::new();
        let mut i: usize = 0;
        while i < name.len()
            invariant
                i <= name@.len(),
                k@ == name@.take(i as int),
            decreases name.len() - i,
        {
            k.push(name[i]);
            i += 1;
            assert(k@ =~= name@.take(i as int));
        }
        assert(name@.take(i as int) =~= name@);
        let fresh = ClassInfo::empty();
        assert(fresh.wf());
        let ghost fresh_copy = fresh;
        map_insert(&mut self.entries, k, fresh);
        proof {
            self.table@ = self.table@.insert(name@, (None::<Seq<char>>, Map::<Seq<char>, EntityTagType>::empty()));
            assert forall|i: int| 0 <= i < self.entries@.len() implies #[trigger] self.entries@[i].1.wf() by {
                if self.entries@[i].1 != fresh_copy {
                    let j = choose|j: int| 0 <= j < before.len() && self.entries@[i] == before[j];
                    assert(before[j].1.wf());
                }
            }
            assert(entry_keys(self.entries@) =~= seq_views_of_keys(self.entries@));
        }
        let (at, found) = locate(&self.entries, name.as_slice());
        proof {
            assert(map_has(self.entries@, name@, (None::<Seq<char>>, Map::<Seq<char>, EntityTagType>::empty())));
        }
        at
    }
}

} // verus!
