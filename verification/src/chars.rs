//! Character-level text utilities. Texts are handled as sequences of `char`;
//! positions are character indices.

use vstd::prelude::*;

verus! {

broadcast use vstd::string::group_string_axioms;

/// The characters of `s`, in order.
pub fn chars_of(s: &str) -> (v: Vec<char>)
    ensures
        v@ == s@,
{
    let mut v: Vec<char> = Vec::new();
    for c in it: s.chars()
        invariant
            v@ == it.seq().take(it.index() as int),
    {
        v.push(c);
    }
    v
}

/// Appends one character to a string.
///
/// Calls std's `String::push`, which appends `c` to the end of the string;
/// the contract states exactly that of the string's characters.
#[verifier::external_body]
pub(crate) fn push_char(s: &mut String, c: char)
    ensures
        final(s)@ == old(s)@.push(c),
{
    s.push(c);
}

/// The string made of `text[from..to]`.
pub fn string_of(text: &[char], from: usize, to: usize) -> (s: String)
    requires
        from <= to <= text@.len(),
    ensures
        s@ == text@.subrange(from as int, to as int),
{
    let mut s = String::new();
    let mut i = from;
    while i < to
        invariant
            from <= i <= to <= text@.len(),
            s@ == text@.subrange(from as int, i as int),
        decreases to - i,
    {
        push_char(&mut s, text[i]);
        i += 1;
        assert(s@ =~= text@.subrange(from as int, i as int));
    }
    s
}

/// The string made of all of `text`.
pub fn string_from(text: &[char]) -> (s: String)
    ensures
        s@ == text@,
{
    let s = string_of(text, 0, text.len());
    assert(text@.subrange(0, text@.len() as int) =~= text@);
    s
}

/// Whether two character sequences are equal.
pub fn eq_chars(a: &[char], b: &[char]) -> (r: bool)
    ensures
        r == (a@ == b@),
{
    if a.len() != b.len() {
        return false;
    }
    let mut i: usize = 0;
    while i < a.len()
        invariant
            a@.len() == b@.len(),
            i <= a@.len(),
            forall|j: int| 0 <= j < i ==> a@[j] == b@[j],
        decreases a.len() - i,
    {
        if a[i] != b[i] {
            return false;
        }
        i += 1;
    }
    assert(a@ =~= b@);
    true
}

/// Whether two strings hold the same characters.
pub fn str_eq(a: &str, b: &str) -> (r: bool)
    ensures
        r == (a@ == b@),
{
    let x = chars_of(a);
    let y = chars_of(b);
    eq_chars(x.as_slice(), y.as_slice())
}

/// Whether the characters of `text` equal those of `word`.
pub fn chars_eq_str(text: &[char], word: &str) -> (r: bool)
    ensures
        r == (text@ == word@),
{
    let w = chars_of(word);
    eq_chars(text, w.as_slice())
}

/// `pattern` occurs in `text` at position `i`.
pub open spec fn matches_at(text: Seq<char>, i: int, pattern: Seq<char>) -> bool {
    0 <= i && i + pattern.len() <= text.len() && text.subrange(i, i + pattern.len()) == pattern
}

/// The first position at or after `from` where `pattern` occurs.
pub open spec fn find_from_spec(text: Seq<char>, pattern: Seq<char>, from: int) -> Option<int>
    decreases text.len() + 1 - from,
{
    if from < 0 || from + pattern.len() > text.len() {
        None
    } else if matches_at(text, from, pattern) {
        Some(from)
    } else {
        find_from_spec(text, pattern, from + 1)
    }
}

/// Facts about the first occurrence found by `find_from_spec`.
pub proof fn lemma_find_from(text: Seq<char>, pattern: Seq<char>, from: int)
    requires
        0 <= from,
    ensures
        find_from_spec(text, pattern, from) matches Some(i) ==> from <= i && matches_at(
            text,
            i,
            pattern,
        ) && forall|j: int| from <= j < i ==> !matches_at(text, j, pattern),
        find_from_spec(text, pattern, from) is None ==> forall|j: int|
            from <= j ==> !matches_at(text, j, pattern),
    decreases text.len() + 1 - from,
{
    if from + pattern.len() > text.len() {
    } else if matches_at(text, from, pattern) {
    } else {
        lemma_find_from(text, pattern, from + 1);
    }
}

/// An optional spec position as an optional index.
pub open spec fn opt_index(o: Option<int>) -> Option<usize> {
    match o {
        Some(i) => Some(i as usize),
        None => None,
    }
}

/// Whether `pattern` occurs in `text` at `at`.
pub fn starts_at(text: &[char], at: usize, pattern: &[char]) -> (r: bool)
    ensures
        r == matches_at(text@, at as int, pattern@),
{
    if at > text.len() || pattern.len() > text.len() - at {
        return false;
    }
    let mut i: usize = 0;
    let n = pattern.len();
    while i < n
        invariant
            n == pattern@.len(),
            at + n <= text.len(),
            at + pattern@.len() <= text@.len(),
            i <= pattern@.len(),
            forall|j: int| 0 <= j < i ==> text@[at + j] == pattern@[j],
        decreases pattern.len() - i,
    {
        if text[at + i] != pattern[i] {
            assert(text@.subrange(at as int, at + pattern@.len())[i as int] != pattern@[i as int]);
            return false;
        }
        i += 1;
    }
    assert(text@.subrange(at as int, at + pattern@.len()) =~= pattern@);
    true
}

/// The first position at or after `from` where `pattern` occurs.
pub fn find_from(text: &[char], pattern: &[char], from: usize) -> (r: Option<usize>)
    ensures
        r == opt_index(find_from_spec(text@, pattern@, from as int)),
        r matches Some(i) ==> from <= i && find_from_spec(text@, pattern@, from as int) == Some(
            i as int,
        ) && matches_at(text@, i as int, pattern@) && forall|j: int|
            from <= j < i ==> !matches_at(text@, j, pattern@),
        r is None ==> find_from_spec(text@, pattern@, from as int) is None && forall|j: int|
            from <= j ==> !matches_at(text@, j, pattern@),
{
    proof {
        lemma_find_from(text@, pattern@, from as int);
    }
    let mut i = from;
    if i > text.len() || pattern.len() > text.len() - i {
        return None;
    }
    let last = text.len() - pattern.len();
    loop
        invariant
            from <= i <= last,
            last + pattern@.len() == text@.len(),
            find_from_spec(text@, pattern@, from as int) == find_from_spec(text@, pattern@, i as int),
            find_from_spec(text@, pattern@, from as int) matches Some(k) ==> from <= k
                && matches_at(text@, k, pattern@) && forall|j: int|
                from <= j < k ==> !matches_at(text@, j, pattern@),
            find_from_spec(text@, pattern@, from as int) is None ==> forall|j: int|
                from <= j ==> !matches_at(text@, j, pattern@),
        decreases last - i,
    {
        if starts_at(text, i, pattern) {
            return Some(i);
        }
        if i == last {
            assert(find_from_spec(text@, pattern@, i + 1) is None);
            return None;
        }
        i += 1;
    }
}

/// Whether `c` is Unicode White_Space, as `char::is_whitespace` documents it.
pub open spec fn is_whitespace_spec(c: char) -> bool {
    ||| ('\u{9}' <= c && c <= '\u{d}')
    ||| c == ' '
    ||| c == '\u{85}'
    ||| c == '\u{a0}'
    ||| c == '\u{1680}'
    ||| ('\u{2000}' <= c && c <= '\u{200a}')
    ||| c == '\u{2028}'
    ||| c == '\u{2029}'
    ||| c == '\u{202f}'
    ||| c == '\u{205f}'
    ||| c == '\u{3000}'
}

pub fn is_whitespace(c: char) -> (r: bool)
    ensures
        r == is_whitespace_spec(c),
{
    ('\u{9}' <= c && c <= '\u{d}') || c == ' ' || c == '\u{85}' || c == '\u{a0}' || c
        == '\u{1680}' || ('\u{2000}' <= c && c <= '\u{200a}') || c == '\u{2028}' || c
        == '\u{2029}' || c == '\u{202f}' || c == '\u{205f}' || c == '\u{3000}'
}

/// ASCII whitespace as `u8::is_ascii_whitespace` documents it: space, tab,
/// line feed, form feed and carriage return.
pub open spec fn is_ascii_whitespace_spec(c: char) -> bool {
    c == ' ' || c == '\t' || c == '\n' || c == '\u{c}' || c == '\r'
}

pub fn is_ascii_whitespace(c: char) -> (r: bool)
    ensures
        r == is_ascii_whitespace_spec(c),
{
    c == ' ' || c == '\t' || c == '\n' || c == '\u{c}' || c == '\r'
}

pub open spec fn is_ascii_digit_spec(c: char) -> bool {
    '0' <= c && c <= '9'
}

pub fn is_ascii_digit(c: char) -> (r: bool)
    ensures
        r == is_ascii_digit_spec(c),
{
    '0' <= c && c <= '9'
}

pub open spec fn is_ascii_uppercase_spec(c: char) -> bool {
    'A' <= c && c <= 'Z'
}

pub open spec fn is_ascii_lowercase_spec(c: char) -> bool {
    'a' <= c && c <= 'z'
}

pub open spec fn is_ascii_alphanumeric_spec(c: char) -> bool {
    is_ascii_digit_spec(c) || is_ascii_uppercase_spec(c) || is_ascii_lowercase_spec(c)
}

pub fn is_ascii_alphanumeric(c: char) -> (r: bool)
    ensures
        r == is_ascii_alphanumeric_spec(c),
{
    ('0' <= c && c <= '9') || ('A' <= c && c <= 'Z') || ('a' <= c && c <= 'z')
}

/// `c` with ASCII uppercase letters mapped to lowercase, as
/// `char::to_ascii_lowercase` documents it.
pub open spec fn to_ascii_lowercase_spec(c: char) -> char {
    if is_ascii_uppercase_spec(c) {
        ((c as u32) + 32) as char
    } else {
        c
    }
}

pub fn to_ascii_lowercase(c: char) -> (r: char)
    ensures
        r == to_ascii_lowercase_spec(c),
{
    if 'A' <= c && c <= 'Z' {
        let code = (c as u32) + 32;
        assert(code <= 0x7a);
        code as u8 as char
    } else {
        c
    }
}

/// Index of the first non-whitespace character of `text[from..to]`, or `to`.
pub open spec fn skip_ws_spec(text: Seq<char>, from: int, to: int) -> int
    decreases to - from,
{
    if from >= to {
        to
    } else if is_whitespace_spec(text[from]) {
        skip_ws_spec(text, from + 1, to)
    } else {
        from
    }
}

/// One past the last non-whitespace character of `text[from..to]`, or `from`.
pub open spec fn skip_ws_back_spec(text: Seq<char>, from: int, to: int) -> int
    decreases to - from,
{
    if from >= to {
        from
    } else if is_whitespace_spec(text[to - 1]) {
        skip_ws_back_spec(text, from, to - 1)
    } else {
        to
    }
}

pub proof fn lemma_skip_ws_bounds(text: Seq<char>, from: int, to: int)
    requires
        from <= to,
    ensures
        from <= skip_ws_spec(text, from, to) <= to,
        from <= skip_ws_back_spec(text, from, to) <= to,
    decreases to - from,
{
    if from < to {
        lemma_skip_ws_bounds(text, from + 1, to);
        lemma_skip_ws_bounds(text, from, to - 1);
    }
}

/// Skips whitespace forward (the start that `str::trim_start` keeps).
pub fn skip_ws(text: &[char], from: usize, to: usize) -> (r: usize)
    requires
        from <= to <= text@.len(),
    ensures
        r == skip_ws_spec(text@, from as int, to as int),
        from <= r <= to,
{
    proof {
        lemma_skip_ws_bounds(text@, from as int, to as int);
    }
    let mut i = from;
    while i < to && is_whitespace(text[i])
        invariant
            from <= i <= to <= text@.len(),
            skip_ws_spec(text@, i as int, to as int) == skip_ws_spec(
                text@,
                from as int,
                to as int,
            ),
        decreases to - i,
    {
        i += 1;
    }
    i
}

/// Skips whitespace backward (the end that `str::trim_end` keeps).
pub fn skip_ws_back(text: &[char], from: usize, to: usize) -> (r: usize)
    requires
        from <= to <= text@.len(),
    ensures
        r == skip_ws_back_spec(text@, from as int, to as int),
        from <= r <= to,
{
    proof {
        lemma_skip_ws_bounds(text@, from as int, to as int);
    }
    let mut j = to;
    while j > from && is_whitespace(text[j - 1])
        invariant
            from <= j <= to <= text@.len(),
            skip_ws_back_spec(text@, from as int, j as int) == skip_ws_back_spec(
                text@,
                from as int,
                to as int,
            ),
        decreases j - from,
    {
        j -= 1;
    }
    j
}

/// `text[from..to]` with whitespace removed from both ends, as `str::trim` does.
pub open spec fn trim_spec(text: Seq<char>, from: int, to: int) -> Seq<char> {
    let start = skip_ws_spec(text, from, to);
    text.subrange(start, skip_ws_back_spec(text, start, to))
}

pub fn trimmed(text: &[char], from: usize, to: usize) -> (r: Vec<char>)
    requires
        from <= to <= text@.len(),
    ensures
        r@ == trim_spec(text@, from as int, to as int),
{
    let start = skip_ws(text, from, to);
    let end = skip_ws_back(text, start, to);
    slice_vec(text, start, end)
}

/// A copy of `text[from..to]`.
pub fn slice_vec(text: &[char], from: usize, to: usize) -> (r: Vec<char>)
    requires
        from <= to <= text@.len(),
    ensures
        r@ == text@.subrange(from as int, to as int),
{
    let mut r: Vec<char> = Vec::new();
    let mut i = from;
    while i < to
        invariant
            from <= i <= to <= text@.len(),
            r@ == text@.subrange(from as int, i as int),
        decreases to - i,
    {
        r.push(text[i]);
        i += 1;
        assert(r@ =~= text@.subrange(from as int, i as int));
    }
    r
}

/// Whether `c` occurs in `text`.
pub fn contains_char(text: &[char], c: char) -> (r: bool)
    ensures
        r == text@.contains(c),
{
    let mut i: usize = 0;
    while i < text.len()
        invariant
            i <= text@.len(),
            forall|j: int| 0 <= j < i ==> text@[j] != c,
        decreases text.len() - i,
    {
        if text[i] == c {
            assert(text@[i as int] == c);
            return true;
        }
        i += 1;
    }
    false
}

/// Whether `pattern` occurs anywhere in `text` (`str::contains`).
pub open spec fn contains_spec(text: Seq<char>, pattern: Seq<char>) -> bool {
    exists|i: int| matches_at(text, i, pattern)
}

pub fn contains(text: &[char], pattern: &[char]) -> (r: bool)
    ensures
        r == contains_spec(text@, pattern@),
{
    let found = find_from(text, pattern, 0);
    proof {
        lemma_find_from(text@, pattern@, 0);
        if let Some(i) = find_from_spec(text@, pattern@, 0) {
            assert(matches_at(text@, i, pattern@));
        } else {
            assert forall|i: int| !matches_at(text@, i, pattern@) by {
                if i >= 0 {
                }
            }
        }
    }
    found.is_some()
}

/// Whether the word `pattern` occurs anywhere in `text`.
pub fn contains_str(text: &[char], pattern: &str) -> (r: bool)
    ensures
        r == contains_spec(text@, pattern@),
{
    let p = chars_of(pattern);
    contains(text, p.as_slice())
}

} // verus!
