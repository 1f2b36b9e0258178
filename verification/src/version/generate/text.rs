//! Text extraction helpers over Java sources: call arguments, bracketed
//! ranges, string literals and constants.

use vstd::prelude::*;
use crate::chars::{
    chars_of, find_from, find_from_spec, is_ascii_alphanumeric, is_ascii_alphanumeric_spec,
    is_ascii_digit, is_ascii_digit_spec, is_ascii_uppercase_spec, is_ascii_whitespace,
    is_ascii_whitespace_spec, is_whitespace, is_whitespace_spec, lemma_find_from, matches_at,
    opt_index, skip_ws_back, skip_ws_back_spec, slice_vec, starts_at, string_from, trim_spec,
    trimmed,
};
use crate::sorted::{
    entry_keys, insert_sorted, lemma_empty_represents, map_has, map_insert, represents, seq_views,
    strictly_sorted,
};
use vstd::utf8::encode_scalar;


verus! {

/// A character that continues a Java identifier: ASCII letter or digit,
/// `_` or `$`.
pub open spec fn is_identifier_char_spec(c: char) -> bool {
    is_ascii_alphanumeric_spec(c) || c == '_' || c == '$'
}

pub fn is_identifier_char(c: char) -> (r: bool)
    ensures
        r == is_identifier_char_spec(c),
{
    is_ascii_alphanumeric(c) || c == '_' || c == '$'
}

/// Byte form of [`is_identifier_char`].
pub fn is_identifier_byte(byte: u8) -> (r: bool)
    ensures
        r == is_identifier_char_spec(byte as char),
{
    is_identifier_char(byte as char)
}

/// Where the bracket opened at `i` closes: a scan that counts `(`/`)`
/// outside double-quoted strings (with `\` escapes inside them).
pub open spec fn paren_close_spec(
    t: Seq<char>,
    i: int,
    depth: int,
    in_string: bool,
    escaped: bool,
) -> Option<int>
    decreases t.len() - i,
{
    if i < 0 || i >= t.len() {
        None
    } else {
        let c = t[i];
        if in_string {
            if escaped {
                paren_close_spec(t, i + 1, depth, true, false)
            } else if c == '\\' {
                paren_close_spec(t, i + 1, depth, true, true)
            } else if c == '"' {
                paren_close_spec(t, i + 1, depth, false, false)
            } else {
                paren_close_spec(t, i + 1, depth, true, false)
            }
        } else if c == '"' {
            paren_close_spec(t, i + 1, depth, true, false)
        } else if c == '(' {
            paren_close_spec(t, i + 1, depth + 1, false, false)
        } else if c == ')' {
            if depth - 1 == 0 {
                Some(i)
            } else {
                paren_close_spec(t, i + 1, depth - 1, false, false)
            }
        } else {
            paren_close_spec(t, i + 1, depth, false, false)
        }
    }
}

pub proof fn lemma_paren_close_bounds(
    t: Seq<char>,
    i: int,
    depth: int,
    in_string: bool,
    escaped: bool,
)
    ensures
        paren_close_spec(t, i, depth, in_string, escaped) matches Some(c) ==> i <= c < t.len()
            && t[c] == ')',
    decreases t.len() - i,
{
    if 0 <= i < t.len() {
        lemma_paren_close_bounds(t, i + 1, depth, true, false);
        lemma_paren_close_bounds(t, i + 1, depth, true, true);
        lemma_paren_close_bounds(t, i + 1, depth, false, false);
        lemma_paren_close_bounds(t, i + 1, depth + 1, false, false);
        lemma_paren_close_bounds(t, i + 1, depth - 1, false, false);
    }
}

/// The text between the bracket at `open` and its partner, and the
/// position after the partner; `None` when `open` holds no `(` or the
/// bracket never closes.
pub open spec fn paren_range_spec(t: Seq<char>, open: int) -> Option<(Seq<char>, int)> {
    if 0 <= open < t.len() && t[open] == '(' {
        match paren_close_spec(t, open, 0, false, false) {
            Some(close) => Some((t.subrange(open + 1, close), close + 1)),
            None => None,
        }
    } else {
        None
    }
}

/// Returns the text between the `(` at `open` and its partner, and the
/// position after the partner.
pub fn paren_range(text: &[char], open: usize) -> (r: Option<(Vec<char>, usize)>)
    ensures
        match (r, paren_range_spec(text@, open as int)) {
            (Some((inner, after)), Some((s, a))) => inner@ == s && after == a,
            (None, None) => true,
            _ => false,
        },
{
    if open >= text.len() || text[open] != '(' {
        return None;
    }
    let mut depth: usize = 0;
    let mut index = open;
    let mut in_string = false;
    let mut escaped = false;
    while index < text.len()
        invariant
            open < text@.len(),
            text@[open as int] == '(',
            open <= index <= text@.len(),
            depth <= index - open,
            index == open ==> depth == 0 && !in_string && !escaped,
            index > open ==> depth >= 1,
            !in_string ==> !escaped,
            paren_close_spec(text@, open as int, 0, false, false) == paren_close_spec(
                text@,
                index as int,
                depth as int,
                in_string,
                escaped,
            ),
        decreases text.len() - index,
    {
        let c = text[index];
        if in_string {
            if escaped {
                escaped = false;
            } else if c == '\\' {
                escaped = true;
            } else if c == '"' {
                in_string = false;
            }
        } else {
            if c == '"' {
                in_string = true;
            } else if c == '(' {
                depth += 1;
            } else if c == ')' {
                if depth == 1 {
                    proof {
                        lemma_paren_close_bounds(text@, open as int, 0, false, false);
                    }
                    return Some((slice_vec(text, open + 1, index), index + 1));
                }
                depth -= 1;
            }
        }
        index += 1;
    }
    None
}

/// The text between the `(` at `open` and its partner.
pub fn matching_paren(text: &[char], open: usize) -> (r: Option<Vec<char>>)
    ensures
        match (r, paren_range_spec(text@, open as int)) {
            (Some(inner), Some((s, _))) => inner@ == s,
            (None, None) => true,
            _ => false,
        },
{
    match paren_range(text, open) {
        Some((inner, _)) => Some(inner),
        None => None,
    }
}

/// First position at or after `i` that holds no ASCII whitespace.
pub open spec fn skip_ascii_ws_spec(t: Seq<char>, i: int) -> int
    decreases t.len() - i,
{
    if 0 <= i < t.len() && is_ascii_whitespace_spec(t[i]) {
        skip_ascii_ws_spec(t, i + 1)
    } else {
        i
    }
}

pub proof fn lemma_skip_ascii_ws(t: Seq<char>, i: int)
    requires
        0 <= i,
    ensures
        i <= skip_ascii_ws_spec(t, i),
        i <= t.len() ==> skip_ascii_ws_spec(t, i) <= t.len(),
    decreases t.len() - i,
{
    if 0 <= i < t.len() && is_ascii_whitespace_spec(t[i]) {
        lemma_skip_ascii_ws(t, i + 1);
    }
}

pub fn skip_ascii_ws(text: &[char], from: usize) -> (r: usize)
    requires
        from <= text@.len(),
    ensures
        r == skip_ascii_ws_spec(text@, from as int),
        from <= r <= text@.len(),
{
    let mut i = from;
    while i < text.len() && is_ascii_whitespace(text[i])
        invariant
            from <= i <= text@.len(),
            skip_ascii_ws_spec(text@, i as int) == skip_ascii_ws_spec(text@, from as int),
        decreases text.len() - i,
    {
        i += 1;
    }
    i
}

/// The argument texts of every `call(...)` in `t` found at or after
/// `search`, in order: occurrences glued to a preceding identifier character
/// are skipped, whitespace may stand before the `(`, and the bracket must
/// close.
pub open spec fn call_args_spec(t: Seq<char>, call: Seq<char>, search: int) -> Seq<Seq<char>>
    decreases t.len() + 1 - search,
{
    if call.len() == 0 || search < 0 {
        seq![]
    } else {
        match find_from_spec(t, call, search) {
            None => seq![],
            Some(start) => {
                proof {
                    lemma_find_from(t, call, search);
                }
                let after = start + call.len();
                let rest = call_args_spec(t, call, after);
                if start > 0 && is_identifier_char_spec(t[start - 1]) {
                    rest
                } else {
                    match paren_range_spec(t, skip_ascii_ws_spec(t, after)) {
                        Some((inner, _)) => seq![inner] + rest,
                        None => rest,
                    }
                }
            },
        }
    }
}

/// The views of a sequence of character vectors.
pub open spec fn views(v: Seq<Vec<char>>) -> Seq<Seq<char>> {
    v.map_values(|x: Vec<char>| x@)
}

/// The views of a sequence of strings.
pub open spec fn string_views(v: Seq<String>) -> Seq<Seq<char>> {
    v.map_values(|x: String| x@)
}

/// The argument texts of all `call(...)` calls, in order.
pub fn call_args_chars(text: &[char], call: &[char]) -> (r: Vec<Vec<char>>)
    requires
        call@.len() > 0,
    ensures
        views(r@) == call_args_spec(text@, call@, 0),
{
    let mut args: Vec<Vec<char>> = Vec::new();
    let mut search: usize = 0;
    loop
        invariant
            call@.len() > 0,
            search <= text@.len() + call@.len(),
            call_args_spec(text@, call@, 0) == views(args@) + call_args_spec(
                text@,
                call@,
                search as int,
            ),
        decreases text@.len() + 1 - search,
    {
        let found = if search <= text.len() {
            find_from(text, call, search)
        } else {
            None
        };
        proof {
            lemma_find_from(text@, call@, search as int);
        }
        match found {
            None => {
                assert(views(args@) + seq![] =~= views(args@));
                return args;
            },
            Some(start) => {
                let after = start + call.len();
                let ghost before = views(args@);
                search = after;
                if start > 0 && is_identifier_char(text[start - 1]) {
                    continue;
                }
                let open = skip_ascii_ws(text, after);
                match matching_paren(text, open) {
                    Some(inner) => {
                        args.push(inner);
                        assert(views(args@) =~= before + seq![inner@]);
                        assert(before + (seq![inner@] + call_args_spec(text@, call@, after as int))
                            =~= views(args@) + call_args_spec(text@, call@, after as int));
                    },
                    None => {},
                }
            },
        }
    }
}

/// All `call(...)` calls in `text`: the texts between their brackets.
pub fn call_args(text: &str, call: &str) -> (r: Vec<String>)
    requires
        call@.len() > 0,
    ensures
        string_views(r@) == call_args_spec(text@, call@, 0),
{
    let t = chars_of(text);
    let c = chars_of(call);
    let args = call_args_chars(t.as_slice(), c.as_slice());
    let mut out: Vec<String> = Vec::new();
    let mut i: usize = 0;
    while i < args.len()
        invariant
            i <= args@.len(),
            string_views(out@) == views(args@).take(i as int),
        decreases args.len() - i,
    {
        let s = string_from(args[i].as_slice());
        let ghost prev = out@;
        out.push(s);
        proof {
            assert(out@ == prev.push(s));
            assert(string_views(out@) =~= string_views(prev).push(args@[i as int]@));
        }
        i += 1;
        assert(string_views(out@) =~= views(args@).take(i as int));
    }
    assert(views(args@).take(args@.len() as int) =~= views(args@));
    out
}

/// The characters that a byte-wise copy of `c`'s UTF-8 form produces:
/// each byte becomes the `char` of the same value.
pub open spec fn utf8_chars_spec(c: char) -> Seq<char> {
    encode_scalar(c as u32).map_values(|b: u8| b as char)
}

pub fn utf8_chars(c: char) -> (r: Vec<char>)
    ensures
        r@ == utf8_chars_spec(c),
{
    proof {
        vstd::utf8::char_is_scalar(c);
    }
    let v = c as u32;
    let mut r: Vec<char> = Vec::new();
    if v <= 0x7f {
        r.push(((v & 0x7F) as u8) as char);
    } else if v <= 0x7ff {
        r.push((0xC0 | ((v >> 6) & 0x1F) as u8) as char);
        r.push((0x80 | (v & 0x3F) as u8) as char);
    } else if v <= 0xffff {
        r.push((0xE0 | ((v >> 12) & 0x0F) as u8) as char);
        r.push((0x80 | ((v >> 6) & 0x3F) as u8) as char);
        r.push((0x80 | (v & 0x3F) as u8) as char);
    } else {
        r.push((0xF0 | ((v >> 18) & 0x7) as u8) as char);
        r.push((0x80 | ((v >> 12) & 0x3F) as u8) as char);
        r.push((0x80 | ((v >> 6) & 0x3F) as u8) as char);
        r.push((0x80 | (v & 0x3F) as u8) as char);
    }
    assert(r@ =~= utf8_chars_spec(c));
    r
}

/// The body of a string literal whose first character is at `i`: up to the
/// next unescaped `"` (or the end), a `\` making the next character literal,
/// each character copied byte by byte.
pub open spec fn literal_body_spec(t: Seq<char>, i: int) -> Seq<char>
    decreases t.len() - i,
{
    if i < 0 || i >= t.len() || t[i] == '"' {
        seq![]
    } else if t[i] == '\\' && i + 1 < t.len() {
        utf8_chars_spec(t[i + 1]) + literal_body_spec(t, i + 2)
    } else {
        utf8_chars_spec(t[i]) + literal_body_spec(t, i + 1)
    }
}

/// The first string literal in `t`.
pub open spec fn first_string_spec(t: Seq<char>) -> Option<Seq<char>> {
    match find_from_spec(t, seq!['"'], 0) {
        Some(q) => Some(literal_body_spec(t, q + 1)),
        None => None,
    }
}

/// The first string literal in `text`.
pub fn first_string_chars(text: &[char]) -> (r: Option<Vec<char>>)
    ensures
        match (r, first_string_spec(text@)) {
            (Some(v), Some(s)) => v@ == s,
            (None, None) => true,
            _ => false,
        },
{
    let quote = vec!['"'];
    assert(quote@ =~= seq!['"']);
    let found = find_from(text, quote.as_slice(), 0);
    proof {
        lemma_find_from(text@, seq!['"'], 0);
    }
    match found {
        None => None,
        Some(q) => {
            let n = text.len();
            proof {
                let sp = find_from_spec(text@, seq!['"'], 0);
                assert(sp is Some);
                let qi = sp->0;
                assert(0 <= qi && matches_at(text@, qi, seq!['"']));
                assert(qi < n);
                assert(qi as usize == q);
                assert(qi == q as int);
            }
            assert(matches_at(text@, q as int, seq!['"']));
            let mut value: Vec<char> = Vec::new();
            let mut end = q + 1;
            while end < text.len() && text[end] != '"'
                invariant
                    q < text@.len(),
                    q + 1 <= end <= text@.len() + 1,
                    end <= text@.len(),
                    value@ + literal_body_spec(text@, end as int) == literal_body_spec(
                        text@,
                        q + 1,
                    ),
                decreases text.len() - end,
            {
                let ghost before = value@;
                let ghost e = end as int;
                if text[end] == '\\' && end + 1 < text.len() {
                    end += 1;
                }
                let bytes = utf8_chars(text[end]);
                let mut k: usize = 0;
                while k < bytes.len()
                    invariant
                        k <= bytes@.len(),
                        value@ == before + bytes@.take(k as int),
                    decreases bytes.len() - k,
                {
                    value.push(bytes[k]);
                    k += 1;
                    assert(value@ =~= before + bytes@.take(k as int));
                }
                assert(bytes@.take(bytes@.len() as int) =~= bytes@);
                end += 1;
                assert(before + (bytes@ + literal_body_spec(text@, end as int)) =~= value@
                    + literal_body_spec(text@, end as int));
            }
            assert(value@ + seq![] =~= value@);
            Some(value)
        },
    }
}

/// The first string literal in `text`.
pub fn first_string(text: &str) -> (r: Option<String>)
    ensures
        match (r, first_string_spec(text@)) {
            (Some(v), Some(s)) => v@ == s,
            (None, None) => true,
            _ => false,
        },
{
    let t = chars_of(text);
    match first_string_chars(t.as_slice()) {
        Some(v) => Some(string_from(v.as_slice())),
        None => None,
    }
}

/// The string literals that open the given argument texts, in order.
pub open spec fn first_strings(args: Seq<Seq<char>>) -> Seq<Seq<char>>
    decreases args.len(),
{
    if args.len() == 0 {
        seq![]
    } else {
        let rest = first_strings(args.drop_last());
        match first_string_spec(args.last()) {
            Some(s) => rest.push(s),
            None => rest,
        }
    }
}

/// Converts a strictly sorted set of character vectors into strings.
pub fn strings_of(set: &Vec<Vec<char>>) -> (r: Vec<String>)
    ensures
        string_views(r@) == seq_views(set@),
{
    let mut out: Vec<String> = Vec::new();
    let mut i: usize = 0;
    while i < set.len()
        invariant
            i <= set@.len(),
            string_views(out@) == seq_views(set@).take(i as int),
        decreases set.len() - i,
    {
        let s = string_from(set[i].as_slice());
        let ghost prev = out@;
        out.push(s);
        proof {
            assert(out@ == prev.push(s));
            assert(string_views(out@) =~= string_views(prev).push(set@[i as int]@));
        }
        i += 1;
        assert(string_views(out@) =~= seq_views(set@).take(i as int));
    }
    assert(seq_views(set@).take(set@.len() as int) =~= seq_views(set@));
    out
}

/// The first string argument of every `call("...")`, as a sorted set.
pub fn string_args_in_calls(text: &str, call: &str) -> (r: Vec<String>)
    requires
        call@.len() > 0,
    ensures
        strictly_sorted(string_views(r@)),
        string_views(r@).to_set() == first_strings(call_args_spec(text@, call@, 0)).to_set(),
{
    let t = chars_of(text);
    let c = chars_of(call);
    let args = call_args_chars(t.as_slice(), c.as_slice());
    let ghost all = views(args@);
    let mut set: Vec<Vec<char>> = Vec::new();
    let mut i: usize = 0;
    while i < args.len()
        invariant
            i <= args@.len(),
            all == views(args@),
            strictly_sorted(seq_views(set@)),
            seq_views(set@).to_set() == first_strings(all.take(i as int)).to_set(),
        decreases args.len() - i,
    {
        proof {
            assert(all.take(i + 1).drop_last() =~= all.take(i as int));
            assert(all.take(i + 1).last() == args@[i as int]@);
        }
        match first_string_chars(args[i].as_slice()) {
            Some(s) => {
                proof {
                    let fs = first_strings(all.take(i as int));
                    fs.lemma_push_to_set_commute(s@);
                }
                insert_sorted(&mut set, s);
            },
            None => {},
        }
        i += 1;
    }
    assert(all.take(args@.len() as int) =~= all);
    strings_of(&set)
}

/// The constant named after `prefix.` at the start of the (trimmed) text.
pub open spec fn ident_arg_spec(inner: Seq<char>, prefix: Seq<char>) -> Option<Seq<char>> {
    let t = trim_spec(inner, 0, inner.len() as int);
    if matches_at(t, 0, prefix) && prefix.len() < t.len() && t[prefix.len() as int] == '.' {
        let rest = t.skip(prefix.len() as int + 1);
        let k = ident_run_spec(rest, 0);
        if k > 0 {
            Some(rest.take(k))
        } else {
            None
        }
    } else {
        None
    }
}

/// End of the run of ASCII letters, digits and `_` that starts at `i`.
pub open spec fn ident_run_spec(t: Seq<char>, i: int) -> int
    decreases t.len() - i,
{
    if 0 <= i < t.len() && (is_ascii_alphanumeric_spec(t[i]) || t[i] == '_') {
        ident_run_spec(t, i + 1)
    } else {
        i
    }
}

pub proof fn lemma_ident_run(t: Seq<char>, i: int)
    requires
        0 <= i <= t.len(),
    ensures
        i <= ident_run_spec(t, i) <= t.len(),
    decreases t.len() - i,
{
    if i < t.len() && (is_ascii_alphanumeric_spec(t[i]) || t[i] == '_') {
        lemma_ident_run(t, i + 1);
    }
}

pub fn ident_run(t: &[char], from: usize) -> (r: usize)
    requires
        from <= t@.len(),
    ensures
        r == ident_run_spec(t@, from as int),
        from <= r <= t@.len(),
{
    let mut i = from;
    while i < t.len() && (is_ascii_alphanumeric(t[i]) || t[i] == '_')
        invariant
            from <= i <= t@.len(),
            ident_run_spec(t@, i as int) == ident_run_spec(t@, from as int),
        decreases t.len() - i,
    {
        i += 1;
    }
    i
}

/// The constants found after `prefix.` in the arguments, in order.
pub open spec fn ident_args(args: Seq<Seq<char>>, prefix: Seq<char>) -> Seq<Seq<char>>
    decreases args.len(),
{
    if args.len() == 0 {
        seq![]
    } else {
        let rest = ident_args(args.drop_last(), prefix);
        match ident_arg_spec(args.last(), prefix) {
            Some(s) => rest.push(s),
            None => rest,
        }
    }
}

fn ident_arg(inner: &[char], prefix: &[char]) -> (r: Option<Vec<char>>)
    ensures
        match (r, ident_arg_spec(inner@, prefix@)) {
            (Some(v), Some(s)) => v@ == s,
            (None, None) => true,
            _ => false,
        },
{
    let t = trimmed(inner, 0, inner.len());
    if starts_at(t.as_slice(), 0, prefix) && prefix.len() < t.len() && t[prefix.len()] == '.' {
        let rest = slice_vec(t.as_slice(), prefix.len() + 1, t.len());
        assert(rest@ =~= t@.skip(prefix@.len() as int + 1));
        let k = ident_run(rest.as_slice(), 0);
        if k > 0 {
            let name = slice_vec(rest.as_slice(), 0, k);
            assert(name@ =~= rest@.take(k as int));
            Some(name)
        } else {
            None
        }
    } else {
        None
    }
}

/// The constant names in `call(Prefix.NAME ...)` calls, as a sorted set.
pub fn ident_args_in_calls(text: &str, call: &str, prefix: &str) -> (r: Vec<String>)
    requires
        call@.len() > 0,
    ensures
        strictly_sorted(string_views(r@)),
        string_views(r@).to_set() == ident_args(call_args_spec(text@, call@, 0), prefix@).to_set(),
{
    let t = chars_of(text);
    let c = chars_of(call);
    let p = chars_of(prefix);
    let args = call_args_chars(t.as_slice(), c.as_slice());
    let ghost all = views(args@);
    let mut set: Vec<Vec<char>> = Vec::new();
    let mut i: usize = 0;
    while i < args.len()
        invariant
            i <= args@.len(),
            all == views(args@),
            p@ == prefix@,
            strictly_sorted(seq_views(set@)),
            seq_views(set@).to_set() == ident_args(all.take(i as int), prefix@).to_set(),
        decreases args.len() - i,
    {
        proof {
            assert(all.take(i + 1).drop_last() =~= all.take(i as int));
            assert(all.take(i + 1).last() == args@[i as int]@);
        }
        match ident_arg(args[i].as_slice(), p.as_slice()) {
            Some(s) => {
                proof {
                    let fs = ident_args(all.take(i as int), prefix@);
                    fs.lemma_push_to_set_commute(s@);
                }
                insert_sorted(&mut set, s);
            },
            None => {},
        }
        i += 1;
    }
    assert(all.take(args@.len() as int) =~= all);
    strings_of(&set)
}

/// The lines of `t` from `start` on, split at each line feed as
/// `str::lines` splits them (a final line feed ends the last line rather
/// than starting an empty one); a carriage return before a line feed stays
/// at the end of its line, which the readers below ignore.
pub open spec fn split_lines_spec(t: Seq<char>, start: int) -> Seq<Seq<char>>
    decreases t.len() + 1 - start,
{
    if start < 0 || start >= t.len() {
        seq![]
    } else {
        match find_from_spec(t, seq!['\n'], start) {
            Some(e) => {
                proof {
                    lemma_find_from(t, seq!['\n'], start);
                }
                seq![t.subrange(start, e)] + split_lines_spec(t, e + 1)
            },
            None => seq![t.subrange(start, t.len() as int)],
        }
    }
}

/// Start of the run of non-whitespace characters that ends at `e`.
pub open spec fn word_start_spec(d: Seq<char>, e: int) -> int
    decreases e,
{
    if e <= 0 || e > d.len() || is_whitespace_spec(d[e - 1]) {
        e
    } else {
        word_start_spec(d, e - 1)
    }
}

/// The last whitespace-separated word of `d` (`split_whitespace().last()`).
pub open spec fn last_word_spec(d: Seq<char>) -> Option<Seq<char>> {
    let e = skip_ws_back_spec(d, 0, d.len() as int);
    if e == 0 {
        None
    } else {
        Some(d.subrange(word_start_spec(d, e), e))
    }
}

/// A constant name: ASCII uppercase letters, digits and `_` only.
pub open spec fn const_name_spec(name: Seq<char>) -> bool {
    forall|i: int|
        0 <= i < name.len() ==> #[trigger] is_ascii_uppercase_spec(name[i])
            || is_ascii_digit_spec(name[i]) || name[i] == '_'
}

/// `NAME = call("id", ...)` on one line: the constant and the id.
pub open spec fn line_pair_spec(line: Seq<char>) -> Option<(Seq<char>, Seq<char>)> {
    let tl = trim_spec(line, 0, line.len() as int);
    match find_from_spec(tl, seq!['='], 0) {
        None => None,
        Some(eq) => {
            let decl = tl.take(eq);
            let rest = tl.skip(eq + 1);
            match last_word_spec(decl) {
                None => None,
                Some(name) => if name.len() == 0 || !const_name_spec(name) {
                    None
                } else {
                    match find_from_spec(rest, seq!['('], 0) {
                        None => None,
                        Some(open) => match paren_range_spec(rest, open) {
                            None => None,
                            Some((inner, _)) => match first_string_spec(inner) {
                                None => None,
                                Some(id) => Some((name, id)),
                            },
                        },
                    }
                },
            }
        },
    }
}

/// The constant-to-id map that the lines declare; a later line wins.
pub open spec fn pairs_spec(lines: Seq<Seq<char>>) -> Map<Seq<char>, Seq<char>>
    decreases lines.len(),
{
    if lines.len() == 0 {
        Map::empty()
    } else {
        let m = pairs_spec(lines.drop_last());
        match line_pair_spec(lines.last()) {
            Some((k, v)) => m.insert(k, v),
            None => m,
        }
    }
}

fn find_char(t: &[char], c: char, from: usize) -> (r: Option<usize>)
    requires
        from <= t@.len(),
    ensures
        r == opt_index(find_from_spec(t@, seq![c], from as int)),
        r matches Some(i) ==> from <= i < t@.len() && t@[i as int] == c && find_from_spec(
            t@,
            seq![c],
            from as int,
        ) == Some(i as int),
        r is None ==> find_from_spec(t@, seq![c], from as int) is None,
{
    let p = vec![c];
    assert(p@ =~= seq![c]);
    let r = find_from(t, p.as_slice(), from);
    proof {
        if let Some(i) = r {
            assert(t@.subrange(i as int, i + 1)[0] == t@[i as int]);
        }
    }
    r
}

fn last_word(d: &[char]) -> (r: Option<Vec<char>>)
    ensures
        match (r, last_word_spec(d@)) {
            (Some(v), Some(s)) => v@ == s,
            (None, None) => true,
            _ => false,
        },
{
    let e = skip_ws_back(d, 0, d.len());
    if e == 0 {
        return None;
    }
    let mut b = e;
    while b > 0 && !is_whitespace(d[b - 1])
        invariant
            b <= e <= d@.len(),
            word_start_spec(d@, b as int) == word_start_spec(d@, e as int),
        decreases b,
    {
        b -= 1;
    }
    Some(slice_vec(d, b, e))
}

fn const_name(name: &[char]) -> (r: bool)
    ensures
        r == const_name_spec(name@),
{
    let mut i: usize = 0;
    while i < name.len()
        invariant
            i <= name@.len(),
            forall|j: int|
                0 <= j < i ==> #[trigger] is_ascii_uppercase_spec(name@[j]) || is_ascii_digit_spec(
                    name@[j],
                ) || name@[j] == '_',
        decreases name.len() - i,
    {
        let c = name[i];
        if !(('A' <= c && c <= 'Z') || is_ascii_digit(c) || c == '_') {
            assert(!(is_ascii_uppercase_spec(name@[i as int]) || is_ascii_digit_spec(name@[i as int])
                || name@[i as int] == '_'));
            return false;
        }
        i += 1;
    }
    true
}

fn line_pair(line: &[char]) -> (r: Option<(Vec<char>, Vec<char>)>)
    ensures
        match (r, line_pair_spec(line@)) {
            (Some((k, v)), Some((ks, vs))) => k@ == ks && v@ == vs,
            (None, None) => true,
            _ => false,
        },
{
    let tl = trimmed(line, 0, line.len());
    let eq = match find_char(tl.as_slice(), '=', 0) {
        Some(eq) => eq,
        None => return None,
    };
    let n = tl.len();
    assert(eq < n);
    let decl = slice_vec(tl.as_slice(), 0, eq);
    let rest = slice_vec(tl.as_slice(), eq + 1, n);
    assert(decl@ =~= tl@.take(eq as int));
    assert(rest@ =~= tl@.skip(eq + 1));
    let name = match last_word(decl.as_slice()) {
        Some(name) => name,
        None => return None,
    };
    if name.len() == 0 || !const_name(name.as_slice()) {
        return None;
    }
    let open = match find_char(rest.as_slice(), '(', 0) {
        Some(open) => open,
        None => return None,
    };
    let inner = match matching_paren(rest.as_slice(), open) {
        Some(inner) => inner,
        None => return None,
    };
    match first_string_chars(inner.as_slice()) {
        Some(id) => Some((name, id)),
        None => None,
    }
}

/// The map of strings holds `key` with value `value`.
pub open spec fn pairs_has(m: Seq<(String, String)>, key: Seq<char>, value: Seq<char>) -> bool {
    exists|i: int| 0 <= i < m.len() && m[i].0@ == key && m[i].1@ == value
}

/// The sorted map of strings stands for `target`.
pub open spec fn represents_strings(m: Seq<(String, String)>, target: Map<Seq<char>, Seq<char>>) -> bool {
    &&& strictly_sorted(m.map_values(|e: (String, String)| e.0@))
    &&& forall|key: Seq<char>, value: Seq<char>|
        #[trigger] pairs_has(m, key, value) <==> (target.contains_key(key) && target[key] == value)
}

/// `CONSTANT = call("id", ...)` declarations: constant name to id, sorted
/// by name; a later declaration of the same name wins.
pub fn constant_string_pairs(text: &str) -> (r: Vec<(String, String)>)
    ensures
        represents_strings(r@, pairs_spec(split_lines_spec(text@, 0))),
{
    let t = chars_of(text);
    let ghost lines = split_lines_spec(t@, 0);
    let mut map: Vec<(Vec<char>, Vec<char>)> = Vec::new();
    let mut start: usize = 0;
    let ghost mut done: Seq<Seq<char>> = seq![];
    proof {
        lemma_empty_represents(map@);
        assert(lines == done + split_lines_spec(t@, 0));
    }
    while start < t.len()
        invariant
            start <= t@.len(),
            lines == done + split_lines_spec(t@, start as int),
            represents(map@, pairs_spec(done)),
        decreases t.len() - start,
    {
        let end = match find_char(t.as_slice(), '\n', start) {
            Some(e) => e,
            None => t.len(),
        };
        let line = slice_vec(t.as_slice(), start, end);
        proof {
            lemma_find_from(t@, seq!['\n'], start as int);
            let next = done.push(line@);
            assert(next.drop_last() =~= done);
            if end < t.len() {
                assert(done + split_lines_spec(t@, start as int) =~= next + split_lines_spec(
                    t@,
                    end + 1,
                ));
            } else {
                assert(done + split_lines_spec(t@, start as int) =~= next + split_lines_spec(
                    t@,
                    t@.len() as int,
                ));
            }
        }
        match line_pair(line.as_slice()) {
            Some((k, v)) => {
                map_insert(&mut map, k, v);
            },
            None => {},
        }
        proof {
            done = done.push(line@);
        }
        start = if end < t.len() { end + 1 } else { t.len() };
    }
    assert(lines =~= done);
    let mut out: Vec<(String, String)> = Vec::new();
    let mut i: usize = 0;
    while i < map.len()
        invariant
            i <= map@.len(),
            out@.len() == i,
            forall|j: int| 0 <= j < i ==> out@[j].0@ == map@[j].0@ && out@[j].1@ == map@[j].1@,
        decreases map.len() - i,
    {
        let k = string_from(map[i].0.as_slice());
        let v = string_from(map[i].1.as_slice());
        out.push((k, v));
        i += 1;
    }
    proof {
        let target = pairs_spec(lines);
        assert(out@.map_values(|e: (String, String)| e.0@) =~= entry_keys(map@));
        assert forall|key: Seq<char>, value: Seq<char>|
            #[trigger] pairs_has(out@, key, value) <==> (target.contains_key(key) && target[key]
                == value) by {
            if pairs_has(out@, key, value) {
                let i = choose|i: int| 0 <= i < out@.len() && out@[i].0@ == key && out@[i].1@ == value;
                assert(map_has(map@, key, map@[i].1@));
            }
            if target.contains_key(key) && target[key] == value {
                assert(map_has(map@, key, value));
                let i = choose|i: int| 0 <= i < map@.len() && map@[i].0@ == key && map@[i].1@ == value;
                assert(out@[i].0@ == key && out@[i].1@ == value);
            }
        }
    }
    out
}

/// The value of a run of ASCII digits.
pub open spec fn digits_value(s: Seq<char>) -> nat
    decreases s.len(),
{
    if s.len() == 0 {
        0
    } else {
        digits_value(s.drop_last()) * 10 + ((s.last() as u32) - ('0' as u32)) as nat
    }
}

/// The run `cur` that just ended replaces `last` when it parses as a `u64`.
pub open spec fn settle_run(cur: Seq<char>, last: Option<u64>) -> Option<u64> {
    if cur.len() > 0 && digits_value(cur) <= u64::MAX {
        Some(digits_value(cur) as u64)
    } else {
        last
    }
}

/// Scans `t` from `i` with the digit run `cur` open and `last` found so far.
pub open spec fn last_integer_scan(t: Seq<char>, i: int, cur: Seq<char>, last: Option<u64>) -> Option<
    u64,
>
    decreases t.len() - i,
{
    if i < 0 || i >= t.len() {
        settle_run(cur, last)
    } else if is_ascii_digit_spec(t[i]) {
        last_integer_scan(t, i + 1, cur.push(t[i]), last)
    } else {
        last_integer_scan(t, i + 1, seq![], settle_run(cur, last))
    }
}

/// The value of the last run of ASCII digits in `t` that fits in a `u64`.
pub open spec fn last_integer_spec(t: Seq<char>) -> Option<u64> {
    last_integer_scan(t, 0, seq![], None)
}

/// The last integer literal in `text` (the count in
/// `addSlotRange(..., 0, 54)`); runs too large for a `u64` are skipped.
pub fn last_integer(text: &str) -> (r: Option<u64>)
    ensures
        r == last_integer_spec(text@),
{
    let t = chars_of(text);
    let mut last: Option<u64> = None;
    let mut cur_len: usize = 0;
    let mut cur_val: u64 = 0;
    let mut overflow = false;
    let ghost mut cur: Seq<char> = seq![];
    let mut i: usize = 0;
    while i < t.len()
        invariant
            i <= t@.len(),
            cur.len() == cur_len,
            cur_len <= i,
            overflow <==> digits_value(cur) > u64::MAX,
            !overflow ==> cur_val == digits_value(cur),
            last_integer_scan(t@, i as int, cur, last) == last_integer_spec(t@),
        decreases t.len() - i,
    {
        let c = t[i];
        if is_ascii_digit(c) {
            let d = (c as u32 - '0' as u32) as u64;
            proof {
                let next = cur.push(c);
                assert(next.drop_last() =~= cur);
                assert(digits_value(next) == digits_value(cur) * 10 + d);
                if overflow {
                    assert(digits_value(cur) * 10 + d > u64::MAX) by (nonlinear_arith)
                        requires
                            digits_value(cur) > u64::MAX,
                    ;
                }
            }
            if !overflow {
                match cur_val.checked_mul(10) {
                    Some(m) => match m.checked_add(d) {
                        Some(v) => {
                            cur_val = v;
                        },
                        None => {
                            overflow = true;
                        },
                    },
                    None => {
                        proof {
                            assert(digits_value(cur) * 10 + d > u64::MAX) by (nonlinear_arith)
                                requires
                                    digits_value(cur) * 10 > u64::MAX,
                            ;
                        }
                        overflow = true;
                    },
                }
            }
            proof {
                cur = cur.push(c);
            }
            cur_len += 1;
        } else {
            if cur_len > 0 && !overflow {
                last = Some(cur_val);
            }
            proof {
                cur = seq![];
            }
            cur_len = 0;
            cur_val = 0;
            overflow = false;
        }
        i += 1;
    }
    if cur_len > 0 && !overflow {
        last = Some(cur_val);
    }
    last
}

/// The run bounds, in characters, of the first `limit` bytes from `start`:
/// the walk stops at the first character boundary at or past `limit` bytes.
pub open spec fn byte_window_end(t: Seq<char>, k: int, used: int, limit: int) -> int
    decreases t.len() - k,
{
    if k < 0 || k >= t.len() || used >= limit {
        k
    } else {
        byte_window_end(t, k + 1, used + encode_scalar(t[k] as u32).len(), limit)
    }
}

/// Walking from `k` with `used` bytes taken, the byte limit falls on a
/// character boundary (or past the end of the text), so cutting there is
/// possible.
pub open spec fn byte_window_fits(t: Seq<char>, k: int, used: int, limit: int) -> bool
    decreases t.len() - k,
{
    if k < 0 || k >= t.len() {
        true
    } else if used >= limit {
        used == limit
    } else {
        byte_window_fits(t, k + 1, used + encode_scalar(t[k] as u32).len(), limit)
    }
}

pub proof fn lemma_byte_window(t: Seq<char>, k: int, used: int, limit: int)
    requires
        0 <= k <= t.len(),
    ensures
        k <= byte_window_end(t, k, used, limit) <= t.len(),
    decreases t.len() - k,
{
    if k < t.len() && used < limit {
        lemma_byte_window(t, k + 1, used + encode_scalar(t[k] as u32).len(), limit);
    }
}

/// Where a string literal that opens before `c` ends: at the closing `"`,
/// a `\` skipping the next character.
pub open spec fn skip_literal_spec(b: Seq<char>, c: int) -> int
    decreases b.len() + 2 - c,
{
    if c < 0 || c >= b.len() || b[c] == '"' {
        c
    } else if b[c] == '\\' {
        skip_literal_spec(b, c + 2)
    } else {
        skip_literal_spec(b, c + 1)
    }
}

pub proof fn lemma_skip_literal(b: Seq<char>, c: int)
    requires
        0 <= c,
    ensures
        c <= skip_literal_spec(b, c),
    decreases b.len() + 2 - c,
{
    if c < b.len() && b[c] != '"' {
        if b[c] == '\\' {
            lemma_skip_literal(b, c + 2);
        } else {
            lemma_skip_literal(b, c + 1);
        }
    }
}

/// Every string literal in `b` from `search` on, in order.
pub open spec fn literals_spec(b: Seq<char>, search: int) -> Seq<Seq<char>>
    decreases b.len() + 1 - search,
{
    if search < 0 {
        seq![]
    } else {
        match find_from_spec(b, seq!['"'], search) {
            None => seq![],
            Some(begin) => {
                proof {
                    lemma_find_from(b, seq!['"'], search);
                    lemma_skip_literal(b, begin + 1);
                }
                let head = match first_string_spec(b.skip(begin)) {
                    Some(v) => seq![v],
                    None => seq![],
                };
                let next = skip_literal_spec(b, begin + 1) + 1;
                if next >= b.len() {
                    head
                } else {
                    head + literals_spec(b, next)
                }
            },
        }
    }
}

/// The declaration block that `enum_literals` reads: from `marker` through at
/// most 8000 bytes, cut before the first `\n    public `.
pub open spec fn enum_block_spec(t: Seq<char>, marker: Seq<char>) -> Option<Seq<char>> {
    match find_from_spec(t, marker, 0) {
        None => None,
        Some(start) => {
            let window = t.subrange(start, byte_window_end(t, start, 0, 8000));
            let end = match find_from_spec(window, "\n    public "@, 0) {
                Some(e) => e,
                None => window.len() as int,
            };
            Some(window.take(end))
        },
    }
}

/// The string literals from an enum declaration's start up to its first
/// method, within 8000 bytes of the declaration.
pub fn enum_literals(text: &str, marker: &str) -> (r: Vec<String>)
    requires
        find_from_spec(text@, marker@, 0) matches Some(start) ==> byte_window_fits(
            text@,
            start,
            0,
            8000,
        ),
    ensures
        string_views(r@) == match enum_block_spec(text@, marker@) {
            Some(block) => literals_spec(block, 0),
            None => seq![],
        },
{
    let t = chars_of(text);
    let m = chars_of(marker);
    let start = match find_from(t.as_slice(), m.as_slice(), 0) {
        Some(start) => start,
        None => return Vec::new(),
    };
    let mut k = start;
    let mut used: usize = 0;
    proof {
        lemma_byte_window(t@, start as int, 0, 8000);
    }
    while k < t.len() && used < 8000
        invariant
            start <= k <= t@.len(),
            used <= 8000 + 4,
            byte_window_end(t@, k as int, used as int, 8000) == byte_window_end(
                t@,
                start as int,
                0,
                8000,
            ),
        decreases t.len() - k,
    {
        let w = utf8_chars(t[k]).len();
        assert(utf8_chars_spec(t@[k as int]).len() == encode_scalar(t@[k as int] as u32).len());
        used += w;
        k += 1;
    }
    let window = slice_vec(t.as_slice(), start, k);
    let public_marker = chars_of("\n    public ");
    let end = match find_from(window.as_slice(), public_marker.as_slice(), 0) {
        Some(e) => e,
        None => window.len(),
    };
    let block = slice_vec(window.as_slice(), 0, end);
    assert(block@ =~= window@.take(end as int));
    let ghost b = block@;
    assert(public_marker@ == "\n    public "@);
    assert(enum_block_spec(text@, marker@) == Some(b));
    let mut literals: Vec<String> = Vec::new();
    let mut search: usize = 0;
    loop
        invariant
            b == block@,
            enum_block_spec(text@, marker@) == Some(b),
            search < b.len() || search == 0,
            literals_spec(b, 0) == string_views(literals@) + literals_spec(b, search as int),
        decreases b.len() + 1 - search,
    {
        let begin = match find_char(block.as_slice(), '"', search) {
            Some(begin) => begin,
            None => {
                assert(string_views(literals@) + seq![] =~= string_views(literals@));
                return literals;
            },
        };
        let tail = slice_vec(block.as_slice(), begin, block.len());
        assert(tail@ =~= b.skip(begin as int));
        let ghost before = string_views(literals@);
        match first_string_chars(tail.as_slice()) {
            Some(v) => {
                let s = string_from(v.as_slice());
                literals.push(s);
                assert(string_views(literals@) =~= before + seq![v@]);
            },
            None => {
                assert(string_views(literals@) =~= before + seq![]);
            },
        }
        let mut cursor = begin + 1;
        while cursor < block.len() && block[cursor] != '"' && !(block[cursor] == '\\' && cursor + 1
            >= block.len())
            invariant
                begin < b.len(),
                b == block@,
                begin + 1 <= cursor <= b.len(),
                skip_literal_spec(b, cursor as int) == skip_literal_spec(b, begin + 1),
            decreases b.len() - cursor,
        {
            if block[cursor] == '\\' {
                cursor += 2;
            } else {
                cursor += 1;
            }
        }
        proof {
            lemma_skip_literal(b, begin + 1);
        }
        if cursor >= block.len() || block[cursor] != '"' {
            proof {
                if cursor < b.len() {
                    assert(skip_literal_spec(b, cursor + 2) == cursor + 2);
                }
                assert(skip_literal_spec(b, begin + 1) + 1 >= b.len());
            }
            assert(string_views(literals@) + seq![] =~= string_views(literals@));
            return literals;
        }
        let next = cursor + 1;
        if next >= block.len() {
            assert(string_views(literals@) + seq![] =~= string_views(literals@));
            return literals;
        }
        assert(before + (string_views(literals@).skip(before.len() as int) + literals_spec(
            b,
            next as int,
        )) =~= string_views(literals@) + literals_spec(b, next as int));
        search = next;
    }
}

/// The lines of a text.
pub fn lines_of(t: &[char]) -> (r: Vec<Vec<char>>)
    ensures
        views(r@) == split_lines_spec(t@, 0),
{
    let mut lines: Vec<Vec<char>> = Vec::new();
    let mut start: usize = 0;
    assert(views(lines@) + split_lines_spec(t@, 0) =~= split_lines_spec(t@, 0));
    while start < t.len()
        invariant
            start <= t@.len(),
            views(lines@) + split_lines_spec(t@, start as int) == split_lines_spec(t@, 0),
        decreases t.len() - start,
    {
        let end = match find_char(t, '\n', start) {
            Some(e) => e,
            None => t.len(),
        };
        let line = slice_vec(t, start, end);
        let ghost before = views(lines@);
        proof {
            lemma_find_from(t@, seq!['\n'], start as int);
        }
        lines.push(line);
        proof {
            assert(views(lines@) =~= before.push(line@));
            if end < t.len() {
                assert(before + split_lines_spec(t@, start as int) =~= views(lines@) + split_lines_spec(t@, end + 1));
            } else {
                assert(before + split_lines_spec(t@, start as int) =~= views(lines@) + split_lines_spec(t@, t@.len() as int));
            }
        }
        start = if end < t.len() {
            end + 1
        } else {
            t.len()
        };
    }
    assert(views(lines@) + split_lines_spec(t@, start as int) =~= views(lines@));
    lines
}

} // verus!
