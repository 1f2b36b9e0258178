//! The Brigadier command tree of the bundled sources.
//!
//! The decompiled registration expressions are `dispatcher.register(...)`
//! calls over chains of `Commands.literal("…")` / `Commands.argument("…", type)`
//! with `.then(...)`, `.requires(...)`, `.executes(...)` and `.redirect(...)`.
//! Only that subset is read: root commands, literal children, argument types
//! and the permission level that `requires` demands.

use vstd::prelude::*;
use crate::chars::{
    chars_of, is_ascii_alphanumeric, is_ascii_alphanumeric_spec, to_ascii_lowercase_spec, contains_spec, contains_str, eq_chars, find_from, find_from_spec, is_whitespace,
    is_whitespace_spec, lemma_find_from, lemma_skip_ws_bounds, matches_at, skip_ws,
    skip_ws_back_spec, skip_ws_spec, slice_vec, starts_at, string_from, trim_spec, trimmed,
};
use crate::sorted::{
    has_key, insert_absent, insert_pos_from, lemma_insert_absent_sorted, lemma_insert_pos, locate,
    seq_views_of_keys,
    spec_keys, strictly_sorted,
};
use crate::version::generate::text::{
    first_string_chars, first_string_spec, ident_run, ident_run_spec, is_identifier_char,
    is_identifier_char_spec, lemma_ident_run, lemma_paren_close_bounds, lemma_skip_ascii_ws,
    paren_close_spec, paren_range, paren_range_spec, skip_ascii_ws, skip_ascii_ws_spec,
};

verus! {

/// A node of the command tree.
pub struct CommandNode {
    pub name: String,
    /// The argument type expression of an argument node; `None` for literals.
    pub argument: Option<String>,
    /// The lowest permission level (0–4) that `requires` demands.
    pub level: Option<u8>,
    pub executable: bool,
    pub redirect: bool,
    pub children: Vec<CommandNode>,
}

/// The mathematical form of a command node.
pub struct SpecCommandNode {
    pub name: Seq<char>,
    pub argument: Option<Seq<char>>,
    pub level: Option<u8>,
    pub executable: bool,
    pub redirect: bool,
    pub children: Seq<SpecCommandNode>,
}

/// The view of an optional string.
pub open spec fn opt_view(o: Option<String>) -> Option<Seq<char>> {
    match o {
        Some(s) => Some(s@),
        None => None,
    }
}

/// `n` holds exactly what `s` describes, down the whole tree.
pub open spec fn node_matches(n: CommandNode, s: SpecCommandNode) -> bool
    decreases s,
{
    &&& n.name@ == s.name
    &&& opt_view(n.argument) == s.argument
    &&& n.level == s.level
    &&& n.executable == s.executable
    &&& n.redirect == s.redirect
    &&& children_match(n.children@, s.children)
}

/// Each node matches the description at the same place.
pub open spec fn children_match(ns: Seq<CommandNode>, ss: Seq<SpecCommandNode>) -> bool
    decreases ss,
{
    if ss.len() == 0 {
        ns.len() == 0
    } else {
        ns.len() == ss.len() && children_match(ns.drop_last(), ss.drop_last()) && node_matches(
            ns.last(),
            ss.last(),
        )
    }
}

/// Appending a matching child keeps a node matching.
pub proof fn lemma_push_child(
    n: CommandNode,
    s: SpecCommandNode,
    m: CommandNode,
    child: CommandNode,
    sc: SpecCommandNode,
)
    requires
        node_matches(n, s),
        node_matches(child, sc),
        m.name == n.name,
        m.argument == n.argument,
        m.level == n.level,
        m.executable == n.executable,
        m.redirect == n.redirect,
        m.children@ == n.children@.push(child),
    ensures
        node_matches(m, SpecCommandNode { children: s.children.push(sc), ..s }),
{
    assert(m.children@.drop_last() =~= n.children@);
    assert(s.children.push(sc).drop_last() =~= s.children);
}

/// The permission level named in a `requires` expression.
pub open spec fn permission_level_spec(t: Seq<char>) -> Option<u8> {
    if contains_spec(t, "LEVEL_OWNERS"@) {
        Some(4)
    } else if contains_spec(t, "LEVEL_ADMINS"@) {
        Some(3)
    } else if contains_spec(t, "LEVEL_GAMEMASTERS"@) {
        Some(2)
    } else if contains_spec(t, "LEVEL_MODERATORS"@) {
        Some(1)
    } else if contains_spec(t, "LEVEL_ALL"@) {
        Some(0)
    } else {
        None
    }
}

/// The name of permission level `n` in the command sources: owners 4,
/// admins 3, game masters 2, moderators 1, everyone 0.
pub open spec fn level_name(n: int) -> Seq<char> {
    if n == 4 {
        "LEVEL_OWNERS"@
    } else if n == 3 {
        "LEVEL_ADMINS"@
    } else if n == 2 {
        "LEVEL_GAMEMASTERS"@
    } else if n == 1 {
        "LEVEL_MODERATORS"@
    } else {
        "LEVEL_ALL"@
    }
}

/// The level a `requires` expression asks for is the highest level it
/// names: the result is a level from 0 to 4 whose name occurs in the text
/// while no higher level's name does; and there is none exactly when the
/// text names no level.
pub proof fn lemma_permission_level(t: Seq<char>)
    ensures
        permission_level_spec(t) is None <==> (forall|n: int| 0 <= n <= 4 ==> !contains_spec(t, #[trigger] level_name(n))),
        permission_level_spec(t) is Some ==> ({
            let n = permission_level_spec(t)->0 as int;
            &&& 0 <= n <= 4
            &&& contains_spec(t, level_name(n))
            &&& forall|m: int| n < m <= 4 ==> !contains_spec(t, #[trigger] level_name(m))
        }),
{
    if permission_level_spec(t) is None {
        assert forall|n: int| 0 <= n <= 4 implies !contains_spec(t, #[trigger] level_name(n)) by {
            if n == 4 {
            } else if n == 3 {
            } else if n == 2 {
            } else if n == 1 {
            } else {
            }
        }
    } else {
        let n = permission_level_spec(t)->0 as int;
        assert(contains_spec(t, level_name(n)));
        assert forall|m: int| n < m <= 4 implies !contains_spec(t, #[trigger] level_name(m)) by {
            if m == 4 {
            } else if m == 3 {
            } else if m == 2 {
            } else {
            }
        }
        assert(!contains_spec(t, level_name(n)) ==> false);
    }
    if forall|n: int| 0 <= n <= 4 ==> !contains_spec(t, #[trigger] level_name(n)) {
        assert(!contains_spec(t, level_name(4)));
        assert(!contains_spec(t, level_name(3)));
        assert(!contains_spec(t, level_name(2)));
        assert(!contains_spec(t, level_name(1)));
        assert(!contains_spec(t, level_name(0)));
    }
}

/// The permission level named in a `requires` expression.
pub fn permission_level(text: &[char]) -> (r: Option<u8>)
    ensures
        r == permission_level_spec(text@),
{
    if contains_str(text, "LEVEL_OWNERS") {
        Some(4)
    } else if contains_str(text, "LEVEL_ADMINS") {
        Some(3)
    } else if contains_str(text, "LEVEL_GAMEMASTERS") {
        Some(2)
    } else if contains_str(text, "LEVEL_MODERATORS") {
        Some(1)
    } else if contains_str(text, "LEVEL_ALL") {
        Some(0)
    } else {
        None
    }
}

/// `call` stands at `q`, followed (after ASCII whitespace) by `(`: the
/// position of that `(`.
pub open spec fn call_open_spec(t: Seq<char>, q: int, call: Seq<char>) -> Option<int> {
    if matches_at(t, q, call) {
        let o = skip_ascii_ws_spec(t, q + call.len());
        if 0 <= o < t.len() && t[o] == '(' {
            Some(o)
        } else {
            None
        }
    } else {
        None
    }
}

/// Whether `text` continues at `at` with `call(`; returns the position of the
/// `(`.
pub fn call_open(text: &[char], at: usize, call: &str) -> (r: Option<usize>)
    requires
        at <= text@.len(),
    ensures
        r == match call_open_spec(text@, at as int, call@) {
            Some(o) => Some(o as usize),
            None => None,
        },
        r matches Some(o) ==> at <= o < text@.len() && call_open_spec(text@, at as int, call@)
            == Some(o as int),
        r is None ==> call_open_spec(text@, at as int, call@) is None,
{
    let c = chars_of(call);
    if !starts_at(text, at, c.as_slice()) {
        return None;
    }
    proof {
        lemma_skip_ascii_ws(text@, at + c@.len());
    }
    let n = text.len();
    assert(at + c@.len() <= n);
    let o = skip_ascii_ws(text, at + c.len());
    if o < text.len() && text[o] == '(' {
        Some(o)
    } else {
        None
    }
}

pub open spec fn either(a: Option<int>, b: Option<int>) -> Option<int> {
    match a {
        Some(x) => Some(x),
        None => b,
    }
}

/// First position at or after `i` that holds no `(`.
pub open spec fn open_run_spec(t: Seq<char>, i: int) -> int
    decreases t.len() - i,
{
    if 0 <= i < t.len() && t[i] == '(' {
        open_run_spec(t, i + 1)
    } else {
        i
    }
}

/// First position at or after `i` that holds no `)`.
pub open spec fn close_run_spec(t: Seq<char>, i: int) -> int
    decreases t.len() - i,
{
    if 0 <= i < t.len() && t[i] == ')' {
        close_run_spec(t, i + 1)
    } else {
        i
    }
}

pub proof fn lemma_runs(t: Seq<char>, i: int)
    requires
        0 <= i <= t.len(),
    ensures
        i <= open_run_spec(t, i) <= t.len(),
        i <= close_run_spec(t, i) <= t.len(),
    decreases t.len() - i,
{
    if i < t.len() {
        lemma_runs(t, i + 1);
    }
}

/// The builder casts that decompiled chains wrap around nodes.
pub open spec fn is_cast_close_at(t: Seq<char>, c: int) -> bool {
    matches_at(t, c, "LiteralArgumentBuilder)"@) || matches_at(t, c, "RequiredArgumentBuilder)"@)
        || matches_at(t, c, "ArgumentBuilder)"@)
}

/// `cast` stands at `q` and is closed by `)` or continued by `<` (after
/// whitespace): the position after the first `)` from `q`.
pub open spec fn cast_skip_one(t: Seq<char>, q: int, cast: Seq<char>) -> Option<int> {
    if matches_at(t, q, cast) {
        let a = skip_ws_spec(t, q + cast.len(), t.len() as int);
        if 0 <= a < t.len() && (t[a] == ')' || t[a] == '<') {
            match find_from_spec(t, seq![')'], q) {
                Some(close) => Some(close + 1),
                None => None,
            }
        } else {
            None
        }
    } else {
        None
    }
}

pub open spec fn cast_skip(t: Seq<char>, q: int) -> Option<int> {
    match cast_skip_one(t, q, "LiteralArgumentBuilder"@) {
        Some(n) => Some(n),
        None => match cast_skip_one(t, q, "RequiredArgumentBuilder"@) {
            Some(n) => Some(n),
            None => cast_skip_one(t, q, "ArgumentBuilder"@),
        },
    }
}

pub proof fn lemma_cast_skip(t: Seq<char>, q: int)
    requires
        0 <= q,
    ensures
        cast_skip(t, q) matches Some(n) ==> q < n <= t.len(),
{
    lemma_find_from(t, seq![')'], q);
}

/// Where the casts and whitespace before a node end: `(Type)` casts and
/// runs of `(` that open a cast are skipped.
pub open spec fn skip_casts_spec(t: Seq<char>, p: int) -> int
    decreases t.len() - p,
{
    if p < 0 || p > t.len() {
        p
    } else {
        let q = skip_ascii_ws_spec(t, p);
        let c = open_run_spec(t, q);
        let cand = skip_ws_spec(t, c, t.len() as int);
        proof {
            lemma_skip_ascii_ws(t, p);
            lemma_runs(t, q);
            lemma_skip_ws_bounds(t, c, t.len() as int);
            lemma_cast_skip(t, q);
        }
        if c > q && is_cast_close_at(t, cand) {
            skip_casts_spec(t, cand)
        } else {
            match cast_skip(t, q) {
                Some(next) => skip_casts_spec(t, next),
                None => q,
            }
        }
    }
}

/// The argument type after the first `,` of an argument node, trimmed;
/// `None` when there is no `,` or nothing follows it.
pub open spec fn argument_spec(inner: Seq<char>) -> Option<Seq<char>> {
    match find_from_spec(inner, seq![','], 0) {
        None => None,
        Some(c) => {
            let r = trim_spec(inner, c + 1, inner.len() as int);
            if r.len() == 0 {
                None
            } else {
                Some(r)
            }
        },
    }
}

/// The node head at `q`: its name, argument type, and the position after
/// its bracket.
pub open spec fn head_spec(t: Seq<char>, q: int) -> Option<(Seq<char>, Option<Seq<char>>, int)> {
    match either(
        call_open_spec(t, q, "Commands.literal"@),
        call_open_spec(t, q, "LiteralArgumentBuilder.literal"@),
    ) {
        Some(o) => match paren_range_spec(t, o) {
            None => None,
            Some((inner, after)) => match first_string_spec(inner) {
                None => None,
                Some(name) => Some((name, None, after)),
            },
        },
        None => match either(
            call_open_spec(t, q, "Commands.argument"@),
            call_open_spec(t, q, "RequiredArgumentBuilder.argument"@),
        ) {
            None => None,
            Some(o) => match paren_range_spec(t, o) {
                None => None,
                Some((inner, after)) => match first_string_spec(inner) {
                    None => None,
                    Some(name) => Some((name, argument_spec(inner), after)),
                },
            },
        },
    }
}

pub proof fn lemma_paren_range(t: Seq<char>, o: int)
    ensures
        paren_range_spec(t, o) matches Some((inner, after)) ==> 0 <= o < after <= t.len()
            && inner.len() < t.len() && inner == t.subrange(o + 1, after - 1),
{
    lemma_paren_close_bounds(t, o, 0, false, false);
}

/// What one method call of the chain does to the node.
pub open spec fn apply_method(
    node: SpecCommandNode,
    method: Seq<char>,
    inner: Seq<char>,
    child: Option<SpecCommandNode>,
) -> SpecCommandNode {
    if method == "then"@ {
        match child {
            Some(c) => SpecCommandNode { children: node.children.push(c), ..node },
            None => node,
        }
    } else if method == "requires"@ {
        SpecCommandNode { level: permission_level_spec(inner), ..node }
    } else if method == "executes"@ {
        SpecCommandNode { executable: true, ..node }
    } else if method == "redirect"@ {
        SpecCommandNode { redirect: true, ..node }
    } else {
        node
    }
}

/// What each method of a command's builder chain does: `then` adds the
/// child node after the others, `requires` sets the permission level named
/// in its argument text, `executes` marks the node executable, `redirect`
/// marks it as redirecting; the name and the argument always stay, and any
/// other method changes nothing.
pub proof fn lemma_chain_methods(
    node: SpecCommandNode,
    method: Seq<char>,
    inner: Seq<char>,
    child: Option<SpecCommandNode>,
)
    ensures
        apply_method(node, method, inner, child).name == node.name,
        apply_method(node, method, inner, child).argument == node.argument,
        (method == "then"@ && child is Some) ==> (apply_method(node, method, inner, child).children
            == node.children.push(child->0)),
        method == "then"@ ==> (apply_method(node, method, inner, child).level == node.level),
        method == "then"@ ==> (apply_method(node, method, inner, child).executable == node.executable),
        (method == "then"@ && child is None) ==> (apply_method(node, method, inner, child) == node),
        method == "requires"@ ==> (apply_method(node, method, inner, child).level
            == permission_level_spec(inner)),
        method == "requires"@ ==> (apply_method(node, method, inner, child).children
            == node.children),
        method == "executes"@ ==> apply_method(node, method, inner, child).executable,
        method == "executes"@ ==> (apply_method(node, method, inner, child).level == node.level),
        method == "executes"@ ==> (apply_method(node, method, inner, child).redirect
            == node.redirect),
        method == "redirect"@ ==> apply_method(node, method, inner, child).redirect,
        method == "redirect"@ ==> (apply_method(node, method, inner, child).executable
            == node.executable),
        !(method == "then"@ || method == "requires"@ || method == "executes"@ || method
            == "redirect"@) ==> (apply_method(node, method, inner, child) == node),
{
    reveal_strlit("then");
    reveal_strlit("requires");
    reveal_strlit("executes");
    reveal_strlit("redirect");
    assert("then"@.len() == 4 && "requires"@.len() == 8 && "executes"@.len() == 8
        && "redirect"@.len() == 8);
    assert("requires"@[1] == 'e' && "executes"@[1] == 'x' && "redirect"@[1] == 'e'
        && "requires"@[2] == 'q' && "redirect"@[2] == 'd');
}

/// Reads the method chain after a node head at `p`.
pub open spec fn chain_spec(t: Seq<char>, p: int, node: SpecCommandNode) -> Option<
    (SpecCommandNode, int),
>
    decreases t.len(), 0int, t.len() - p,
{
    if p < 0 || p > t.len() {
        None
    } else {
        let w = skip_ws_spec(t, p, t.len() as int);
        proof {
            lemma_skip_ws_bounds(t, p, t.len() as int);
        }
        if w < t.len() && t[w] == ')' {
            proof {
                lemma_runs(t, w + 1);
            }
            chain_spec(t, close_run_spec(t, w), node)
        } else if !(w < t.len() && t[w] == '.') {
            Some((node, p))
        } else {
            let ie = ident_run_spec(t, w + 1);
            let method = t.subrange(w + 1, ie);
            proof {
                lemma_ident_run(t, w + 1);
                lemma_skip_ascii_ws(t, ie);
            }
            let open = skip_ascii_ws_spec(t, ie);
            if !(open < t.len() && t[open] == '(') {
                Some((node, p))
            } else {
                match paren_range_spec(t, open) {
                    None => None,
                    Some((inner, after_call)) => {
                        proof {
                            lemma_paren_range(t, open);
                        }
                        let child = if method == "then"@ {
                            match parse_node_spec(inner, 0) {
                                Some((c, _)) => Some(c),
                                None => None,
                            }
                        } else {
                            None
                        };
                        chain_spec(t, after_call, apply_method(node, method, inner, child))
                    },
                }
            }
        }
    }
}

/// A fresh node with a name and argument type.
pub open spec fn new_node(name: Seq<char>, argument: Option<Seq<char>>) -> SpecCommandNode {
    SpecCommandNode {
        name,
        argument,
        level: None,
        executable: false,
        redirect: false,
        children: seq![],
    }
}

/// A builder chain at `p`: `(cast) Commands.literal("x").requires(...).then(...)`.
pub open spec fn parse_node_spec(t: Seq<char>, p: int) -> Option<(SpecCommandNode, int)>
    decreases t.len(), 1int, 0int,
{
    let q = skip_casts_spec(t, p);
    match head_spec(t, q) {
        None => None,
        Some((name, argument, after)) => chain_spec(t, after, new_node(name, argument)),
    }
}

fn open_run(t: &[char], i: usize) -> (r: usize)
    requires
        i <= t@.len(),
    ensures
        r == open_run_spec(t@, i as int),
        i <= r <= t@.len(),
{
    proof {
        lemma_runs(t@, i as int);
    }
    let mut k = i;
    while k < t.len() && t[k] == '('
        invariant
            i <= k <= t@.len(),
            open_run_spec(t@, k as int) == open_run_spec(t@, i as int),
        decreases t.len() - k,
    {
        k += 1;
    }
    k
}

fn close_run(t: &[char], i: usize) -> (r: usize)
    requires
        i <= t@.len(),
    ensures
        r == close_run_spec(t@, i as int),
        i <= r <= t@.len(),
{
    proof {
        lemma_runs(t@, i as int);
    }
    let mut k = i;
    while k < t.len() && t[k] == ')'
        invariant
            i <= k <= t@.len(),
            close_run_spec(t@, k as int) == close_run_spec(t@, i as int),
        decreases t.len() - k,
    {
        k += 1;
    }
    k
}

fn starts_with_str(t: &[char], at: usize, word: &str) -> (r: bool)
    ensures
        r == matches_at(t@, at as int, word@),
{
    let w = chars_of(word);
    starts_at(t, at, w.as_slice())
}

fn is_cast_close(t: &[char], c: usize) -> (r: bool)
    ensures
        r == is_cast_close_at(t@, c as int),
{
    starts_with_str(t, c, "LiteralArgumentBuilder)") || starts_with_str(
        t,
        c,
        "RequiredArgumentBuilder)",
    ) || starts_with_str(t, c, "ArgumentBuilder)")
}

fn cast_skip_one_at(t: &[char], q: usize, cast: &str) -> (r: Option<usize>)
    requires
        q <= t@.len(),
    ensures
        r == match cast_skip_one(t@, q as int, cast@) {
            Some(n) => Some(n as usize),
            None => None,
        },
        r matches Some(n) ==> q < n <= t@.len(),
{
    let c = chars_of(cast);
    if !starts_at(t, q, c.as_slice()) {
        return None;
    }
    let n = t.len();
    assert(q + c@.len() <= n);
    let a = skip_ws(t, q + c.len(), t.len());
    if a < t.len() && (t[a] == ')' || t[a] == '<') {
        let close_pattern = vec![')'];
        assert(close_pattern@ =~= seq![')']);
        match find_from(t, close_pattern.as_slice(), q) {
            Some(close) => {
                assert(close < n);
                Some(close + 1)
            },
            None => None,
        }
    } else {
        None
    }
}

fn cast_skip_at(t: &[char], q: usize) -> (r: Option<usize>)
    requires
        q <= t@.len(),
    ensures
        r == match cast_skip(t@, q as int) {
            Some(n) => Some(n as usize),
            None => None,
        },
        r matches Some(n) ==> q < n <= t@.len(),
{
    match cast_skip_one_at(t, q, "LiteralArgumentBuilder") {
        Some(n) => Some(n),
        None => match cast_skip_one_at(t, q, "RequiredArgumentBuilder") {
            Some(n) => Some(n),
            None => cast_skip_one_at(t, q, "ArgumentBuilder"),
        },
    }
}

fn skip_casts(t: &[char], p: usize) -> (r: usize)
    requires
        p <= t@.len(),
    ensures
        r == skip_casts_spec(t@, p as int),
        r <= t@.len(),
{
    let mut position = p;
    loop
        invariant
            p <= position <= t@.len(),
            skip_casts_spec(t@, position as int) == skip_casts_spec(t@, p as int),
        decreases t@.len() - position,
    {
        proof {
            lemma_skip_ascii_ws(t@, position as int);
        }
        let q = skip_ascii_ws(t, position);
        let c = open_run(t, q);
        let cand = skip_ws(t, c, t.len());
        proof {
            lemma_cast_skip(t@, q as int);
            lemma_runs(t@, q as int);
            lemma_skip_ws_bounds(t@, c as int, t@.len() as int);
        }
        if c > q && is_cast_close(t, cand) {
            assert(skip_casts_spec(t@, position as int) == skip_casts_spec(t@, cand as int));
            position = cand;
            continue;
        }
        match cast_skip_at(t, q) {
            Some(next) => {
                assert(cast_skip(t@, q as int) == Some(next as int));
                assert(skip_casts_spec(t@, position as int) == skip_casts_spec(t@, next as int));
                position = next;
            },
            None => {
                return q;
            },
        }
    }
}

fn argument_of(inner: &[char]) -> (r: Option<Vec<char>>)
    ensures
        match (r, argument_spec(inner@)) {
            (Some(v), Some(s)) => v@ == s,
            (None, None) => true,
            _ => false,
        },
{
    let comma = vec![','];
    assert(comma@ =~= seq![',']);
    match find_from(inner, comma.as_slice(), 0) {
        None => None,
        Some(c) => {
            let n = inner.len();
            assert(c < n);
            let r = trimmed(inner, c + 1, inner.len());
            if r.len() == 0 {
                None
            } else {
                Some(r)
            }
        },
    }
}

fn head(t: &[char], q: usize) -> (r: Option<(Vec<char>, Option<Vec<char>>, usize)>)
    requires
        q <= t@.len(),
    ensures
        match (r, head_spec(t@, q as int)) {
            (Some((name, argument, after)), Some((sn, sa, s_after))) => name@ == sn && match (
                argument,
                sa,
            ) {
                (Some(a), Some(b)) => a@ == b,
                (None, None) => true,
                _ => false,
            } && after == s_after && q < after <= t@.len(),
            (None, None) => true,
            _ => false,
        },
{
    let literal_open = match call_open(t, q, "Commands.literal") {
        Some(o) => Some(o),
        None => call_open(t, q, "LiteralArgumentBuilder.literal"),
    };
    match literal_open {
        Some(o) => {
            proof {
                lemma_paren_range(t@, o as int);
            }
            match paren_range(t, o) {
                None => None,
                Some((inner, after)) => match first_string_chars(inner.as_slice()) {
                    None => None,
                    Some(name) => Some((name, None, after)),
                },
            }
        },
        None => {
            let argument_open = match call_open(t, q, "Commands.argument") {
                Some(o) => Some(o),
                None => call_open(t, q, "RequiredArgumentBuilder.argument"),
            };
            match argument_open {
                None => None,
                Some(o) => {
                    proof {
                        lemma_paren_range(t@, o as int);
                    }
                    match paren_range(t, o) {
                        None => None,
                        Some((inner, after)) => match first_string_chars(inner.as_slice()) {
                            None => None,
                            Some(name) => Some((name, argument_of(inner.as_slice()), after)),
                        },
                    }
                },
            }
        },
    }
}

/// Parses a builder chain at `position`:
/// `(cast) Commands.literal("x").requires(...).then(...)`.
pub fn parse_node(text: &[char], position: usize) -> (r: Option<(CommandNode, usize)>)
    requires
        position <= text@.len(),
    ensures
        match (r, parse_node_spec(text@, position as int)) {
            (Some((n, after)), Some((s, s_after))) => node_matches(n, s) && after == s_after
                && after <= text@.len(),
            (None, None) => true,
            _ => false,
        },
    decreases text@.len(),
{
    let q = skip_casts(text, position);
    let (name, argument, after) = match head(text, q) {
        Some(h) => h,
        None => return None,
    };
    let ghost start = new_node(name@, match &argument {
        Some(a) => Some(a@),
        None => None,
    });
    let mut node = CommandNode {
        name: string_from(name.as_slice()),
        argument: match &argument {
            Some(a) => Some(string_from(a.as_slice())),
            None => None,
        },
        level: None,
        executable: false,
        redirect: false,
        children: Vec::new(),
    };
    let ghost mut snode = start;
    let mut pos = after;
    proof {
        assert(node_matches(node, snode));
    }
    loop
        invariant
            after <= pos <= text@.len(),
            node_matches(node, snode),
            chain_spec(text@, after as int, start) == chain_spec(text@, pos as int, snode),
            parse_node_spec(text@, position as int) == chain_spec(text@, after as int, start),
        decreases text@.len() - pos,
    {
        proof {
            lemma_skip_ws_bounds(text@, pos as int, text@.len() as int);
        }
        let w = skip_ws(text, pos, text.len());
        if w < text.len() && text[w] == ')' {
            proof {
                lemma_runs(text@, w + 1);
            }
            pos = close_run(text, w);
            continue;
        }
        if !(w < text.len() && text[w] == '.') {
            return Some((node, pos));
        }
        let ie = ident_run(text, w + 1);
        let method = slice_vec(text, w + 1, ie);
        let open = skip_ascii_ws(text, ie);
        if !(open < text.len() && text[open] == '(') {
            return Some((node, pos));
        }
        proof {
            lemma_paren_range(text@, open as int);
        }
        let (inner, after_call) = match paren_range(text, open) {
            Some(pr) => pr,
            None => return None,
        };
        if chars_eq_word(method.as_slice(), "then") {
            match parse_node(inner.as_slice(), 0) {
                Some((child, _)) => {
                    let ghost sc = (parse_node_spec(inner@, 0)->0).0;
                    let ghost old_node = node;
                    let ghost cv = child;
                    assert(node_matches(cv, sc));
                    node.children.push(child);
                    proof {
                        lemma_push_child(old_node, snode, node, cv, sc);
                        snode = SpecCommandNode { children: snode.children.push(sc), ..snode };
                    }
                },
                None => {},
            }
        } else if chars_eq_word(method.as_slice(), "requires") {
            node.level = permission_level(inner.as_slice());
            proof {
                snode = SpecCommandNode { level: permission_level_spec(inner@), ..snode };
            }
        } else if chars_eq_word(method.as_slice(), "executes") {
            node.executable = true;
            proof {
                snode = SpecCommandNode { executable: true, ..snode };
            }
        } else if chars_eq_word(method.as_slice(), "redirect") {
            node.redirect = true;
            proof {
                snode = SpecCommandNode { redirect: true, ..snode };
            }
        }
        pos = after_call;
    }
}

fn chars_eq_word(text: &[char], word: &str) -> (r: bool)
    ensures
        r == (text@ == word@),
{
    crate::chars::chars_eq_str(text, word)
}

/// A copy of a node, down the whole tree.
pub fn clone_node(n: &CommandNode) -> (r: CommandNode)
    ensures
        forall|s: SpecCommandNode| node_matches(*n, s) ==> node_matches(r, s),
    decreases n,
{
    let mut children: Vec<CommandNode> = Vec::new();
    let mut i: usize = 0;
    while i < n.children.len()
        invariant
            i <= n.children@.len(),
            children@.len() == i,
            forall|s: Seq<SpecCommandNode>|
                #[trigger] children_match(n.children@, s) ==> children_match(
                    children@,
                    s.take(i as int),
                ),
        decreases n.children.len() - i,
    {
        assert(decreases_to!(*n => n.children@[i as int]));
        let c = clone_node(&n.children[i]);
        let ghost before = children@;
        children.push(c);
        proof {
            assert forall|s: Seq<SpecCommandNode>|
                children_match(n.children@, s) implies children_match(
                children@,
                s.take(i + 1),
            ) by {
                lemma_children_match_index(n.children@, s, i as int);
                assert(children@.drop_last() =~= before);
                assert(s.take(i + 1).drop_last() =~= s.take(i as int));
            }
        }
        i += 1;
    }
    let ghost final_children = children@;
    let r = CommandNode {
        name: n.name.clone(),
        argument: match &n.argument {
            Some(a) => Some(a.clone()),
            None => None,
        },
        level: n.level,
        executable: n.executable,
        redirect: n.redirect,
        children,
    };
    proof {
        assert forall|s: SpecCommandNode| node_matches(*n, s) implies node_matches(r, s) by {
            assert(children_match(n.children@, s.children));
            if s.children.len() > 0 {
                lemma_children_match_index(n.children@, s.children, 0);
            }
            assert(n.children@.len() == s.children.len());
            assert(s.children.take(s.children.len() as int) =~= s.children);
            assert(children_match(final_children, s.children.take(i as int)));
            assert(r.children@ == final_children);
            assert(children_match(r.children@, s.children));
        }
    }
    r
}

/// Matching child sequences have equal lengths and match at each index.
pub proof fn lemma_children_match_index(ns: Seq<CommandNode>, ss: Seq<SpecCommandNode>, i: int)
    requires
        children_match(ns, ss),
        0 <= i < ss.len(),
    ensures
        ns.len() == ss.len(),
        node_matches(ns[i], ss[i]),
    decreases ss.len(),
{
    if i < ss.len() - 1 {
        lemma_children_match_index(ns.drop_last(), ss.drop_last(), i);
        assert(ns.drop_last()[i] == ns[i]);
        assert(ss.drop_last()[i] == ss[i]);
    }
}

/// `word` as a whole identifier: the first occurrence at or after `search`
/// that no identifier character touches on either side.
pub open spec fn identifier_position_spec(t: Seq<char>, w: Seq<char>, search: int) -> Option<int>
    decreases t.len() + 1 - search,
{
    if w.len() == 0 || search < 0 {
        None
    } else {
        match find_from_spec(t, w, search) {
            None => None,
            Some(start) => {
                proof {
                    lemma_find_from(t, w, search);
                }
                let end = start + w.len();
                let before_ok = start == 0 || !is_identifier_char_spec(t[start - 1]);
                let after_ok = end >= t.len() || !is_identifier_char_spec(t[end]);
                if before_ok && after_ok {
                    Some(start)
                } else {
                    identifier_position_spec(t, w, end)
                }
            },
        }
    }
}

/// Where `word` first occurs in `text` as a whole identifier.
pub fn identifier_position(text: &[char], word: &[char]) -> (r: Option<usize>)
    requires
        word@.len() > 0,
    ensures
        r == match identifier_position_spec(text@, word@, 0) {
            Some(p) => Some(p as usize),
            None => None,
        },
        r matches Some(p) ==> identifier_position_spec(text@, word@, 0) == Some(p as int),
        r is None ==> identifier_position_spec(text@, word@, 0) is None,
{
    let mut search: usize = 0;
    loop
        invariant
            word@.len() > 0,
            search <= text@.len() + word@.len(),
            identifier_position_spec(text@, word@, search as int) == identifier_position_spec(
                text@,
                word@,
                0,
            ),
        decreases text@.len() + 1 - search,
    {
        if search > text.len() {
            return None;
        }
        let start = match find_from(text, word, search) {
            Some(start) => start,
            None => return None,
        };
        let n = text.len();
        let end = start + word.len();
        let before_ok = start == 0 || !is_identifier_char(text[start - 1]);
        let after_ok = end >= n || !is_identifier_char(text[end]);
        if before_ok && after_ok {
            return Some(start);
        }
        search = end;
    }
}

/// The first `Commands.literal(...)` node in a registration expression.
pub open spec fn first_literal_node_spec(argument: Seq<char>) -> Option<SpecCommandNode> {
    match find_from_spec(argument, "Commands.literal("@, 0) {
        None => None,
        Some(index) => match parse_node_spec(argument, index) {
            Some((node, _)) => Some(node),
            None => None,
        },
    }
}

/// The first `Commands.literal(...)` node in a registration expression.
pub fn first_literal_node(argument: &[char]) -> (r: Option<CommandNode>)
    ensures
        match (r, first_literal_node_spec(argument@)) {
            (Some(n), Some(s)) => node_matches(n, s),
            (None, None) => true,
            _ => false,
        },
{
    let pattern = chars_of("Commands.literal(");
    let index = match find_from(argument, pattern.as_slice(), 0) {
        Some(index) => index,
        None => return None,
    };
    let n = argument.len();
    assert(index <= n);
    match parse_node(argument, index) {
        Some((node, _)) => Some(node),
        None => None,
    }
}

/// The executable variables stand for the spec ones, entry by entry.
pub open spec fn vars_match(
    ev: Seq<(Vec<char>, CommandNode)>,
    sv: Seq<(Seq<char>, SpecCommandNode)>,
) -> bool {
    &&& ev.len() == sv.len()
    &&& forall|i: int|
        0 <= i < ev.len() ==> (#[trigger] ev[i]).0@ == sv[i].0 && node_matches(ev[i].1, sv[i].1)
}

/// The executable assignments stand for the spec ones, entry by entry.
pub open spec fn texts_match(ev: Seq<(Vec<char>, Vec<char>)>, sv: Seq<(Seq<char>, Seq<char>)>) -> bool {
    &&& ev.len() == sv.len()
    &&& forall|i: int| 0 <= i < ev.len() ==> (#[trigger] ev[i]).0@ == sv[i].0 && ev[i].1@ == sv[i].1
}

fn vars_insert_absent(vars: &mut Vec<(Vec<char>, CommandNode)>, key: Vec<char>, node: CommandNode)
    requires
        strictly_sorted(seq_views_of_keys(old(vars)@)),
    ensures
        forall|sv: Seq<(Seq<char>, SpecCommandNode)>, sn: SpecCommandNode|
            vars_match(old(vars)@, sv) && node_matches(node, sn) ==> vars_match(
                final(vars)@,
                insert_absent(sv, key@, sn),
            ),
        strictly_sorted(seq_views_of_keys(final(vars)@)),
{
    let ghost old_v = vars@;
    let (p, found) = locate(vars, key.as_slice());
    if found {
        proof {
            assert forall|sv: Seq<(Seq<char>, SpecCommandNode)>, sn: SpecCommandNode|
                vars_match(old_v, sv) && node_matches(node, sn) implies vars_match(
                vars@,
                insert_absent(sv, key@, sn),
            ) by {
                assert(sv[p as int].0 == key@);
                assert(has_key(sv, key@));
            }
        }
        return;
    }
    let ghost kv = key@;
    let ghost nv = node;
    vars.insert(p, (key, node));
    proof {
        assert(seq_views_of_keys(vars@) =~= seq_views_of_keys(old_v).insert(p as int, kv));
        assert forall|sv: Seq<(Seq<char>, SpecCommandNode)>, sn: SpecCommandNode|
            vars_match(old_v, sv) && node_matches(nv, sn) implies vars_match(
            vars@,
            insert_absent(sv, kv, sn),
        ) by {
            assert(spec_keys(sv) =~= seq_views_of_keys(old_v));
            assert(!has_key(sv, kv)) by {
                if has_key(sv, kv) {
                    let i = choose|i: int| 0 <= i < sv.len() && sv[i].0 == kv;
                    assert(old_v[i].0@ == kv);
                }
            }
            let ns = insert_absent(sv, kv, sn);
            assert(ns == sv.insert(p as int, (kv, sn)));
            assert forall|i: int| 0 <= i < vars@.len() implies (#[trigger] vars@[i]).0@ == ns[i].0
                && node_matches(vars@[i].1, ns[i].1) by {
                if i < p {
                    assert(vars@[i] == old_v[i]);
                } else if i > p {
                    assert(vars@[i] == old_v[i - 1]);
                }
            }
        }
        lemma_sorted_insert_exec(seq_views_of_keys(old_v), kv, p as int);
    }
}

/// Inserting a key at its sorted place keeps the keys strictly sorted.
pub proof fn lemma_sorted_insert_exec(keys: Seq<Seq<char>>, k: Seq<char>, p: int)
    requires
        strictly_sorted(keys),
        p == insert_pos_from(keys, k, 0),
        forall|i: int| 0 <= i < keys.len() ==> keys[i] != k,
    ensures
        strictly_sorted(keys.insert(p, k)),
{
    lemma_insert_pos(keys, k, 0);
    let s = keys.map_values(|x: Seq<char>| (x, 0int));
    assert(spec_keys(s) =~= keys);
    assert(!has_key(s, k)) by {
        if has_key(s, k) {
            let i = choose|i: int| 0 <= i < s.len() && s[i].0 == k;
            assert(keys[i] == k);
        }
    }
    lemma_insert_absent_sorted(s, k, 0int);
    assert(spec_keys(insert_absent(s, k, 0int)) =~= keys.insert(p, k));
}

fn texts_insert_absent(map: &mut Vec<(Vec<char>, Vec<char>)>, key: Vec<char>, value: Vec<char>)
    requires
        strictly_sorted(seq_views_of_keys(old(map)@)),
    ensures
        forall|sv: Seq<(Seq<char>, Seq<char>)>|
            texts_match(old(map)@, sv) ==> texts_match(final(map)@, insert_absent(sv, key@, value@)),
        strictly_sorted(seq_views_of_keys(final(map)@)),
{
    let ghost old_v = map@;
    let (p, found) = locate(map, key.as_slice());
    if found {
        proof {
            assert forall|sv: Seq<(Seq<char>, Seq<char>)>| texts_match(old_v, sv) implies texts_match(
                map@,
                insert_absent(sv, key@, value@),
            ) by {
                assert(sv[p as int].0 == key@);
                assert(has_key(sv, key@));
            }
        }
        return;
    }
    let ghost kv = key@;
    let ghost vv = value@;
    map.insert(p, (key, value));
    proof {
        assert(seq_views_of_keys(map@) =~= seq_views_of_keys(old_v).insert(p as int, kv));
        assert forall|sv: Seq<(Seq<char>, Seq<char>)>| texts_match(old_v, sv) implies texts_match(
            map@,
            insert_absent(sv, kv, vv),
        ) by {
            assert(spec_keys(sv) =~= seq_views_of_keys(old_v));
            assert(!has_key(sv, kv)) by {
                if has_key(sv, kv) {
                    let i = choose|i: int| 0 <= i < sv.len() && sv[i].0 == kv;
                    assert(old_v[i].0@ == kv);
                }
            }
            let ns = insert_absent(sv, kv, vv);
            assert(ns == sv.insert(p as int, (kv, vv)));
            assert forall|i: int| 0 <= i < map@.len() implies (#[trigger] map@[i]).0@ == ns[i].0
                && map@[i].1@ == ns[i].1 by {
                if i < p {
                    assert(map@[i] == old_v[i]);
                } else if i > p {
                    assert(map@[i] == old_v[i - 1]);
                }
            }
        }
        lemma_sorted_insert_exec(seq_views_of_keys(old_v), kv, p as int);
    }
}

/// Start of the run of ASCII letters, digits and `_` that ends at `b`.
pub open spec fn ident_back_spec(t: Seq<char>, b: int) -> int
    decreases b,
{
    if b <= 0 || b > t.len() || !(is_ascii_alphanumeric_spec(t[b - 1]) || t[b - 1] == '_') {
        b
    } else {
        ident_back_spec(t, b - 1)
    }
}

/// First position at or after `from` that holds `;` or a line break, or
/// the end.
pub open spec fn rhs_end_spec(t: Seq<char>, from: int) -> int
    decreases t.len() - from,
{
    if from < 0 || from >= t.len() || t[from] == ';' || t[from] == '\n' {
        if from < 0 {
            0
        } else if from > t.len() {
            t.len() as int
        } else {
            from
        }
    } else {
        rhs_end_spec(t, from + 1)
    }
}

/// The first pass over `x = ...` assignments: variables initialised with a
/// node, and the other assignments' right-hand sides (first one per name).
pub open spec fn assignment_scan(
    t: Seq<char>,
    search: int,
    vars: Seq<(Seq<char>, SpecCommandNode)>,
    assigns: Seq<(Seq<char>, Seq<char>)>,
) -> (Seq<(Seq<char>, SpecCommandNode)>, Seq<(Seq<char>, Seq<char>)>)
    decreases t.len() + 1 - search,
{
    if search < 0 {
        (vars, assigns)
    } else {
        match find_from_spec(t, seq!['='], search) {
            None => (vars, assigns),
            Some(equal) => {
                proof {
                    lemma_find_from(t, seq!['='], search);
                }
                let next = equal + 1;
                let b = skip_ws_back_spec(t, 0, equal);
                if matches_at(t, equal, "=="@) {
                    assignment_scan(t, next, vars, assigns)
                } else if b > 0 && (t[b - 1] == '!' || t[b - 1] == '<' || t[b - 1] == '>' || t[b
                    - 1] == '=') {
                    assignment_scan(t, next, vars, assigns)
                } else {
                    let name = t.subrange(ident_back_spec(t, b), b);
                    if name.len() == 0 {
                        assignment_scan(t, next, vars, assigns)
                    } else {
                        let rs = skip_ws_spec(t, next, t.len() as int);
                        match parse_node_spec(t.subrange(rs, t.len() as int), 0) {
                            Some((node, _)) => assignment_scan(
                                t,
                                next,
                                insert_absent(vars, name, node),
                                assigns,
                            ),
                            None => assignment_scan(
                                t,
                                next,
                                vars,
                                insert_absent(
                                    assigns,
                                    name,
                                    trim_spec(t, next, rhs_end_spec(t, next)),
                                ),
                            ),
                        }
                    }
                }
            },
        }
    }
}

/// Among the variables, in order, the first whose name occurs earliest in
/// `rhs` as a whole identifier: that position and its node.
pub open spec fn best_var(vars: Seq<(Seq<char>, SpecCommandNode)>, rhs: Seq<char>) -> Option<
    (int, SpecCommandNode),
>
    decreases vars.len(),
{
    if vars.len() == 0 {
        None
    } else {
        let prev = best_var(vars.drop_last(), rhs);
        match identifier_position_spec(rhs, vars.last().0, 0) {
            None => prev,
            Some(pos) => match prev {
                Some((bp, bn)) => if bp <= pos {
                    prev
                } else {
                    Some((pos, vars.last().1))
                },
                None => Some((pos, vars.last().1)),
            },
        }
    }
}

/// One pass over the assignments, in name order, from `i`: a name that is no
/// variable yet takes over the node of the variable its right-hand side
/// refers to first.
pub open spec fn closure_pass(
    assigns: Seq<(Seq<char>, Seq<char>)>,
    i: int,
    vars: Seq<(Seq<char>, SpecCommandNode)>,
    progressed: bool,
) -> (Seq<(Seq<char>, SpecCommandNode)>, bool)
    decreases assigns.len() - i,
{
    if i < 0 || i >= assigns.len() {
        (vars, progressed)
    } else if has_key(vars, assigns[i].0) {
        closure_pass(assigns, i + 1, vars, progressed)
    } else {
        match best_var(vars, assigns[i].1) {
            Some((_, node)) => closure_pass(
                assigns,
                i + 1,
                insert_absent(vars, assigns[i].0, node),
                true,
            ),
            None => closure_pass(assigns, i + 1, vars, progressed),
        }
    }
}

/// How many of the first `n` assignment names are no variable yet.
pub open spec fn count_missing(
    assigns: Seq<(Seq<char>, Seq<char>)>,
    vars: Seq<(Seq<char>, SpecCommandNode)>,
    n: int,
) -> nat
    decreases n,
{
    if n <= 0 || n > assigns.len() {
        0
    } else {
        count_missing(assigns, vars, n - 1) + if has_key(vars, assigns[n - 1].0) {
            0nat
        } else {
            1nat
        }
    }
}

pub proof fn lemma_count_missing(
    assigns: Seq<(Seq<char>, Seq<char>)>,
    v1: Seq<(Seq<char>, SpecCommandNode)>,
    v2: Seq<(Seq<char>, SpecCommandNode)>,
    n: int,
)
    requires
        0 <= n <= assigns.len(),
        forall|k: Seq<char>| has_key(v1, k) ==> has_key(v2, k),
    ensures
        count_missing(assigns, v2, n) <= count_missing(assigns, v1, n),
        (exists|j: int|
            0 <= j < n && !has_key(v1, assigns[j].0) && has_key(v2, assigns[j].0))
            ==> count_missing(assigns, v2, n) < count_missing(assigns, v1, n),
    decreases n,
{
    if n > 0 {
        lemma_count_missing(assigns, v1, v2, n - 1);
        if exists|j: int| 0 <= j < n && !has_key(v1, assigns[j].0) && has_key(v2, assigns[j].0) {
            let j = choose|j: int|
                0 <= j < n && !has_key(v1, assigns[j].0) && has_key(v2, assigns[j].0);
            if j < n - 1 {
            }
        }
    }
}

pub proof fn lemma_closure_pass(
    assigns: Seq<(Seq<char>, Seq<char>)>,
    i: int,
    vars: Seq<(Seq<char>, SpecCommandNode)>,
    progressed: bool,
)
    requires
        0 <= i <= assigns.len(),
        strictly_sorted(spec_keys(vars)),
    ensures
        ({
            let (v2, p2) = closure_pass(assigns, i, vars, progressed);
            &&& strictly_sorted(spec_keys(v2))
            &&& forall|k: Seq<char>| has_key(vars, k) ==> has_key(v2, k)
            &&& p2 ==> progressed || exists|j: int|
                i <= j < assigns.len() && !has_key(vars, assigns[j].0) && has_key(
                    v2,
                    assigns[j].0,
                )
        }),
    decreases assigns.len() - i,
{
    if i < assigns.len() && !has_key(vars, assigns[i].0) {
        if let Some((_, node)) = best_var(vars, assigns[i].1) {
            let nv = insert_absent(vars, assigns[i].0, node);
            lemma_insert_absent_sorted(vars, assigns[i].0, node);
            lemma_closure_pass(assigns, i + 1, nv, true);
        } else {
            lemma_closure_pass(assigns, i + 1, vars, progressed);
        }
    } else if i < assigns.len() {
        lemma_closure_pass(assigns, i + 1, vars, progressed);
    }
}

/// Passes repeat until one adds nothing.
pub open spec fn closure_spec(
    assigns: Seq<(Seq<char>, Seq<char>)>,
    vars: Seq<(Seq<char>, SpecCommandNode)>,
) -> Seq<(Seq<char>, SpecCommandNode)>
    decreases count_missing(assigns, vars, assigns.len() as int),
{
    let (v2, p) = closure_pass(assigns, 0, vars, false);
    if !p || !strictly_sorted(spec_keys(vars)) {
        v2
    } else {
        proof {
            lemma_closure_pass(assigns, 0, vars, false);
            lemma_count_missing(assigns, vars, v2, assigns.len() as int);
        }
        closure_spec(assigns, v2)
    }
}

/// The variables that hold command nodes: those initialised with a node,
/// then, transitively, those assigned from such a variable.
pub open spec fn variable_literals_spec(t: Seq<char>) -> Seq<(Seq<char>, SpecCommandNode)> {
    let (vars, assigns) = assignment_scan(t, 0, seq![], seq![]);
    closure_spec(assigns, vars)
}

fn ident_back(t: &[char], b: usize) -> (r: usize)
    requires
        b <= t@.len(),
    ensures
        r == ident_back_spec(t@, b as int),
        r <= b,
{
    let mut k = b;
    while k > 0 && (is_ascii_alphanumeric(t[k - 1]) || t[k - 1] == '_')
        invariant
            k <= b <= t@.len(),
            ident_back_spec(t@, k as int) == ident_back_spec(t@, b as int),
        decreases k,
    {
        k -= 1;
    }
    k
}

fn rhs_end(t: &[char], from: usize) -> (r: usize)
    requires
        from <= t@.len(),
    ensures
        r == rhs_end_spec(t@, from as int),
        from <= r <= t@.len(),
{
    let mut k = from;
    while k < t.len() && t[k] != ';' && t[k] != '\n'
        invariant
            from <= k <= t@.len(),
            rhs_end_spec(t@, k as int) == rhs_end_spec(t@, from as int),
        decreases t.len() - k,
    {
        k += 1;
    }
    k
}

/// The index of the variable that `best_var` picks.
fn best_var_index(vars: &Vec<(Vec<char>, CommandNode)>, rhs: &[char]) -> (r: Option<usize>)
    ensures
        r matches Some(i) ==> i < vars@.len(),
        forall|sv: Seq<(Seq<char>, SpecCommandNode)>| #[trigger]
            vars_match(vars@, sv) ==> match (r, best_var(sv, rhs@)) {
                (Some(i), Some((_, n))) => i < sv.len() && sv[i as int].1 == n,
                (None, None) => true,
                _ => false,
            },
{
    let mut best: Option<(usize, usize)> = None;
    let mut i: usize = 0;
    while i < vars.len()
        invariant
            i <= vars@.len(),
            best matches Some((_, bi)) ==> bi < i,
            forall|sv: Seq<(Seq<char>, SpecCommandNode)>| #[trigger]
                vars_match(vars@, sv) ==> match (best, best_var(sv.take(i as int), rhs@)) {
                    (Some((bp, bi)), Some((p, n))) => bp == p && bi < i && sv[bi as int].1 == n,
                    (None, None) => true,
                    _ => false,
                },
        decreases vars.len() - i,
    {
        let key = &vars[i].0;
        let found = if key.len() == 0 {
            None
        } else {
            identifier_position(rhs, key.as_slice())
        };
        proof {
            assert forall|sv: Seq<(Seq<char>, SpecCommandNode)>| #[trigger]
                vars_match(vars@, sv) implies sv.take(i + 1).drop_last() == sv.take(i as int)
                && sv.take(i + 1).last() == sv[i as int] && sv[i as int].0 == vars@[i as int].0@ by {
                assert(sv.take(i + 1).drop_last() =~= sv.take(i as int));
                assert(vars_match(vars@, sv));
                assert(vars@[i as int].0@ == sv[i as int].0);
            }
        }
        match found {
            None => {},
            Some(pos) => match best {
                Some((bp, _)) => {
                    if pos < bp {
                        best = Some((pos, i));
                    }
                },
                None => {
                    best = Some((pos, i));
                },
            },
        }
        i += 1;
    }
    proof {
        assert forall|sv: Seq<(Seq<char>, SpecCommandNode)>| #[trigger]
            vars_match(vars@, sv) implies sv.take(i as int) == sv by {
            assert(sv.take(i as int) =~= sv);
        }
    }
    match best {
        Some((_, bi)) => Some(bi),
        None => None,
    }
}

/// Variables that hold command nodes: `x = Commands.literal("…")…`, and,
/// transitively, variables assigned from such a variable
/// (`b = (LiteralArgumentBuilder) a.then(...)` takes `a`'s node).
pub fn variable_literals(text: &[char]) -> (r: Vec<(Vec<char>, CommandNode)>)
    ensures
        vars_match(r@, variable_literals_spec(text@)),
        strictly_sorted(seq_views_of_keys(r@)),
{
    let mut vars: Vec<(Vec<char>, CommandNode)> = Vec::new();
    let mut assigns: Vec<(Vec<char>, Vec<char>)> = Vec::new();
    let ghost mut sv: Seq<(Seq<char>, SpecCommandNode)> = seq![];
    let ghost mut sa: Seq<(Seq<char>, Seq<char>)> = seq![];
    let mut search: usize = 0;
    let equal_sign = vec!['='];
    assert(equal_sign@ =~= seq!['=']);
    loop
        invariant
            search <= text@.len() + 1,
            equal_sign@ == seq!['='],
            vars_match(vars@, sv),
            texts_match(assigns@, sa),
            strictly_sorted(seq_views_of_keys(vars@)),
            strictly_sorted(seq_views_of_keys(assigns@)),
            strictly_sorted(spec_keys(sv)),
            strictly_sorted(spec_keys(sa)),
            assignment_scan(text@, 0, seq![], seq![]) == assignment_scan(
                text@,
                search as int,
                sv,
                sa,
            ),
        ensures
            assignment_scan(text@, 0, seq![], seq![]) == (sv, sa),
        decreases text@.len() + 1 - search,
    {
        if search > text.len() {
            break;
        }
        let equal = match find_from(text, equal_sign.as_slice(), search) {
            Some(equal) => equal,
            None => break,
        };
        let n = text.len();
        assert(equal < n);
        let next = equal + 1;
        search = next;
        let b = crate::chars::skip_ws_back(text, 0, equal);
        if starts_with_str(text, equal, "==") {
            continue;
        }
        if b > 0 && (text[b - 1] == '!' || text[b - 1] == '<' || text[b - 1] == '>' || text[b - 1]
            == '=') {
            continue;
        }
        let start = ident_back(text, b);
        let name = slice_vec(text, start, b);
        if name.len() == 0 {
            continue;
        }
        let rs = skip_ws(text, next, text.len());
        let rest = slice_vec(text, rs, text.len());
        match parse_node(rest.as_slice(), 0) {
            Some((node, _)) => {
                let ghost sn = (parse_node_spec(rest@, 0)->0).0;
                proof {
                    lemma_insert_absent_sorted(sv, name@, sn);
                }
                vars_insert_absent(&mut vars, name, node);
                proof {
                    sv = insert_absent(sv, name@, sn);
                }
            },
            None => {
                let e = rhs_end(text, next);
                let rhs = trimmed(text, next, e);
                proof {
                    lemma_insert_absent_sorted(sa, name@, rhs@);
                }
                texts_insert_absent(&mut assigns, name, rhs);
                proof {
                    sa = insert_absent(sa, name@, rhs@);
                }
            },
        }
    }
    assert(assignment_scan(text@, 0, seq![], seq![]) == (sv, sa));
    let ghost sv0 = sv;
    loop
        invariant
            vars_match(vars@, sv),
            texts_match(assigns@, sa),
            strictly_sorted(seq_views_of_keys(vars@)),
            strictly_sorted(seq_views_of_keys(assigns@)),
            strictly_sorted(spec_keys(sv)),
            closure_spec(sa, sv0) == closure_spec(sa, sv),
            variable_literals_spec(text@) == closure_spec(sa, sv0),
        decreases count_missing(sa, sv, sa.len() as int),
    {
        let ghost pass_start = sv;
        let mut progressed = false;
        let mut i: usize = 0;
        while i < assigns.len()
            invariant
                i <= assigns@.len(),
                vars_match(vars@, sv),
                texts_match(assigns@, sa),
                strictly_sorted(seq_views_of_keys(vars@)),
                strictly_sorted(spec_keys(sv)),
                strictly_sorted(spec_keys(pass_start)),
                closure_pass(sa, 0, pass_start, false) == closure_pass(sa, i as int, sv, progressed),
            decreases assigns.len() - i,
        {
            let (_, found) = locate(&vars, assigns[i].0.as_slice());
            proof {
                assert(assigns@[i as int].0@ == sa[i as int].0);
                assert(found == has_key(sv, sa[i as int].0)) by {
                    if found {
                        let j = choose|j: int|
                            0 <= j < vars@.len() && vars@[j].0@ == assigns@[i as int].0@;
                        assert(sv[j].0 == sa[i as int].0);
                    }
                    if has_key(sv, sa[i as int].0) {
                        let j = choose|j: int| 0 <= j < sv.len() && sv[j].0 == sa[i as int].0;
                        assert(vars@[j].0@ == sv[j].0);
                    }
                }
            }
            if !found {
                match best_var_index(&vars, assigns[i].1.as_slice()) {
                    Some(b) => {
                        let node = clone_node(&vars[b].1);
                        let name = slice_vec(assigns[i].0.as_slice(), 0, assigns[i].0.len());
                        assert(name@ =~= sa[i as int].0);
                        let ghost sn = (best_var(sv, sa[i as int].1)->0).1;
                        proof {
                            assert(node_matches(vars@[b as int].1, sv[b as int].1));
                            lemma_insert_absent_sorted(sv, name@, sn);
                        }
                        vars_insert_absent(&mut vars, name, node);
                        proof {
                            sv = insert_absent(sv, sa[i as int].0, sn);
                        }
                        progressed = true;
                    },
                    None => {},
                }
            }
            i += 1;
        }
        proof {
            lemma_closure_pass(sa, 0, pass_start, false);
        }
        if !progressed {
            return vars;
        }
        proof {
            lemma_count_missing(sa, pass_start, sv, sa.len() as int);
        }
    }
}

/// Some child already has this name.
pub open spec fn has_child_named(children: Seq<SpecCommandNode>, name: Seq<char>) -> bool {
    exists|i: int| 0 <= i < children.len() && children[i].name == name
}

/// Adds, as direct children, the `Commands.literal(...)` nodes found from
/// `search` on whose names are new.
pub open spec fn literal_children_spec(arg: Seq<char>, search: int, node: SpecCommandNode) -> SpecCommandNode
    decreases arg.len() + 1 - search,
{
    if search < 0 {
        node
    } else {
        match find_from_spec(arg, "Commands.literal("@, search) {
            None => node,
            Some(start) => {
                proof {
                    lemma_find_from(arg, "Commands.literal("@, search);
                }
                let next_node = match parse_node_spec(arg, start) {
                    Some((child, _)) => if has_child_named(node.children, child.name) {
                        node
                    } else {
                        SpecCommandNode { children: node.children.push(child), ..node }
                    },
                    None => node,
                };
                literal_children_spec(arg, start + 1, next_node)
            },
        }
    }
}

/// A registration through a variable (`dispatcher.register(variable)`, or a
/// helper around it): the node of the variable named earliest in the
/// expression, with the level, flags and literal children the expression
/// adds.
pub open spec fn fallback_spec(arg: Seq<char>, vars: Seq<(Seq<char>, SpecCommandNode)>) -> Option<
    SpecCommandNode,
> {
    match best_var(vars, arg) {
        None => None,
        Some((_, node)) => {
            let with_flags = SpecCommandNode {
                level: match permission_level_spec(arg) {
                    Some(l) => Some(l),
                    None => node.level,
                },
                executable: if contains_spec(arg, ".executes("@) {
                    true
                } else {
                    node.executable
                },
                redirect: if contains_spec(arg, ".redirect("@) {
                    true
                } else {
                    node.redirect
                },
                ..node
            };
            Some(literal_children_spec(arg, 0, with_flags))
        },
    }
}

fn has_child_named_exec(children: &Vec<CommandNode>, name: &String) -> (r: bool)
    ensures
        forall|s: Seq<SpecCommandNode>|
            children_match(children@, s) ==> r == has_child_named(s, name@),
{
    let mut i: usize = 0;
    while i < children.len()
        invariant
            i <= children@.len(),
            forall|j: int| 0 <= j < i ==> children@[j].name@ != name@,
        decreases children.len() - i,
    {
        if children[i].name == *name {
            proof {
                assert forall|s: Seq<SpecCommandNode>| children_match(children@, s) implies has_child_named(
                    s,
                    name@,
                ) by {
                    lemma_children_match_index(children@, s, i as int);
                }
            }
            return true;
        }
        i += 1;
    }
    proof {
        assert forall|s: Seq<SpecCommandNode>| children_match(children@, s) implies !has_child_named(
            s,
            name@,
        ) by {
            if has_child_named(s, name@) {
                let j = choose|j: int| 0 <= j < s.len() && s[j].name == name@;
                lemma_children_match_index(children@, s, j);
            }
        }
    }
    false
}

/// The fallback for registrations through variables.
pub fn fallback_node(argument: &[char], variables: &Vec<(Vec<char>, CommandNode)>) -> (r: Option<
    CommandNode,
>)
    ensures
        forall|sv: Seq<(Seq<char>, SpecCommandNode)>| #[trigger]
            vars_match(variables@, sv) ==> match (r, fallback_spec(argument@, sv)) {
                (Some(n), Some(s)) => node_matches(n, s),
                (None, None) => true,
                _ => false,
            },
{
    let b = match best_var_index(variables, argument) {
        Some(b) => b,
        None => return None,
    };
    let mut node = clone_node(&variables[b].1);
    let ghost base = node;
    node.level = match permission_level(argument) {
        Some(l) => Some(l),
        None => node.level,
    };
    if contains_str(argument, ".executes(") {
        node.executable = true;
    }
    if contains_str(argument, ".redirect(") {
        node.redirect = true;
    }
    let ghost flagged = node;
    let pattern = chars_of("Commands.literal(");
    let mut search: usize = 0;
    let ghost mut steps: Seq<usize> = seq![];
    loop
        invariant
            search <= argument@.len() + 1,
            pattern@ == "Commands.literal("@,
            node.name == flagged.name,
            node.argument == flagged.argument,
            node.level == flagged.level,
            node.executable == flagged.executable,
            node.redirect == flagged.redirect,
            forall|sv: Seq<(Seq<char>, SpecCommandNode)>, sf: SpecCommandNode|
                #![trigger vars_match(variables@, sv), node_matches(flagged, sf)]
                vars_match(variables@, sv) && node_matches(flagged, sf) ==> exists|sc: SpecCommandNode|
                    node_matches(node, sc) && literal_children_spec(argument@, 0, sf)
                        == literal_children_spec(argument@, search as int, sc),
        ensures
            forall|sv: Seq<(Seq<char>, SpecCommandNode)>, sf: SpecCommandNode|
                #![trigger vars_match(variables@, sv), node_matches(flagged, sf)]
                vars_match(variables@, sv) && node_matches(flagged, sf) ==> exists|sc: SpecCommandNode|
                    node_matches(node, sc) && literal_children_spec(argument@, 0, sf) == sc,
        decreases argument@.len() + 1 - search,
    {
        proof {
            reveal_strlit("Commands.literal(");
        }
        if search > argument.len() {
            break;
        }
        let start = match find_from(argument, pattern.as_slice(), search) {
            Some(start) => start,
            None => break,
        };
        let n = argument.len();
        assert(start <= n);
        match parse_node(argument, start) {
            Some((child, _)) => {
                if !has_child_named_exec(&node.children, &child.name) {
                    let ghost old_node = node;
                    let ghost cv = child;
                    node.children.push(child);
                    proof {
                        assert forall|sv: Seq<(Seq<char>, SpecCommandNode)>, sf: SpecCommandNode|
                            #![trigger vars_match(variables@, sv), node_matches(flagged, sf)]
                            vars_match(variables@, sv) && node_matches(flagged, sf) implies exists|
                            sc: SpecCommandNode,
                        |
                            node_matches(node, sc) && literal_children_spec(argument@, 0, sf)
                                == literal_children_spec(argument@, start + 1, sc) by {
                            let sc0 = choose|sc: SpecCommandNode|
                                node_matches(old_node, sc) && literal_children_spec(argument@, 0, sf)
                                    == literal_children_spec(argument@, search as int, sc);
                            let schild = (parse_node_spec(argument@, start as int)->0).0;
                            assert(children_match(old_node.children@, sc0.children));
                            assert(!has_child_named(sc0.children, schild.name));
                            lemma_push_child(old_node, sc0, node, cv, schild);
                            let sc1 = SpecCommandNode { children: sc0.children.push(schild), ..sc0 };
                            assert(node_matches(node, sc1));
                        }
                    }
                } else {
                    proof {
                        assert forall|sv: Seq<(Seq<char>, SpecCommandNode)>, sf: SpecCommandNode|
                            #![trigger vars_match(variables@, sv), node_matches(flagged, sf)]
                            vars_match(variables@, sv) && node_matches(flagged, sf) implies exists|
                            sc: SpecCommandNode,
                        |
                            node_matches(node, sc) && literal_children_spec(argument@, 0, sf)
                                == literal_children_spec(argument@, start + 1, sc) by {
                            let sc0 = choose|sc: SpecCommandNode|
                                node_matches(node, sc) && literal_children_spec(argument@, 0, sf)
                                    == literal_children_spec(argument@, search as int, sc);
                            assert(children_match(node.children@, sc0.children));
                        }
                    }
                }
            },
            None => {},
        }
        search = start + 1;
    }
    proof {
        assert forall|sv: Seq<(Seq<char>, SpecCommandNode)>| #[trigger]
            vars_match(variables@, sv) implies match (Some(node), fallback_spec(argument@, sv)) {
            (Some(n), Some(s)) => node_matches(n, s),
            (None, None) => true,
            _ => false,
        } by {
            let bn = (best_var(sv, argument@)->0).1;
            assert(node_matches(variables@[b as int].1, sv[b as int].1));
            assert(node_matches(base, bn));
            let sf = SpecCommandNode {
                level: match permission_level_spec(argument@) {
                    Some(l) => Some(l),
                    None => bn.level,
                },
                executable: if contains_spec(argument@, ".executes("@) {
                    true
                } else {
                    bn.executable
                },
                redirect: if contains_spec(argument@, ".redirect("@) {
                    true
                } else {
                    bn.redirect
                },
                ..bn
            };
            assert(children_match(base.children@, bn.children));
            assert(node_matches(flagged, sf));
            assert(vars_match(variables@, sv) && node_matches(flagged, sf));
        }
    }
    Some(node)
}

/// A character of a receiver expression before `.register(`.
pub open spec fn receiver_char_spec(c: char) -> bool {
    is_ascii_alphanumeric_spec(c) || c == '_' || c == '.'
}

/// Start of the receiver expression that ends at `dot`.
pub open spec fn receiver_start_spec(t: Seq<char>, dot: int) -> int
    decreases dot,
{
    if dot <= 0 || dot > t.len() {
        0
    } else if receiver_char_spec(t[dot - 1]) {
        receiver_start_spec(t, dot - 1)
    } else {
        dot
    }
}

/// The receiver, lowercased in ASCII, ends with `dispatcher`.
pub open spec fn is_dispatcher_spec(receiver: Seq<char>) -> bool {
    receiver.len() >= 10 && receiver.subrange(receiver.len() - 10, receiver.len() as int).map_values(
        |c: char| to_ascii_lowercase_spec(c),
    ) == "dispatcher"@
}

/// The root node that one registration expression yields: its builder
/// chain, else the variable it names, else its first literal.
pub open spec fn register_root_spec(inner: Seq<char>, vars: Seq<(Seq<char>, SpecCommandNode)>) -> Option<
    SpecCommandNode,
> {
    match parse_node_spec(inner, 0) {
        Some((node, _)) => Some(node),
        None => match fallback_spec(inner, vars) {
            Some(node) => Some(node),
            None => first_literal_node_spec(inner),
        },
    }
}

fn register_root(inner: &[char], variables: &Vec<(Vec<char>, CommandNode)>) -> (r: Option<
    CommandNode,
>)
    ensures
        forall|sv: Seq<(Seq<char>, SpecCommandNode)>| #[trigger]
            vars_match(variables@, sv) ==> match (r, register_root_spec(inner@, sv)) {
                (Some(n), Some(s)) => node_matches(n, s),
                (None, None) => true,
                _ => false,
            },
{
    match parse_node(inner, 0) {
        Some((node, _)) => Some(node),
        None => match fallback_node(inner, variables) {
            Some(node) => Some(node),
            None => first_literal_node(inner),
        },
    }
}

/// The root nodes of every `dispatcher.register(...)` from `search` on.
pub open spec fn register_scan(
    t: Seq<char>,
    search: int,
    vars: Seq<(Seq<char>, SpecCommandNode)>,
) -> Seq<SpecCommandNode>
    decreases t.len() + 1 - search,
{
    if search < 0 {
        seq![]
    } else {
        match find_from_spec(t, ".register("@, search) {
            None => seq![],
            Some(dot) => {
                proof {
                    lemma_find_from(t, ".register("@, search);
                }
                let rest = register_scan(t, dot + 1, vars);
                if !is_dispatcher_spec(t.subrange(receiver_start_spec(t, dot), dot)) {
                    rest
                } else {
                    match paren_range_spec(t, dot + 9) {
                        None => rest,
                        Some((inner, _)) => match register_root_spec(inner, vars) {
                            Some(node) => seq![node] + rest,
                            None => rest,
                        },
                    }
                }
            },
        }
    }
}

/// The root command nodes that a Java file registers.
pub open spec fn parse_command_file_spec(t: Seq<char>) -> Seq<SpecCommandNode> {
    register_scan(t, 0, variable_literals_spec(t))
}

fn receiver_start(t: &[char], dot: usize) -> (r: usize)
    requires
        dot <= t@.len(),
    ensures
        r == receiver_start_spec(t@, dot as int),
        r <= dot,
{
    let mut k = dot;
    while k > 0 && (is_ascii_alphanumeric(t[k - 1]) || t[k - 1] == '_' || t[k - 1] == '.')
        invariant
            k <= dot <= t@.len(),
            receiver_start_spec(t@, k as int) == receiver_start_spec(t@, dot as int),
        decreases k,
    {
        k -= 1;
    }
    if k == 0 {
        0
    } else {
        k
    }
}

fn is_dispatcher(t: &[char], from: usize, to: usize) -> (r: bool)
    requires
        from <= to <= t@.len(),
    ensures
        r == is_dispatcher_spec(t@.subrange(from as int, to as int)),
{
    let word = chars_of("dispatcher");
    if to - from < word.len() {
        proof {
            reveal_strlit("dispatcher");
        }
        return false;
    }
    let base = to - word.len();
    let ghost recv = t@.subrange(from as int, to as int);
    proof {
        reveal_strlit("dispatcher");
    }
    let mut i: usize = 0;
    while i < word.len()
        invariant
            word@ == "dispatcher"@,
            word@.len() == 10,
            base + 10 == to,
            from <= base,
            to <= t@.len(),
            i <= 10,
            recv == t@.subrange(from as int, to as int),
            forall|j: int| 0 <= j < i ==> to_ascii_lowercase_spec(t@[base + j]) == word@[j],
        decreases word.len() - i,
    {
        if crate::chars::to_ascii_lowercase(t[base + i]) != word[i] {
            proof {
                assert(recv[recv.len() - 10 + i] == t@[base + i]);
                let low = recv.subrange(recv.len() - 10, recv.len() as int).map_values(
                    |c: char| to_ascii_lowercase_spec(c),
                );
                assert(low[i as int] != word@[i as int]);
            }
            return false;
        }
        i += 1;
    }
    proof {
        let low = recv.subrange(recv.len() - 10, recv.len() as int).map_values(
            |c: char| to_ascii_lowercase_spec(c),
        );
        assert forall|j: int| 0 <= j < 10 implies low[j] == word@[j] by {
            assert(recv[recv.len() - 10 + j] == t@[base + j]);
        }
        assert(low =~= word@);
    }
    true
}

/// Every `dispatcher.register(...)` in a Java file: its root command node.
/// A registration that is no builder chain falls back on the variables the
/// file assigns, then on the first `Commands.literal(...)` inside it.
#[verifier::rlimit(40)]
pub fn parse_command_file(text: &str) -> (r: Vec<CommandNode>)
    ensures
        children_match(r@, parse_command_file_spec(text@)),
{
    let t = chars_of(text);
    let variables = variable_literals(t.as_slice());
    let ghost sv = variable_literals_spec(t@);
    let pattern = chars_of(".register(");
    proof {
        reveal_strlit(".register(");
    }
    let mut roots: Vec<CommandNode> = Vec::new();
    let ghost mut done: Seq<SpecCommandNode> = seq![];
    let mut search: usize = 0;
    assert(seq![] + register_scan(t@, 0, sv) =~= register_scan(t@, 0, sv));
    loop
        invariant
            search <= t@.len() + 1,
            pattern@ == ".register("@,
            pattern@.len() == 10,
            vars_match(variables@, sv),
            children_match(roots@, done),
            register_scan(t@, 0, sv) == done + register_scan(t@, search as int, sv),
            parse_command_file_spec(text@) == register_scan(t@, 0, sv),
        decreases t@.len() + 1 - search,
    {
        if search > t.len() {
            assert(done + seq![] =~= done);
            return roots;
        }
        let dot = match find_from(t.as_slice(), pattern.as_slice(), search) {
            Some(dot) => dot,
            None => {
                assert(done + seq![] =~= done);
                return roots;
            },
        };
        let n = t.len();
        assert(dot + 10 <= n);
        search = dot + 1;
        let start = receiver_start(t.as_slice(), dot);
        if !is_dispatcher(t.as_slice(), start, dot) {
            continue;
        }
        proof {
            lemma_paren_range(t@, dot + 9);
        }
        let inner = match paren_range(t.as_slice(), dot + 9) {
            Some((inner, _)) => inner,
            None => continue,
        };
        let found = register_root(inner.as_slice(), &variables);
        match found {
            Some(node) => {
                let ghost sn = register_root_spec(inner@, sv)->0;
                let ghost old_roots = roots@;
                let ghost nv = node;
                roots.push(node);
                proof {
                    assert(node_matches(nv, sn));
                    assert(roots@.drop_last() =~= old_roots);
                    assert(done.push(sn).drop_last() =~= done);
                    assert(children_match(roots@, done.push(sn)));
                    assert(done + (seq![sn] + register_scan(t@, search as int, sv)) =~= done.push(sn)
                        + register_scan(t@, search as int, sv));
                    done = done.push(sn);
                }
            },
            None => {},
        }
    }
}

} // verus!
