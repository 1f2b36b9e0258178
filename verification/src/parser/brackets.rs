//! Bracket matching over a token stream: each `(` paired with the `)` that
//! closes it, for the parser's look-ahead past parenthesised groups.

use vstd::prelude::*;

verus! {

/// What bracket matching reads of a token: whether it opens or closes a
/// parenthesis, or neither.
#[derive(Clone, Copy, PartialEq, Eq, Structural, Debug)]
pub enum Bracket {
    Open,
    Close,
    Other,
}

/// The pairing after the first `n` tokens: each token's partner so far,
/// and the positions of the `(` still open, innermost last. A `)` with no
/// open `(` stays unpaired.
pub open spec fn paren_scan(kinds: Seq<Bracket>, n: int) -> (Seq<Option<int>>, Seq<int>)
    decreases n,
{
    if n <= 0 {
        (Seq::new(kinds.len(), |i: int| None::<int>), seq![])
    } else {
        let (m, stack) = paren_scan(kinds, n - 1);
        match kinds[n - 1] {
            Bracket::Open => (m, stack.push(n - 1)),
            Bracket::Close => if stack.len() > 0 {
                let o = stack.last();
                (m.update(o, Some(n - 1)).update(n - 1, Some(o)), stack.drop_last())
            } else {
                (m, stack)
            },
            Bracket::Other => (m, stack),
        }
    }
}

/// The partner of each token: `Some` for a matched parenthesis, `None`
/// otherwise.
pub open spec fn partners(kinds: Seq<Bracket>) -> Seq<Option<int>> {
    paren_scan(kinds, kinds.len() as int).0
}

pub open spec fn opt_int(o: Option<usize>) -> Option<int> {
    match o {
        Some(i) => Some(i as int),
        None => None,
    }
}

/// Pairs every `(` with the `)` that closes it.
pub fn matching_parens(kinds: &[Bracket]) -> (r: Vec<Option<usize>>)
    ensures
        r@.map_values(|o: Option<usize>| opt_int(o)) == partners(kinds@),
{
    let mut matches: Vec<Option<usize>> = Vec::new();
    let mut k: usize = 0;
    while k < kinds.len()
        invariant
            k <= kinds@.len(),
            matches@.len() == k,
            forall|j: int| 0 <= j < k ==> matches@[j] is None,
        decreases kinds.len() - k,
    {
        matches.push(None);
        k += 1;
    }
    let mut stack: Vec<usize> = Vec::new();
    let mut index: usize = 0;
    proof {
        assert(matches@.map_values(|o: Option<usize>| opt_int(o)) =~= paren_scan(kinds@, 0).0);
    }
    while index < kinds.len()
        invariant
            index <= kinds@.len(),
            matches@.len() == kinds@.len(),
            matches@.map_values(|o: Option<usize>| opt_int(o)) == paren_scan(kinds@, index as int).0,
            stack@.map_values(|s: usize| s as int) == paren_scan(kinds@, index as int).1,
        decreases kinds.len() - index,
    {
        let ghost before = paren_scan(kinds@, index as int);
        proof {
            lemma_scan_bounds(kinds@, index as int);
        }
        match kinds[index] {
            Bracket::Open => {
                stack.push(index);
                assert(stack@.map_values(|s: usize| s as int) =~= before.1.push(index as int));
            },
            Bracket::Close => {
                if stack.len() > 0 {
                    let open = stack.pop().unwrap();
                    assert(before.1.last() == open as int);
                    matches.set(open, Some(index));
                    matches.set(index, Some(open));
                    assert(stack@.map_values(|s: usize| s as int) =~= before.1.drop_last());
                    assert(matches@.map_values(|o: Option<usize>| opt_int(o)) =~= before.0.update(
                        open as int,
                        Some(index as int),
                    ).update(index as int, Some(open as int)));
                }
            },
            Bracket::Other => {},
        }
        index += 1;
    }
    matches
}

/// The open positions lie before `n`, and the pairing keeps the length of
/// the token stream.
proof fn lemma_scan_bounds(kinds: Seq<Bracket>, n: int)
    requires
        0 <= n <= kinds.len(),
    ensures
        paren_scan(kinds, n).0.len() == kinds.len(),
        forall|k: int| 0 <= k < paren_scan(kinds, n).1.len() ==> 0 <= #[trigger] paren_scan(kinds, n).1[k] < n,
    decreases n,
{
    if n > 0 {
        lemma_scan_bounds(kinds, n - 1);
    }
}

/// Every partner points back, and pairs a `(` with a later `)`.
pub open spec fn well_paired(kinds: Seq<Bracket>, m: Seq<Option<int>>) -> bool {
    forall|i: int|
        0 <= i < m.len() && (#[trigger] m[i]) is Some ==> {
            let j = m[i]->0;
            &&& 0 <= j < m.len()
            &&& m[j] == Some(i)
            &&& i != j
            &&& (kinds[i] == Bracket::Open && i < j && kinds[j] == Bracket::Close) || (kinds[i] == Bracket::Close
                && j < i && kinds[j] == Bracket::Open)
        }
}

/// Pairs nest: a pair that starts inside another also ends inside it.
pub open spec fn nested(m: Seq<Option<int>>) -> bool {
    forall|a: int, c: int|
        #![trigger m[a], m[c]]
        0 <= a < c < m.len() && m[a] is Some && c < m[a]->0 && m[c] is Some ==> a < m[c]->0 < m[a]->0
}

/// What holds of the pairing after the first `n` tokens.
spec fn scan_inv(kinds: Seq<Bracket>, n: int) -> bool {
    let (m, st) = paren_scan(kinds, n);
    &&& m.len() == kinds.len()
    &&& well_paired(kinds, m)
    &&& forall|i: int| 0 <= i < m.len() && (#[trigger] m[i]) is Some ==> i < n && m[i]->0 < n
    &&& nested(m)
    &&& forall|x: int, y: int| 0 <= x < y < st.len() ==> st[x] < st[y]
    &&& forall|x: int|
        0 <= x < st.len() ==> 0 <= #[trigger] st[x] < n && kinds[st[x]] == Bracket::Open && m[st[x]] is None
    &&& forall|a: int, x: int|
        #![trigger m[a], st[x]]
        0 <= a < m.len() && 0 <= x < st.len() && m[a] is Some && a < m[a]->0 ==> !(a < st[x] < m[a]->0)
    &&& forall|c: int, x: int|
        #![trigger kinds[c], st[x]]
        0 <= c < n && 0 <= x < st.len() && kinds[c] == Bracket::Close && m[c] is None ==> c < st[x]
    &&& forall|i: int|
        0 <= i < n && #[trigger] kinds[i] == Bracket::Open && m[i] is None ==> exists|x: int|
            0 <= x < st.len() && st[x] == i
}

proof fn lemma_scan_inv(kinds: Seq<Bracket>, n: int)
    requires
        0 <= n <= kinds.len(),
    ensures
        scan_inv(kinds, n),
    decreases n,
{
    if n == 0 {
        let (m, st) = paren_scan(kinds, 0);
        assert(m.len() == kinds.len());
    } else {
        lemma_scan_inv(kinds, n - 1);
        let (m, st) = paren_scan(kinds, n - 1);
        match kinds[n - 1] {
            Bracket::Open => lemma_step_open(kinds, n),
            Bracket::Close => {
                if st.len() > 0 {
                    lemma_step_close(kinds, n);
                }
            },
            Bracket::Other => {},
        }
    }
}

#[verifier::rlimit(40)]
proof fn lemma_step_open(kinds: Seq<Bracket>, n: int)
    requires
        0 < n <= kinds.len(),
        scan_inv(kinds, n - 1),
        kinds[n - 1] == Bracket::Open,
    ensures
        scan_inv(kinds, n),
{
    let (m, st) = paren_scan(kinds, n - 1);
    let (m2, st2) = paren_scan(kinds, n);
    let t = n - 1;
    assert(m[t] is None);

    assert(m2 == m && st2 == st.push(t));
    assert forall|i: int| 0 <= i < n && #[trigger] kinds[i] == Bracket::Open && m2[i] is None implies exists|x: int|
        0 <= x < st2.len() && st2[x] == i by {
        if i == t {
            assert(st2[st.len() as int] == t);
        } else {
            let x = choose|x: int| 0 <= x < st.len() && st[x] == i;
            assert(st2[x] == i);
        }
    }
    assert forall|a: int, x: int|
        #![trigger m2[a], st2[x]]
        0 <= a < m2.len() && 0 <= x < st2.len() && m2[a] is Some && a < m2[a]->0 implies !(a < st2[x]
            < m2[a]->0) by {
        if x < st.len() {
            assert(st2[x] == st[x]);
        }
    }
    assert forall|c: int, x: int|
        #![trigger kinds[c], st2[x]]
        0 <= c < n && 0 <= x < st2.len() && kinds[c] == Bracket::Close && m2[c] is None implies c < st2[x] by {
        if x < st.len() {
            assert(st2[x] == st[x]);
        }
    }
}

#[verifier::rlimit(80)]
proof fn lemma_step_close(kinds: Seq<Bracket>, n: int)
    requires
        0 < n <= kinds.len(),
        scan_inv(kinds, n - 1),
        kinds[n - 1] == Bracket::Close,
        paren_scan(kinds, n - 1).1.len() > 0,
    ensures
        scan_inv(kinds, n),
{
    let (m, st) = paren_scan(kinds, n - 1);
    let (m2, st2) = paren_scan(kinds, n);
    let t = n - 1;
    assert(m[t] is None);

    let o = st.last();
    let top = st.len() - 1;
    assert(st[top] == o);
    assert(0 <= o < t && kinds[o] == Bracket::Open && m[o] is None);
    assert(m2 == m.update(o, Some(t)).update(t, Some(o)));
    assert(st2 == st.drop_last());
    assert forall|i: int| 0 <= i < m2.len() && (#[trigger] m2[i]) is Some implies {
        let j = m2[i]->0;
        &&& 0 <= j < m2.len()
        &&& m2[j] == Some(i)
        &&& i != j
        &&& (kinds[i] == Bracket::Open && i < j && kinds[j] == Bracket::Close) || (kinds[i]
            == Bracket::Close && j < i && kinds[j] == Bracket::Open)
    } by {
        if i != o && i != t {
            assert(m[i] is Some);
            let j = m[i]->0;
            assert(m[j] == Some(i));
            assert(j != o && j != t);
        }
    }
    assert forall|a: int, c: int|
        #![trigger m2[a], m2[c]]
        0 <= a < c < m2.len() && m2[a] is Some && c < m2[a]->0 && m2[c] is Some implies a < m2[c]->0
            < m2[a]->0 by {
        if a == o {
            assert(c != t);
            assert(m[c] is Some);
            let d = m[c]->0;
            assert(d < n - 1);
            if d < o {
                assert(m[d] == Some(c));
                assert(!(d < st[top] < m[d]->0));
            }
        } else if a == t {
        } else {
            assert(m[a] is Some);
            let b = m[a]->0;
            if c == o {
                assert(!(a < st[top] < m[a]->0));
            } else if c == t {
            } else {
                assert(m[c] is Some);
            }
        }
    }
    assert forall|x: int, y: int| 0 <= x < y < st2.len() implies st2[x] < st2[y] by {
        assert(st2[x] == st[x] && st2[y] == st[y]);
    }
    assert forall|x: int|
        0 <= x < st2.len() implies 0 <= #[trigger] st2[x] < n && kinds[st2[x]] == Bracket::Open
            && m2[st2[x]] is None by {
        assert(st2[x] == st[x]);
        assert(st[x] < st[top]);
    }
    assert forall|a: int, x: int|
        #![trigger m2[a], st2[x]]
        0 <= a < m2.len() && 0 <= x < st2.len() && m2[a] is Some && a < m2[a]->0 implies !(a
            < st2[x] < m2[a]->0) by {
        assert(st2[x] == st[x]);
        assert(st[x] < st[top]);
        if a != o && a != t {
            assert(m[a] is Some);
        }
    }
    assert forall|c: int, x: int|
        #![trigger kinds[c], st2[x]]
        0 <= c < n && 0 <= x < st2.len() && kinds[c] == Bracket::Close && m2[c] is None implies c
            < st2[x] by {
        assert(st2[x] == st[x]);
        assert(c != t);
        assert(c != o);
    }
    assert forall|i: int|
        0 <= i < n && #[trigger] kinds[i] == Bracket::Open && m2[i] is None implies exists|x: int|
            0 <= x < st2.len() && st2[x] == i by {
        assert(i != o && i != t);
        let x = choose|x: int| 0 <= x < st.len() && st[x] == i;
        assert(x != top);
        assert(st2[x] == i);
    }
}

/// The pairing that `matching_parens` returns is a proper bracket
/// matching: it has one entry per token; every partner points back; each
/// pair is a `(` with a later `)`, so a token that is neither has no
/// partner; and pairs nest without crossing.
pub proof fn lemma_partners_nest(kinds: Seq<Bracket>)
    ensures
        partners(kinds).len() == kinds.len(),
        well_paired(kinds, partners(kinds)),
        nested(partners(kinds)),
{
    lemma_scan_inv(kinds, kinds.len() as int);
}

} // verus!
