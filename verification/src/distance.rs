//! Edit distance between character sequences.

use vstd::prelude::*;

verus! {

/// The smallest of three numbers.
pub open spec fn min3(x: nat, y: nat, z: nat) -> nat {
    if x <= y && x <= z {
        x
    } else if y <= z {
        y
    } else {
        z
    }
}

/// The Levenshtein distance: the fewest single-character insertions,
/// deletions and substitutions that turn `a` into `b`.
pub open spec fn levenshtein(a: Seq<char>, b: Seq<char>) -> nat
    decreases a.len() + b.len(),
{
    if a.len() == 0 {
        b.len()
    } else if b.len() == 0 {
        a.len()
    } else {
        min3(
            levenshtein(a.drop_last(), b.drop_last()) + (if a.last() == b.last() {
                0nat
            } else {
                1nat
            }),
            levenshtein(a, b.drop_last()) + 1,
            levenshtein(a.drop_last(), b) + 1,
        )
    }
}

/// The distance never exceeds the longer length.
pub proof fn lemma_levenshtein_bound(a: Seq<char>, b: Seq<char>)
    ensures
        levenshtein(a, b) <= a.len() || levenshtein(a, b) <= b.len(),
        levenshtein(a, b) <= (if a.len() >= b.len() { a.len() } else { b.len() }),
    decreases a.len() + b.len(),
{
    if a.len() > 0 && b.len() > 0 {
        lemma_levenshtein_bound(a.drop_last(), b.drop_last());
    }
}

/// The distance is at least the difference of the lengths.
pub proof fn lemma_levenshtein_lower(a: Seq<char>, b: Seq<char>)
    ensures
        levenshtein(a, b) >= a.len() - b.len(),
        levenshtein(a, b) >= b.len() - a.len(),
    decreases a.len() + b.len(),
{
    if a.len() > 0 && b.len() > 0 {
        lemma_levenshtein_lower(a.drop_last(), b.drop_last());
        lemma_levenshtein_lower(a, b.drop_last());
        lemma_levenshtein_lower(a.drop_last(), b);
    }
}

/// A sequence is at distance zero from itself.
pub proof fn lemma_levenshtein_self(a: Seq<char>)
    ensures
        levenshtein(a, a) == 0,
    decreases a.len(),
{
    if a.len() > 0 {
        lemma_levenshtein_self(a.drop_last());
    }
}

/// Distance zero means equal sequences.
pub proof fn lemma_levenshtein_zero(a: Seq<char>, b: Seq<char>)
    requires
        levenshtein(a, b) == 0,
    ensures
        a == b,
    decreases a.len() + b.len(),
{
    if a.len() > 0 && b.len() > 0 {
        lemma_levenshtein_zero(a.drop_last(), b.drop_last());
        assert(a =~= a.drop_last().push(a.last()));
        assert(b =~= b.drop_last().push(b.last()));
    } else {
        assert(a =~= b);
    }
}

/// The distance is symmetric.
pub proof fn lemma_levenshtein_symmetric(a: Seq<char>, b: Seq<char>)
    ensures
        levenshtein(a, b) == levenshtein(b, a),
    decreases a.len() + b.len(),
{
    if a.len() > 0 && b.len() > 0 {
        lemma_levenshtein_symmetric(a.drop_last(), b.drop_last());
        lemma_levenshtein_symmetric(a, b.drop_last());
        lemma_levenshtein_symmetric(a.drop_last(), b);
    }
}

/// Unfolds the distance of two prefixes one step: the distance of
/// `a[..i+1]` and `b[..j+1]` in terms of shorter prefixes.
pub proof fn lemma_levenshtein_step(a: Seq<char>, b: Seq<char>, i: int, j: int)
    requires
        0 <= i < a.len(),
        0 <= j < b.len(),
    ensures
        levenshtein(a.take(i + 1), b.take(j + 1)) == min3(
            levenshtein(a.take(i), b.take(j)) + (if a[i] == b[j] {
                0nat
            } else {
                1nat
            }),
            levenshtein(a.take(i + 1), b.take(j)) + 1,
            levenshtein(a.take(i), b.take(j + 1)) + 1,
        ),
{
    let x = a.take(i + 1);
    let y = b.take(j + 1);
    assert(x.drop_last() =~= a.take(i));
    assert(y.drop_last() =~= b.take(j));
}

} // verus!
