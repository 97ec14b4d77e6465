//! Mathematical definitions of the metrics whose value this library states
//! exactly: the textbook recurrences for edit distances and common
//! subsequences, and multiset/pointwise definitions for the rest.

use vstd::prelude::*;

verus! {

/// The smaller of two naturals.
pub open spec fn min2(x: nat, y: nat) -> nat {
    if x <= y {
        x
    } else {
        y
    }
}

/// The larger of two naturals.
pub open spec fn max2(x: nat, y: nat) -> nat {
    if x >= y {
        x
    } else {
        y
    }
}

/// The smallest of three naturals.
pub open spec fn min3(x: nat, y: nat, z: nat) -> nat {
    min2(x, min2(y, z))
}

/// Length of the longest common prefix of two character sequences.
pub open spec fn prefix_spec(a: Seq<char>, b: Seq<char>) -> nat
    decreases a.len(),
{
    if a.len() == 0 || b.len() == 0 || a[0] != b[0] {
        0
    } else {
        1 + prefix_spec(a.skip(1), b.skip(1))
    }
}

/// Length of the longest common suffix of two character sequences.
pub open spec fn suffix_spec(a: Seq<char>, b: Seq<char>) -> nat
    decreases a.len(),
{
    if a.len() == 0 || b.len() == 0 || a.last() != b.last() {
        0
    } else {
        1 + suffix_spec(a.drop_last(), b.drop_last())
    }
}

/// The absolute difference of the two lengths.
pub open spec fn length_spec(a: Seq<char>, b: Seq<char>) -> nat {
    if a.len() >= b.len() {
        (a.len() - b.len()) as nat
    } else {
        (b.len() - a.len()) as nat
    }
}

/// Hamming distance extended to unequal lengths: the number of positions in
/// the common range where the characters differ, plus the number of positions
/// by which the longer input exceeds the shorter.
pub open spec fn hamming_spec(a: Seq<char>, b: Seq<char>) -> nat
    decreases a.len() + b.len(),
{
    if a.len() == 0 {
        b.len()
    } else if b.len() == 0 {
        a.len()
    } else {
        (if a[0] != b[0] {
            1nat
        } else {
            0nat
        }) + hamming_spec(a.skip(1), b.skip(1))
    }
}

/// Levenshtein distance with unit costs: the least number of single-character
/// insertions, deletions and substitutions turning one sequence into the
/// other.
pub open spec fn lev_spec(a: Seq<char>, b: Seq<char>) -> nat
    decreases a.len() + b.len(),
{
    if a.len() == 0 {
        b.len()
    } else if b.len() == 0 {
        a.len()
    } else if a[0] == b[0] {
        lev_spec(a.skip(1), b.skip(1))
    } else {
        1 + min3(
            lev_spec(a.skip(1), b),
            lev_spec(a, b.skip(1)),
            lev_spec(a.skip(1), b.skip(1)),
        )
    }
}

/// Length of the longest common subsequence of two character sequences.
pub open spec fn lcsseq_spec(a: Seq<char>, b: Seq<char>) -> nat
    decreases a.len() + b.len(),
{
    if a.len() == 0 || b.len() == 0 {
        0
    } else if a.last() == b.last() {
        1 + lcsseq_spec(a.drop_last(), b.drop_last())
    } else {
        max2(lcsseq_spec(a.drop_last(), b), lcsseq_spec(a, b.drop_last()))
    }
}

/// Whether the two sequences share a contiguous run of length `k`.
pub open spec fn has_common_run(a: Seq<char>, b: Seq<char>, k: nat) -> bool {
    exists|i: int, j: int|
        0 <= i && i + k <= a.len() && 0 <= j && j + k <= b.len() && #[trigger] a.subrange(i, i + k)
            == #[trigger] b.subrange(j, j + k)
}

/// The largest `n <= k` such that the sequences share a contiguous run of
/// length `n`.
pub open spec fn longest_common_run_upto(a: Seq<char>, b: Seq<char>, k: nat) -> nat
    decreases k,
{
    if k == 0 {
        0
    } else if has_common_run(a, b, k) {
        k
    } else {
        longest_common_run_upto(a, b, (k - 1) as nat)
    }
}

/// Length of the longest common substring (contiguous) of the two sequences.
pub open spec fn lcsstr_spec(a: Seq<char>, b: Seq<char>) -> nat {
    longest_common_run_upto(a, b, min2(a.len(), b.len()))
}

/// Bag distance: compare the two character multisets and take the larger of
/// the two one-sided difference sizes.
pub open spec fn bag_spec(a: Seq<char>, b: Seq<char>) -> nat {
    max2(
        a.to_multiset().sub(b.to_multiset()).len(),
        b.to_multiset().sub(a.to_multiset()).len(),
    )
}

} // verus!
