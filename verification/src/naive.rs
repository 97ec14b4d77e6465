//! The naive metric family, implemented and verified here: longest common
//! prefix, longest common suffix, and length difference.

use vstd::prelude::*;
use vstd::string::StrSliceExecFns;
use crate::algospec::length_spec;
use crate::algospec::prefix_spec;
use crate::algospec::suffix_spec;

verus! {

/// A common prefix of pointwise-equal length `k` that is maximal (it ends at
/// the end of an input or at a mismatch) is exactly the longest common prefix.
proof fn lemma_prefix_pointwise(a: Seq<char>, b: Seq<char>, k: nat)
    requires
        k <= a.len(),
        k <= b.len(),
        forall|j: int| 0 <= j < k ==> a[j] == b[j],
        k == a.len() || k == b.len() || a[k as int] != b[k as int],
    ensures
        prefix_spec(a, b) == k,
    decreases k,
{
    if k == 0 {
    } else {
        assert(a[0] == b[0]);
        lemma_prefix_pointwise(a.skip(1), b.skip(1), (k - 1) as nat);
    }
}

/// A common suffix of pointwise-equal length `k` that is maximal (it reaches
/// the start of an input or a mismatch) is exactly the longest common suffix.
proof fn lemma_suffix_pointwise(a: Seq<char>, b: Seq<char>, k: nat)
    requires
        k <= a.len(),
        k <= b.len(),
        forall|j: int| 0 <= j < k ==> #[trigger] a[a.len() - 1 - j] == b[b.len() - 1 - j],
        k == a.len() || k == b.len() || a[a.len() - 1 - k] != b[b.len() - 1 - k],
    ensures
        suffix_spec(a, b) == k,
    decreases k,
{
    if k == 0 {
    } else {
        assert(a[a.len() - 1 - 0] == b[b.len() - 1 - 0]);
        assert(a.last() == b.last());
        let a2 = a.drop_last();
        let b2 = b.drop_last();
        assert forall|j: int| 0 <= j < k - 1 implies #[trigger] a2[a2.len() - 1 - j] == b2[b2.len()
            - 1 - j] by {
            assert(a[a.len() - 1 - (j + 1)] == b[b.len() - 1 - (j + 1)]);
        }
        if k < a.len() && k < b.len() {
            assert(a2[a2.len() - 1 - (k - 1)] == a[a.len() - 1 - k]);
            assert(b2[b2.len() - 1 - (k - 1)] == b[b.len() - 1 - k]);
        }
        lemma_suffix_pointwise(a2, b2, (k - 1) as nat);
    }
}

/// Length of the longest common prefix of the two strings.
pub fn prefix(s1: &str, s2: &str) -> (r: usize)
    ensures
        r as nat == prefix_spec(s1@, s2@),
{
    let l1 = s1.unicode_len();
    let l2 = s2.unicode_len();
    let n = if l1 < l2 {
        l1
    } else {
        l2
    };
    let mut i: usize = 0;
    while i < n
        invariant
            i <= n,
            n <= l1 && n <= l2,
            l1 as nat == s1@.len(),
            l2 as nat == s2@.len(),
            forall|j: int| 0 <= j < i ==> s1@[j] == s2@[j],
        decreases n - i,
    {
        if s1.get_char(i) != s2.get_char(i) {
            proof {
                lemma_prefix_pointwise(s1@, s2@, i as nat);
            }
            return i;
        }
        i += 1;
    }
    proof {
        lemma_prefix_pointwise(s1@, s2@, n as nat);
    }
    n
}

/// Length of the longest common suffix of the two strings.
pub fn suffix(s1: &str, s2: &str) -> (r: usize)
    ensures
        r as nat == suffix_spec(s1@, s2@),
{
    let l1 = s1.unicode_len();
    let l2 = s2.unicode_len();
    let n = if l1 < l2 {
        l1
    } else {
        l2
    };
    let mut i: usize = 0;
    while i < n
        invariant
            i <= n,
            n <= l1 && n <= l2,
            l1 as nat == s1@.len(),
            l2 as nat == s2@.len(),
            forall|j: int| 0 <= j < i ==> #[trigger] s1@[l1 - 1 - j] == s2@[l2 - 1 - j],
        decreases n - i,
    {
        if s1.get_char(l1 - 1 - i) != s2.get_char(l2 - 1 - i) {
            proof {
                lemma_suffix_pointwise(s1@, s2@, i as nat);
            }
            return i;
        }
        i += 1;
    }
    proof {
        lemma_suffix_pointwise(s1@, s2@, n as nat);
    }
    n
}

/// Absolute difference of the two string lengths.
pub fn length(s1: &str, s2: &str) -> (r: usize)
    ensures
        r as nat == length_spec(s1@, s2@),
{
    let l1 = s1.unicode_len();
    let l2 = s2.unicode_len();
    if l1 >= l2 {
        l1 - l2
    } else {
        l2 - l1
    }
}

} // verus!
