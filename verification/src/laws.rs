//! General laws of the library, stated and proved over the same spec
//! functions the public contracts use.

use vstd::prelude::*;
use vstd::multiset::Multiset;
use crate::algospec::bag_spec;
use crate::algospec::hamming_spec;
use crate::algospec::has_common_run;
use crate::algospec::lcsseq_spec;
use crate::algospec::lcsstr_spec;
use crate::algospec::lev_spec;
use crate::algospec::longest_common_run_upto;
use crate::algospec::min2;
use crate::algospec::prefix_spec;
use crate::algospec::suffix_spec;
use crate::methods::Method;
use crate::scores::Distance;
use crate::scores::Score;

verus! {

proof fn lemma_lev_self(s: Seq<char>)
    ensures
        lev_spec(s, s) == 0,
    decreases s.len(),
{
    if s.len() == 0 {
    } else {
        lemma_lev_self(s.skip(1));
    }
}

proof fn lemma_hamming_self(s: Seq<char>)
    ensures
        hamming_spec(s, s) == 0,
    decreases s.len(),
{
    if s.len() == 0 {
    } else {
        lemma_hamming_self(s.skip(1));
    }
}

proof fn lemma_lcsseq_self(s: Seq<char>)
    ensures
        lcsseq_spec(s, s) == s.len(),
    decreases s.len(),
{
    if s.len() == 0 {
    } else {
        lemma_lcsseq_self(s.drop_last());
    }
}

proof fn lemma_prefix_self(s: Seq<char>)
    ensures
        prefix_spec(s, s) == s.len(),
    decreases s.len(),
{
    if s.len() == 0 {
    } else {
        lemma_prefix_self(s.skip(1));
    }
}

proof fn lemma_suffix_self(s: Seq<char>)
    ensures
        suffix_spec(s, s) == s.len(),
    decreases s.len(),
{
    if s.len() == 0 {
    } else {
        lemma_suffix_self(s.drop_last());
    }
}

proof fn lemma_bag_self(s: Seq<char>)
    ensures
        bag_spec(s, s) == 0,
{
    broadcast use vstd::multiset::group_multiset_axioms;

    let m = s.to_multiset();
    assert(m.sub(m) =~= Multiset::<char>::empty());
}

proof fn lemma_lcsstr_self(s: Seq<char>)
    ensures
        lcsstr_spec(s, s) == s.len(),
{
    if s.len() == 0 {
    } else {
        assert(s.subrange(0, 0 + s.len() as int) =~= s);
        assert(has_common_run(s, s, s.len()));
    }
}

proof fn lemma_hamming_sym(a: Seq<char>, b: Seq<char>)
    ensures
        hamming_spec(a, b) == hamming_spec(b, a),
    decreases a.len() + b.len(),
{
    if a.len() == 0 || b.len() == 0 {
    } else {
        lemma_hamming_sym(a.skip(1), b.skip(1));
    }
}

proof fn lemma_lev_sym(a: Seq<char>, b: Seq<char>)
    ensures
        lev_spec(a, b) == lev_spec(b, a),
    decreases a.len() + b.len(),
{
    if a.len() == 0 || b.len() == 0 {
    } else if a[0] == b[0] {
        lemma_lev_sym(a.skip(1), b.skip(1));
    } else {
        lemma_lev_sym(a.skip(1), b);
        lemma_lev_sym(a, b.skip(1));
        lemma_lev_sym(a.skip(1), b.skip(1));
    }
}

proof fn lemma_lcsseq_sym(a: Seq<char>, b: Seq<char>)
    ensures
        lcsseq_spec(a, b) == lcsseq_spec(b, a),
    decreases a.len() + b.len(),
{
    if a.len() == 0 || b.len() == 0 {
    } else if a.last() == b.last() {
        lemma_lcsseq_sym(a.drop_last(), b.drop_last());
    } else {
        lemma_lcsseq_sym(a.drop_last(), b);
        lemma_lcsseq_sym(a, b.drop_last());
    }
}

proof fn lemma_prefix_sym(a: Seq<char>, b: Seq<char>)
    ensures
        prefix_spec(a, b) == prefix_spec(b, a),
    decreases a.len(),
{
    if a.len() == 0 || b.len() == 0 || a[0] != b[0] {
    } else {
        lemma_prefix_sym(a.skip(1), b.skip(1));
    }
}

proof fn lemma_suffix_sym(a: Seq<char>, b: Seq<char>)
    ensures
        suffix_spec(a, b) == suffix_spec(b, a),
    decreases a.len(),
{
    if a.len() == 0 || b.len() == 0 || a.last() != b.last() {
    } else {
        lemma_suffix_sym(a.drop_last(), b.drop_last());
    }
}

proof fn lemma_has_common_run_sym(a: Seq<char>, b: Seq<char>, k: nat)
    ensures
        has_common_run(a, b, k) == has_common_run(b, a, k),
{
    if has_common_run(a, b, k) {
        let (i, j) = choose|i: int, j: int|
            0 <= i && i + k <= a.len() && 0 <= j && j + k <= b.len() && #[trigger] a.subrange(
                i,
                i + k,
            ) == #[trigger] b.subrange(j, j + k);
        assert(b.subrange(j, j + k) == a.subrange(i, i + k));
        assert(has_common_run(b, a, k));
    }
    if has_common_run(b, a, k) {
        let (i, j) = choose|i: int, j: int|
            0 <= i && i + k <= b.len() && 0 <= j && j + k <= a.len() && #[trigger] b.subrange(
                i,
                i + k,
            ) == #[trigger] a.subrange(j, j + k);
        assert(a.subrange(j, j + k) == b.subrange(i, i + k));
        assert(has_common_run(a, b, k));
    }
}

proof fn lemma_longest_common_run_sym(a: Seq<char>, b: Seq<char>, k: nat)
    ensures
        longest_common_run_upto(a, b, k) == longest_common_run_upto(b, a, k),
    decreases k,
{
    lemma_has_common_run_sym(a, b, k);
    if k == 0 {
    } else if has_common_run(a, b, k) {
    } else {
        lemma_longest_common_run_sym(a, b, (k - 1) as nat);
    }
}

proof fn lemma_lcsstr_sym(a: Seq<char>, b: Seq<char>)
    ensures
        lcsstr_spec(a, b) == lcsstr_spec(b, a),
{
    lemma_longest_common_run_sym(a, b, min2(a.len(), b.len()));
}

/// On two identical strings every integer-valued metric yields its defined
/// identical value: zero for the distance metrics, the full input length for
/// the similarity-like lengths. (The real-valued metrics' identical values
/// are not representable inside the library and are exercised by tests.)
pub proof fn lemma_calculate_identical(m: Method, s: Seq<char>, r: Distance)
    requires
        m.calculate_rel(s, s, r),
    ensures
        match m {
            Method::DamerauLevenshtein
            | Method::Hamming
            | Method::Levenshtein
            | Method::Sift4Common
            | Method::Sift4Simple
            | Method::Bag
            | Method::Length => r == Distance::Unnormalized(0usize),
            Method::SmithWaterman
            | Method::LCSSeq
            | Method::LCSStr
            | Method::Prefix
            | Method::Suffix => r == Distance::Unnormalized(s.len() as usize),
            _ => true,
        },
{
    match m {
        Method::Hamming => {
            lemma_hamming_self(s);
        },
        Method::Levenshtein => {
            lemma_lev_self(s);
        },
        Method::Bag => {
            lemma_bag_self(s);
        },
        Method::LCSSeq => {
            lemma_lcsseq_self(s);
        },
        Method::LCSStr => {
            lemma_lcsstr_self(s);
        },
        Method::Prefix => {
            lemma_prefix_self(s);
        },
        Method::Suffix => {
            lemma_suffix_self(s);
        },
        _ => {},
    }
}

/// The metrics whose stated mathematical definition is symmetric in the two
/// inputs give the same outcome on (a, b) as on (b, a).
pub proof fn lemma_calculate_symmetric(m: Method, a: Seq<char>, b: Seq<char>, r1: Distance, r2: Distance)
    requires
        m.calculate_rel(a, b, r1),
        m.calculate_rel(b, a, r2),
    ensures
        match m {
            Method::Hamming
            | Method::Levenshtein
            | Method::Bag
            | Method::LCSSeq
            | Method::LCSStr
            | Method::Prefix
            | Method::Suffix
            | Method::Length => r1 == r2,
            _ => true,
        },
{
    match m {
        Method::Hamming => {
            lemma_hamming_sym(a, b);
        },
        Method::Levenshtein => {
            lemma_lev_sym(a, b);
        },
        Method::LCSSeq => {
            lemma_lcsseq_sym(a, b);
        },
        Method::LCSStr => {
            lemma_lcsstr_sym(a, b);
        },
        Method::Prefix => {
            lemma_prefix_sym(a, b);
        },
        Method::Suffix => {
            lemma_suffix_sym(a, b);
        },
        _ => {},
    }
}

/// Every metric's outcome lies in the normalization class that the catalogue
/// fixes for it, never in the other one.
pub proof fn lemma_calculate_class(m: Method, a: Seq<char>, b: Seq<char>, r: Distance)
    requires
        m.calculate_rel(a, b, r),
    ensures
        m.is_normalized_spec() ==> r is Normalized,
        !m.is_normalized_spec() ==> r is Unnormalized,
{
}

/// Normalizing an already-normalized outcome is a no-op: whatever the scale,
/// the value passes through unchanged.
pub proof fn lemma_normalize_normalized_noop(bits: u64, max: usize)
    ensures
        Distance::Normalized(bits).normalize_spec(max) == Score::Native(bits),
        Distance::Normalized(bits).normalize_spec(max) == Distance::Normalized(
            bits,
        ).as_score_spec(),
{
}

/// Normalizing an unnormalized count with scale zero is defined as the ratio
/// zero; no division by zero can arise.
pub proof fn lemma_normalize_zero_scale(count: usize)
    ensures
        Distance::Unnormalized(count).normalize_spec(0) == Score::Scaled(0, 1),
{
}

/// The unnormalized view of the catalogue is exactly the integer-valued
/// metrics, in catalogue order.
pub proof fn lemma_unnormalized_value()
    ensures
        Method::unnormalized_spec() == seq![
            Method::DamerauLevenshtein,
            Method::Hamming,
            Method::Levenshtein,
            Method::Sift4Common,
            Method::Sift4Simple,
            Method::SmithWaterman,
            Method::Bag,
            Method::LCSSeq,
            Method::LCSStr,
            Method::Prefix,
            Method::Suffix,
            Method::Length,
        ],
{
    reveal(Seq::filter);
    assert(Method::unnormalized_prefix(0) =~= Seq::<Method>::empty());
    Method::lemma_unnormalized_prefix_step(0);
    Method::lemma_unnormalized_prefix_step(1);
    Method::lemma_unnormalized_prefix_step(2);
    Method::lemma_unnormalized_prefix_step(3);
    Method::lemma_unnormalized_prefix_step(4);
    Method::lemma_unnormalized_prefix_step(5);
    Method::lemma_unnormalized_prefix_step(6);
    Method::lemma_unnormalized_prefix_step(7);
    Method::lemma_unnormalized_prefix_step(8);
    Method::lemma_unnormalized_prefix_step(9);
    Method::lemma_unnormalized_prefix_step(10);
    Method::lemma_unnormalized_prefix_step(11);
    Method::lemma_unnormalized_prefix_step(12);
    Method::lemma_unnormalized_prefix_step(13);
    Method::lemma_unnormalized_prefix_step(14);
    Method::lemma_unnormalized_prefix_step(15);
    Method::lemma_unnormalized_prefix_step(16);
    Method::lemma_unnormalized_prefix_step(17);
    Method::lemma_unnormalized_prefix_step(18);
    Method::lemma_unnormalized_prefix_step(19);
    Method::lemma_unnormalized_prefix_step(20);
    Method::lemma_unnormalized_prefix_step(21);
    assert(Method::unnormalized_spec() =~= seq![
        Method::DamerauLevenshtein,
        Method::Hamming,
        Method::Levenshtein,
        Method::Sift4Common,
        Method::Sift4Simple,
        Method::SmithWaterman,
        Method::Bag,
        Method::LCSSeq,
        Method::LCSStr,
        Method::Prefix,
        Method::Suffix,
        Method::Length,
    ]);
}

/// The normalized view of the catalogue is exactly the real-valued metrics,
/// in catalogue order.
pub proof fn lemma_normalized_value()
    ensures
        Method::normalized_spec() == seq![
            Method::Jaro,
            Method::JaroWinkler,
            Method::Cosine,
            Method::EntropyNCD,
            Method::Jaccard,
            Method::Overlap,
            Method::Roberts,
            Method::SorensenDice,
            Method::Tversky,
            Method::RatcliffObershelp,
        ],
{
    reveal(Seq::filter);
    assert(Method::normalized_prefix(0) =~= Seq::<Method>::empty());
    Method::lemma_normalized_prefix_step(0);
    Method::lemma_normalized_prefix_step(1);
    Method::lemma_normalized_prefix_step(2);
    Method::lemma_normalized_prefix_step(3);
    Method::lemma_normalized_prefix_step(4);
    Method::lemma_normalized_prefix_step(5);
    Method::lemma_normalized_prefix_step(6);
    Method::lemma_normalized_prefix_step(7);
    Method::lemma_normalized_prefix_step(8);
    Method::lemma_normalized_prefix_step(9);
    Method::lemma_normalized_prefix_step(10);
    Method::lemma_normalized_prefix_step(11);
    Method::lemma_normalized_prefix_step(12);
    Method::lemma_normalized_prefix_step(13);
    Method::lemma_normalized_prefix_step(14);
    Method::lemma_normalized_prefix_step(15);
    Method::lemma_normalized_prefix_step(16);
    Method::lemma_normalized_prefix_step(17);
    Method::lemma_normalized_prefix_step(18);
    Method::lemma_normalized_prefix_step(19);
    Method::lemma_normalized_prefix_step(20);
    Method::lemma_normalized_prefix_step(21);
    assert(Method::normalized_spec() =~= seq![
        Method::Jaro,
        Method::JaroWinkler,
        Method::Cosine,
        Method::EntropyNCD,
        Method::Jaccard,
        Method::Overlap,
        Method::Roberts,
        Method::SorensenDice,
        Method::Tversky,
        Method::RatcliffObershelp,
    ]);
}

/// The catalogue holds exactly twenty-two metrics, so `calculate_all`
/// returns exactly twenty-two entries for any input pair.
pub proof fn lemma_catalogue_size()
    ensures
        Method::all_spec().len() == 22,
{
}

/// The two filtered views partition the catalogue: every metric stands in the
/// catalogue, and it stands in the unnormalized view exactly when it is not
/// normalized and in the normalized view exactly when it is — so the union of
/// the two views is the whole catalogue and no metric is in both.
pub proof fn lemma_catalogue_partition()
    ensures
        forall|m: Method| #[trigger] Method::all_spec().contains(m),
        forall|m: Method|
            #[trigger] Method::unnormalized_spec().contains(m) <==> !m.is_normalized_spec(),
        forall|m: Method|
            #[trigger] Method::normalized_spec().contains(m) <==> m.is_normalized_spec(),
{
    lemma_unnormalized_value();
    lemma_normalized_value();
    let al = Method::all_spec();
    let un = Method::unnormalized_spec();
    let no = Method::normalized_spec();
    assert forall|m: Method| #[trigger] al.contains(m) by {
        match m {
            Method::DamerauLevenshtein => assert(al[0] == m),
            Method::Hamming => assert(al[1] == m),
            Method::Jaro => assert(al[2] == m),
            Method::JaroWinkler => assert(al[3] == m),
            Method::Levenshtein => assert(al[4] == m),
            Method::Sift4Common => assert(al[5] == m),
            Method::Sift4Simple => assert(al[6] == m),
            Method::SmithWaterman => assert(al[7] == m),
            Method::Bag => assert(al[8] == m),
            Method::Cosine => assert(al[9] == m),
            Method::EntropyNCD => assert(al[10] == m),
            Method::Jaccard => assert(al[11] == m),
            Method::Overlap => assert(al[12] == m),
            Method::Roberts => assert(al[13] == m),
            Method::SorensenDice => assert(al[14] == m),
            Method::Tversky => assert(al[15] == m),
            Method::LCSSeq => assert(al[16] == m),
            Method::LCSStr => assert(al[17] == m),
            Method::RatcliffObershelp => assert(al[18] == m),
            Method::Prefix => assert(al[19] == m),
            Method::Suffix => assert(al[20] == m),
            Method::Length => assert(al[21] == m),
        }
    }
    assert forall|m: Method| #[trigger] un.contains(m) <==> !m.is_normalized_spec() by {
        if !m.is_normalized_spec() {
            match m {
                Method::DamerauLevenshtein => assert(un[0] == m),
                Method::Hamming => assert(un[1] == m),
                Method::Levenshtein => assert(un[2] == m),
                Method::Sift4Common => assert(un[3] == m),
                Method::Sift4Simple => assert(un[4] == m),
                Method::SmithWaterman => assert(un[5] == m),
                Method::Bag => assert(un[6] == m),
                Method::LCSSeq => assert(un[7] == m),
                Method::LCSStr => assert(un[8] == m),
                Method::Prefix => assert(un[9] == m),
                Method::Suffix => assert(un[10] == m),
                Method::Length => assert(un[11] == m),
                _ => {},
            }
        }
        if un.contains(m) {
            let i = choose|i: int| 0 <= i < un.len() && un[i] == m;
            assert(!un[i].is_normalized_spec());
        }
    }
    assert forall|m: Method| #[trigger] no.contains(m) <==> m.is_normalized_spec() by {
        if m.is_normalized_spec() {
            match m {
                Method::Jaro => assert(no[0] == m),
                Method::JaroWinkler => assert(no[1] == m),
                Method::Cosine => assert(no[2] == m),
                Method::EntropyNCD => assert(no[3] == m),
                Method::Jaccard => assert(no[4] == m),
                Method::Overlap => assert(no[5] == m),
                Method::Roberts => assert(no[6] == m),
                Method::SorensenDice => assert(no[7] == m),
                Method::Tversky => assert(no[8] == m),
                Method::RatcliffObershelp => assert(no[9] == m),
                _ => {},
            }
        }
        if no.contains(m) {
            let i = choose|i: int| 0 <= i < no.len() && no[i] == m;
            assert(no[i].is_normalized_spec());
        }
    }
}

/// The stable identifier round-trips: looking a metric's own identifier up
/// finds that metric again.
pub proof fn lemma_key_round_trip(m: Method)
    ensures
        Method::from_key_spec(m.description_spec()) == Some(m),
{
    reveal_strlit("damerau_levenshtein");
    reveal_strlit("hamming");
    reveal_strlit("jaro");
    reveal_strlit("jaro_winkler");
    reveal_strlit("levenshtein");
    reveal_strlit("sift4_common");
    reveal_strlit("sift4_simple");
    reveal_strlit("smith_waterman");
    reveal_strlit("bag");
    reveal_strlit("cosine");
    reveal_strlit("entropy_n_c_d");
    reveal_strlit("jaccard");
    reveal_strlit("overlap");
    reveal_strlit("roberts");
    reveal_strlit("sorensen_dice");
    reveal_strlit("tversky");
    reveal_strlit("lcs_seq");
    reveal_strlit("lcs_str");
    reveal_strlit("ratcliff_obershelp");
    reveal_strlit("prefix");
    reveal_strlit("suffix");
    reveal_strlit("length");
    assert("damerau_levenshtein"@.len() == 19);
    assert("hamming"@.len() == 7);
    assert("jaro"@.len() == 4);
    assert("jaro_winkler"@.len() == 12);
    assert("levenshtein"@.len() == 11);
    assert("sift4_common"@.len() == 12);
    assert("sift4_simple"@.len() == 12);
    assert("smith_waterman"@.len() == 14);
    assert("bag"@.len() == 3);
    assert("cosine"@.len() == 6);
    assert("entropy_n_c_d"@.len() == 13);
    assert("jaccard"@.len() == 7);
    assert("overlap"@.len() == 7);
    assert("roberts"@.len() == 7);
    assert("sorensen_dice"@.len() == 13);
    assert("tversky"@.len() == 7);
    assert("lcs_seq"@.len() == 7);
    assert("lcs_str"@.len() == 7);
    assert("ratcliff_obershelp"@.len() == 18);
    assert("prefix"@.len() == 6);
    assert("suffix"@.len() == 6);
    assert("length"@.len() == 6);
    assert("hamming"@[0] == 'h');
    assert("jaccard"@[0] == 'j');
    assert("overlap"@[0] == 'o');
    assert("roberts"@[0] == 'r');
    assert("tversky"@[0] == 't');
    assert("lcs_seq"@[0] == 'l');
    assert("lcs_str"@[0] == 'l');
    assert("lcs_seq"@[5] == 'e');
    assert("lcs_str"@[5] == 't');
    assert("jaro_winkler"@[0] == 'j');
    assert("sift4_common"@[0] == 's');
    assert("sift4_simple"@[0] == 's');
    assert("sift4_common"@[6] == 'c');
    assert("sift4_simple"@[6] == 's');
    assert("entropy_n_c_d"@[0] == 'e');
    assert("sorensen_dice"@[0] == 's');
    assert("cosine"@[0] == 'c');
    assert("prefix"@[0] == 'p');
    assert("suffix"@[0] == 's');
    assert("length"@[0] == 'l');
    match m {
        Method::DamerauLevenshtein => assert(Method::from_key_spec(m.description_spec())
            == Some(m)),
        Method::Hamming => assert(Method::from_key_spec(m.description_spec()) == Some(m)),
        Method::Jaro => assert(Method::from_key_spec(m.description_spec()) == Some(m)),
        Method::JaroWinkler => assert(Method::from_key_spec(m.description_spec()) == Some(m)),
        Method::Levenshtein => assert(Method::from_key_spec(m.description_spec()) == Some(m)),
        Method::Sift4Common => assert(Method::from_key_spec(m.description_spec()) == Some(m)),
        Method::Sift4Simple => assert(Method::from_key_spec(m.description_spec()) == Some(m)),
        Method::SmithWaterman => assert(Method::from_key_spec(m.description_spec()) == Some(m)),
        Method::Bag => assert(Method::from_key_spec(m.description_spec()) == Some(m)),
        Method::Cosine => assert(Method::from_key_spec(m.description_spec()) == Some(m)),
        Method::EntropyNCD => assert(Method::from_key_spec(m.description_spec()) == Some(m)),
        Method::Jaccard => assert(Method::from_key_spec(m.description_spec()) == Some(m)),
        Method::Overlap => assert(Method::from_key_spec(m.description_spec()) == Some(m)),
        Method::Roberts => assert(Method::from_key_spec(m.description_spec()) == Some(m)),
        Method::SorensenDice => assert(Method::from_key_spec(m.description_spec()) == Some(m)),
        Method::Tversky => assert(Method::from_key_spec(m.description_spec()) == Some(m)),
        Method::LCSSeq => assert(Method::from_key_spec(m.description_spec()) == Some(m)),
        Method::LCSStr => assert(Method::from_key_spec(m.description_spec()) == Some(m)),
        Method::RatcliffObershelp => assert(Method::from_key_spec(m.description_spec())
            == Some(m)),
        Method::Prefix => assert(Method::from_key_spec(m.description_spec()) == Some(m)),
        Method::Suffix => assert(Method::from_key_spec(m.description_spec()) == Some(m)),
        Method::Length => assert(Method::from_key_spec(m.description_spec()) == Some(m)),
    }
}

} // verus!
