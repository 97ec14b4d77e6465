//! The metric catalogue: a closed set of algorithm variants, their display
//! names, stable keys, normalization classes, and the dispatcher that applies
//! one of them to a pair of strings.

use vstd::prelude::*;
use crate::algospec::bag_spec;
use crate::algospec::hamming_spec;
use crate::algospec::lcsseq_spec;
use crate::algospec::lcsstr_spec;
use crate::algospec::length_spec;
use crate::algospec::lev_spec;
use crate::algospec::prefix_spec;
use crate::algospec::suffix_spec;
use crate::naive;
use crate::scores::Distance;
use crate::strutil::str_eq;
use crate::textdist;

verus! {

/// One of the fixed, closed set of string metrics, grouped by family: edit
/// based, token based, sequence based, and naive.
#[derive(Clone, Copy, PartialEq, Eq, Structural, Debug)]
pub enum Method {
    // Edit-based
    DamerauLevenshtein,
    Hamming,
    Jaro,
    JaroWinkler,
    Levenshtein,
    Sift4Common,
    Sift4Simple,
    SmithWaterman,
    // Token-based
    Bag,
    Cosine,
    EntropyNCD,
    Jaccard,
    Overlap,
    Roberts,
    SorensenDice,
    Tversky,
    // Sequence-based
    LCSSeq,
    LCSStr,
    RatcliffObershelp,
    // Naive
    Prefix,
    Suffix,
    Length,
}

impl Method {
    /// The catalogue in its fixed enumeration order, an observable contract:
    /// consumers render results in this order.
    pub open spec fn all_spec() -> Seq<Method> {
        seq![
            Method::DamerauLevenshtein,
            Method::Hamming,
            Method::Jaro,
            Method::JaroWinkler,
            Method::Levenshtein,
            Method::Sift4Common,
            Method::Sift4Simple,
            Method::SmithWaterman,
            Method::Bag,
            Method::Cosine,
            Method::EntropyNCD,
            Method::Jaccard,
            Method::Overlap,
            Method::Roberts,
            Method::SorensenDice,
            Method::Tversky,
            Method::LCSSeq,
            Method::LCSStr,
            Method::RatcliffObershelp,
            Method::Prefix,
            Method::Suffix,
            Method::Length,
        ]
    }

    /// Every metric in catalogue order.
    pub fn all() -> (r: Vec<Method>)
        ensures
            r@ == Method::all_spec(),
    {
        let mut v: Vec<Method> = Vec::new();
        v.push(Method::DamerauLevenshtein);
        v.push(Method::Hamming);
        v.push(Method::Jaro);
        v.push(Method::JaroWinkler);
        v.push(Method::Levenshtein);
        v.push(Method::Sift4Common);
        v.push(Method::Sift4Simple);
        v.push(Method::SmithWaterman);
        v.push(Method::Bag);
        v.push(Method::Cosine);
        v.push(Method::EntropyNCD);
        v.push(Method::Jaccard);
        v.push(Method::Overlap);
        v.push(Method::Roberts);
        v.push(Method::SorensenDice);
        v.push(Method::Tversky);
        v.push(Method::LCSSeq);
        v.push(Method::LCSStr);
        v.push(Method::RatcliffObershelp);
        v.push(Method::Prefix);
        v.push(Method::Suffix);
        v.push(Method::Length);
        proof {
            assert(v@ =~= Method::all_spec());
        }
        v
    }

    /// Whether this metric's native output already lies in [0,1]. The class
    /// is intrinsic to the algorithm: real-valued similarities and distances
    /// are normalized, integer counts and lengths are not.
    pub open spec fn is_normalized_spec(self) -> bool {
        match self {
            Method::Jaro => true,
            Method::JaroWinkler => true,
            Method::Cosine => true,
            Method::EntropyNCD => true,
            Method::Jaccard => true,
            Method::Overlap => true,
            Method::Roberts => true,
            Method::SorensenDice => true,
            Method::Tversky => true,
            Method::RatcliffObershelp => true,
            _ => false,
        }
    }

    /// Whether this metric's native output already lies in [0,1].
    pub fn is_normalized(&self) -> (r: bool)
        ensures
            r == self.is_normalized_spec(),
    {
        match *self {
            Method::Jaro => true,
            Method::JaroWinkler => true,
            Method::Cosine => true,
            Method::EntropyNCD => true,
            Method::Jaccard => true,
            Method::Overlap => true,
            Method::Roberts => true,
            Method::SorensenDice => true,
            Method::Tversky => true,
            Method::RatcliffObershelp => true,
            _ => false,
        }
    }

    /// The display name of this metric.
    pub open spec fn name_spec(self) -> Seq<char> {
        match self {
            Method::DamerauLevenshtein => "Damerau Levenshtein"@,
            Method::Hamming => "Hamming"@,
            Method::Jaro => "Jaro"@,
            Method::JaroWinkler => "Jaro Winkler"@,
            Method::Levenshtein => "Levenshtein"@,
            Method::Sift4Common => "Sift4 Common"@,
            Method::Sift4Simple => "Sift4 Simple"@,
            Method::SmithWaterman => "Smith Waterman"@,
            Method::Bag => "Bag"@,
            Method::Cosine => "Cosine"@,
            Method::EntropyNCD => "Entropy NCD"@,
            Method::Jaccard => "Jaccard"@,
            Method::Overlap => "Overlap"@,
            Method::Roberts => "Roberts"@,
            Method::SorensenDice => "Sorensen Dice"@,
            Method::Tversky => "Tversky"@,
            Method::LCSSeq => "Common Subsequence"@,
            Method::LCSStr => "Common Substring"@,
            Method::RatcliffObershelp => "Ratcliff Obershelp"@,
            Method::Prefix => "Prefix"@,
            Method::Suffix => "Suffix"@,
            Method::Length => "Length"@,
        }
    }

    /// The display name of this metric, for presentation.
    pub fn name(&self) -> (r: &'static str)
        ensures
            r@ == self.name_spec(),
    {
        match *self {
            Method::DamerauLevenshtein => "Damerau Levenshtein",
            Method::Hamming => "Hamming",
            Method::Jaro => "Jaro",
            Method::JaroWinkler => "Jaro Winkler",
            Method::Levenshtein => "Levenshtein",
            Method::Sift4Common => "Sift4 Common",
            Method::Sift4Simple => "Sift4 Simple",
            Method::SmithWaterman => "Smith Waterman",
            Method::Bag => "Bag",
            Method::Cosine => "Cosine",
            Method::EntropyNCD => "Entropy NCD",
            Method::Jaccard => "Jaccard",
            Method::Overlap => "Overlap",
            Method::Roberts => "Roberts",
            Method::SorensenDice => "Sorensen Dice",
            Method::Tversky => "Tversky",
            Method::LCSSeq => "Common Subsequence",
            Method::LCSStr => "Common Substring",
            Method::RatcliffObershelp => "Ratcliff Obershelp",
            Method::Prefix => "Prefix",
            Method::Suffix => "Suffix",
            Method::Length => "Length",
        }
    }

    /// The stable identifier of this metric, usable for programmatic
    /// selection; `from_key` inverts it.
    pub open spec fn description_spec(self) -> Seq<char> {
        match self {
            Method::DamerauLevenshtein => "damerau_levenshtein"@,
            Method::Hamming => "hamming"@,
            Method::Jaro => "jaro"@,
            Method::JaroWinkler => "jaro_winkler"@,
            Method::Levenshtein => "levenshtein"@,
            Method::Sift4Common => "sift4_common"@,
            Method::Sift4Simple => "sift4_simple"@,
            Method::SmithWaterman => "smith_waterman"@,
            Method::Bag => "bag"@,
            Method::Cosine => "cosine"@,
            Method::EntropyNCD => "entropy_n_c_d"@,
            Method::Jaccard => "jaccard"@,
            Method::Overlap => "overlap"@,
            Method::Roberts => "roberts"@,
            Method::SorensenDice => "sorensen_dice"@,
            Method::Tversky => "tversky"@,
            Method::LCSSeq => "lcs_seq"@,
            Method::LCSStr => "lcs_str"@,
            Method::RatcliffObershelp => "ratcliff_obershelp"@,
            Method::Prefix => "prefix"@,
            Method::Suffix => "suffix"@,
            Method::Length => "length"@,
        }
    }

    /// The stable identifier of this metric.
    pub fn description(&self) -> (r: &'static str)
        ensures
            r@ == self.description_spec(),
    {
        match *self {
            Method::DamerauLevenshtein => "damerau_levenshtein",
            Method::Hamming => "hamming",
            Method::Jaro => "jaro",
            Method::JaroWinkler => "jaro_winkler",
            Method::Levenshtein => "levenshtein",
            Method::Sift4Common => "sift4_common",
            Method::Sift4Simple => "sift4_simple",
            Method::SmithWaterman => "smith_waterman",
            Method::Bag => "bag",
            Method::Cosine => "cosine",
            Method::EntropyNCD => "entropy_n_c_d",
            Method::Jaccard => "jaccard",
            Method::Overlap => "overlap",
            Method::Roberts => "roberts",
            Method::SorensenDice => "sorensen_dice",
            Method::Tversky => "tversky",
            Method::LCSSeq => "lcs_seq",
            Method::LCSStr => "lcs_str",
            Method::RatcliffObershelp => "ratcliff_obershelp",
            Method::Prefix => "prefix",
            Method::Suffix => "suffix",
            Method::Length => "length",
        }
    }

    /// The total, explicit inverse of `description_spec`: the metric whose
    /// stable identifier is `s`, or `None` when no metric carries it.
    pub open spec fn from_key_spec(s: Seq<char>) -> Option<Method> {
        if s == "damerau_levenshtein"@ {
            Some(Method::DamerauLevenshtein)
        } else if s == "hamming"@ {
            Some(Method::Hamming)
        } else if s == "jaro"@ {
            Some(Method::Jaro)
        } else if s == "jaro_winkler"@ {
            Some(Method::JaroWinkler)
        } else if s == "levenshtein"@ {
            Some(Method::Levenshtein)
        } else if s == "sift4_common"@ {
            Some(Method::Sift4Common)
        } else if s == "sift4_simple"@ {
            Some(Method::Sift4Simple)
        } else if s == "smith_waterman"@ {
            Some(Method::SmithWaterman)
        } else if s == "bag"@ {
            Some(Method::Bag)
        } else if s == "cosine"@ {
            Some(Method::Cosine)
        } else if s == "entropy_n_c_d"@ {
            Some(Method::EntropyNCD)
        } else if s == "jaccard"@ {
            Some(Method::Jaccard)
        } else if s == "overlap"@ {
            Some(Method::Overlap)
        } else if s == "roberts"@ {
            Some(Method::Roberts)
        } else if s == "sorensen_dice"@ {
            Some(Method::SorensenDice)
        } else if s == "tversky"@ {
            Some(Method::Tversky)
        } else if s == "lcs_seq"@ {
            Some(Method::LCSSeq)
        } else if s == "lcs_str"@ {
            Some(Method::LCSStr)
        } else if s == "ratcliff_obershelp"@ {
            Some(Method::RatcliffObershelp)
        } else if s == "prefix"@ {
            Some(Method::Prefix)
        } else if s == "suffix"@ {
            Some(Method::Suffix)
        } else if s == "length"@ {
            Some(Method::Length)
        } else {
            None
        }
    }

    /// Look a metric up by its stable identifier. Total: an unknown
    /// identifier yields `None` rather than a failure.
    pub fn from_key(s: &str) -> (r: Option<Method>)
        ensures
            r == Method::from_key_spec(s@),
    {
        if str_eq(s, "damerau_levenshtein") {
            Some(Method::DamerauLevenshtein)
        } else if str_eq(s, "hamming") {
            Some(Method::Hamming)
        } else if str_eq(s, "jaro") {
            Some(Method::Jaro)
        } else if str_eq(s, "jaro_winkler") {
            Some(Method::JaroWinkler)
        } else if str_eq(s, "levenshtein") {
            Some(Method::Levenshtein)
        } else if str_eq(s, "sift4_common") {
            Some(Method::Sift4Common)
        } else if str_eq(s, "sift4_simple") {
            Some(Method::Sift4Simple)
        } else if str_eq(s, "smith_waterman") {
            Some(Method::SmithWaterman)
        } else if str_eq(s, "bag") {
            Some(Method::Bag)
        } else if str_eq(s, "cosine") {
            Some(Method::Cosine)
        } else if str_eq(s, "entropy_n_c_d") {
            Some(Method::EntropyNCD)
        } else if str_eq(s, "jaccard") {
            Some(Method::Jaccard)
        } else if str_eq(s, "overlap") {
            Some(Method::Overlap)
        } else if str_eq(s, "roberts") {
            Some(Method::Roberts)
        } else if str_eq(s, "sorensen_dice") {
            Some(Method::SorensenDice)
        } else if str_eq(s, "tversky") {
            Some(Method::Tversky)
        } else if str_eq(s, "lcs_seq") {
            Some(Method::LCSSeq)
        } else if str_eq(s, "lcs_str") {
            Some(Method::LCSStr)
        } else if str_eq(s, "ratcliff_obershelp") {
            Some(Method::RatcliffObershelp)
        } else if str_eq(s, "prefix") {
            Some(Method::Prefix)
        } else if str_eq(s, "suffix") {
            Some(Method::Suffix)
        } else if str_eq(s, "length") {
            Some(Method::Length)
        } else {
            None
        }
    }

    /// Whether `r` is a possible outcome of `calculate` on this metric. For
    /// every metric whose result is a function of the two inputs alone the
    /// outcome is pinned exactly: the integer-valued metrics with short
    /// textbook definitions through the spec functions of `algospec`, the
    /// others through the names of their outside results together with what
    /// is known of them on identical inputs. Two metrics accumulate floats
    /// over hash-map iteration order, so their bit-level outcome varies from
    /// call to call: of those only the outcome class is stated.
    pub open spec fn calculate_rel(self, a: Seq<char>, b: Seq<char>, r: Distance) -> bool {
        match self {
            Method::DamerauLevenshtein => r == Distance::Unnormalized(
                if a == b {
                    0usize
                } else {
                    textdist::damerau_levenshtein_of(a, b)
                },
            ),
            Method::Hamming => r == Distance::Unnormalized(hamming_spec(a, b) as usize),
            Method::Jaro => r == Distance::Normalized(textdist::jaro_bits_of(a, b)),
            Method::JaroWinkler => r == Distance::Normalized(textdist::jaro_winkler_bits_of(a, b)),
            Method::Levenshtein => r == Distance::Unnormalized(lev_spec(a, b) as usize),
            Method::Sift4Common => r == Distance::Unnormalized(
                if a == b {
                    0usize
                } else {
                    textdist::sift4_common_of(a, b)
                },
            ),
            Method::Sift4Simple => r == Distance::Unnormalized(
                if a == b {
                    0usize
                } else {
                    textdist::sift4_simple_of(a, b)
                },
            ),
            Method::SmithWaterman => r == Distance::Unnormalized(
                if a == b {
                    a.len() as usize
                } else {
                    textdist::smith_waterman_of(a, b)
                },
            ),
            Method::Bag => r == Distance::Unnormalized(bag_spec(a, b) as usize),
            Method::Cosine => r == Distance::Normalized(textdist::cosine_bits_of(a, b)),
            Method::EntropyNCD => r is Normalized,
            Method::Jaccard => r == Distance::Normalized(textdist::jaccard_bits_of(a, b)),
            Method::Overlap => r == Distance::Normalized(textdist::overlap_bits_of(a, b)),
            Method::Roberts => r is Normalized,
            Method::SorensenDice => r == Distance::Normalized(
                textdist::sorensen_dice_bits_of(a, b),
            ),
            Method::Tversky => r == Distance::Normalized(textdist::tversky_bits_of(a, b)),
            Method::LCSSeq => r == Distance::Unnormalized(lcsseq_spec(a, b) as usize),
            Method::LCSStr => r == Distance::Unnormalized(lcsstr_spec(a, b) as usize),
            Method::RatcliffObershelp => r == Distance::Normalized(
                textdist::ratcliff_obershelp_bits_of(a, b),
            ),
            Method::Prefix => r == Distance::Unnormalized(prefix_spec(a, b) as usize),
            Method::Suffix => r == Distance::Unnormalized(suffix_spec(a, b) as usize),
            Method::Length => r == Distance::Unnormalized(length_spec(a, b) as usize),
        }
    }

    /// Apply this metric to the two strings. The outcome is always in the
    /// normalization class fixed by the metric, never the other one.
    pub fn calculate(&self, s1: &str, s2: &str) -> (r: Distance)
        ensures
            self.calculate_rel(s1@, s2@, r),
            r is Normalized <==> self.is_normalized_spec(),
    {
        match *self {
            Method::DamerauLevenshtein => Distance::Unnormalized(
                textdist::damerau_levenshtein(s1, s2),
            ),
            Method::Hamming => Distance::Unnormalized(textdist::hamming(s1, s2)),
            Method::Jaro => Distance::Normalized(textdist::jaro(s1, s2)),
            Method::JaroWinkler => Distance::Normalized(textdist::jaro_winkler(s1, s2)),
            Method::Levenshtein => Distance::Unnormalized(textdist::levenshtein(s1, s2)),
            Method::Sift4Common => Distance::Unnormalized(textdist::sift4_common(s1, s2)),
            Method::Sift4Simple => Distance::Unnormalized(textdist::sift4_simple(s1, s2)),
            Method::SmithWaterman => Distance::Unnormalized(textdist::smith_waterman(s1, s2)),
            Method::Bag => Distance::Unnormalized(textdist::bag(s1, s2)),
            Method::Cosine => Distance::Normalized(textdist::cosine(s1, s2)),
            Method::EntropyNCD => Distance::Normalized(textdist::entropy_ncd(s1, s2)),
            Method::Jaccard => Distance::Normalized(textdist::jaccard(s1, s2)),
            Method::Overlap => Distance::Normalized(textdist::overlap(s1, s2)),
            Method::Roberts => Distance::Normalized(textdist::roberts(s1, s2)),
            Method::SorensenDice => Distance::Normalized(textdist::sorensen_dice(s1, s2)),
            Method::Tversky => Distance::Normalized(textdist::tversky(s1, s2)),
            Method::LCSSeq => Distance::Unnormalized(textdist::lcsseq(s1, s2)),
            Method::LCSStr => Distance::Unnormalized(textdist::lcsstr(s1, s2)),
            Method::RatcliffObershelp => Distance::Normalized(
                textdist::ratcliff_obershelp(s1, s2),
            ),
            Method::Prefix => Distance::Unnormalized(naive::prefix(s1, s2)),
            Method::Suffix => Distance::Unnormalized(naive::suffix(s1, s2)),
            Method::Length => Distance::Unnormalized(naive::length(s1, s2)),
        }
    }

    /// The unnormalized subsequence of the first `n` catalogue entries, in
    /// catalogue order.
    pub open spec fn unnormalized_prefix(n: int) -> Seq<Method> {
        Method::all_spec().take(n).filter(|m: Method| !m.is_normalized_spec())
    }

    /// The normalized subsequence of the first `n` catalogue entries, in
    /// catalogue order.
    pub open spec fn normalized_prefix(n: int) -> Seq<Method> {
        Method::all_spec().take(n).filter(|m: Method| m.is_normalized_spec())
    }

    /// The metrics whose native output is an unnormalized count, in catalogue
    /// order.
    pub open spec fn unnormalized_spec() -> Seq<Method> {
        Method::unnormalized_prefix(Method::all_spec().len() as int)
    }

    /// The metrics whose native output is already in [0,1], in catalogue
    /// order.
    pub open spec fn normalized_spec() -> Seq<Method> {
        Method::normalized_prefix(Method::all_spec().len() as int)
    }

    /// Extending the catalogue prefix by one entry extends its unnormalized
    /// subsequence exactly when that entry is unnormalized.
    pub proof fn lemma_unnormalized_prefix_step(i: int)
        requires
            0 <= i < Method::all_spec().len(),
        ensures
            Method::unnormalized_prefix(i + 1) == if !Method::all_spec()[i].is_normalized_spec() {
                Method::unnormalized_prefix(i).push(Method::all_spec()[i])
            } else {
                Method::unnormalized_prefix(i)
            },
    {
        reveal(Seq::filter);
        let s = Method::all_spec().take(i + 1);
        assert(s.drop_last() =~= Method::all_spec().take(i));
        assert(s.last() == Method::all_spec()[i]);
    }

    /// Extending the catalogue prefix by one entry extends its normalized
    /// subsequence exactly when that entry is normalized.
    pub proof fn lemma_normalized_prefix_step(i: int)
        requires
            0 <= i < Method::all_spec().len(),
        ensures
            Method::normalized_prefix(i + 1) == if Method::all_spec()[i].is_normalized_spec() {
                Method::normalized_prefix(i).push(Method::all_spec()[i])
            } else {
                Method::normalized_prefix(i)
            },
    {
        reveal(Seq::filter);
        let s = Method::all_spec().take(i + 1);
        assert(s.drop_last() =~= Method::all_spec().take(i));
        assert(s.last() == Method::all_spec()[i]);
    }

    /// The metrics whose native output is an unnormalized count, in catalogue
    /// order.
    pub fn unnormalized() -> (r: Vec<Method>)
        ensures
            r@ == Method::unnormalized_spec(),
    {
        let all_v = Method::all();
        let mut r: Vec<Method> = Vec::new();
        let mut i: usize = 0;
        proof {
            reveal(Seq::filter);
            assert(Method::unnormalized_prefix(0) =~= Seq::<Method>::empty());
        }
        while i < all_v.len()
            invariant
                i <= all_v.len(),
                all_v@ == Method::all_spec(),
                r@ == Method::unnormalized_prefix(i as int),
            decreases all_v.len() - i,
        {
            let m = all_v[i];
            proof {
                Method::lemma_unnormalized_prefix_step(i as int);
            }
            if !m.is_normalized() {
                r.push(m);
            }
            i += 1;
        }
        proof {
            assert(Method::all_spec().take(Method::all_spec().len() as int)
                =~= Method::all_spec());
        }
        r
    }

    /// The metrics whose native output is already in [0,1], in catalogue
    /// order.
    pub fn normalized() -> (r: Vec<Method>)
        ensures
            r@ == Method::normalized_spec(),
    {
        let all_v = Method::all();
        let mut r: Vec<Method> = Vec::new();
        let mut i: usize = 0;
        proof {
            reveal(Seq::filter);
            assert(Method::normalized_prefix(0) =~= Seq::<Method>::empty());
        }
        while i < all_v.len()
            invariant
                i <= all_v.len(),
                all_v@ == Method::all_spec(),
                r@ == Method::normalized_prefix(i as int),
            decreases all_v.len() - i,
        {
            let m = all_v[i];
            proof {
                Method::lemma_normalized_prefix_step(i as int);
            }
            if m.is_normalized() {
                r.push(m);
            }
            i += 1;
        }
        proof {
            assert(Method::all_spec().take(Method::all_spec().len() as int)
                =~= Method::all_spec());
        }
        r
    }
}

} // verus!
