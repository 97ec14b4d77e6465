//! Trusted boundary to the `textdistance` crate: every algorithm whose
//! numerics this library does not restate is called here, one wrapper per
//! outside function.
//!
//! The integer-valued algorithms with short textbook definitions carry exact
//! contracts over the spec functions of `algospec`. The other algorithms that
//! are pure functions of the two inputs alone have their results given names;
//! a real-valued result in [0,1] is carried as its IEEE 754 bit pattern and
//! never computed with inside the library. Two algorithms accumulate floats
//! over hash-map iteration order, so their bit-level output varies from call
//! to call: of those only the outcome class is stated.

use vstd::prelude::*;
use crate::algospec::bag_spec;
use crate::algospec::hamming_spec;
use crate::algospec::lcsseq_spec;
use crate::algospec::lcsstr_spec;
use crate::algospec::lev_spec;

verus! {

/// What `textdistance::str::damerau_levenshtein` (unrestricted) returns.
pub uninterp spec fn damerau_levenshtein_of(a: Seq<char>, b: Seq<char>) -> usize;

/// What `textdistance::str::sift4_common` returns.
pub uninterp spec fn sift4_common_of(a: Seq<char>, b: Seq<char>) -> usize;

/// What `textdistance::str::sift4_simple` returns.
pub uninterp spec fn sift4_simple_of(a: Seq<char>, b: Seq<char>) -> usize;

/// What `textdistance::str::smith_waterman` returns.
pub uninterp spec fn smith_waterman_of(a: Seq<char>, b: Seq<char>) -> usize;

/// IEEE 754 bit pattern of what `textdistance::str::jaro` returns.
pub uninterp spec fn jaro_bits_of(a: Seq<char>, b: Seq<char>) -> u64;

/// IEEE 754 bit pattern of what `textdistance::str::jaro_winkler` returns.
pub uninterp spec fn jaro_winkler_bits_of(a: Seq<char>, b: Seq<char>) -> u64;

/// IEEE 754 bit pattern of what `textdistance::str::cosine` returns.
pub uninterp spec fn cosine_bits_of(a: Seq<char>, b: Seq<char>) -> u64;

/// IEEE 754 bit pattern of what `textdistance::str::jaccard` returns.
pub uninterp spec fn jaccard_bits_of(a: Seq<char>, b: Seq<char>) -> u64;

/// IEEE 754 bit pattern of what `textdistance::str::overlap` returns.
pub uninterp spec fn overlap_bits_of(a: Seq<char>, b: Seq<char>) -> u64;

/// IEEE 754 bit pattern of what `textdistance::str::sorensen_dice` returns.
pub uninterp spec fn sorensen_dice_bits_of(a: Seq<char>, b: Seq<char>) -> u64;

/// IEEE 754 bit pattern of what `textdistance::str::tversky` returns.
pub uninterp spec fn tversky_bits_of(a: Seq<char>, b: Seq<char>) -> u64;

/// IEEE 754 bit pattern of what `textdistance::str::ratcliff_obershelp` returns.
pub uninterp spec fn ratcliff_obershelp_bits_of(a: Seq<char>, b: Seq<char>) -> u64;

/// Relies on `textdistance::str::hamming` (default, non-truncating): the
/// number of differing positions in the common range plus the length excess.
#[verifier::external_body]
pub(crate) fn hamming(s1: &str, s2: &str) -> (r: usize)
    ensures
        r as nat == hamming_spec(s1@, s2@),
{
    textdistance::str::hamming(s1, s2)
}

/// Relies on `textdistance::str::levenshtein` (default unit costs): the
/// textbook Levenshtein edit distance.
#[verifier::external_body]
pub(crate) fn levenshtein(s1: &str, s2: &str) -> (r: usize)
    ensures
        r as nat == lev_spec(s1@, s2@),
{
    textdistance::str::levenshtein(s1, s2)
}

/// Relies on `textdistance::str::lcsseq`: the length of the longest common
/// subsequence.
#[verifier::external_body]
pub(crate) fn lcsseq(s1: &str, s2: &str) -> (r: usize)
    ensures
        r as nat == lcsseq_spec(s1@, s2@),
{
    textdistance::str::lcsseq(s1, s2)
}

/// Relies on `textdistance::str::lcsstr`: the length of the longest common
/// contiguous substring.
#[verifier::external_body]
pub(crate) fn lcsstr(s1: &str, s2: &str) -> (r: usize)
    ensures
        r as nat == lcsstr_spec(s1@, s2@),
{
    textdistance::str::lcsstr(s1, s2)
}

/// Relies on `textdistance::str::bag`: the larger of the two one-sided
/// multiset difference sizes of the character bags.
#[verifier::external_body]
pub(crate) fn bag(s1: &str, s2: &str) -> (r: usize)
    ensures
        r as nat == bag_spec(s1@, s2@),
{
    textdistance::str::bag(s1, s2)
}

/// Relies on `textdistance::str::damerau_levenshtein`: a pure function of the
/// two inputs; a distance, so identical inputs give zero.
#[verifier::external_body]
pub(crate) fn damerau_levenshtein(s1: &str, s2: &str) -> (r: usize)
    ensures
        r == damerau_levenshtein_of(s1@, s2@),
        s1@ == s2@ ==> r == 0,
{
    textdistance::str::damerau_levenshtein(s1, s2)
}

/// Relies on `textdistance::str::sift4_common`: a pure function of the two
/// inputs; a distance, so identical inputs give zero.
#[verifier::external_body]
pub(crate) fn sift4_common(s1: &str, s2: &str) -> (r: usize)
    ensures
        r == sift4_common_of(s1@, s2@),
        s1@ == s2@ ==> r == 0,
{
    textdistance::str::sift4_common(s1, s2)
}

/// Relies on `textdistance::str::sift4_simple`: a pure function of the two
/// inputs; a distance, so identical inputs give zero.
#[verifier::external_body]
pub(crate) fn sift4_simple(s1: &str, s2: &str) -> (r: usize)
    ensures
        r == sift4_simple_of(s1@, s2@),
        s1@ == s2@ ==> r == 0,
{
    textdistance::str::sift4_simple(s1, s2)
}

/// Relies on `textdistance::str::smith_waterman` (default costs: gap 1,
/// match 1, mismatch 0): a pure function of the two inputs; a similarity, so
/// identical inputs score their full length.
#[verifier::external_body]
pub(crate) fn smith_waterman(s1: &str, s2: &str) -> (r: usize)
    ensures
        r == smith_waterman_of(s1@, s2@),
        s1@ == s2@ ==> r as nat == s1@.len(),
{
    textdistance::str::smith_waterman(s1, s2)
}

/// Relies on `textdistance::str::jaro`: a pure function of the two inputs,
/// returning a similarity in [0,1] carried here as its bit pattern.
#[verifier::external_body]
pub(crate) fn jaro(s1: &str, s2: &str) -> (r: u64)
    ensures
        r == jaro_bits_of(s1@, s2@),
{
    textdistance::str::jaro(s1, s2).to_bits()
}

/// Relies on `textdistance::str::jaro_winkler`: a pure function of the two
/// inputs, returning a similarity in [0,1] carried here as its bit pattern.
#[verifier::external_body]
pub(crate) fn jaro_winkler(s1: &str, s2: &str) -> (r: u64)
    ensures
        r == jaro_winkler_bits_of(s1@, s2@),
{
    textdistance::str::jaro_winkler(s1, s2).to_bits()
}

/// Relies on `textdistance::str::cosine`: a pure function of the two inputs,
/// returning a similarity in [0,1] carried here as its bit pattern.
#[verifier::external_body]
pub(crate) fn cosine(s1: &str, s2: &str) -> (r: u64)
    ensures
        r == cosine_bits_of(s1@, s2@),
{
    textdistance::str::cosine(s1, s2).to_bits()
}

/// Relies on `textdistance::str::entropy_ncd`: a distance in [0,1], carried
/// here as its bit pattern. It accumulates entropies over hash-map iteration
/// order, so its bit-level output is not a function of the inputs alone and
/// nothing is claimed of it.
#[verifier::external_body]
pub(crate) fn entropy_ncd(s1: &str, s2: &str) -> u64 {
    textdistance::str::entropy_ncd(s1, s2).to_bits()
}

/// Relies on `textdistance::str::jaccard`: a pure function of the two inputs,
/// returning a similarity in [0,1] carried here as its bit pattern.
#[verifier::external_body]
pub(crate) fn jaccard(s1: &str, s2: &str) -> (r: u64)
    ensures
        r == jaccard_bits_of(s1@, s2@),
{
    textdistance::str::jaccard(s1, s2).to_bits()
}

/// Relies on `textdistance::str::overlap`: a pure function of the two inputs,
/// returning a similarity in [0,1] carried here as its bit pattern.
#[verifier::external_body]
pub(crate) fn overlap(s1: &str, s2: &str) -> (r: u64)
    ensures
        r == overlap_bits_of(s1@, s2@),
{
    textdistance::str::overlap(s1, s2).to_bits()
}

/// Relies on `textdistance::str::roberts`: a similarity in [0,1], carried
/// here as its bit pattern. It accumulates weights over hash-map iteration
/// order, so its bit-level output is not a function of the inputs alone and
/// nothing is claimed of it.
#[verifier::external_body]
pub(crate) fn roberts(s1: &str, s2: &str) -> u64 {
    textdistance::str::roberts(s1, s2).to_bits()
}

/// Relies on `textdistance::str::sorensen_dice`: a pure function of the two
/// inputs, returning a similarity in [0,1] carried here as its bit pattern.
#[verifier::external_body]
pub(crate) fn sorensen_dice(s1: &str, s2: &str) -> (r: u64)
    ensures
        r == sorensen_dice_bits_of(s1@, s2@),
{
    textdistance::str::sorensen_dice(s1, s2).to_bits()
}

/// Relies on `textdistance::str::tversky`: a pure function of the two inputs,
/// returning a similarity in [0,1] carried here as its bit pattern.
#[verifier::external_body]
pub(crate) fn tversky(s1: &str, s2: &str) -> (r: u64)
    ensures
        r == tversky_bits_of(s1@, s2@),
{
    textdistance::str::tversky(s1, s2).to_bits()
}

/// Relies on `textdistance::str::ratcliff_obershelp`: a pure function of the
/// two inputs, returning a similarity in [0,1] carried here as its bit
/// pattern.
#[verifier::external_body]
pub(crate) fn ratcliff_obershelp(s1: &str, s2: &str) -> (r: u64)
    ensures
        r == ratcliff_obershelp_bits_of(s1@, s2@),
{
    textdistance::str::ratcliff_obershelp(s1, s2).to_bits()
}

} // verus!
