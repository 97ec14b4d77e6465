//! The registry: batch computation over the catalogue, pairing each metric's
//! display name with its (raw or normalized) score for one input pair.

use vstd::prelude::*;
use vstd::string::StrSliceExecFns;
use crate::methods::Method;
use crate::scores::Distance;
use crate::scores::Score;

verus! {

/// One output unit handed to consumers: a display name and a final score.
pub struct NamedDistance {
    pub name: String,
    pub distance: Score,
}

impl NamedDistance {
    /// Whether `s` is the raw score of a possible outcome of one metric on
    /// one pair: the native outcome with no scaling applied.
    pub open spec fn raw_rel(m: Method, a: Seq<char>, b: Seq<char>, s: Score) -> bool {
        exists|d: Distance| #[trigger] m.calculate_rel(a, b, d) && s == d.as_score_spec()
    }

    /// Whether `s` is the normalized score of a possible outcome of one
    /// metric on one pair: the native outcome brought onto the common scale,
    /// the scale being the character length of the second (reference) input.
    pub open spec fn normalized_rel(m: Method, a: Seq<char>, b: Seq<char>, s: Score) -> bool {
        exists|d: Distance|
            #[trigger] m.calculate_rel(a, b, d) && s == d.normalize_spec(b.len() as usize)
    }

    /// Apply one metric and surface its raw score under its display name.
    pub fn new(m: Method, s1: &str, s2: &str) -> (r: NamedDistance)
        ensures
            r.name@ == m.name_spec(),
            NamedDistance::raw_rel(m, s1@, s2@, r.distance),
    {
        let d = m.calculate(s1, s2);
        let r = NamedDistance { name: m.name().to_owned(), distance: d.as_score() };
        proof {
            assert(m.calculate_rel(s1@, s2@, d));
        }
        r
    }

    /// Apply one metric and surface its normalized score under its display
    /// name; the scale is the character length of `s2`.
    pub fn new_normalized(m: Method, s1: &str, s2: &str) -> (r: NamedDistance)
        ensures
            r.name@ == m.name_spec(),
            NamedDistance::normalized_rel(m, s1@, s2@, r.distance),
    {
        let scale = s2.unicode_len();
        let d = m.calculate(s1, s2);
        let r = NamedDistance { name: m.name().to_owned(), distance: d.normalize(scale) };
        proof {
            assert(m.calculate_rel(s1@, s2@, d));
        }
        r
    }
}

/// For every metric in catalogue order, compute and normalize against the
/// character length of `s2`, pairing each score with the metric's display
/// name.
pub fn calculate_all(s1: &str, s2: &str) -> (r: Vec<NamedDistance>)
    ensures
        r@.len() == Method::all_spec().len(),
        forall|i: int|
            0 <= i < r@.len() ==> (#[trigger] r@[i]).name@ == Method::all_spec()[i].name_spec()
                && NamedDistance::normalized_rel(
                Method::all_spec()[i],
                s1@,
                s2@,
                r@[i].distance,
            ),
{
    let ms = Method::all();
    let mut r: Vec<NamedDistance> = Vec::new();
    let mut i: usize = 0;
    while i < ms.len()
        invariant
            i <= ms.len(),
            ms@ == Method::all_spec(),
            r@.len() == i as int,
            forall|j: int|
                0 <= j < i ==> (#[trigger] r@[j]).name@ == Method::all_spec()[j].name_spec()
                    && NamedDistance::normalized_rel(
                    Method::all_spec()[j],
                    s1@,
                    s2@,
                    r@[j].distance,
                ),
        decreases ms.len() - i,
    {
        let m = ms[i];
        r.push(NamedDistance::new_normalized(m, s1, s2));
        i += 1;
    }
    r
}

/// For every metric whose native output is an unnormalized count, in
/// catalogue order, surface the raw count under the metric's display name.
pub fn calculate_unnormalized(s1: &str, s2: &str) -> (r: Vec<NamedDistance>)
    ensures
        r@.len() == Method::unnormalized_spec().len(),
        forall|i: int|
            0 <= i < r@.len() ==> (#[trigger] r@[i]).name@
                == Method::unnormalized_spec()[i].name_spec() && NamedDistance::raw_rel(Method::unnormalized_spec()[i], s1@, s2@, r@[i].distance),
{
    let ms = Method::unnormalized();
    let mut r: Vec<NamedDistance> = Vec::new();
    let mut i: usize = 0;
    while i < ms.len()
        invariant
            i <= ms.len(),
            ms@ == Method::unnormalized_spec(),
            r@.len() == i as int,
            forall|j: int|
                0 <= j < i ==> (#[trigger] r@[j]).name@
                    == Method::unnormalized_spec()[j].name_spec() && NamedDistance::raw_rel(Method::unnormalized_spec()[j], s1@, s2@, r@[j].distance),
        decreases ms.len() - i,
    {
        let m = ms[i];
        r.push(NamedDistance::new(m, s1, s2));
        i += 1;
    }
    r
}

/// For every metric whose native output is already in [0,1], in catalogue
/// order, surface the raw score under the metric's display name.
pub fn calculate_normalized(s1: &str, s2: &str) -> (r: Vec<NamedDistance>)
    ensures
        r@.len() == Method::normalized_spec().len(),
        forall|i: int|
            0 <= i < r@.len() ==> (#[trigger] r@[i]).name@
                == Method::normalized_spec()[i].name_spec() && NamedDistance::raw_rel(Method::normalized_spec()[i], s1@, s2@, r@[i].distance),
{
    let ms = Method::normalized();
    let mut r: Vec<NamedDistance> = Vec::new();
    let mut i: usize = 0;
    while i < ms.len()
        invariant
            i <= ms.len(),
            ms@ == Method::normalized_spec(),
            r@.len() == i as int,
            forall|j: int|
                0 <= j < i ==> (#[trigger] r@[j]).name@
                    == Method::normalized_spec()[j].name_spec() && NamedDistance::raw_rel(Method::normalized_spec()[j], s1@, s2@, r@[j].distance),
        decreases ms.len() - i,
    {
        let m = ms[i];
        r.push(NamedDistance::new(m, s1, s2));
        i += 1;
    }
    r
}

} // verus!
