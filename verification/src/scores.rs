//! Score values: a metric's native outcome (`Distance`) and the uniform,
//! comparable value handed to consumers (`Score`).
//!
//! Metrics whose native output is already in [0,1] produce real numbers; those
//! values are carried as their IEEE 754 bit patterns and never computed with
//! here, only passed through unchanged. Metrics whose native output is a
//! non-negative count produce integers, which normalization turns into an
//! exact ratio over a caller-supplied scale.

use vstd::prelude::*;

verus! {

/// A final score in a consumer-chosen scale: either the bit pattern of a
/// metric's native real-valued output, or an exact ratio of two integers.
#[derive(Clone, Copy, PartialEq, Eq, Structural, Debug)]
pub enum Score {
    /// The IEEE 754 bit pattern of a native real-valued score in [0,1],
    /// carried through unchanged. A consumer reconstructs the real number
    /// from the bits.
    Native(u64),
    /// An exact non-negative ratio: a count over a scale. The denominator is
    /// always positive.
    Scaled(usize, usize),
}

impl Score {
    /// A well-formed ratio never carries a zero denominator.
    pub open spec fn wf(self) -> bool {
        match self {
            Score::Native(_) => true,
            Score::Scaled(_, den) => den > 0,
        }
    }
}

/// The outcome of applying one metric to one string pair: either a native
/// real-valued score already in [0,1] (carried as its bit pattern), or an
/// unnormalized non-negative count such as an edit distance or a length.
#[derive(Clone, Copy, PartialEq, Eq, Structural, Debug)]
pub enum Distance {
    /// A native real-valued score in [0,1], as its IEEE 754 bit pattern.
    Normalized(u64),
    /// A non-negative count whose natural scale depends on the input length.
    Unnormalized(usize),
}

impl Distance {
    /// What `normalize` returns: a `Normalized` value passes through
    /// unchanged and the scale is ignored; an `Unnormalized` count is divided
    /// by the scale, and a zero scale yields the ratio zero rather than a
    /// division by zero.
    pub open spec fn normalize_spec(self, max: usize) -> Score {
        match self {
            Distance::Normalized(bits) => Score::Native(bits),
            Distance::Unnormalized(count) => if max == 0 {
                Score::Scaled(0, 1)
            } else {
                Score::Scaled(count, max)
            },
        }
    }

    /// Bring this outcome onto the common scale: pass a `Normalized` value
    /// through unchanged, divide an `Unnormalized` count by `max`, and define
    /// the zero-scale case as zero.
    pub fn normalize(&self, max: usize) -> (r: Score)
        ensures
            r == self.normalize_spec(max),
            r.wf(),
    {
        match *self {
            Distance::Normalized(bits) => Score::Native(bits),
            Distance::Unnormalized(count) => if max == 0 {
                Score::Scaled(0, 1)
            } else {
                Score::Scaled(count, max)
            },
        }
    }

    /// What `as_score` returns: the raw outcome with no scaling, a count
    /// surfacing as the ratio count over one.
    pub open spec fn as_score_spec(self) -> Score {
        match self {
            Distance::Normalized(bits) => Score::Native(bits),
            Distance::Unnormalized(count) => Score::Scaled(count, 1),
        }
    }

    /// The raw outcome as a `Score` without any scaling: a count surfaces as
    /// the exact ratio count over one.
    pub fn as_score(&self) -> (r: Score)
        ensures
            r == self.as_score_spec(),
            r.wf(),
    {
        match *self {
            Distance::Normalized(bits) => Score::Native(bits),
            Distance::Unnormalized(count) => Score::Scaled(count, 1),
        }
    }
}

impl From<usize> for Distance {
    /// A plain count is an unnormalized outcome.
    fn from(value: usize) -> (r: Distance) {
        Distance::Unnormalized(value)
    }
}

impl vstd::std_specs::convert::FromSpecImpl<usize> for Distance {
    open spec fn obeys_from_spec() -> bool {
        true
    }

    open spec fn from_spec(value: usize) -> Distance {
        Distance::Unnormalized(value)
    }
}

} // verus!
