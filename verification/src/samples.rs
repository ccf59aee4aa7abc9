//! Curvature sample sets: the raw input of the reconstruction
//! pipeline.
//!
//! A sample pairs an arc length with the two orthogonal curvature
//! components at that arc length; all three are IEEE 754 binary64 bit
//! patterns (see `fbits`).  A sample set is acceptable only when it is
//! non-empty and strictly increasing in arc length, and only together
//! with a positive finite resampling step; anything else is an input
//! error, never silently tolerated.

use vstd::prelude::*;
use crate::errors::Error;
use crate::fbits::{f64_bits_is_positive, f64_bits_lt, is_positive_bits, lt_bits};

verus! {

/// One curvature sample: `(arc_length, ka, kb)`, each the bit pattern
/// of a binary64 value.
#[derive(Clone, Copy, Debug, PartialEq, Eq, Structural)]
pub struct CurvatureSample {
    pub arc_length: u64,
    pub ka: u64,
    pub kb: u64,
}

/// Whether the arc lengths of `s` are strictly increasing (which also
/// rules NaN arc lengths out).
pub open spec fn strictly_increasing(s: Seq<CurvatureSample>) -> bool {
    forall|i: int| 0 <= i && i + 1 < s.len() ==> lt_bits(#[trigger] s[i].arc_length, s[i + 1].arc_length)
}

/// Whether `s` and the step `ds` are an acceptable reconstruction
/// input: a non-empty sample set, strictly increasing in arc length,
/// with a step above zero.
pub open spec fn valid_input(s: Seq<CurvatureSample>, ds: u64) -> bool {
    &&& s.len() > 0
    &&& is_positive_bits(ds)
    &&& strictly_increasing(s)
}

/// Accepts or rejects a sample set together with its resampling step:
/// `InvalidInput` exactly when the set is empty, the step is not above
/// zero, or some arc length does not strictly increase.
pub fn validate_samples(samples: &Vec<CurvatureSample>, ds: u64) -> (r: Result<(), Error>)
    ensures
        r is Ok <==> valid_input(samples@, ds),
        r is Err ==> r == Err::<(), Error>(Error::InvalidInput),
{
    if samples.len() == 0 {
        return Err(Error::InvalidInput);
    }
    if !f64_bits_is_positive(ds) {
        return Err(Error::InvalidInput);
    }
    let n = samples.len();
    let mut i: usize = 0;
    while i + 1 < n
        invariant
            n == samples@.len(),
            i < n,
            forall|j: int| 0 <= j && j + 1 <= i ==> lt_bits(#[trigger] samples@[j].arc_length, samples@[j + 1].arc_length),
        decreases n - i,
    {
        if !f64_bits_lt(samples[i].arc_length, samples[i + 1].arc_length) {
            return Err(Error::InvalidInput);
        }
        i += 1;
    }
    Ok(())
}

} // verus!
