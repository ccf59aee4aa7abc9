//! The error taxonomy of the core.

use vstd::prelude::*;

verus! {

/// Everything that can go wrong inside the core.
///
/// - `InvalidInput`: empty or non-monotonic sample set, or a step `ds`
///   that is not a positive finite number.
/// - `NotFound`: an unknown or already removed channel id.
/// - `NumericDegeneracy`: frame integration cannot proceed near a
///   singular orientation.
/// - `DecodeError`: a malformed inbound payload.
#[derive(Clone, Copy, Debug, PartialEq, Eq, Structural)]
pub enum Error {
    InvalidInput,
    NotFound,
    NumericDegeneracy,
    DecodeError,
}

} // verus!
