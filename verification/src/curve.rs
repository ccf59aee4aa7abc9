//! The reconstructed curve data model.
//!
//! A point is an absolute 3D position; a curve is an immutable,
//! timestamped snapshot of ordered points, created once per dispatch
//! cycle.  All coordinates are IEEE 754 binary64 bit patterns (see
//! `fbits`).

use vstd::prelude::*;

verus! {

/// An absolute reconstructed position; each coordinate is the bit
/// pattern of a binary64 value.
#[derive(Clone, Copy, Debug, PartialEq, Eq, Structural)]
pub struct Point {
    pub x: u64,
    pub y: u64,
    pub z: u64,
}

/// A timestamped snapshot of a reconstructed curve.
pub struct Curve {
    /// Epoch milliseconds at which the snapshot was taken.
    pub timestamp: u64,
    /// The reconstructed positions, in arc-length order.
    pub points: Vec<Point>,
}

impl Curve {
    /// Stamps `points` into a snapshot taken at `timestamp`.
    pub fn new(timestamp: u64, points: Vec<Point>) -> (r: Curve)
        ensures
            r.timestamp == timestamp,
            r.points@ == points@,
    {
        Curve { timestamp, points }
    }
}

} // verus!
