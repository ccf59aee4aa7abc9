//! A mock curve source: serves synthetic curves for clients to test
//! against, without any reconstruction.

use vstd::prelude::*;
use crate::curve::{Curve, Point};
use crate::fbits::{f64_bits_from_uint, f64_bits_of_uint};

verus! {

/// A curve source that answers every request with the same synthetic
/// diagonal curve, freshly timestamped.
pub struct MockCurveService {}

impl MockCurveService {
    /// A mock service.
    pub fn new() -> (r: MockCurveService) {
        MockCurveService {  }
    }

    /// The synthetic curve at `timestamp`: the nineteen points
    /// `(k, k, k)` for `k` from 1 to 19, as binary64 bit patterns.
    pub fn get_curve(&self, timestamp: u64) -> (r: Curve)
        ensures
            r.timestamp == timestamp,
            r.points@.len() == 19,
            forall|i: int| 0 <= i < 19 ==> #[trigger] r.points@[i] == (Point {
                x: f64_bits_of_uint((i + 1) as nat),
                y: f64_bits_of_uint((i + 1) as nat),
                z: f64_bits_of_uint((i + 1) as nat),
            }),
    {
        let mut points: Vec<Point> = Vec::new();
        let mut k: u64 = 1;
        while k < 20
            invariant
                1 <= k <= 20,
                points@.len() == k - 1,
                forall|i: int| 0 <= i < k - 1 ==> #[trigger] points@[i] == (Point {
                    x: f64_bits_of_uint((i + 1) as nat),
                    y: f64_bits_of_uint((i + 1) as nat),
                    z: f64_bits_of_uint((i + 1) as nat),
                }),
            decreases 20 - k,
        {
            let c = f64_bits_from_uint(k);
            points.push(Point { x: c, y: c, z: c });
            k += 1;
        }
        Curve::new(timestamp, points)
    }
}

} // verus!
