//! Sample-set validation and the bit-pattern predicates, held against
//! the host's own binary64 arithmetic.

use crow::errors::Error;
use crow::fbits::{f64_bits_from_uint, f64_bits_is_positive, f64_bits_lt};
use crow::samples::{validate_samples, CurvatureSample};

fn sample(s: f64, ka: f64, kb: f64) -> CurvatureSample {
    CurvatureSample { arc_length: s.to_bits(), ka: ka.to_bits(), kb: kb.to_bits() }
}

fn ds(v: f64) -> u64 {
    v.to_bits()
}

#[test]
fn empty_sample_set_is_invalid() {
    let samples: Vec<CurvatureSample> = Vec::new();
    assert_eq!(validate_samples(&samples, ds(1.0)), Err(Error::InvalidInput));
}

#[test]
fn non_positive_step_is_invalid() {
    let samples = vec![sample(0.0, 0.0, 0.0)];
    assert_eq!(validate_samples(&samples, ds(0.0)), Err(Error::InvalidInput));
    assert_eq!(validate_samples(&samples, ds(-0.0)), Err(Error::InvalidInput));
    assert_eq!(validate_samples(&samples, ds(-1.0)), Err(Error::InvalidInput));
    assert_eq!(validate_samples(&samples, ds(f64::NAN)), Err(Error::InvalidInput));
    assert_eq!(validate_samples(&samples, ds(1.0)), Ok(()));
    assert_eq!(validate_samples(&samples, ds(0.05)), Ok(()));
}

#[test]
fn non_monotonic_arc_length_is_invalid() {
    let decreasing = vec![sample(0.0, 0.1, 0.0), sample(2.0, 0.2, 0.0), sample(1.0, 0.3, 0.0)];
    assert_eq!(validate_samples(&decreasing, ds(0.1)), Err(Error::InvalidInput));
    let repeated = vec![sample(0.0, 0.1, 0.0), sample(0.0, 0.2, 0.0)];
    assert_eq!(validate_samples(&repeated, ds(0.1)), Err(Error::InvalidInput));
    let with_nan = vec![sample(0.0, 0.1, 0.0), sample(f64::NAN, 0.2, 0.0), sample(1.0, 0.3, 0.0)];
    assert_eq!(validate_samples(&with_nan, ds(0.1)), Err(Error::InvalidInput));
}

#[test]
fn increasing_sample_set_is_accepted() {
    let samples = vec![
        sample(0.0, 0.0, 0.0),
        sample(4.66, 0.21, 0.0),
        sample(9.36, 0.27, 0.0),
        sample(14.82, 0.086, 0.0),
        sample(19.72, -0.0093, 0.0),
        sample(24.74, -0.091, 0.0),
        sample(29.95, -0.079, 0.0),
    ];
    assert_eq!(validate_samples(&samples, ds(0.1)), Ok(()));
}

#[test]
fn bit_pattern_order_matches_the_host_order() {
    let values = [
        f64::NEG_INFINITY,
        -1.0e308,
        -2.5,
        -1.0,
        -1.0e-3,
        -f64::MIN_POSITIVE,
        -0.0,
        0.0,
        f64::MIN_POSITIVE,
        1.0e-3,
        0.05,
        1.0,
        2.5,
        1.0e308,
        f64::INFINITY,
        f64::NAN,
    ];
    for &a in values.iter() {
        for &b in values.iter() {
            assert_eq!(
                f64_bits_lt(a.to_bits(), b.to_bits()),
                a < b,
                "order of {a} and {b}",
            );
        }
    }
}

#[test]
fn bit_pattern_positivity_matches_the_host() {
    let values = [
        f64::NEG_INFINITY,
        -1.0,
        -0.0,
        0.0,
        f64::MIN_POSITIVE,
        0.05,
        1.0,
        f64::INFINITY,
        f64::NAN,
    ];
    for &v in values.iter() {
        assert_eq!(f64_bits_is_positive(v.to_bits()), v > 0.0, "sign of {v}");
    }
}

#[test]
fn integer_bit_patterns_match_the_host_encoding() {
    for k in 1u64..=100 {
        assert_eq!(f64_bits_from_uint(k), (k as f64).to_bits(), "encoding of {k}");
    }
    for &k in [127, 1024, 4095, 1 << 40, (1 << 52) - 1].iter() {
        assert_eq!(f64_bits_from_uint(k), (k as f64).to_bits(), "encoding of {k}");
    }
}
