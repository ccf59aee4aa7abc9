//! IEEE 754 binary64 scalars, represented by their bit patterns.
//!
//! The core never computes with floating-point values itself; every
//! scalar that crosses its boundary is the `u64` bit pattern of a
//! binary64 number.  The predicates here give those bit patterns their
//! standard meaning: a sign bit, an 11-bit exponent and a 52-bit
//! fraction, NaN when the exponent is all ones and the fraction is not
//! zero, and the usual total order on everything that is not NaN
//! (where `-0.0 == +0.0`).

use vstd::prelude::*;
use vstd::arithmetic::power2::{lemma2_to64, lemma_pow2_adds, lemma_pow2_pos,
    lemma_pow2_strictly_increases, pow2};

verus! {

/// The sign bit of the binary64 value `b` encodes.
pub open spec fn sign_bit(b: u64) -> bool {
    b >> 63 == 1
}

/// The magnitude (exponent and fraction) bits of `b`.
pub open spec fn magnitude(b: u64) -> u64 {
    b & 0x7fff_ffff_ffff_ffff
}

/// `b` encodes a NaN: exponent all ones, fraction not zero.
pub open spec fn is_nan_bits(b: u64) -> bool {
    magnitude(b) > 0x7ff0_0000_0000_0000
}

/// `b` encodes a zero (`+0.0` or `-0.0`).
pub open spec fn is_zero_bits(b: u64) -> bool {
    magnitude(b) == 0
}

/// The strict `<` order of the two binary64 values encoded by `a` and
/// `b`.  False whenever either is NaN; the two zeros are equal; for a
/// common sign the magnitude bits order the values, with the order
/// reversed below zero.  Infinities take part in the order as the
/// largest magnitudes.
pub open spec fn lt_bits(a: u64, b: u64) -> bool {
    if is_nan_bits(a) || is_nan_bits(b) {
        false
    } else if is_zero_bits(a) && is_zero_bits(b) {
        false
    } else if sign_bit(a) != sign_bit(b) {
        sign_bit(a)
    } else if !sign_bit(a) {
        magnitude(a) < magnitude(b)
    } else {
        magnitude(a) > magnitude(b)
    }
}

/// `b` encodes a (finite or infinite) number strictly above zero.
pub open spec fn is_positive_bits(b: u64) -> bool {
    !is_nan_bits(b) && !sign_bit(b) && magnitude(b) != 0
}

/// Decides `lt_bits` on two bit patterns.
pub fn f64_bits_lt(a: u64, b: u64) -> (r: bool)
    ensures
        r == lt_bits(a, b),
{
    let mag_a: u64 = a & 0x7fff_ffff_ffff_ffff;
    let mag_b: u64 = b & 0x7fff_ffff_ffff_ffff;
    let sign_a: bool = (a >> 63) == 1;
    let sign_b: bool = (b >> 63) == 1;
    if mag_a > 0x7ff0_0000_0000_0000 || mag_b > 0x7ff0_0000_0000_0000 {
        false
    } else if mag_a == 0 && mag_b == 0 {
        false
    } else if sign_a != sign_b {
        sign_a
    } else if !sign_a {
        mag_a < mag_b
    } else {
        mag_a > mag_b
    }
}

/// The largest `e` with `pow2(e) <= k`.
pub open spec fn log2_floor(k: nat) -> nat
    recommends
        k >= 1,
    decreases k,
{
    if k < 2 {
        0
    } else {
        1 + log2_floor(k / 2)
    }
}

/// `log2_floor` names the power-of-two window that holds `k`.
pub proof fn lemma_log2_floor_bounds(k: nat)
    requires
        k >= 1,
    ensures
        pow2(log2_floor(k)) <= k < pow2(log2_floor(k) + 1),
    decreases k,
{
    lemma2_to64();
    if k >= 2 {
        lemma_log2_floor_bounds(k / 2);
        let f = log2_floor(k / 2);
        assert(pow2(f + 1) == 2 * pow2(f)) by {
            lemma_pow2_adds(f, 1);
        }
        assert(pow2(f + 2) == 2 * pow2(f + 1)) by {
            lemma_pow2_adds(f + 1, 1);
        }
    }
}

/// The bit pattern of the binary64 value of the integer `k`, for `k`
/// in the range where that value is exact: biased exponent
/// `1023 + log2_floor(k)`, fraction the bits of `k` below its leading
/// one, shifted into the 52 fraction bits.
pub open spec fn f64_bits_of_uint(k: nat) -> u64
    recommends
        1 <= k < pow2(52),
{
    (((1023 + log2_floor(k)) * pow2(52)) + (k - pow2(log2_floor(k))) * pow2(
        (52 - log2_floor(k)) as nat,
    )) as u64
}

/// Computes `log2_floor` of a positive integer.
fn log2_floor_exec(k: u64) -> (e: u64)
    requires
        k >= 1,
    ensures
        e == log2_floor(k as nat),
        e <= 63,
    decreases k,
{
    if k < 2 {
        0
    } else {
        let rec = log2_floor_exec(k / 2);
        proof {
            if rec == 63 {
                lemma_log2_floor_bounds((k / 2) as nat);
                vstd::arithmetic::power2::lemma2_to64_rest();
            }
        }
        1 + rec
    }
}

/// Computes `pow2(e)` for exponents that fit a `u64`.
fn pow2_exec(e: u64) -> (r: u64)
    requires
        e <= 63,
    ensures
        r == pow2(e as nat),
    decreases e,
{
    proof {
        lemma2_to64();
        vstd::arithmetic::power2::lemma2_to64_rest();
    }
    if e == 0 {
        1
    } else {
        let half = pow2_exec(e - 1);
        proof {
            lemma_pow2_adds((e - 1) as nat, 1);
            lemma2_to64();
            vstd::arithmetic::power2::lemma2_to64_rest();
            if e - 1 < 62 {
                lemma_pow2_strictly_increases((e - 1) as nat, 62);
            }
        }
        2 * half
    }
}

/// Computes `f64_bits_of_uint(k)`: the binary64 bit pattern of the
/// integer `k`.
pub fn f64_bits_from_uint(k: u64) -> (r: u64)
    requires
        1 <= k < 0x10_0000_0000_0000,
    ensures
        r == f64_bits_of_uint(k as nat),
{
    let e = log2_floor_exec(k);
    proof {
        lemma_log2_floor_bounds(k as nat);
        lemma2_to64();
        vstd::arithmetic::power2::lemma2_to64_rest();
        if log2_floor(k as nat) > 52 {
            lemma_pow2_strictly_increases(52, log2_floor(k as nat));
        }
    }
    let p = pow2_exec(e);
    let q = pow2_exec(52 - e);
    proof {
        lemma_pow2_adds(e as nat, (52 - e) as nat);
        lemma_pow2_adds(e as nat, 1);
        lemma_pow2_pos(e as nat);
        assert((k - p) * q < pow2(52)) by (nonlinear_arith)
            requires
                0 <= k - p,
                (k - p) < pow2(e as nat),
                q == pow2((52 - e) as nat),
                pow2(e as nat) * pow2((52 - e) as nat) == pow2(52),
                pow2((52 - e) as nat) > 0,
        {
        }
    }
    ((1023 + e) * 0x10_0000_0000_0000) + (k - p) * q
}

/// Decides `is_positive_bits` on a bit pattern.
pub fn f64_bits_is_positive(b: u64) -> (r: bool)
    ensures
        r == is_positive_bits(b),
{
    let mag: u64 = b & 0x7fff_ffff_ffff_ffff;
    mag <= 0x7ff0_0000_0000_0000 && !((b >> 63) == 1) && mag != 0
}

} // verus!
