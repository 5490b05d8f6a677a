use vstd::prelude::*;
use vstd::arithmetic::div_mod::lemma_div_nonincreasing;

verus! {

// Geometry is carried in signed 64-bit fixed-point numbers with 16
// fractional bits: the value `v` stands for the real number `v / 65536`.
// Every operation is total: results are saturated into the `i64` range and
// division truncates toward zero, so no operation here can panic.

/// The fixed-point representation of 1.0.
pub const FX_ONE: i64 = 65536;

/// Largest magnitude of a screen-space coordinate (2^48 subpixel units,
/// about 4 billion pixels): projection clamps into this range so that
/// edge-function products always fit in an `i128`.
pub const COORD_LIMIT: i64 = 0x1000000000000;

/// Saturate an unbounded integer into the `i64` range.
pub open spec fn sati64(v: int) -> i64 {
    if v < i64::MIN {
        i64::MIN
    } else if v > i64::MAX {
        i64::MAX
    } else {
        v as i64
    }
}

/// Division truncating toward zero (the convention of hardware division),
/// defined for positive divisors.
pub open spec fn tdiv(a: int, d: int) -> int
    recommends
        d > 0,
{
    if a >= 0 {
        a / d
    } else {
        -((-a) / d)
    }
}

/// The saturating fixed-point product of `a` and `b`.
pub open spec fn fxmul_s(a: i64, b: i64) -> i64 {
    sati64(tdiv(a * b, FX_ONE as int))
}

/// The saturating sum of `a` and `b`.
pub open spec fn fxadd_s(a: i64, b: i64) -> i64 {
    sati64(a + b)
}

/// The saturating difference of `a` and `b`.
pub open spec fn fxsub_s(a: i64, b: i64) -> i64 {
    sati64(a - b)
}

/// The saturating negation of `a`.
pub open spec fn fxneg_s(a: i64) -> i64 {
    sati64(-a)
}

/// The saturating fixed-point quotient of `a` by a positive `b`.
pub open spec fn fxdiv_s(a: i64, b: i64) -> i64 {
    sati64(tdiv(a * FX_ONE, b as int))
}

/// Saturate an unbounded integer into the screen-coordinate range.
pub open spec fn satc(v: int) -> i64 {
    if v < -COORD_LIMIT {
        (-COORD_LIMIT) as i64
    } else if v > COORD_LIMIT {
        COORD_LIMIT
    } else {
        v as i64
    }
}

/// Clamp a wide intermediate result into the screen-coordinate range.
pub fn sat_coord(v: i128) -> (r: i64)
    ensures
        r == satc(v as int),
{
    if v < -COORD_LIMIT as i128 {
        -COORD_LIMIT
    } else if v > COORD_LIMIT as i128 {
        COORD_LIMIT
    } else {
        v as i64
    }
}

/// Clamp a wide intermediate result back into the `i64` range.
pub fn sat_i64(v: i128) -> (r: i64)
    ensures
        r == sati64(v as int),
{
    if v < i64::MIN as i128 {
        i64::MIN
    } else if v > i64::MAX as i128 {
        i64::MAX
    } else {
        v as i64
    }
}

/// Divide truncating toward zero, by a positive divisor, without overflow.
pub fn tdiv_i128(a: i128, d: i128) -> (r: i128)
    requires
        d > 0,
        a != i128::MIN,
    ensures
        r as int == tdiv(a as int, d as int),
{
    if a >= 0 {
        let q: u128 = (a as u128) / (d as u128);
        proof {
            lemma_div_nonincreasing(a as int, d as int);
        }
        q as i128
    } else {
        let m: u128 = (-a) as u128;
        let q: u128 = m / (d as u128);
        proof {
            lemma_div_nonincreasing(m as int, d as int);
        }
        -(q as i128)
    }
}

/// Fixed-point multiplication: exact product, rescaled by `FX_ONE` with
/// truncation toward zero, saturated into `i64`.
pub fn fxmul(a: i64, b: i64) -> (r: i64)
    ensures
        r == fxmul_s(a, b),
{
    proof {
        assert((a as int) * (b as int) <= 0x40000000000000000000000000000000
            && (a as int) * (b as int) >= -0x40000000000000000000000000000000) by (nonlinear_arith)
            requires
                -0x8000000000000000 <= a as int <= 0x7fffffffffffffff,
                -0x8000000000000000 <= b as int <= 0x7fffffffffffffff,
        ;
    }
    let p: i128 = (a as i128) * (b as i128);
    let q: i128 = tdiv_i128(p, FX_ONE as i128);
    sat_i64(q)
}

/// Saturating addition.
pub fn fxadd(a: i64, b: i64) -> (r: i64)
    ensures
        r == fxadd_s(a, b),
{
    let s: i128 = (a as i128) + (b as i128);
    sat_i64(s)
}

/// Saturating subtraction.
pub fn fxsub(a: i64, b: i64) -> (r: i64)
    ensures
        r == fxsub_s(a, b),
{
    let s: i128 = (a as i128) - (b as i128);
    sat_i64(s)
}

/// Saturating negation.
pub fn fxneg(a: i64) -> (r: i64)
    ensures
        r == fxneg_s(a),
{
    let s: i128 = -(a as i128);
    sat_i64(s)
}

/// Fixed-point division by a positive divisor: the dividend is rescaled by
/// `FX_ONE`, the quotient truncates toward zero and saturates into `i64`.
pub fn fxdiv(a: i64, b: i64) -> (r: i64)
    requires
        b > 0,
    ensures
        r == fxdiv_s(a, b),
{
    let p: i128 = (a as i128) * (FX_ONE as i128);
    proof {
        assert(p != i128::MIN) by (nonlinear_arith)
            requires
                p == (a as int) * 65536,
                -0x8000000000000000 <= a as int,
        ;
    }
    let q: i128 = tdiv_i128(p, b as i128);
    sat_i64(q)
}

} // verus!
