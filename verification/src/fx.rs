//! Saturating fixed-point scalars.
//!
//! A scalar is an `i64` counting units of `1 / SCALE`.  Every operation
//! clips its result to `[-LIM, LIM]`, so the operations are total: no
//! input can overflow, and a value once inside the range stays inside it.

use vstd::prelude::*;

verus! {

/// Number of fixed-point units in 1.0.
pub const SCALE: i64 = 65536;

/// Largest representable magnitude; every operation clips to `[-LIM, LIM]`.
pub const LIM: i64 = 1099511627776;

/// `x` clipped to the representable range.
pub open spec fn clip(x: int) -> int {
    if x > LIM as int {
        LIM as int
    } else if x < -(LIM as int) {
        -(LIM as int)
    } else {
        x
    }
}

/// Whether `x` lies in the representable range.
pub open spec fn in_lim(x: int) -> bool {
    -(LIM as int) <= x <= LIM as int
}

/// Scaling division: `p / SCALE` rounded toward zero.
pub open spec fn scale_down(p: int) -> int {
    if p >= 0 {
        p / (SCALE as int)
    } else {
        -((-p) / (SCALE as int))
    }
}

/// What saturating fixed-point addition returns.
pub open spec fn fx_add_s(a: int, b: int) -> int {
    clip(a + b)
}

/// What saturating fixed-point subtraction returns.
pub open spec fn fx_sub_s(a: int, b: int) -> int {
    clip(a - b)
}

/// What saturating fixed-point multiplication returns.
pub open spec fn fx_mul_s(a: int, b: int) -> int {
    clip(scale_down(a * b))
}

/// Magnitude of `x`.
pub open spec fn iabs(x: int) -> int {
    if x >= 0 {
        x
    } else {
        -x
    }
}

/// What saturating fixed-point division returns (`b != 0`):
/// `a * SCALE / b`, rounded toward zero, then clipped.
pub open spec fn fx_div_s(a: int, b: int) -> int {
    if (a >= 0) == (b >= 0) {
        clip((iabs(a) * SCALE) / iabs(b))
    } else {
        clip(-((iabs(a) * SCALE) / iabs(b)))
    }
}

/// Clips a wide intermediate back into the scalar range.
fn clamp_wide(x: i128) -> (r: i64)
    ensures
        r == clip(x as int),
{
    if x > LIM as i128 {
        LIM
    } else if x < -(LIM as i128) {
        -LIM
    } else {
        x as i64
    }
}

/// Saturating addition.
pub fn fx_add(a: i64, b: i64) -> (r: i64)
    ensures
        r == fx_add_s(a as int, b as int),
        in_lim(r as int),
{
    clamp_wide(a as i128 + b as i128)
}

/// Saturating subtraction.
pub fn fx_sub(a: i64, b: i64) -> (r: i64)
    ensures
        r == fx_sub_s(a as int, b as int),
        in_lim(r as int),
{
    clamp_wide(a as i128 - b as i128)
}

/// Saturating fixed-point multiplication: `a * b / SCALE`, toward zero.
pub fn fx_mul(a: i64, b: i64) -> (r: i64)
    ensures
        r == fx_mul_s(a as int, b as int),
        in_lim(r as int),
{
    proof {
        assert(-0x40000000000000000000000000000000 <= (a as int) * (b as int)
            <= 0x40000000000000000000000000000000) by (nonlinear_arith)
            requires
                -0x8000000000000000 <= a as int <= 0x7fffffffffffffff,
                -0x8000000000000000 <= b as int <= 0x7fffffffffffffff,
        ;
    }
    let p: i128 = (a as i128) * (b as i128);
    if p >= 0 {
        let q: u128 = (p as u128) / 65536;
        clamp_wide(q as i128)
    } else {
        let q: u128 = ((-p) as u128) / 65536;
        clamp_wide(-(q as i128))
    }
}

/// What scaling by a whole count returns: `k * x`, clipped.
pub open spec fn fx_mul_int_s(k: int, x: int) -> int {
    clip(k * x)
}

/// A scalar times a whole count (not a fixed-point factor), saturating.
pub fn fx_mul_int(k: i64, x: i64) -> (r: i64)
    ensures
        r == fx_mul_int_s(k as int, x as int),
        in_lim(r as int),
{
    proof {
        assert(-0x40000000000000000000000000000000 <= (k as int) * (x as int)
            <= 0x40000000000000000000000000000000) by (nonlinear_arith)
            requires
                -0x8000000000000000 <= k as int <= 0x7fffffffffffffff,
                -0x8000000000000000 <= x as int <= 0x7fffffffffffffff,
        ;
    }
    clamp_wide((k as i128) * (x as i128))
}

/// Saturating fixed-point division: `a * SCALE / b`, toward zero.
pub fn fx_div(a: i64, b: i64) -> (r: i64)
    requires
        b != 0,
    ensures
        r == fx_div_s(a as int, b as int),
        in_lim(r as int),
{
    let ua: u128 = if a >= 0 {
        a as u128
    } else {
        (-(a as i128)) as u128
    };
    let ub: u128 = if b >= 0 {
        b as u128
    } else {
        (-(b as i128)) as u128
    };
    let q: u128 = (ua * 65536) / ub;
    if (a >= 0) == (b >= 0) {
        clamp_wide(q as i128)
    } else {
        clamp_wide(-(q as i128))
    }
}

} // verus!
