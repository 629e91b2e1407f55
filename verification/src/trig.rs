//! Square roots, circular functions and powers on fixed-point scalars.
//!
//! Angles are fixed-point radians.  `sin_fx` uses a rational approximation
//! of the sine on a half turn, `atan2_fx` a quadratic approximation of the
//! arctangent with octant reduction, and `pow_fx` evaluates a fixed-point
//! exponent by square-and-multiply over the exponent's fractional bits.
//! Each function returns exactly what its spec-level counterpart states.

use vstd::arithmetic::div_mod::lemma_fundamental_div_mod_converse;
use vstd::arithmetic::div_mod::lemma_div_is_ordered;
use vstd::arithmetic::div_mod::lemma_div_multiples_vanish;
use vstd::prelude::*;

use crate::fx::LIM;
use crate::fx::SCALE;
use crate::fx::fx_div;
use crate::fx::fx_div_s;
use crate::fx::fx_mul;
use crate::fx::fx_mul_s;
use crate::fx::in_lim;

verus! {

/// Half turn (pi) in fixed-point radians.
pub const PI_FX: i64 = 205887;

/// Full turn (two pi) in fixed-point radians; exactly `2 * PI_FX`.
pub const TAU_FX: i64 = 411774;

/// Quarter turn (pi / 2) in fixed-point radians.
pub const HALF_PI_FX: i64 = 102944;

/// Eighth turn (pi / 4) in fixed-point radians.
pub const QUARTER_PI_FX: i64 = 51472;

/// Arctangent correction coefficient (0.273 in fixed point).
pub const ATAN_K: i64 = 17891;

/// Integer square root, rounded down.
pub open spec fn isqrt_s(n: int) -> int
    decreases n,
{
    if n <= 0 {
        0
    } else {
        let r = isqrt_s(n - 1);
        if (r + 1) * (r + 1) <= n {
            r + 1
        } else {
            r
        }
    }
}

/// `isqrt_s` is the rounded-down square root.
pub proof fn lemma_isqrt_bounds(n: int)
    requires
        n >= 0,
    ensures
        0 <= isqrt_s(n),
        isqrt_s(n) * isqrt_s(n) <= n,
        n < (isqrt_s(n) + 1) * (isqrt_s(n) + 1),
    decreases n,
{
    if n == 0 {
    } else {
        lemma_isqrt_bounds(n - 1);
        let r = isqrt_s(n - 1);
        if (r + 1) * (r + 1) <= n {
            assert((r + 2) * (r + 2) > n) by (nonlinear_arith)
                requires
                    r >= 0,
                    n - 1 < (r + 1) * (r + 1),
                    (r + 1) * (r + 1) <= n,
            ;
        }
    }
}

/// A value with the rounded-down square root's defining property is it.
pub proof fn lemma_isqrt_unique(n: int, r: int)
    requires
        n >= 0,
        r >= 0,
        r * r <= n,
        n < (r + 1) * (r + 1),
    ensures
        r == isqrt_s(n),
{
    lemma_isqrt_bounds(n);
    let s = isqrt_s(n);
    if r < s {
        assert(false) by (nonlinear_arith)
            requires
                0 <= r < s,
                s * s <= n,
                n < (r + 1) * (r + 1),
        ;
    }
    if s < r {
        assert(false) by (nonlinear_arith)
            requires
                0 <= s < r,
                r * r <= n,
                n < (s + 1) * (s + 1),
        ;
    }
}

/// Integer square root by bisection.
pub fn isqrt(n: u64) -> (r: u64)
    ensures
        r == isqrt_s(n as int),
        r * r <= n,
        n < (r + 1) * (r + 1),
{
    let mut lo: u64 = 0;
    let mut hi: u64 = 4294967296;
    proof {
        assert((n as int) < 4294967296 * 4294967296) by (nonlinear_arith)
            requires
                n as int <= 0xffffffffffffffff,
        ;
    }
    while lo + 1 < hi
        invariant
            0 <= lo < hi <= 4294967296,
            (lo as int) * (lo as int) <= n as int,
            (n as int) < (hi as int) * (hi as int),
        decreases hi - lo,
    {
        let mid: u64 = lo + (hi - lo) / 2;
        proof {
            assert((mid as int) * (mid as int) < 0x10000000000000000) by (nonlinear_arith)
                requires
                    0 <= mid as int <= 4294967295,
            ;
        }
        let m2: u64 = mid * mid;
        if m2 <= n {
            lo = mid;
        } else {
            hi = mid;
        }
    }
    proof {
        lemma_isqrt_unique(n as int, lo as int);
    }
    lo
}

/// Square root of a fixed-point scalar.
pub open spec fn sqrt_fx_s(x: int) -> int {
    isqrt_s(x * SCALE)
}

/// Square root of a nonnegative fixed-point scalar.
pub fn sqrt_fx(x: i64) -> (r: i64)
    requires
        0 <= x,
        in_lim(x as int),
    ensures
        r == sqrt_fx_s(x as int),
        0 <= r,
        in_lim(r as int),
{
    let wide: u64 = (x as u64) * 65536;
    let r: u64 = isqrt(wide);
    proof {
        assert(r as int <= LIM as int) by (nonlinear_arith)
            requires
                (r as int) * (r as int) <= wide as int,
                wide as int <= LIM as int * 65536,
        ;
    }
    r as i64
}

/// An angle reduced to `[0, TAU_FX)`: the Euclidean remainder by a turn.
pub open spec fn norm_angle_s(a: int) -> int {
    a % (TAU_FX as int)
}

/// Reduces an angle to `[0, TAU_FX)`.
pub fn norm_angle(a: i64) -> (r: i64)
    ensures
        r == norm_angle_s(a as int),
        0 <= r < TAU_FX,
{
    if a >= 0 {
        let m: u64 = (a as u64) % 411774;
        proof {
            lemma_fundamental_div_mod_converse(
                a as int,
                TAU_FX as int,
                ((a as u64) / 411774) as int,
                m as int,
            );
        }
        m as i64
    } else {
        let neg: u64 = (-(a as i128)) as u64;
        let m: u64 = neg % 411774;
        if m == 0 {
            proof {
                lemma_fundamental_div_mod_converse(
                    a as int,
                    TAU_FX as int,
                    -((neg / 411774) as int),
                    0,
                );
            }
            0
        } else {
            proof {
                lemma_fundamental_div_mod_converse(
                    a as int,
                    TAU_FX as int,
                    -((neg / 411774) as int) - 1,
                    (TAU_FX - m) as int,
                );
            }
            411774 - (m as i64)
        }
    }
}

/// Sine on a half turn: a rational approximation, exact as specified here.
pub open spec fn sin_half_s(x: int) -> int {
    let t = x * (PI_FX - x);
    (16 * t * SCALE) / (5 * PI_FX * PI_FX - 4 * t)
}

/// Sine for angles in `[0, PI_FX]`.
fn sin_half(x: i64) -> (r: i64)
    requires
        0 <= x <= PI_FX,
    ensures
        r == sin_half_s(x as int),
        0 <= r <= SCALE,
{
    proof {
        assert(4 * ((x as int) * (PI_FX - x as int)) <= PI_FX as int * PI_FX as int
            && 0 <= (x as int) * (PI_FX - x as int)) by (nonlinear_arith)
            requires
                0 <= x as int <= PI_FX as int,
        ;
    }
    let t: u64 = (x as u64) * ((PI_FX - x) as u64);
    let num: u64 = 16 * t * 65536;
    let den: u64 = 5 * 205887 * 205887 - 4 * t;
    let q: u64 = num / den;
    proof {
        lemma_div_is_ordered(num as int, den as int * SCALE as int, den as int);
        lemma_div_multiples_vanish(SCALE as int, den as int);
    }
    q as i64
}

/// Sine of a fixed-point angle: the half-turn approximation, odd-extended.
pub open spec fn sin_s(a: int) -> int {
    let x = norm_angle_s(a);
    if x < PI_FX {
        sin_half_s(x)
    } else {
        -sin_half_s(x - PI_FX)
    }
}

/// Cosine of a fixed-point angle: the sine a quarter turn ahead.
pub open spec fn cos_s(a: int) -> int {
    sin_s(norm_angle_s(a) + HALF_PI_FX)
}

/// Sine of any fixed-point angle.
pub fn sin_fx(a: i64) -> (r: i64)
    ensures
        r == sin_s(a as int),
        -SCALE <= r <= SCALE,
{
    let x: i64 = norm_angle(a);
    if x < PI_FX {
        sin_half(x)
    } else {
        -sin_half(x - PI_FX)
    }
}

/// Cosine of any fixed-point angle.
pub fn cos_fx(a: i64) -> (r: i64)
    ensures
        r == cos_s(a as int),
        -SCALE <= r <= SCALE,
{
    let x: i64 = norm_angle(a);
    sin_fx(x + HALF_PI_FX)
}

/// Arctangent on `[0, 1]`: a quadratic approximation, exact as specified.
pub open spec fn atan_unit_s(z: int) -> int {
    (QUARTER_PI_FX * z) / (SCALE as int) + (ATAN_K * ((z * (SCALE - z)) / (SCALE as int))) / (
    SCALE as int)
}

/// Arctangent of a ratio in `[0, 1]`.
fn atan_unit(z: i64) -> (r: i64)
    requires
        0 <= z <= SCALE,
    ensures
        r == atan_unit_s(z as int),
        0 <= r <= QUARTER_PI_FX + ATAN_K,
{
    proof {
        assert(0 <= (z as int) * (SCALE as int - z as int)
            && (z as int) * (SCALE as int - z as int) <= SCALE as int * SCALE as int)
            by (nonlinear_arith)
            requires
                0 <= z as int <= SCALE as int,
        ;
    }
    let q1: u64 = (51472 * (z as u64)) / 65536;
    let t: u64 = ((z as u64) * ((SCALE - z) as u64)) / 65536;
    let q2: u64 = (17891 * t) / 65536;
    (q1 + q2) as i64
}

/// The quadrant-adjusted arctangent of `y / x`, in `(-PI_FX, PI_FX]`;
/// zero when both arguments are zero.
pub open spec fn atan2_s(y: int, x: int) -> int {
    let ax = if x >= 0 { x } else { -x };
    let ay = if y >= 0 { y } else { -y };
    if ax == 0 && ay == 0 {
        0
    } else {
        let th = if ax >= ay {
            atan_unit_s(fx_div_s(ay, ax))
        } else {
            HALF_PI_FX - atan_unit_s(fx_div_s(ax, ay))
        };
        if x >= 0 && y >= 0 {
            th
        } else if x < 0 && y >= 0 {
            PI_FX - th
        } else if x < 0 {
            th - PI_FX
        } else {
            -th
        }
    }
}

/// Angle of the vector `(x, y)` from the positive x axis.
pub fn atan2_fx(y: i64, x: i64) -> (r: i64)
    requires
        in_lim(x as int),
        in_lim(y as int),
    ensures
        r == atan2_s(y as int, x as int),
        -PI_FX <= r <= PI_FX,
{
    let ax: i64 = if x >= 0 { x } else { -x };
    let ay: i64 = if y >= 0 { y } else { -y };
    if ax == 0 && ay == 0 {
        return 0;
    }
    let th: i64 = if ax >= ay {
        let z: i64 = fx_div(ay, ax);
        proof {
            lemma_div_is_ordered(ay as int * SCALE as int, ax as int * SCALE as int, ax as int);
            lemma_div_multiples_vanish(SCALE as int, ax as int);
            assert(ay as int * SCALE as int <= ax as int * SCALE as int) by (nonlinear_arith)
                requires
                    0 <= ay as int <= ax as int,
            ;
        }
        atan_unit(z)
    } else {
        let z: i64 = fx_div(ax, ay);
        proof {
            lemma_div_is_ordered(ax as int * SCALE as int, ay as int * SCALE as int, ay as int);
            lemma_div_multiples_vanish(SCALE as int, ay as int);
            assert(ax as int * SCALE as int <= ay as int * SCALE as int) by (nonlinear_arith)
                requires
                    0 <= ax as int <= ay as int,
            ;
        }
        HALF_PI_FX - atan_unit(z)
    };
    if x >= 0 && y >= 0 {
        th
    } else if x < 0 && y >= 0 {
        PI_FX - th
    } else if x < 0 {
        th - PI_FX
    } else {
        -th
    }
}

/// `base` raised to the nonnegative whole exponent `n`, one saturating
/// fixed-point multiplication per step.
pub open spec fn pow_int_s(x: int, n: nat) -> int
    decreases n,
{
    if n == 0 {
        SCALE as int
    } else {
        fx_mul_s(pow_int_s(x, (n - 1) as nat), x)
    }
}

/// Square-and-multiply over the exponent's fractional bits: `k` steps left,
/// `m` the weight of the next bit, `rem` the remaining fraction.
pub open spec fn pow_frac_s(y: int, rem: int, m: int, acc: int, k: nat) -> int
    decreases k,
{
    if k == 0 {
        acc
    } else {
        let y2 = sqrt_fx_s(y);
        if rem >= m {
            pow_frac_s(y2, rem - m, m / 2, fx_mul_s(acc, y2), (k - 1) as nat)
        } else {
            pow_frac_s(y2, rem, m / 2, acc, (k - 1) as nat)
        }
    }
}

/// `x` raised to the nonnegative fixed-point exponent `q`.
pub open spec fn pow_pos_s(x: int, q: int) -> int {
    fx_mul_s(
        pow_int_s(x, (q / (SCALE as int)) as nat),
        pow_frac_s(x, q % (SCALE as int), SCALE as int / 2, SCALE as int, 16),
    )
}

/// `x` raised to any fixed-point exponent `p`; a reciprocal that would
/// divide by zero saturates to `LIM`.
pub open spec fn pow_s(x: int, p: int) -> int {
    if p >= 0 {
        pow_pos_s(x, p)
    } else {
        let d = pow_pos_s(x, -p);
        if d == 0 {
            LIM as int
        } else {
            fx_div_s(SCALE as int, d)
        }
    }
}

/// `x` raised to the nonnegative fixed-point exponent `q`.
fn pow_pos(x: i64, q: i64) -> (r: i64)
    requires
        1 <= x,
        in_lim(x as int),
        0 <= q,
    ensures
        r == pow_pos_s(x as int, q as int),
        in_lim(r as int),
{
    let n: u64 = (q as u64) / 65536;
    let mut rem: i64 = ((q as u64) % 65536) as i64;
    let mut ipart: i64 = SCALE;
    let mut i: u64 = 0;
    while i < n
        invariant
            0 <= i <= n,
            ipart == pow_int_s(x as int, i as nat),
            in_lim(ipart as int),
            in_lim(x as int),
        decreases n - i,
    {
        ipart = fx_mul(ipart, x);
        i = i + 1;
    }
    let mut y: i64 = x;
    let mut acc: i64 = SCALE;
    let mut m: i64 = 32768;
    let mut k: u64 = 16;
    proof {
        assert(pow_frac_s(x as int, rem as int, m as int, acc as int, 16) == pow_frac_s(
            y as int,
            rem as int,
            m as int,
            acc as int,
            k as nat,
        ));
    }
    let ghost target: int = pow_frac_s(x as int, rem as int, m as int, acc as int, 16);
    while k > 0
        invariant
            0 <= k <= 16,
            0 <= y,
            in_lim(y as int),
            in_lim(acc as int),
            0 <= rem,
            0 <= m <= 32768,
            target == pow_frac_s(y as int, rem as int, m as int, acc as int, k as nat),
        decreases k,
    {
        y = sqrt_fx(y);
        if rem >= m {
            rem = rem - m;
            acc = fx_mul(acc, y);
        }
        m = m / 2;
        k = k - 1;
    }
    fx_mul(ipart, acc)
}

/// `x` raised to any fixed-point exponent `p`.
pub fn pow_fx(x: i64, p: i64) -> (r: i64)
    requires
        1 <= x,
        in_lim(x as int),
        in_lim(p as int),
    ensures
        r == pow_s(x as int, p as int),
        in_lim(r as int),
{
    if p >= 0 {
        pow_pos(x, p)
    } else {
        let d: i64 = pow_pos(x, -p);
        if d == 0 {
            LIM
        } else {
            fx_div(SCALE, d)
        }
    }
}

} // verus!
