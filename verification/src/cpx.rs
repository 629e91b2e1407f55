//! Points and vectors of the complex plane, in fixed-point coordinates,
//! with axis-aligned rectangles and the positional transform.

use vstd::prelude::*;

use crate::fx::clip;
use crate::fx::fx_add;
use crate::fx::fx_add_s;
use crate::fx::fx_mul;
use crate::fx::fx_mul_s;
use crate::fx::fx_sub;
use crate::fx::fx_sub_s;
use crate::fx::in_lim;
use crate::fx::scale_down;
use crate::trig::atan2_fx;
use crate::trig::atan2_s;
use crate::trig::cos_fx;
use crate::trig::cos_s;
use crate::trig::sin_fx;
use crate::trig::sin_s;

verus! {

/// A fixed-point complex number: `re + im * i`.  The imaginary axis is the
/// screen's vertical axis.
#[derive(Clone, Copy, Debug, PartialEq, Eq, Structural)]
pub struct Cpx {
    pub re: i64,
    pub im: i64,
}

/// A complex number built from spec-level scalars.
pub open spec fn cpx_s(re: int, im: int) -> Cpx {
    Cpx { re: re as i64, im: im as i64 }
}

/// Whether both components lie in the representable scalar range.
pub open spec fn cpx_in_lim(c: Cpx) -> bool {
    in_lim(c.re as int) && in_lim(c.im as int)
}

/// Componentwise saturating sum.
pub open spec fn cpx_add_s(a: Cpx, b: Cpx) -> Cpx {
    cpx_s(fx_add_s(a.re as int, b.re as int), fx_add_s(a.im as int, b.im as int))
}

/// Componentwise saturating difference.
pub open spec fn cpx_sub_s(a: Cpx, b: Cpx) -> Cpx {
    cpx_s(fx_sub_s(a.re as int, b.re as int), fx_sub_s(a.im as int, b.im as int))
}

/// Both components scaled by the fixed-point factor `s`.
pub open spec fn cpx_scale_s(a: Cpx, s: int) -> Cpx {
    cpx_s(fx_mul_s(a.re as int, s), fx_mul_s(a.im as int, s))
}

/// The complex product, each term a saturating fixed-point operation.
pub open spec fn cpx_mul_s(a: Cpx, b: Cpx) -> Cpx {
    cpx_s(
        fx_sub_s(fx_mul_s(a.re as int, b.re as int), fx_mul_s(a.im as int, b.im as int)),
        fx_add_s(fx_mul_s(a.re as int, b.im as int), fx_mul_s(a.im as int, b.re as int)),
    )
}

/// Squared magnitude.
pub open spec fn cpx_norm_sq_s(a: Cpx) -> int {
    fx_add_s(fx_mul_s(a.re as int, a.re as int), fx_mul_s(a.im as int, a.im as int))
}

/// Squared distance between two points.
pub open spec fn cpx_dist_sq_s(a: Cpx, b: Cpx) -> int {
    cpx_norm_sq_s(cpx_sub_s(a, b))
}

/// The unit vector of the angle `a`: `cos a + i sin a`.
pub open spec fn cis_s(a: int) -> Cpx {
    cpx_s(cos_s(a), sin_s(a))
}

/// A saturating square is never negative.
pub proof fn lemma_square_nonneg(x: int)
    ensures
        0 <= fx_mul_s(x, x),
{
    assert(0 <= x * x) by (nonlinear_arith);
    assert(0 <= scale_down(x * x));
    assert(0 <= clip(scale_down(x * x)));
}

impl Cpx {
    /// The origin.
    pub fn zero() -> (r: Cpx)
        ensures
            r == (Cpx { re: 0, im: 0 }),
    {
        Cpx { re: 0, im: 0 }
    }

    /// Componentwise saturating sum.
    pub fn add(self, b: Cpx) -> (r: Cpx)
        ensures
            r == cpx_add_s(self, b),
            cpx_in_lim(r),
    {
        Cpx { re: fx_add(self.re, b.re), im: fx_add(self.im, b.im) }
    }

    /// Componentwise saturating difference.
    pub fn sub(self, b: Cpx) -> (r: Cpx)
        ensures
            r == cpx_sub_s(self, b),
            cpx_in_lim(r),
    {
        Cpx { re: fx_sub(self.re, b.re), im: fx_sub(self.im, b.im) }
    }

    /// Both components scaled by the fixed-point factor `s`.
    pub fn scale(self, s: i64) -> (r: Cpx)
        ensures
            r == cpx_scale_s(self, s as int),
            cpx_in_lim(r),
    {
        Cpx { re: fx_mul(self.re, s), im: fx_mul(self.im, s) }
    }

    /// The complex product.
    pub fn cmul(self, b: Cpx) -> (r: Cpx)
        ensures
            r == cpx_mul_s(self, b),
            cpx_in_lim(r),
    {
        Cpx {
            re: fx_sub(fx_mul(self.re, b.re), fx_mul(self.im, b.im)),
            im: fx_add(fx_mul(self.re, b.im), fx_mul(self.im, b.re)),
        }
    }

    /// Squared magnitude.
    pub fn norm_sq(self) -> (r: i64)
        ensures
            r == cpx_norm_sq_s(self),
            0 <= r,
            in_lim(r as int),
    {
        proof {
            lemma_square_nonneg(self.re as int);
            lemma_square_nonneg(self.im as int);
        }
        fx_add(fx_mul(self.re, self.re), fx_mul(self.im, self.im))
    }

    /// Squared distance to `b`.
    pub fn dist_sq(self, b: Cpx) -> (r: i64)
        ensures
            r == cpx_dist_sq_s(self, b),
            0 <= r,
            in_lim(r as int),
    {
        self.sub(b).norm_sq()
    }

    /// The unit vector of the angle `a`.
    pub fn cis(a: i64) -> (r: Cpx)
        ensures
            r == cis_s(a as int),
            cpx_in_lim(r),
    {
        Cpx { re: cos_fx(a), im: sin_fx(a) }
    }

    /// The angle of the vector from `self` to `target`.
    pub fn angle_to(self, target: Cpx) -> (r: i64)
        ensures
            r == atan2_s(
                fx_sub_s(target.im as int, self.im as int),
                fx_sub_s(target.re as int, self.re as int),
            ),
            in_lim(r as int),
    {
        let d: Cpx = target.sub(self);
        atan2_fx(d.im, d.re)
    }

    /// Each component clamped to `[lo, hi]`.
    pub fn clamp_box(self, lo: i64, hi: i64) -> (r: Cpx)
        requires
            lo <= hi,
        ensures
            r.re == if self.re < lo { lo } else if self.re > hi { hi } else { self.re },
            r.im == if self.im < lo { lo } else if self.im > hi { hi } else { self.im },
    {
        let re: i64 = if self.re < lo { lo } else if self.re > hi { hi } else { self.re };
        let im: i64 = if self.im < lo { lo } else if self.im > hi { hi } else { self.im };
        Cpx { re, im }
    }
}

/// An axis-aligned rectangle: corner and extent, fixed-point.
#[derive(Clone, Copy, Debug, PartialEq, Eq, Structural)]
pub struct Rect {
    pub x: i64,
    pub y: i64,
    pub w: i64,
    pub h: i64,
}

/// Whether `p` lies in `r`, both ends inclusive.
pub open spec fn rect_contains_s(r: Rect, p: Cpx) -> bool {
    &&& r.x <= p.re
    &&& p.re as int <= fx_add_s(r.x as int, r.w as int)
    &&& r.y <= p.im
    &&& p.im as int <= fx_add_s(r.y as int, r.h as int)
}

impl Rect {
    /// A rectangle from corner and extent.
    pub fn new(x: i64, y: i64, w: i64, h: i64) -> (r: Rect)
        ensures
            r == (Rect { x, y, w, h }),
    {
        Rect { x, y, w, h }
    }

    /// Whether `p` lies in the rectangle, both ends inclusive.
    pub fn contains(&self, p: Cpx) -> (r: bool)
        ensures
            r == rect_contains_s(*self, p),
    {
        self.x <= p.re && p.re <= fx_add(self.x, self.w) && self.y <= p.im && p.im <= fx_add(
            self.y,
            self.h,
        )
    }
}

/// Position, render scale and facing angle of an entity.
#[derive(Clone, Copy, Debug, PartialEq, Eq, Structural)]
pub struct Transform2D {
    pub position: Cpx,
    pub scale: Cpx,
    pub rotation: i64,
}

impl Transform2D {
    /// A transform from its parts.
    pub fn new(position: Cpx, scale: Cpx, rotation: i64) -> (r: Transform2D)
        ensures
            r == (Transform2D { position, scale, rotation }),
    {
        Transform2D { position, scale, rotation }
    }

    /// The position.
    pub fn position(&self) -> (r: Cpx)
        ensures
            r == self.position,
    {
        self.position
    }

    /// The render scale.
    pub fn scale(&self) -> (r: Cpx)
        ensures
            r == self.scale,
    {
        self.scale
    }

    /// The facing angle.
    pub fn rotation(&self) -> (r: i64)
        ensures
            r == self.rotation,
    {
        self.rotation
    }
}

} // verus!
