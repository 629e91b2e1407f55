//! The kinematic state and its per-frame integrator: velocity, acceleration,
//! damping and attraction toward a point with a power-law falloff.

use vstd::arithmetic::div_mod::lemma_div_multiples_vanish;
use vstd::prelude::*;

use crate::cpx::Cpx;
use crate::cpx::cpx_add_s;
use crate::cpx::cpx_in_lim;
use crate::cpx::cpx_mul_s;
use crate::cpx::cpx_norm_sq_s;
use crate::cpx::cpx_scale_s;
use crate::cpx::cpx_sub_s;
use crate::cpx::cpx_s;
use crate::fx::SCALE;
use crate::fx::fx_add;
use crate::fx::fx_add_s;
use crate::fx::fx_div;
use crate::fx::fx_div_s;
use crate::fx::fx_mul;
use crate::fx::fx_mul_s;
use crate::fx::fx_sub;
use crate::fx::fx_sub_s;
use crate::fx::in_lim;
use crate::trig::pow_fx;
use crate::trig::pow_s;

verus! {

/// One half in fixed point.
pub const HALF_ONE: i64 = 32768;

/// The damping factor of the simple asymptotic recipe (0.8 in fixed point).
pub const ASYMPTOTIC_RETENTION: i64 = 52429;

/// Per-frame kinematic state.  Velocity advances the position; acceleration
/// and `retention` (a per-tick damping multiplier, one = no damping) rewrite
/// the velocity; a non-zero `attraction` pulls toward `attraction_point`
/// with a falloff governed by `attraction_exponent`.
#[derive(Clone, Copy, Debug, PartialEq, Eq, Structural)]
pub struct MoveParams {
    pub velocity: Cpx,
    pub acceleration: Cpx,
    pub retention: i64,
    pub attraction: Cpx,
    pub attraction_point: Cpx,
    pub attraction_exponent: i64,
}

/// Where one update moves the position: ahead by `velocity * delta`.
pub open spec fn update_pos_s(p: MoveParams, pos: Cpx, delta: int) -> Cpx {
    cpx_add_s(pos, cpx_scale_s(p.velocity, delta))
}

/// The power-law exponent applied to the squared attraction distance:
/// `(attraction_exponent - 1/2) / 2`.
pub open spec fn attr_exp_arg_s(e: int) -> int {
    fx_mul_s(fx_sub_s(e, HALF_ONE as int), HALF_ONE as int)
}

/// What one update makes of the velocity, given the already-advanced
/// position: `acceleration * delta + retention * velocity`, plus, when the
/// attraction coefficient is non-zero, the attraction pull.  A unit
/// exponent pulls linearly with the offset; any other exponent scales the
/// pull by the power of the squared distance, short-circuited to nothing
/// when the mover sits on the attraction point.
pub open spec fn update_vel_s(p: MoveParams, newpos: Cpx, delta: int) -> Cpx {
    let base = cpx_add_s(cpx_scale_s(p.acceleration, delta), cpx_scale_s(p.velocity, p.retention as int));
    if p.attraction.re == 0 && p.attraction.im == 0 {
        base
    } else {
        let av = cpx_sub_s(p.attraction_point, newpos);
        if p.attraction_exponent == SCALE {
            cpx_add_s(base, cpx_scale_s(cpx_mul_s(p.attraction, av), delta))
        } else {
            let nsq = cpx_norm_sq_s(av);
            if nsq > 0 {
                cpx_add_s(
                    base,
                    cpx_scale_s(
                        cpx_scale_s(
                            cpx_mul_s(p.attraction, av),
                            pow_s(nsq, attr_exp_arg_s(p.attraction_exponent as int)),
                        ),
                        delta,
                    ),
                )
            } else {
                base
            }
        }
    }
}

/// The kinematic state of motion pulled toward `target`: seed velocity,
/// no acceleration, unit retention, the given pull and falloff exponent.
pub open spec fn towards_s(vel: Cpx, target: Cpx, attraction: Cpx, exponent: i64) -> MoveParams {
    MoveParams {
        velocity: vel,
        acceleration: Cpx { re: 0, im: 0 },
        retention: SCALE,
        attraction,
        attraction_point: target,
        attraction_exponent: exponent,
    }
}

/// The kinematic state and position after `n` updates by `delta`.
pub open spec fn iterate_s(p: MoveParams, pos: Cpx, delta: int, n: nat) -> (MoveParams, Cpx)
    decreases n,
{
    if n == 0 {
        (p, pos)
    } else {
        let prev = iterate_s(p, pos, delta, (n - 1) as nat);
        let np = update_pos_s(prev.0, prev.1, delta);
        (
            MoveParams { velocity: update_vel_s(prev.0, np, delta), ..prev.0 },
            np,
        )
    }
}

impl MoveParams {
    /// Advances `pos` by one frame and rewrites the velocity; returns the
    /// velocity that was in effect before this tick.
    pub fn update(&mut self, pos: &mut Cpx, delta: i64) -> (r: Cpx)
        ensures
            r == old(self).velocity,
            *final(pos) == update_pos_s(*old(self), *old(pos), delta as int),
            final(self).velocity == update_vel_s(
                *old(self),
                update_pos_s(*old(self), *old(pos), delta as int),
                delta as int,
            ),
            final(self).acceleration == old(self).acceleration,
            final(self).retention == old(self).retention,
            final(self).attraction == old(self).attraction,
            final(self).attraction_point == old(self).attraction_point,
            final(self).attraction_exponent == old(self).attraction_exponent,
    {
        let orig: Cpx = self.velocity;
        let newpos: Cpx = (*pos).add(orig.scale(delta));
        *pos = newpos;
        self.velocity = self.acceleration.scale(delta).add(self.velocity.scale(self.retention));
        if !(self.attraction.re == 0 && self.attraction.im == 0) {
            let av: Cpx = self.attraction_point.sub(newpos);
            if self.attraction_exponent == SCALE {
                self.velocity = self.velocity.add(self.attraction.cmul(av).scale(delta));
            } else {
                let nsq: i64 = av.norm_sq();
                if nsq > 0 {
                    let e: i64 = fx_mul(fx_sub(self.attraction_exponent, HALF_ONE), HALF_ONE);
                    let m: i64 = pow_fx(nsq, e);
                    self.velocity = self.velocity.add(
                        self.attraction.cmul(av).scale(m).scale(delta),
                    );
                }
            }
        }
        orig
    }

    /// The state after one update from `pos`, the moved position discarded.
    pub fn move_next(pos: Cpx, move_params: MoveParams, delta_time: i64) -> (r: MoveParams)
        ensures
            r == (MoveParams {
                velocity: update_vel_s(
                    move_params,
                    update_pos_s(move_params, pos, delta_time as int),
                    delta_time as int,
                ),
                ..move_params
            }),
    {
        let mut p: MoveParams = move_params;
        let mut scratch: Cpx = pos;
        p.update(&mut scratch, delta_time);
        p
    }

    /// Plain linear motion: constant velocity, nothing else.
    pub fn move_linear(vel: Cpx) -> (r: MoveParams)
        ensures
            r == (MoveParams {
                velocity: vel,
                acceleration: Cpx { re: 0, im: 0 },
                retention: SCALE,
                attraction: Cpx { re: 0, im: 0 },
                attraction_point: Cpx { re: 0, im: 0 },
                attraction_exponent: SCALE,
            }),
    {
        MoveParams {
            velocity: vel,
            acceleration: Cpx { re: 0, im: 0 },
            retention: SCALE,
            attraction: Cpx { re: 0, im: 0 },
            attraction_point: Cpx { re: 0, im: 0 },
            attraction_exponent: SCALE,
        }
    }

    /// Uniformly accelerated motion.
    pub fn move_accelerated(vel: Cpx, accel: Cpx) -> (r: MoveParams)
        ensures
            r == (MoveParams {
                velocity: vel,
                acceleration: accel,
                retention: SCALE,
                attraction: Cpx { re: 0, im: 0 },
                attraction_point: Cpx { re: 0, im: 0 },
                attraction_exponent: SCALE,
            }),
    {
        MoveParams {
            velocity: vel,
            acceleration: accel,
            retention: SCALE,
            attraction: Cpx { re: 0, im: 0 },
            attraction_point: Cpx { re: 0, im: 0 },
            attraction_exponent: SCALE,
        }
    }

    /// Exponentially damped motion: the velocity keeps only `retention`
    /// of itself each tick.
    pub fn move_dampen(vel: Cpx, retention: i64) -> (r: MoveParams)
        ensures
            r == (MoveParams {
                velocity: vel,
                acceleration: Cpx { re: 0, im: 0 },
                retention,
                attraction: Cpx { re: 0, im: 0 },
                attraction_point: Cpx { re: 0, im: 0 },
                attraction_exponent: SCALE,
            }),
    {
        MoveParams {
            velocity: vel,
            acceleration: Cpx { re: 0, im: 0 },
            retention,
            attraction: Cpx { re: 0, im: 0 },
            attraction_point: Cpx { re: 0, im: 0 },
            attraction_exponent: SCALE,
        }
    }

    /// Motion pulled linearly toward `target`, seeded with `vel`.
    pub fn move_towards(vel: Cpx, target: Cpx, attraction: Cpx) -> (r: MoveParams)
        ensures
            r == (MoveParams {
                velocity: vel,
                acceleration: Cpx { re: 0, im: 0 },
                retention: SCALE,
                attraction,
                attraction_point: target,
                attraction_exponent: SCALE,
            }),
    {
        MoveParams {
            velocity: vel,
            acceleration: Cpx { re: 0, im: 0 },
            retention: SCALE,
            attraction,
            attraction_point: target,
            attraction_exponent: SCALE,
        }
    }

    /// Motion pulled toward `target` with a power-law falloff.
    pub fn move_towards_exp(vel: Cpx, target: Cpx, attraction: Cpx, exponent: i64) -> (r:
        MoveParams)
        ensures
            r == (MoveParams {
                velocity: vel,
                acceleration: Cpx { re: 0, im: 0 },
                retention: SCALE,
                attraction,
                attraction_point: target,
                attraction_exponent: exponent,
            }),
    {
        MoveParams {
            velocity: vel,
            acceleration: Cpx { re: 0, im: 0 },
            retention: SCALE,
            attraction,
            attraction_point: target,
            attraction_exponent: exponent,
        }
    }

    /// Like `move_towards` from a standing start at `origin`: one update is
    /// pre-applied so the first real tick already carries the pull.
    pub fn move_from_towards(origin: Cpx, target: Cpx, attraction: Cpx) -> (r: MoveParams)
        ensures
            r == (MoveParams {
                velocity: update_vel_s(
                    towards_s(Cpx { re: 0, im: 0 }, target, attraction, SCALE),
                    update_pos_s(towards_s(Cpx { re: 0, im: 0 }, target, attraction, SCALE), origin, 0),
                    0,
                ),
                ..towards_s(Cpx { re: 0, im: 0 }, target, attraction, SCALE)
            }),
    {
        let towards_move: MoveParams = Self::move_towards(Cpx::zero(), target, attraction);
        Self::move_next(origin, towards_move, 0)
    }

    /// Like `move_towards_exp` from a standing start at `origin`.
    pub fn move_from_towards_exp(origin: Cpx, target: Cpx, attraction: Cpx, exponent: i64) -> (r:
        MoveParams)
        ensures
            r == (MoveParams {
                velocity: update_vel_s(
                    towards_s(Cpx { re: 0, im: 0 }, target, attraction, exponent),
                    update_pos_s(
                        towards_s(Cpx { re: 0, im: 0 }, target, attraction, exponent),
                        origin,
                        0,
                    ),
                    0,
                ),
                ..towards_s(Cpx { re: 0, im: 0 }, target, attraction, exponent)
            }),
    {
        let towards_exp_move: MoveParams = Self::move_towards_exp(
            Cpx::zero(),
            target,
            attraction,
            exponent,
        );
        Self::move_next(origin, towards_exp_move, 0)
    }

    /// Motion that approaches `vel1` asymptotically from `vel0`: the
    /// acceleration replaces what damping takes away.
    pub fn move_asymptotic(vel0: Cpx, vel1: Cpx, retention: Cpx) -> (r: MoveParams)
        ensures
            r == (MoveParams {
                velocity: vel0,
                acceleration: cpx_mul_s(vel1, cpx_sub_s(Cpx { re: SCALE, im: 0 }, retention)),
                retention: retention.re,
                attraction: Cpx { re: 0, im: 0 },
                attraction_point: Cpx { re: 0, im: 0 },
                attraction_exponent: SCALE,
            }),
    {
        MoveParams {
            velocity: vel0,
            acceleration: vel1.cmul(Cpx { re: SCALE, im: 0 }.sub(retention)),
            retention: retention.re,
            attraction: Cpx { re: 0, im: 0 },
            attraction_point: Cpx { re: 0, im: 0 },
            attraction_exponent: SCALE,
        }
    }

    /// Asymptotic motion whose damping halves the gap every `halflife`.
    pub fn move_asymptotic_halflife(vel0: Cpx, vel1: Cpx, halflife: i64) -> (r: MoveParams)
        requires
            halflife != 0,
        ensures
            r == (MoveParams {
                velocity: vel0,
                acceleration: cpx_mul_s(
                    vel1,
                    cpx_sub_s(
                        Cpx { re: SCALE, im: 0 },
                        cpx_s(pow_s(2 * SCALE, fx_div_s(-SCALE, halflife as int)), 0),
                    ),
                ),
                retention: pow_s(2 * SCALE, fx_div_s(-SCALE, halflife as int)) as i64,
                attraction: Cpx { re: 0, im: 0 },
                attraction_point: Cpx { re: 0, im: 0 },
                attraction_exponent: SCALE,
            }),
    {
        let e: i64 = fx_div(-SCALE, halflife);
        let retention: i64 = pow_fx(2 * SCALE, e);
        Self::move_asymptotic(vel0, vel1, Cpx { re: retention, im: 0 })
    }

    /// Asymptotic motion toward `vel`, starting boosted past it.
    pub fn move_asymptotic_simple(vel: Cpx, boost_factor: i64) -> (r: MoveParams)
        ensures
            r == (MoveParams {
                velocity: cpx_mul_s(vel, cpx_s(fx_add_s(SCALE as int, boost_factor as int), 0)),
                acceleration: cpx_mul_s(
                    vel,
                    cpx_sub_s(Cpx { re: SCALE, im: 0 }, Cpx { re: ASYMPTOTIC_RETENTION, im: 0 }),
                ),
                retention: ASYMPTOTIC_RETENTION,
                attraction: Cpx { re: 0, im: 0 },
                attraction_point: Cpx { re: 0, im: 0 },
                attraction_exponent: SCALE,
            }),
    {
        let boosted: Cpx = vel.cmul(Cpx { re: fx_add(SCALE, boost_factor), im: 0 });
        Self::move_asymptotic(boosted, vel, Cpx { re: ASYMPTOTIC_RETENTION, im: 0 })
    }
}

/// With a zero attraction coefficient, the whole trajectory — positions and
/// velocities over any number of updates — is independent of the attraction
/// point and the attraction exponent.
pub proof fn lemma_zero_attraction_independent(
    p: MoveParams,
    q: MoveParams,
    pos: Cpx,
    delta: int,
    n: nat,
)
    requires
        p.attraction == (Cpx { re: 0, im: 0 }),
        q.attraction == p.attraction,
        q.velocity == p.velocity,
        q.acceleration == p.acceleration,
        q.retention == p.retention,
    ensures
        iterate_s(p, pos, delta, n).1 == iterate_s(q, pos, delta, n).1,
        iterate_s(p, pos, delta, n).0.velocity == iterate_s(q, pos, delta, n).0.velocity,
        iterate_s(p, pos, delta, n).0.attraction == p.attraction,
        iterate_s(q, pos, delta, n).0.attraction == p.attraction,
        iterate_s(p, pos, delta, n).0.acceleration == iterate_s(q, pos, delta, n).0.acceleration,
        iterate_s(p, pos, delta, n).0.retention == iterate_s(q, pos, delta, n).0.retention,
    decreases n,
{
    if n > 0 {
        lemma_zero_attraction_independent(p, q, pos, delta, (n - 1) as nat);
    }
}

/// Pure linear motion accumulates: with unit retention, no acceleration and
/// no attraction, `n` updates leave the velocity as it was and put the
/// position exactly `n` velocity-times-delta steps ahead, as long as the
/// path stays inside the representable range.
pub proof fn lemma_linear_motion_accumulates(p: MoveParams, pos: Cpx, delta: int, n: nat)
    requires
        p.attraction == (Cpx { re: 0, im: 0 }),
        p.acceleration == (Cpx { re: 0, im: 0 }),
        p.retention == SCALE,
        cpx_in_lim(p.velocity),
        in_lim(pos.re as int),
        in_lim(pos.im as int),
        in_lim(pos.re + n * fx_mul_s(p.velocity.re as int, delta)),
        in_lim(pos.im + n * fx_mul_s(p.velocity.im as int, delta)),
    ensures
        iterate_s(p, pos, delta, n).0 == p,
        iterate_s(p, pos, delta, n).1.re == pos.re + n * fx_mul_s(p.velocity.re as int, delta),
        iterate_s(p, pos, delta, n).1.im == pos.im + n * fx_mul_s(p.velocity.im as int, delta),
    decreases n,
{
    let sre = fx_mul_s(p.velocity.re as int, delta);
    let sim = fx_mul_s(p.velocity.im as int, delta);
    lemma_div_multiples_vanish(0, SCALE as int);
    lemma_div_multiples_vanish(p.velocity.re as int, SCALE as int);
    lemma_div_multiples_vanish(-(p.velocity.re as int), SCALE as int);
    lemma_div_multiples_vanish(p.velocity.im as int, SCALE as int);
    lemma_div_multiples_vanish(-(p.velocity.im as int), SCALE as int);
    if n > 0 {
        assert(in_lim(pos.re + (n - 1) * sre) && in_lim(pos.im + (n - 1) * sim))
            by (nonlinear_arith)
            requires
                n >= 1,
                in_lim(pos.re as int),
                in_lim(pos.im as int),
                in_lim(pos.re + n * sre),
                in_lim(pos.im + n * sim),
        ;
        lemma_linear_motion_accumulates(p, pos, delta, (n - 1) as nat);
        assert((n - 1) * sre + sre == n * sre) by (nonlinear_arith);
        assert((n - 1) * sim + sim == n * sim) by (nonlinear_arith);
    } else {
        assert(n * sre == 0) by (nonlinear_arith)
            requires
                n == 0,
        ;
        assert(n * sim == 0) by (nonlinear_arith)
            requires
                n == 0,
        ;
    }
}

} // verus!
