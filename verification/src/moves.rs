//! Time-sliced movement scripts: an ordered queue of kinematic recipes,
//! each boxed by its own timer, consumed front to back; the wander recipe
//! roams toward randomly chosen points inside a zone.

use vstd::arithmetic::div_mod::lemma_div_is_ordered;
use vstd::arithmetic::div_mod::lemma_div_multiples_vanish;
use vstd::arithmetic::mul::lemma_mul_inequality;
use vstd::prelude::*;

use crate::cpx::Cpx;
use crate::cpx::Rect;
use crate::cpx::Transform2D;
use crate::cpx::cis_s;
use crate::cpx::cpx_dist_sq_s;
use crate::cpx::cpx_scale_s;
use crate::cpx::rect_contains_s;
use crate::fx::SCALE;
use crate::fx::fx_add;
use crate::fx::fx_add_s;
use crate::fx::fx_mul;
use crate::fx::fx_mul_s;
use crate::fx::fx_sub_s;
use crate::fx::in_lim;
use crate::motion::MoveParams;
use crate::motion::towards_s;
use crate::motion::update_pos_s;
use crate::motion::update_vel_s;
use crate::rng::Lcg;
use crate::rng::lemma_lcg_unit_bounded;
use crate::rng::lcg_next_s;
use crate::rng::lcg_unit_s;
use crate::timer::Timer;
use crate::timer::timer_completed_s;
use crate::timer::timer_update_s;
use crate::trig::atan2_s;

verus! {

/// Squared distance under which a freshly sampled wander target is
/// considered too close to the mover (one world unit, squared).
pub const WANDER_MIN_DIST_SQ: i64 = 65536;

/// Squared distance under which the wander target counts as reached.
pub const WANDER_ARRIVE_SQ: i64 = 3277;

/// How many samples the wander recipe tries before it settles for the
/// last one.
pub const WANDER_TRIES: u64 = 8;

/// A kinematic recipe: what `Moves::update` builds the frame's
/// `MoveParams` from while the recipe's time box lasts.
#[derive(Clone, Copy, Debug, PartialEq, Eq, Structural)]
pub enum Move {
    /// A fixed kinematic state, pre-advanced by one step of the given delta.
    MoveNext(MoveParams, i64),
    /// Pull toward a point, the pull pre-applied from a standing start.
    MoveFromToward(Cpx, Cpx),
    /// Pull toward a point with a falloff exponent, keeping the current velocity.
    MoveTowardExp(Cpx, Cpx, i64),
    /// Pull toward a point with a falloff exponent, from a standing start.
    MoveFromTowardExp(Cpx, Cpx, i64),
    /// Pull toward a point, keeping the current velocity.
    MoveTowards(Cpx, Cpx),
    /// Constant velocity.
    MoveLinear(Cpx),
    /// Constant acceleration over a given start velocity.
    MoveAccelerated(Cpx, Cpx),
    /// Constant acceleration over the current velocity.
    MoveAccelerated2(Cpx),
    /// Damped motion from a given start velocity.
    MoveDampen(Cpx, i64),
    /// Damped motion from the current velocity.
    MoveDampenRetention(i64),
    /// Roam inside a zone at a given speed, pausing `wait` between legs.
    MoveWanderLinear(Rect, i64, i64),
}

/// One time-boxed movement: a recipe and how long it stays active.
#[derive(Clone, Copy, Debug, PartialEq, Eq, Structural)]
pub struct Movement {
    pub timer: Timer,
    pub movement: Move,
}

impl Movement {
    /// A movement that holds `movement` active for `how_long`.
    pub fn new(how_long: i64, movement: Move) -> (r: Movement)
        ensures
            r == (Movement { timer: Timer { duration: how_long, elapsed: 0, repeat: false }, movement }),
    {
        Movement { timer: Timer::new(how_long, false), movement }
    }
}

/// Roam state of a wandering entity: where it started and the roam target
/// it currently heads for, if one is chosen.
#[derive(Clone, Copy, Debug)]
pub struct Wanderable {
    pub last_position: Cpx,
    pub target_position: Option<Cpx>,
}

impl Wanderable {
    /// Roam state with no target chosen yet.
    pub fn new(start_position: Cpx) -> (r: Wanderable)
        ensures
            r == (Wanderable { last_position: start_position, target_position: None::<Cpx> }),
    {
        Wanderable { last_position: start_position, target_position: None }
    }
}

/// Uniformly accelerated kinematic state.
pub open spec fn accelerated_s(vel: Cpx, accel: Cpx) -> MoveParams {
    MoveParams {
        velocity: vel,
        acceleration: accel,
        retention: SCALE,
        attraction: Cpx { re: 0, im: 0 },
        attraction_point: Cpx { re: 0, im: 0 },
        attraction_exponent: SCALE,
    }
}

/// Damped kinematic state.
pub open spec fn dampen_s(vel: Cpx, retention: i64) -> MoveParams {
    MoveParams {
        velocity: vel,
        acceleration: Cpx { re: 0, im: 0 },
        retention,
        attraction: Cpx { re: 0, im: 0 },
        attraction_point: Cpx { re: 0, im: 0 },
        attraction_exponent: SCALE,
    }
}

/// A kinematic state advanced by one update from `pos`, the moved position
/// discarded.
pub open spec fn next_s(pos: Cpx, p: MoveParams, dt: int) -> MoveParams {
    MoveParams { velocity: update_vel_s(p, update_pos_s(p, pos, dt), dt), ..p }
}

/// The velocity the wander recipe heads toward its target with: the unit
/// direction from `pos` to `t`, scaled by `speed`.
pub open spec fn wander_vel_s(pos: Cpx, t: Cpx, speed: int) -> Cpx {
    cpx_scale_s(
        cis_s(atan2_s(fx_sub_s(t.im as int, pos.im as int), fx_sub_s(t.re as int, pos.re as int))),
        speed,
    )
}

/// What each recipe other than wander evaluates to, given the caller's
/// current kinematic state and position.
pub open spec fn recipe_result_s(mv: Move, params: MoveParams, pos: Cpx) -> MoveParams {
    match mv {
        Move::MoveNext(a, b) => next_s(pos, a, b as int),
        Move::MoveFromToward(target, attraction) => next_s(
            pos,
            towards_s(Cpx { re: 0, im: 0 }, target, attraction, SCALE),
            0,
        ),
        Move::MoveTowardExp(target, attraction, exponent) => towards_s(
            params.velocity,
            target,
            attraction,
            exponent,
        ),
        Move::MoveFromTowardExp(target, attraction, exponent) => next_s(
            pos,
            towards_s(Cpx { re: 0, im: 0 }, target, attraction, exponent),
            0,
        ),
        Move::MoveTowards(target, attraction) => towards_s(params.velocity, target, attraction, SCALE),
        Move::MoveLinear(vel) => towards_s(vel, Cpx { re: 0, im: 0 }, Cpx { re: 0, im: 0 }, SCALE),
        Move::MoveAccelerated(vel, accel) => accelerated_s(vel, accel),
        Move::MoveAccelerated2(accel) => accelerated_s(params.velocity, accel),
        Move::MoveDampen(vel, retention) => dampen_s(vel, retention),
        Move::MoveDampenRetention(retention) => dampen_s(params.velocity, retention),
        Move::MoveWanderLinear(zone, speed, wait) => params,
    }
}

/// Where the wander target sampling lands, and the random state it leaves:
/// up to `tries` samples inside `zone`, stopping at the first farther than
/// the minimum distance from `pos`, settling for the last.
pub open spec fn wander_pick_s(zone: Rect, pos: Cpx, state: u64, tries: nat) -> (Cpx, u64)
    decreases tries,
{
    let s1 = lcg_next_s(state);
    let u = lcg_unit_s(s1);
    let s2 = lcg_next_s(s1);
    let v = lcg_unit_s(s2);
    let cand = Cpx {
        re: fx_add_s(zone.x as int, fx_mul_s(u, zone.w as int)) as i64,
        im: fx_add_s(zone.y as int, fx_mul_s(v, zone.h as int)) as i64,
    };
    if tries <= 1 {
        (cand, s2)
    } else if cpx_dist_sq_s(cand, pos) > WANDER_MIN_DIST_SQ {
        (cand, s2)
    } else {
        wander_pick_s(zone, pos, s2, (tries - 1) as nat)
    }
}

/// Whether this update would evaluate the wander recipe, and so needs the
/// roam state to be present.
pub open spec fn needs_wander(q: Seq<Movement>, delta: int) -> bool {
    &&& q.len() > 0
    &&& !timer_completed_s(timer_update_s(q[0].timer, delta))
    &&& q[0].movement matches Move::MoveWanderLinear(_, _, _)
}

/// What one movement-script update does: the queue, the returned kinematic
/// state, the roam state and the random state after the call.  An empty
/// queue returns the caller's state unchanged; a front entry whose time box
/// ends is popped, the caller's state passing through for this tick;
/// otherwise the front recipe is evaluated.
pub open spec fn moves_update_s(
    q: Seq<Movement>,
    params: MoveParams,
    pos: Cpx,
    w: Option<Wanderable>,
    state: u64,
    delta: int,
) -> (Seq<Movement>, MoveParams, Option<Wanderable>, u64) {
    if q.len() == 0 {
        (q, params, w, state)
    } else {
        let t2 = timer_update_s(q[0].timer, delta);
        if timer_completed_s(t2) {
            (q.remove(0), params, w, state)
        } else {
            let q2 = q.remove(0).insert(0, Movement { timer: t2, movement: q[0].movement });
            match q[0].movement {
                Move::MoveWanderLinear(zone, speed, wait) => match w {
                    None => (q2, params, w, state),
                    Some(w0) => match w0.target_position {
                        None => {
                            let pick = wander_pick_s(zone, pos, state, WANDER_TRIES as nat);
                            (
                                q2,
                                towards_s(
                                    Cpx { re: 0, im: 0 },
                                    Cpx { re: 0, im: 0 },
                                    Cpx { re: 0, im: 0 },
                                    SCALE,
                                ),
                                Some(
                                    Wanderable {
                                        last_position: w0.last_position,
                                        target_position: Some(pick.0),
                                    },
                                ),
                                pick.1,
                            )
                        },
                        Some(t) => {
                            let mp = towards_s(
                                wander_vel_s(pos, t, speed as int),
                                t,
                                Cpx { re: 0, im: 0 },
                                SCALE,
                            );
                            if cpx_dist_sq_s(t, pos) < WANDER_ARRIVE_SQ {
                                (
                                    q2,
                                    mp,
                                    Some(
                                        Wanderable {
                                            last_position: w0.last_position,
                                            target_position: None,
                                        },
                                    ),
                                    state,
                                )
                            } else {
                                (q2, mp, Some(w0), state)
                            }
                        },
                    },
                },
                _ => (q2, recipe_result_s(q[0].movement, params, pos), w, state),
            }
        }
    }
}

/// The script state after `n` updates, the returned kinematic state of
/// each tick feeding the next.
pub open spec fn moves_iterate_s(
    q: Seq<Movement>,
    params: MoveParams,
    pos: Cpx,
    w: Option<Wanderable>,
    state: u64,
    delta: int,
    n: nat,
) -> (Seq<Movement>, MoveParams, Option<Wanderable>, u64)
    decreases n,
{
    if n == 0 {
        (q, params, w, state)
    } else {
        let prev = moves_iterate_s(q, params, pos, w, state, delta, (n - 1) as nat);
        moves_update_s(prev.0, prev.1, pos, prev.2, prev.3, delta)
    }
}

/// An exhausted script is a frozen no-op: it stays empty and hands the
/// caller's kinematic, roam and random state back unchanged, so further
/// updates are idempotent.
pub proof fn lemma_exhausted_script_frozen(
    params: MoveParams,
    pos: Cpx,
    w: Option<Wanderable>,
    state: u64,
    delta: int,
)
    ensures
        moves_update_s(Seq::<Movement>::empty(), params, pos, w, state, delta) == (
            Seq::<Movement>::empty(),
            params,
            w,
            state,
        ),
{
}

/// When the front entry's time box ends, the entry is popped — the next
/// entry, if any, becomes the active one — and the caller's kinematic,
/// roam and random state pass through unchanged for that tick.
pub proof fn lemma_script_pops_on_completion(
    q: Seq<Movement>,
    params: MoveParams,
    pos: Cpx,
    w: Option<Wanderable>,
    state: u64,
    delta: int,
)
    requires
        q.len() > 0,
        timer_completed_s(timer_update_s(q[0].timer, delta)),
    ensures
        moves_update_s(q, params, pos, w, state, delta) == (q.remove(0), params, w, state),
{
}

/// While the front entry's time box lasts — its timer, fresh and
/// non-repeating, has accumulated less than its duration — the script
/// keeps every entry, the front recipe stays the active one with exactly
/// the ticks' total on its timer, and roam and random state are untouched
/// (the front recipe not being wander).
pub proof fn lemma_script_front_active(
    q: Seq<Movement>,
    params: MoveParams,
    pos: Cpx,
    w: Option<Wanderable>,
    state: u64,
    delta: int,
    n: nat,
)
    requires
        q.len() > 0,
        !q[0].timer.repeat,
        q[0].timer.elapsed == 0,
        0 <= delta,
        in_lim(n * delta),
        n * delta < q[0].timer.duration,
        !(q[0].movement matches Move::MoveWanderLinear(_, _, _)),
    ensures
        moves_iterate_s(q, params, pos, w, state, delta, n).0.len() == q.len(),
        moves_iterate_s(q, params, pos, w, state, delta, n).0[0].timer == (Timer {
            duration: q[0].timer.duration,
            elapsed: (n * delta) as i64,
            repeat: false,
        }),
        moves_iterate_s(q, params, pos, w, state, delta, n).0[0].movement == q[0].movement,
        forall|i: int|
            1 <= i < q.len() ==> moves_iterate_s(q, params, pos, w, state, delta, n).0[i] == q[i],
        moves_iterate_s(q, params, pos, w, state, delta, n).2 == w,
        moves_iterate_s(q, params, pos, w, state, delta, n).3 == state,
    decreases n,
{
    if n == 0 {
        assert(n * delta == 0) by (nonlinear_arith)
            requires
                n == 0,
        ;
    } else {
        assert(0 <= (n - 1) * delta <= n * delta && (n - 1) * delta + delta == n * delta)
            by (nonlinear_arith)
            requires
                n >= 1,
                0 <= delta,
        ;
        lemma_script_front_active(q, params, pos, w, state, delta, (n - 1) as nat);
    }
}

/// A chosen wander target does not change while the mover is still at
/// least the arrival distance away: the update heads toward the same
/// target and leaves the roam and random state as they were.
pub proof fn lemma_wander_target_stable(
    q: Seq<Movement>,
    params: MoveParams,
    pos: Cpx,
    w0: Wanderable,
    t: Cpx,
    state: u64,
    delta: int,
    zone: Rect,
    speed: i64,
    wait: i64,
)
    requires
        q.len() > 0,
        q[0].movement == Move::MoveWanderLinear(zone, speed, wait),
        !timer_completed_s(timer_update_s(q[0].timer, delta)),
        w0.target_position == Some(t),
        cpx_dist_sq_s(t, pos) >= WANDER_ARRIVE_SQ,
    ensures
        moves_update_s(q, params, pos, Some(w0), state, delta).1 == towards_s(
            wander_vel_s(pos, t, speed as int),
            t,
            Cpx { re: 0, im: 0 },
            SCALE,
        ),
        moves_update_s(q, params, pos, Some(w0), state, delta).2 == Some(w0),
        moves_update_s(q, params, pos, Some(w0), state, delta).3 == state,
{
}

/// Every target the wander sampling can settle on lies inside the zone,
/// both ends inclusive, as long as the zone has nonnegative extent and
/// fits the representable range.
pub proof fn lemma_wander_pick_in_zone(zone: Rect, pos: Cpx, state: u64, tries: nat)
    requires
        tries >= 1,
        0 <= zone.w,
        0 <= zone.h,
        in_lim(zone.x as int),
        in_lim(zone.y as int),
        in_lim(zone.x + zone.w),
        in_lim(zone.y + zone.h),
    ensures
        rect_contains_s(zone, wander_pick_s(zone, pos, state, tries).0),
    decreases tries,
{
    let s1 = lcg_next_s(state);
    let u = lcg_unit_s(s1);
    let s2 = lcg_next_s(s1);
    let v = lcg_unit_s(s2);
    lemma_lcg_unit_bounded(s1);
    lemma_lcg_unit_bounded(s2);
    lemma_scaled_fraction_in_extent(u, zone.w as int);
    lemma_scaled_fraction_in_extent(v, zone.h as int);
    let cand = Cpx {
        re: fx_add_s(zone.x as int, fx_mul_s(u, zone.w as int)) as i64,
        im: fx_add_s(zone.y as int, fx_mul_s(v, zone.h as int)) as i64,
    };
    let settled = tries <= 1 || cpx_dist_sq_s(cand, pos) > WANDER_MIN_DIST_SQ;
    if !settled {
        lemma_wander_pick_in_zone(zone, pos, s2, (tries - 1) as nat);
    }
}

/// A fixed-point fraction in `[0, SCALE)` of a nonnegative extent stays
/// within `[0, extent]`.
proof fn lemma_scaled_fraction_in_extent(u: int, w: int)
    requires
        0 <= u < SCALE,
        0 <= w,
    ensures
        0 <= fx_mul_s(u, w) <= w,
{
    lemma_mul_inequality(u, SCALE as int, w);
    lemma_div_is_ordered(0, u * w, SCALE as int);
    lemma_div_is_ordered(u * w, SCALE as int * w, SCALE as int);
    lemma_div_multiples_vanish(w, SCALE as int);
    lemma_div_multiples_vanish(0, SCALE as int);
    assert(SCALE as int * w == w * SCALE) by (nonlinear_arith);
    assert(0 * w == 0) by (nonlinear_arith);
    assert(0 <= u * w) by (nonlinear_arith)
        requires
            0 <= u && 0 <= w,
    ;
}

/// Samples a wander target: up to `tries` points inside `zone`, stopping
/// at the first one farther than the minimum distance from `pos`.
fn wander_pick(zone: Rect, pos: Cpx, rng: &mut Lcg, tries: u64) -> (r: Cpx)
    requires
        tries >= 1,
    ensures
        r == wander_pick_s(zone, pos, old(rng).state, tries as nat).0,
        final(rng).state == wander_pick_s(zone, pos, old(rng).state, tries as nat).1,
    decreases tries,
{
    let u: i64 = rng.unit_fx();
    let v: i64 = rng.unit_fx();
    let cand: Cpx = Cpx { re: fx_add(zone.x, fx_mul(u, zone.w)), im: fx_add(zone.y, fx_mul(v, zone.h)) };
    if tries <= 1 {
        cand
    } else if cand.dist_sq(pos) > WANDER_MIN_DIST_SQ {
        cand
    } else {
        wander_pick(zone, pos, rng, tries - 1)
    }
}

/// An ordered movement script; the front entry is the active one.
#[derive(Debug)]
pub struct Moves(pub Vec<Movement>);

impl Moves {
    /// A script from its entries, first entry active first.
    pub fn new(vec: Vec<Movement>) -> (r: Moves)
        ensures
            r.0@ == vec@,
    {
        Moves(vec)
    }

    /// Advances the front entry's time box and evaluates its recipe; pops
    /// the entry when its box ends, handing the caller's state through
    /// unchanged for this tick, as also when the script is exhausted.
    pub fn update(
        &mut self,
        move_params: &MoveParams,
        position: &Transform2D,
        wanderable: &mut Option<Wanderable>,
        rng: &mut Lcg,
        delta: i64,
    ) -> (r: MoveParams)
        requires
            needs_wander(old(self).0@, delta as int) ==> (*old(wanderable)) is Some,
        ensures
            (final(self).0@, r, *final(wanderable), final(rng).state) == moves_update_s(
                old(self).0@,
                *move_params,
                position.position,
                *old(wanderable),
                old(rng).state,
                delta as int,
            ),
    {
        if self.0.len() == 0 {
            return *move_params;
        }
        let mut front: Movement = self.0.remove(0);
        front.timer.update(delta);
        if front.timer.completed() {
            return *move_params;
        }
        self.0.insert(0, front);
        match front.movement {
            Move::MoveNext(a, b) => MoveParams::move_next(position.position, a, b),
            Move::MoveFromToward(target, attraction) => MoveParams::move_from_towards(
                position.position,
                target,
                attraction,
            ),
            Move::MoveTowardExp(target, attraction, exponent) => MoveParams::move_towards_exp(
                move_params.velocity,
                target,
                attraction,
                exponent,
            ),
            Move::MoveFromTowardExp(target, attraction, exponent) => MoveParams::move_from_towards_exp(
                position.position,
                target,
                attraction,
                exponent,
            ),
            Move::MoveTowards(target, attraction) => MoveParams::move_towards(
                move_params.velocity,
                target,
                attraction,
            ),
            Move::MoveLinear(vel) => MoveParams::move_linear(vel),
            Move::MoveAccelerated(vel, accel) => MoveParams::move_accelerated(vel, accel),
            Move::MoveDampen(vel, retention) => MoveParams::move_dampen(vel, retention),
            Move::MoveDampenRetention(retention) => MoveParams::move_dampen(
                move_params.velocity,
                retention,
            ),
            Move::MoveAccelerated2(accel) => MoveParams::move_accelerated(
                move_params.velocity,
                accel,
            ),
            Move::MoveWanderLinear(zone, speed, _wait) => {
                let w0: Wanderable = match *wanderable {
                    Some(x) => x,
                    None => unreached(),
                };
                match w0.target_position {
                    None => {
                        let t: Cpx = wander_pick(zone, position.position, rng, WANDER_TRIES);
                        *wanderable = Some(
                            Wanderable { last_position: w0.last_position, target_position: Some(t) },
                        );
                        MoveParams::move_linear(Cpx::zero())
                    },
                    Some(t) => {
                        let ang: i64 = position.position.angle_to(t);
                        let vel: Cpx = Cpx::cis(ang).scale(speed);
                        let mp: MoveParams = MoveParams::move_towards(vel, t, Cpx::zero());
                        if t.dist_sq(position.position) < WANDER_ARRIVE_SQ {
                            *wanderable = Some(
                                Wanderable { last_position: w0.last_position, target_position: None },
                            );
                        }
                        mp
                    },
                }
            },
        }
    }
}

} // verus!
