//! Health and hit circles: damage bookkeeping with an invulnerability
//! switch, and the circle-against-circle overlap test.

use vstd::prelude::*;

use crate::cpx::Cpx;
use crate::cpx::Transform2D;
use crate::cpx::cpx_dist_sq_s;
use crate::fx::SCALE;
use crate::fx::fx_add;
use crate::fx::fx_add_s;
use crate::fx::fx_mul;
use crate::fx::fx_mul_s;
use crate::fx::fx_sub;
use crate::fx::fx_sub_s;
use crate::fx::in_lim;

verus! {

/// Slack added by the proximity test on top of the radii (0.05 fixed).
pub const NEAR_SLACK: i64 = 3277;

/// Health of an entity.  An invulnerable entity takes no damage and never
/// reports dead; death needs health strictly below zero.
#[derive(Clone, Copy, Debug, PartialEq, Eq, Structural)]
pub struct Hitpoint {
    pub hp: i64,
    pub max_hp: i64,
    pub invulnerable: bool,
}

/// Whether this health state counts as dead: vulnerable and strictly
/// below zero — zero exactly is still alive.
pub open spec fn is_dead_s(h: Hitpoint) -> bool {
    !h.invulnerable && h.hp < 0
}

/// The health state after taking `amount` of damage: untouched while
/// invulnerable, else lowered by `amount`.
pub open spec fn damage_s(h: Hitpoint, amount: int) -> Hitpoint {
    if h.invulnerable {
        h
    } else {
        Hitpoint { hp: fx_sub_s(h.hp as int, amount) as i64, max_hp: h.max_hp, invulnerable: false }
    }
}

/// The health state after `n` hits of `amount` each.
pub open spec fn damage_iter_s(h: Hitpoint, amount: int, n: nat) -> Hitpoint
    decreases n,
{
    if n == 0 {
        h
    } else {
        damage_s(damage_iter_s(h, amount, (n - 1) as nat), amount)
    }
}

impl Hitpoint {
    /// Full, vulnerable health.
    pub fn new(hp: i64) -> (r: Hitpoint)
        ensures
            r == (Hitpoint { hp, max_hp: hp, invulnerable: false }),
    {
        Hitpoint { hp, max_hp: hp, invulnerable: false }
    }

    /// The health of an entity that cannot be hurt.
    pub fn invulnerable() -> (r: Hitpoint)
        ensures
            r == (Hitpoint { hp: SCALE, max_hp: SCALE, invulnerable: true }),
    {
        Hitpoint { hp: SCALE, max_hp: SCALE, invulnerable: true }
    }

    /// Whether this health state counts as dead; strictly below zero,
    /// never while invulnerable.
    pub fn is_dead(&self) -> (r: bool)
        ensures
            r == is_dead_s(*self),
    {
        if self.invulnerable {
            return false;
        }
        self.hp < 0
    }

    /// Takes `amount` of damage, unless invulnerable; reports whether the
    /// health has now fallen to or below zero (which, at exactly zero, is
    /// not yet death).
    pub fn damage(&mut self, amount: i64) -> (r: bool)
        ensures
            *final(self) == damage_s(*old(self), amount as int),
            r == (!old(self).invulnerable && final(self).hp <= 0),
    {
        if !self.invulnerable {
            self.hp = fx_sub(self.hp, amount);
            return self.hp <= 0;
        }
        false
    }
}

/// Damage accumulates exactly: `n` vulnerable hits of `amount` each lower
/// the health by `n * amount`, as long as the path stays representable;
/// and the entity is dead afterwards exactly when that total is strictly
/// below zero.
pub proof fn lemma_damage_accumulates(h: Hitpoint, amount: int, n: nat)
    requires
        !h.invulnerable,
        0 <= amount,
        in_lim(h.hp as int),
        in_lim(h.hp - n * amount),
    ensures
        damage_iter_s(h, amount, n) == (Hitpoint {
            hp: (h.hp - n * amount) as i64,
            max_hp: h.max_hp,
            invulnerable: false,
        }),
        is_dead_s(damage_iter_s(h, amount, n)) <==> h.hp - n * amount < 0,
    decreases n,
{
    if n == 0 {
        assert(n * amount == 0) by (nonlinear_arith)
            requires
                n == 0,
        ;
    } else {
        assert(h.hp - (n - 1) * amount >= h.hp - n * amount && (n - 1) * amount + amount == n
            * amount) by (nonlinear_arith)
            requires
                n >= 1,
                0 <= amount,
        ;
        lemma_damage_accumulates(h, amount, (n - 1) as nat);
    }
}

/// A hit circle.
#[derive(Clone, Copy, Debug, PartialEq, Eq, Structural)]
pub struct Hitbox {
    pub radius: i64,
}

/// Whether two hit circles overlap: squared distance of the centers no
/// more than the square of the summed radii.
pub open spec fn intersects_s(r1: i64, p1: Cpx, r2: i64, p2: Cpx) -> bool {
    cpx_dist_sq_s(p1, p2) <= fx_mul_s(
        fx_add_s(r1 as int, r2 as int),
        fx_add_s(r1 as int, r2 as int),
    )
}

impl Hitbox {
    /// A hit circle of the given radius.
    pub fn new(radius: i64) -> (r: Hitbox)
        ensures
            r == (Hitbox { radius }),
    {
        Hitbox { radius }
    }

    /// Whether this hit circle at `current_pos` overlaps `target_hitbox`
    /// at `target_pos`.
    pub fn is_intersect(
        &self,
        current_pos: &Transform2D,
        target_pos: &Transform2D,
        target_hitbox: &Hitbox,
    ) -> (r: bool)
        ensures
            r == intersects_s(
                self.radius,
                current_pos.position,
                target_hitbox.radius,
                target_pos.position,
            ),
    {
        let sum: i64 = fx_add(self.radius, target_hitbox.radius);
        current_pos.position.dist_sq(target_pos.position) <= fx_mul(sum, sum)
    }

    /// Like `is_intersect` with an extra margin of slack on the radii.
    pub fn near(
        &self,
        current_pos: &Transform2D,
        target_pos: &Transform2D,
        target_hitbox: &Hitbox,
    ) -> (r: bool)
        ensures
            r == (cpx_dist_sq_s(current_pos.position, target_pos.position) <= fx_mul_s(
                fx_add_s(fx_add_s(self.radius as int, NEAR_SLACK as int), target_hitbox.radius as int),
                fx_add_s(fx_add_s(self.radius as int, NEAR_SLACK as int), target_hitbox.radius as int),
            )),
    {
        let sum: i64 = fx_add(fx_add(self.radius, NEAR_SLACK), target_hitbox.radius);
        current_pos.position.dist_sq(target_pos.position) <= fx_mul(sum, sum)
    }
}

} // verus!
