//! The boss phase machine: an ordered queue of phases, each a timeout, a
//! health budget and an attack pattern.  The front phase is active; when
//! its timeout runs out it is popped and the next phase's health budget is
//! installed; with no phase left the boss is invulnerable.

use vstd::prelude::*;

use crate::attack::AttackMove;
use crate::attack::AttackView;
use crate::attack::BulletSpawn;
use crate::attack::attack_view;
use crate::attack::cooldowns_ticked_s;
use crate::attack::fire_s;
use crate::cpx::Cpx;
use crate::cpx::Transform2D;
use crate::fx::SCALE;
use crate::health::Hitpoint;
use crate::rng::Lcg;
use crate::timer::Timer;
use crate::timer::timer_completed_s;
use crate::timer::timer_update_s;

verus! {

/// One boss phase: how long it lasts, how much damage it takes, and what
/// it fires.
#[derive(Debug)]
pub struct BossMove {
    pub timeout: Timer,
    pub hp: i64,
    pub attack: AttackMove,
}

impl BossMove {
    /// A phase from its timeout, health budget and attack pattern.
    pub fn new(timeout: i64, hp: i64, attack: AttackMove) -> (r: BossMove)
        ensures
            r.timeout == (Timer { duration: timeout, elapsed: 0, repeat: false }),
            r.hp == hp,
            attack_view(r.attack) == attack_view(attack),
    {
        BossMove { timeout: Timer::new(timeout, false), hp, attack }
    }
}

/// A boss phase as specifications see it.
pub ghost struct BossMoveView {
    pub timeout: Timer,
    pub hp: i64,
    pub attack: AttackView,
}

/// The view of one phase.
pub open spec fn boss_move_view(b: BossMove) -> BossMoveView {
    BossMoveView { timeout: b.timeout, hp: b.hp, attack: attack_view(b.attack) }
}

/// The views of a phase queue.
pub open spec fn boss_views(s: Seq<BossMove>) -> Seq<BossMoveView>
    decreases s,
{
    if s.len() == 0 {
        Seq::empty()
    } else {
        seq![boss_move_view(s[0])] + boss_views(s.drop_first())
    }
}

/// The health budget a phase exposes: full, vulnerable health of the
/// phase's `hp`.
pub open spec fn phase_hitpoint_s(hp: i64) -> Hitpoint {
    Hitpoint { hp, max_hp: hp, invulnerable: false }
}

/// The health of a boss with no phase left: invulnerable.
pub open spec fn invulnerable_hitpoint_s() -> Hitpoint {
    Hitpoint { hp: SCALE, max_hp: SCALE, invulnerable: true }
}

/// What one boss tick does: the bullets the active phase fires at the
/// player (none when no player or no phase is present), the phase queue,
/// the boss health and the random state afterwards.  The active phase's
/// attack fires and its cooldowns tick; an invulnerable boss with an
/// active phase is re-armed with that phase's budget; the phase timeout
/// advances, and on completion the phase is popped and the next phase's
/// budget installed — or the boss made invulnerable when none is left.
pub open spec fn boss_tick_s(
    q: Seq<BossMoveView>,
    hp: Hitpoint,
    tpos: Cpx,
    player: Option<Cpx>,
    state: u64,
    delta: int,
) -> (Seq<BulletSpawn>, Seq<BossMoveView>, Hitpoint, u64) {
    if q.len() == 0 {
        (Seq::empty(), q, hp, state)
    } else {
        let fired = match player {
            Some(ppos) => {
                let f = fire_s(q[0].attack, tpos, ppos, state);
                (f.0, cooldowns_ticked_s(f.1, delta), f.2)
            },
            None => (Seq::<BulletSpawn>::empty(), q[0].attack, state),
        };
        let hp1 = if hp.invulnerable {
            phase_hitpoint_s(q[0].hp)
        } else {
            hp
        };
        let t2 = timer_update_s(q[0].timeout, delta);
        if timer_completed_s(t2) {
            let q2 = q.remove(0);
            let hp2 = if q2.len() > 0 {
                phase_hitpoint_s(q2[0].hp)
            } else {
                invulnerable_hitpoint_s()
            };
            (fired.0, q2, hp2, fired.2)
        } else {
            let q2 = q.remove(0).insert(
                0,
                BossMoveView { timeout: t2, hp: q[0].hp, attack: fired.1 },
            );
            (fired.0, q2, hp1, fired.2)
        }
    }
}

/// An ordered queue of boss phases; the front one is active.
#[derive(Debug)]
pub struct BossMoves(pub Vec<BossMove>);

impl BossMoves {
    /// A phase queue from its phases, first phase active first.
    pub fn new(moves: Vec<BossMove>) -> (r: BossMoves)
        ensures
            boss_views(r.0@) == boss_views(moves@),
    {
        BossMoves(moves)
    }

    /// Runs one tick of the phase machine: fires the active phase's attack
    /// at the player, ticks its cooldowns and timeout, re-arms an
    /// invulnerable boss with the active budget, and advances the queue on
    /// timeout.  Returns the bullets fired this tick.
    pub fn update(
        &mut self,
        hitpoint: &mut Hitpoint,
        transform: &Transform2D,
        player: Option<Transform2D>,
        rng: &mut Lcg,
        delta: i64,
    ) -> (bullets: Vec<BulletSpawn>)
        ensures
            (bullets@, boss_views(final(self).0@), *final(hitpoint), final(rng).state)
                == boss_tick_s(
                boss_views(old(self).0@),
                *old(hitpoint),
                transform.position,
                match player {
                    Some(p) => Some(p.position),
                    None => None,
                },
                old(rng).state,
                delta as int,
            ),
    {
        if self.0.len() == 0 {
            proof {
                assert(boss_views(self.0@) =~= Seq::<BossMoveView>::empty());
            }
            return Vec::new();
        }
        let ghost orig = self.0@;
        let mut front: BossMove = self.0.remove(0);
        proof {
            assert(boss_views(orig)[0] == boss_move_view(orig[0]));
            assert(boss_views(orig).drop_first() =~= boss_views(orig.drop_first()));
        }
        let bullets: Vec<BulletSpawn> = match player {
            Some(p) => {
                let (bs, a2) = front.attack.fire(transform, &p, rng);
                front.attack = a2.update_cooldown(delta);
                bs
            },
            None => Vec::new(),
        };
        if hitpoint.invulnerable {
            *hitpoint = Hitpoint::new(front.hp);
        }
        front.timeout.update(delta);
        if front.timeout.completed() {
            if self.0.len() > 0 {
                let next_hp: i64 = self.0[0].hp;
                *hitpoint = Hitpoint::new(next_hp);
                proof {
                    assert(boss_views(self.0@)[0] == boss_move_view(self.0@[0]));
                }
            } else {
                *hitpoint = Hitpoint::invulnerable();
                proof {
                    assert(boss_views(self.0@) =~= Seq::<BossMoveView>::empty());
                }
            }
            proof {
                assert(boss_views(orig).remove(0) =~= boss_views(orig.drop_first()));
            }
        } else {
            let ghost tail = self.0@;
            self.0.insert(0, front);
            proof {
                assert(self.0@.drop_first() =~= tail);
                assert(boss_views(self.0@) =~= seq![boss_move_view(self.0@[0])] + boss_views(tail));
                assert(boss_views(orig).remove(0) =~= boss_views(orig.drop_first()));
            }
        }
        bullets
    }
}

/// When the active phase's timeout runs out, the queue advances and the
/// boss's exposed health budget is replaced whole by the next phase's —
/// damage taken against the old phase does not carry over — or the boss
/// becomes invulnerable when no phase remains.
pub proof fn lemma_phase_transition(
    q: Seq<BossMoveView>,
    hp: Hitpoint,
    tpos: Cpx,
    player: Option<Cpx>,
    state: u64,
    delta: int,
)
    requires
        q.len() > 0,
        timer_completed_s(timer_update_s(q[0].timeout, delta)),
    ensures
        boss_tick_s(q, hp, tpos, player, state, delta).1 == q.remove(0),
        q.len() > 1 ==> boss_tick_s(q, hp, tpos, player, state, delta).2 == phase_hitpoint_s(
            q[1].hp,
        ),
        q.len() == 1 ==> boss_tick_s(q, hp, tpos, player, state, delta).2
            == invulnerable_hitpoint_s(),
{
}

/// While a phase is active and not yet timed out, the boss is exposed:
/// whatever the health was before the tick, it is vulnerable afterwards,
/// and an invulnerable boss is re-armed with the active phase's budget.
pub proof fn lemma_active_phase_exposed(
    q: Seq<BossMoveView>,
    hp: Hitpoint,
    tpos: Cpx,
    player: Option<Cpx>,
    state: u64,
    delta: int,
)
    requires
        q.len() > 0,
        !timer_completed_s(timer_update_s(q[0].timeout, delta)),
    ensures
        !boss_tick_s(q, hp, tpos, player, state, delta).2.invulnerable,
        hp.invulnerable ==> boss_tick_s(q, hp, tpos, player, state, delta).2 == phase_hitpoint_s(
            q[0].hp,
        ),
        !hp.invulnerable ==> boss_tick_s(q, hp, tpos, player, state, delta).2 == hp,
{
}

} // verus!
