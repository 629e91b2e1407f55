//! The per-tick systems: kinematic integration, cooldown ticking, movement
//! scripts, firing, the boss phase machine, collision resolution and the
//! off-screen lifecycle, all over the entity store.

use vstd::prelude::*;

use crate::cpx::Cpx;
use crate::cpx::Rect;
use crate::cpx::Transform2D;
use crate::cpx::cpx_add_s;
use crate::cpx::cpx_scale_s;
use crate::cpx::rect_contains_s;
use crate::fx::SCALE;
use crate::attack::AttackMove;
use crate::attack::BulletSpawn;
use crate::attack::cooldowns_ticked_s;
use crate::attack::fire_s;
use crate::boss::BossMoves;
use crate::boss::boss_tick_s;
use crate::entities::create_enemy_bullet;
use crate::entities::create_player_generic_bullet;
use crate::entities::player_generic_bullet_view_s;
use crate::entities::enemy_bullet_view_s;
use crate::health::Hitbox;
use crate::health::Hitpoint;
use crate::motion::MoveParams;
use crate::moves::Move;
use crate::moves::Movement;
use crate::moves::Moves;
use crate::moves::Wanderable;
use crate::moves::moves_update_s;
use crate::moves::needs_wander;
use crate::rng::Lcg;
use crate::motion::update_pos_s;
use crate::motion::update_vel_s;
use crate::timer::Cooldown;
use crate::timer::timer_completed_s;
use crate::timer::timer_update_s;
use crate::world::Entity;
use crate::world::EntityView;
use crate::world::World;
use crate::world::entity_view;
use crate::world::slot_view;
use crate::world::world_view;

verus! {

/// The unit-square viewport.
pub open spec fn viewport_s() -> Rect {
    Rect { x: 0, y: 0, w: SCALE, h: SCALE }
}

/// What kinematic integration does to one slot: an entity carrying both a
/// transform and a kinematic state has its position advanced and its
/// velocity rewritten; anything else is untouched.
pub open spec fn step_motion_s(s: Option<EntityView>, delta: int) -> Option<EntityView> {
    match s {
        None => None,
        Some(e) => match (e.transform, e.move_params) {
            (Some(t), Some(mp)) => {
                let np = update_pos_s(mp, t.position, delta);
                Some(
                    EntityView {
                        transform: Some(Transform2D { position: np, ..t }),
                        move_params: Some(MoveParams { velocity: update_vel_s(mp, np, delta), ..mp }),
                        ..e
                    },
                )
            },
            _ => Some(e),
        },
    }
}

/// What the cooldown tick does to one slot: a standalone cooldown advances
/// by the frame delta, except on the player, whose cooldown the input
/// system advances itself.
pub open spec fn step_cooldown_s(s: Option<EntityView>, delta: int) -> Option<EntityView> {
    match s {
        None => None,
        Some(e) => match e.cooldown {
            Some(c) => if !e.controllable {
                Some(EntityView { cooldown: Some(Cooldown(timer_update_s(c.0, delta))), ..e })
            } else {
                Some(e)
            },
            None => Some(e),
        },
    }
}

/// What the on-screen scan does to one slot: an entity that dies off
/// screen is tagged the moment its position lies in the viewport; outside
/// it keeps its tag, or gains an unset one.
pub open spec fn step_scan_s(s: Option<EntityView>) -> Option<EntityView> {
    match s {
        None => None,
        Some(e) => match e.transform {
            Some(t) => if e.die_offscreen {
                if rect_contains_s(viewport_s(), t.position) {
                    Some(EntityView { been_on_screen: Some(true), ..e })
                } else {
                    match e.been_on_screen {
                        Some(b) => Some(e),
                        None => Some(EntityView { been_on_screen: Some(false), ..e }),
                    }
                }
            } else {
                Some(e)
            },
            None => Some(e),
        },
    }
}

/// What the off-screen sweep does to one slot: an entity once seen on
/// screen is despawned as soon as its position leaves the viewport; one
/// never seen on screen is spared.
pub open spec fn step_clean_s(s: Option<EntityView>) -> Option<EntityView> {
    match s {
        None => None,
        Some(e) => match (e.transform, e.been_on_screen) {
            (Some(t), Some(b)) => if b && !rect_contains_s(viewport_s(), t.position) {
                None
            } else {
                Some(e)
            },
            _ => Some(e),
        },
    }
}

/// Integrates one slot.
fn step_motion(slot: Option<Entity>, delta: i64) -> (r: Option<Entity>)
    ensures
        slot_view(r) == step_motion_s(slot_view(slot), delta as int),
{
    match slot {
        None => None,
        Some(mut e) => {
            if e.transform.is_some() && e.move_params.is_some() {
                let mut t: Transform2D = e.transform.unwrap();
                let mut mp: MoveParams = e.move_params.unwrap();
                mp.update(&mut t.position, delta);
                e.transform = Some(t);
                e.move_params = Some(mp);
                Some(e)
            } else {
                Some(e)
            }
        },
    }
}

/// Ticks one slot's standalone cooldown.
fn step_cooldown(slot: Option<Entity>, delta: i64) -> (r: Option<Entity>)
    ensures
        slot_view(r) == step_cooldown_s(slot_view(slot), delta as int),
{
    match slot {
        None => None,
        Some(mut e) => {
            if e.cooldown.is_some() && !e.controllable {
                let mut c: Cooldown = e.cooldown.unwrap();
                c.0.update(delta);
                e.cooldown = Some(c);
                Some(e)
            } else {
                Some(e)
            }
        },
    }
}

/// Scans one slot for viewport entry.
fn step_scan(slot: Option<Entity>) -> (r: Option<Entity>)
    ensures
        slot_view(r) == step_scan_s(slot_view(slot)),
{
    match slot {
        None => None,
        Some(mut e) => {
            if e.transform.is_some() && e.die_offscreen {
                let t: Transform2D = e.transform.unwrap();
                let viewport: Rect = Rect::new(0, 0, SCALE, SCALE);
                if viewport.contains(t.position) {
                    e.been_on_screen = Some(true);
                } else if e.been_on_screen.is_none() {
                    e.been_on_screen = Some(false);
                }
                Some(e)
            } else {
                Some(e)
            }
        },
    }
}

/// Sweeps one slot that has left the viewport after being seen in it.
fn step_clean(slot: Option<Entity>) -> (r: Option<Entity>)
    ensures
        slot_view(r) == step_clean_s(slot_view(slot)),
{
    match slot {
        None => None,
        Some(e) => {
            if e.transform.is_some() && e.been_on_screen.is_some() {
                let t: Transform2D = e.transform.unwrap();
                let b: bool = e.been_on_screen.unwrap();
                let viewport: Rect = Rect::new(0, 0, SCALE, SCALE);
                if b && !viewport.contains(t.position) {
                    None
                } else {
                    Some(e)
                }
            } else {
                Some(e)
            }
        },
    }
}

/// Advances every entity's position and velocity by one frame.
pub fn update_movement(world: &mut World, delta: i64)
    ensures
        final(world).ents@.len() == old(world).ents@.len(),
        forall|j: int|
            0 <= j < old(world).ents@.len() ==> world_view(final(world).ents@)[j] == step_motion_s(
                world_view(old(world).ents@)[j],
                delta as int,
            ),
{
    let n: usize = world.ents.len();
    let mut i: usize = 0;
    while i < n
        invariant
            i <= n,
            world.ents@.len() == n,
            n == old(world).ents@.len(),
            forall|j: int|
                0 <= j < i ==> world_view(world.ents@)[j] == step_motion_s(
                    world_view(old(world).ents@)[j],
                    delta as int,
                ),
            forall|j: int| i <= j < n ==> world.ents@[j] == old(world).ents@[j],
        decreases n - i,
    {
        let ghost pre = world.ents@;
        let slot: Option<Entity> = self_take(world, i);
        let ghost gslot = slot;
        let stepped: Option<Entity> = step_motion(slot, delta);
        let ghost gstepped = stepped;
        world.ents[i] = stepped;
        proof {
            assert forall|j: int| 0 <= j < i + 1 implies world_view(world.ents@)[j]
                == step_motion_s(world_view(old(world).ents@)[j],
                delta as int) by {
                if j < i {
                    assert(world.ents@[j] == pre[j]);
                    assert(world_view(pre)[j] == step_motion_s(world_view(old(world).ents@)[j],
                delta as int));
                    assert(world_view(world.ents@)[j] == slot_view(world.ents@[j]));
                    assert(world_view(pre)[j] == slot_view(pre[j]));
                } else {
                    assert(world.ents@[j] == gstepped);
                    assert(world_view(world.ents@)[j] == slot_view(gstepped));
                    assert(gslot == old(world).ents@[j]);
                    assert(world_view(old(world).ents@)[j] == slot_view(gslot));
                }
            }
        }
        i = i + 1;
    }
}

/// Ticks every standalone cooldown except the player's.
pub fn update_cooldown(world: &mut World, delta: i64)
    ensures
        final(world).ents@.len() == old(world).ents@.len(),
        forall|j: int|
            0 <= j < old(world).ents@.len() ==> world_view(final(world).ents@)[j]
                == step_cooldown_s(world_view(old(world).ents@)[j], delta as int),
{
    let n: usize = world.ents.len();
    let mut i: usize = 0;
    while i < n
        invariant
            i <= n,
            world.ents@.len() == n,
            n == old(world).ents@.len(),
            forall|j: int|
                0 <= j < i ==> world_view(world.ents@)[j] == step_cooldown_s(
                    world_view(old(world).ents@)[j],
                    delta as int,
                ),
            forall|j: int| i <= j < n ==> world.ents@[j] == old(world).ents@[j],
        decreases n - i,
    {
        let ghost pre = world.ents@;
        let slot: Option<Entity> = self_take(world, i);
        let ghost gslot = slot;
        let stepped: Option<Entity> = step_cooldown(slot, delta);
        let ghost gstepped = stepped;
        world.ents[i] = stepped;
        proof {
            assert forall|j: int| 0 <= j < i + 1 implies world_view(world.ents@)[j]
                == step_cooldown_s(world_view(old(world).ents@)[j],
                delta as int) by {
                if j < i {
                    assert(world.ents@[j] == pre[j]);
                    assert(world_view(pre)[j] == step_cooldown_s(world_view(old(world).ents@)[j],
                delta as int));
                    assert(world_view(world.ents@)[j] == slot_view(world.ents@[j]));
                    assert(world_view(pre)[j] == slot_view(pre[j]));
                } else {
                    assert(world.ents@[j] == gstepped);
                    assert(world_view(world.ents@)[j] == slot_view(gstepped));
                    assert(gslot == old(world).ents@[j]);
                    assert(world_view(old(world).ents@)[j] == slot_view(gslot));
                }
            }
        }
        i = i + 1;
    }
}

/// Tags every doomed-off-screen entity that is inside the viewport.
pub fn scan_been_onscreen(world: &mut World)
    ensures
        final(world).ents@.len() == old(world).ents@.len(),
        forall|j: int|
            0 <= j < old(world).ents@.len() ==> world_view(final(world).ents@)[j] == step_scan_s(
                world_view(old(world).ents@)[j],
            ),
{
    let n: usize = world.ents.len();
    let mut i: usize = 0;
    while i < n
        invariant
            i <= n,
            world.ents@.len() == n,
            n == old(world).ents@.len(),
            forall|j: int|
                0 <= j < i ==> world_view(world.ents@)[j] == step_scan_s(
                    world_view(old(world).ents@)[j],
                ),
            forall|j: int| i <= j < n ==> world.ents@[j] == old(world).ents@[j],
        decreases n - i,
    {
        let ghost pre = world.ents@;
        let slot: Option<Entity> = self_take(world, i);
        let ghost gslot = slot;
        let stepped: Option<Entity> = step_scan(slot);
        let ghost gstepped = stepped;
        world.ents[i] = stepped;
        proof {
            assert forall|j: int| 0 <= j < i + 1 implies world_view(world.ents@)[j]
                == step_scan_s(world_view(old(world).ents@)[j]) by {
                if j < i {
                    assert(world.ents@[j] == pre[j]);
                    assert(world_view(pre)[j] == step_scan_s(world_view(old(world).ents@)[j]));
                    assert(world_view(world.ents@)[j] == slot_view(world.ents@[j]));
                    assert(world_view(pre)[j] == slot_view(pre[j]));
                } else {
                    assert(world.ents@[j] == gstepped);
                    assert(world_view(world.ents@)[j] == slot_view(gstepped));
                    assert(gslot == old(world).ents@[j]);
                    assert(world_view(old(world).ents@)[j] == slot_view(gslot));
                }
            }
        }
        i = i + 1;
    }
}

/// Despawns every tagged entity that has left the viewport.
pub fn clean_offscreen(world: &mut World)
    ensures
        final(world).ents@.len() == old(world).ents@.len(),
        forall|j: int|
            0 <= j < old(world).ents@.len() ==> world_view(final(world).ents@)[j] == step_clean_s(
                world_view(old(world).ents@)[j],
            ),
{
    let n: usize = world.ents.len();
    let mut i: usize = 0;
    while i < n
        invariant
            i <= n,
            world.ents@.len() == n,
            n == old(world).ents@.len(),
            forall|j: int|
                0 <= j < i ==> world_view(world.ents@)[j] == step_clean_s(
                    world_view(old(world).ents@)[j],
                ),
            forall|j: int| i <= j < n ==> world.ents@[j] == old(world).ents@[j],
        decreases n - i,
    {
        let ghost pre = world.ents@;
        let slot: Option<Entity> = self_take(world, i);
        let ghost gslot = slot;
        let stepped: Option<Entity> = step_clean(slot);
        let ghost gstepped = stepped;
        world.ents[i] = stepped;
        proof {
            assert forall|j: int| 0 <= j < i + 1 implies world_view(world.ents@)[j]
                == step_clean_s(world_view(old(world).ents@)[j]) by {
                if j < i {
                    assert(world.ents@[j] == pre[j]);
                    assert(world_view(pre)[j] == step_clean_s(world_view(old(world).ents@)[j]));
                    assert(world_view(world.ents@)[j] == slot_view(world.ents@[j]));
                    assert(world_view(pre)[j] == slot_view(pre[j]));
                } else {
                    assert(world.ents@[j] == gstepped);
                    assert(world_view(world.ents@)[j] == slot_view(gstepped));
                    assert(gslot == old(world).ents@[j]);
                    assert(world_view(old(world).ents@)[j] == slot_view(gslot));
                }
            }
        }
        i = i + 1;
    }
}

/// Takes the slot under `i` out of the store, leaving it cleared.
fn self_take(world: &mut World, i: usize) -> (r: Option<Entity>)
    requires
        i < old(world).ents@.len(),
    ensures
        r == old(world).ents@[i as int],
        final(world).ents@ == old(world).ents@.update(i as int, None),
{
    world.ents[i].take()
}

/// Whether one slot is sound for the movement-script pass: an entity whose
/// script holds a wander recipe anywhere must carry roam state, since the
/// wander recipe reads and writes it.
pub open spec fn wander_wf_slot(s: Option<EntityView>) -> bool {
    match s {
        None => true,
        Some(e) => match e.moves {
            Some(q) => (exists|j: int|
                0 <= j < q.len() && (#[trigger] q[j]).movement matches Move::MoveWanderLinear(
                    _,
                    _,
                    _,
                )) ==> e.wanderable is Some,
            None => true,
        },
    }
}

/// Whether every slot is sound for the movement-script pass.
pub open spec fn wander_wf(v: Seq<Option<EntityView>>) -> bool {
    forall|i: int| 0 <= i < v.len() ==> wander_wf_slot(v[i])
}

/// What the movement-script pass does to one slot: an entity carrying a
/// script, a kinematic state and a transform has the script evaluated,
/// its kinematic state replaced by the script's result and its roam state
/// carried along; the random state threads through.
pub open spec fn step_moves_s(s: Option<EntityView>, state: u64, delta: int) -> (
    Option<EntityView>,
    u64,
) {
    match s {
        None => (s, state),
        Some(e) => match (e.moves, e.move_params, e.transform) {
            (Some(q), Some(mp), Some(t)) => {
                let r = moves_update_s(q, mp, t.position, e.wanderable, state, delta);
                (
                    Some(
                        EntityView {
                            moves: Some(r.0),
                            move_params: Some(r.1),
                            wanderable: r.2,
                            ..e
                        },
                    ),
                    r.3,
                )
            },
            _ => (s, state),
        },
    }
}

/// The movement-script pass over the slots from `i` on.
pub open spec fn moves_pass_s(v: Seq<Option<EntityView>>, i: int, state: u64, delta: int) -> (
    Seq<Option<EntityView>>,
    u64,
)
    decreases v.len() - i,
{
    if i < 0 || i >= v.len() {
        (v, state)
    } else {
        let stepped = step_moves_s(v[i], state, delta);
        moves_pass_s(v.update(i, stepped.0), i + 1, stepped.1, delta)
    }
}

/// Evaluates one slot's movement script.
fn step_moves(slot: Option<Entity>, rng: &mut Lcg, delta: i64) -> (r: Option<Entity>)
    requires
        wander_wf_slot(slot_view(slot)),
    ensures
        (slot_view(r), final(rng).state) == step_moves_s(
            slot_view(slot),
            old(rng).state,
            delta as int,
        ),
        wander_wf_slot(slot_view(r)),
{
    match slot {
        None => None,
        Some(mut e) => {
            if e.moves.is_some() && e.move_params.is_some() && e.transform.is_some() {
                let mut q: Moves = e.moves.take().unwrap();
                let ghost oldq = q.0@;
                let mp: MoveParams = e.move_params.unwrap();
                let t: Transform2D = e.transform.unwrap();
                let mut w: Option<Wanderable> = e.wanderable;
                let ghost oldw = w;
                let ghost s0 = rng.state;
                proof {
                    if needs_wander(oldq, delta as int) {
                        assert(oldq[0].movement matches Move::MoveWanderLinear(_, _, _));
                        assert(exists|j: int|
                            0 <= j < oldq.len() && (#[trigger] oldq[j]).movement
                                matches Move::MoveWanderLinear(_, _, _));
                    }
                }
                let np: MoveParams = q.update(&mp, &t, &mut w, rng, delta);
                e.move_params = Some(np);
                e.wanderable = w;
                e.moves = Some(q);
                proof {
                    lemma_moves_update_keeps_recipes(oldq, mp, t.position, oldw, s0, delta as int);
                    let newq = moves_update_s(oldq, mp, t.position, oldw, s0, delta as int).0;
                    let neww = moves_update_s(oldq, mp, t.position, oldw, s0, delta as int).2;
                    if exists|j: int|
                        0 <= j < newq.len() && (#[trigger] newq[j]).movement
                            matches Move::MoveWanderLinear(_, _, _) {
                        let j = choose|j: int|
                            0 <= j < newq.len() && (#[trigger] newq[j]).movement
                                matches Move::MoveWanderLinear(_, _, _);
                        let k = choose|k: int|
                            0 <= k < oldq.len() && (#[trigger] newq[j]).movement == (
                            #[trigger] oldq[k]).movement;
                        assert(oldq[k].movement matches Move::MoveWanderLinear(_, _, _));
                        assert(exists|jj: int|
                            0 <= jj < oldq.len() && (#[trigger] oldq[jj]).movement
                                matches Move::MoveWanderLinear(_, _, _));
                        assert(oldw is Some);
                        assert(neww is Some);
                    }
                }
                Some(e)
            } else {
                Some(e)
            }
        },
    }
}

/// The movements of the queue a script update leaves are all drawn from
/// the queue it was given; and the roam state it leaves is present
/// whenever the one it was given was.
proof fn lemma_moves_update_keeps_recipes(
    q: Seq<Movement>,
    params: MoveParams,
    pos: Cpx,
    w: Option<Wanderable>,
    state: u64,
    delta: int,
)
    ensures
        forall|j: int|
            0 <= j < moves_update_s(q, params, pos, w, state, delta).0.len() ==> exists|k: int|
                0 <= k < q.len() && (#[trigger] moves_update_s(
                    q,
                    params,
                    pos,
                    w,
                    state,
                    delta,
                ).0[j]).movement == (#[trigger] q[k]).movement,
        w is Some ==> moves_update_s(q, params, pos, w, state, delta).2 is Some,
{
    let r = moves_update_s(q, params, pos, w, state, delta);
    if q.len() == 0 {
    } else {
        let t2 = timer_update_s(q[0].timer, delta);
        if timer_completed_s(t2) {
            assert forall|j: int| 0 <= j < r.0.len() implies exists|k: int|
                0 <= k < q.len() && (#[trigger] r.0[j]).movement == (#[trigger] q[k]).movement by {
                assert(r.0[j] == q[j + 1]);
                assert(r.0[j].movement == q[j + 1].movement);
            }
        } else {
            assert forall|j: int| 0 <= j < r.0.len() implies exists|k: int|
                0 <= k < q.len() && (#[trigger] r.0[j]).movement == (#[trigger] q[k]).movement by {
                if j == 0 {
                    assert(r.0[0].movement == q[0].movement);
                } else {
                    assert(r.0[j] == q[j]);
                    assert(r.0[j].movement == q[j].movement);
                }
            }
        }
    }
}

/// Evaluates every entity's movement script, threading the random stream
/// through the pass in slot order.
pub fn update_moves(world: &mut World, rng: &mut Lcg, delta: i64)
    requires
        wander_wf(world_view(old(world).ents@)),
    ensures
        (world_view(final(world).ents@), final(rng).state) == moves_pass_s(
            world_view(old(world).ents@),
            0,
            old(rng).state,
            delta as int,
        ),
        wander_wf(world_view(final(world).ents@)),
{
    let n: usize = world.ents.len();
    let mut i: usize = 0;
    let ghost goal = moves_pass_s(world_view(old(world).ents@), 0, old(rng).state, delta as int);
    while i < n
        invariant
            i <= n,
            world.ents@.len() == n,
            wander_wf(world_view(world.ents@)),
            goal == moves_pass_s(world_view(world.ents@), i as int, rng.state, delta as int),
            goal == moves_pass_s(
                world_view(old(world).ents@),
                0,
                old(rng).state,
                delta as int,
            ),
        decreases n - i,
    {
        let ghost pre = world_view(world.ents@);
        let ghost pre_state = rng.state;
        let slot: Option<Entity> = self_take(world, i);
        let ghost gslot = slot;
        proof {
            assert(pre[i as int] == slot_view(gslot));
            assert(wander_wf_slot(slot_view(gslot)));
        }
        let stepped: Option<Entity> = step_moves(slot, rng, delta);
        let ghost gstepped = stepped;
        world.ents[i] = stepped;
        proof {
            let sp = step_moves_s(pre[i as int], pre_state, delta as int);
            assert(world_view(world.ents@) =~= pre.update(i as int, sp.0));
            assert forall|j: int| 0 <= j < n implies wander_wf_slot(world_view(world.ents@)[j]) by {
                if j != i {
                    assert(world_view(world.ents@)[j] == pre[j]);
                    assert(wander_wf_slot(pre[j]));
                } else {
                    assert(world_view(world.ents@)[j] == slot_view(gstepped));
                }
            }
        }
        i = i + 1;
    }
}

/// The held inputs of one frame.
#[derive(Clone, Copy, Debug, PartialEq, Eq, Structural)]
pub struct InputState {
    pub left: bool,
    pub right: bool,
    pub up: bool,
    pub down: bool,
    pub focus: bool,
    pub attack: bool,
}

/// The player's base movement push (12.5 in fixed point).
pub const PLAYER_MOVE_SPEED: i64 = 819200;

/// The slow-down factor while focusing (1 / 2.6 in fixed point).
pub const FOCUS_FACTOR: i64 = 25206;

/// Lower clamp of the player's position (0.05 in fixed point).
pub const PLAYER_CLAMP_LO: i64 = 3277;

/// Upper clamp of the player's position (0.95 in fixed point).
pub const PLAYER_CLAMP_HI: i64 = 62259;

/// The transform of the first live player-and-controllable entity with a
/// transform, scanning from `i`.
pub open spec fn first_player_s(v: Seq<Option<EntityView>>, i: int) -> Option<Transform2D>
    decreases v.len() - i,
{
    if i < 0 || i >= v.len() {
        None
    } else {
        match v[i] {
            Some(e) => if e.player && e.controllable && e.transform is Some {
                e.transform
            } else {
                first_player_s(v, i + 1)
            },
            None => first_player_s(v, i + 1),
        }
    }
}

/// The view of an enemy bullet spawned from a fired record.
pub open spec fn spawned_bullet_view_s(b: BulletSpawn) -> EntityView {
    enemy_bullet_view_s(b.transform, b.sprite, b.move_params, Hitbox { radius: b.hitbox_radius })
}

/// The store with one entity appended per fired bullet, in firing order.
pub open spec fn append_bullets_s(v: Seq<Option<EntityView>>, bs: Seq<BulletSpawn>) -> Seq<
    Option<EntityView>,
>
    decreases bs.len(),
{
    if bs.len() == 0 {
        v
    } else {
        append_bullets_s(v.push(Some(spawned_bullet_view_s(bs[0]))), bs.drop_first())
    }
}

/// Appending bullets keeps the existing slots and adds one enemy-bullet
/// slot per record, in order.
pub proof fn lemma_append_bullets_props(v: Seq<Option<EntityView>>, bs: Seq<BulletSpawn>)
    ensures
        append_bullets_s(v, bs).len() == v.len() + bs.len(),
        forall|j: int| 0 <= j < v.len() ==> append_bullets_s(v, bs)[j] == v[j],
        forall|j: int|
            v.len() <= j < v.len() + bs.len() ==> append_bullets_s(v, bs)[j] == Some(
                spawned_bullet_view_s(bs[j - v.len()]),
            ),
    decreases bs.len(),
{
    if bs.len() > 0 {
        let v2 = v.push(Some(spawned_bullet_view_s(bs[0])));
        lemma_append_bullets_props(v2, bs.drop_first());
        assert forall|j: int| 0 <= j < v.len() implies append_bullets_s(v, bs)[j] == v[j] by {
            assert(append_bullets_s(v2, bs.drop_first())[j] == v2[j]);
            assert(v2[j] == v[j]);
        }
        assert forall|j: int| v.len() <= j < v.len() + bs.len() implies append_bullets_s(v, bs)[j]
            == Some(spawned_bullet_view_s(bs[j - v.len()])) by {
            if j == v.len() {
                assert(append_bullets_s(v2, bs.drop_first())[j] == v2[j]);
                assert(v2[j] == Some(spawned_bullet_view_s(bs[0])));
            } else {
                assert(append_bullets_s(v2, bs.drop_first())[j] == Some(
                    spawned_bullet_view_s(bs.drop_first()[j - v2.len()]),
                ));
                assert(bs.drop_first()[j - v2.len()] == bs[j - v.len()]);
            }
        }
    }
}

/// The firing pass over the first `n` slots from `i` on: each entity
/// carrying an attack pattern and a transform fires at the player, its
/// pattern's cooldowns then tick once, and the bullets join the store as
/// fresh enemy-bullet entities; the random state threads through.
pub open spec fn fire_pass_s(
    v: Seq<Option<EntityView>>,
    i: int,
    n: int,
    ppos: Cpx,
    state: u64,
    delta: int,
) -> (Seq<Option<EntityView>>, u64)
    decreases n - i,
{
    if i < 0 || i >= n || n > v.len() {
        (v, state)
    } else {
        match v[i] {
            Some(e) => match (e.attack, e.transform) {
                (Some(a), Some(t)) => {
                    let f = fire_s(a, t.position, ppos, state);
                    let v2 = append_bullets_s(
                        v.update(
                            i,
                            Some(EntityView { attack: Some(cooldowns_ticked_s(f.1, delta)), ..e }),
                        ),
                        f.0,
                    );
                    fire_pass_s(v2, i + 1, n, ppos, f.2, delta)
                },
                _ => fire_pass_s(v, i + 1, n, ppos, state, delta),
            },
            None => fire_pass_s(v, i + 1, n, ppos, state, delta),
        }
    }
}

/// What the firing system does to the whole store: nothing without a
/// player; otherwise the firing pass over the slots present when the tick
/// began.
pub open spec fn fire_bullets_s(v: Seq<Option<EntityView>>, state: u64, delta: int) -> (
    Seq<Option<EntityView>>,
    u64,
) {
    match first_player_s(v, 0) {
        Some(t) => fire_pass_s(v, 0, v.len() as int, t.position, state, delta),
        None => (v, state),
    }
}

/// Finds the first live player-and-controllable entity's transform.
fn first_player(world: &World) -> (r: Option<Transform2D>)
    ensures
        r == first_player_s(world_view(world.ents@), 0),
{
    let ghost wv = world_view(world.ents@);
    let n: usize = world.ents.len();
    let mut i: usize = 0;
    while i < n
        invariant
            i <= n,
            n == world.ents@.len(),
            wv == world_view(world.ents@),
            first_player_s(wv, 0) == first_player_s(wv, i as int),
        decreases n - i,
    {
        match &world.ents[i] {
            Some(e) => {
                if e.player && e.controllable && e.transform.is_some() {
                    return Some(e.transform.unwrap());
                }
            },
            None => {},
        }
        i = i + 1;
    }
    None
}

/// Spawns one enemy-bullet entity per fired record, in order.
fn spawn_bullets(world: &mut World, bullets: Vec<BulletSpawn>)
    ensures
        world_view(final(world).ents@) == append_bullets_s(
            world_view(old(world).ents@),
            bullets@,
        ),
        final(world).ents@.len() == old(world).ents@.len() + bullets@.len(),
    decreases bullets@.len(),
{
    let mut bullets = bullets;
    if bullets.len() == 0 {
        return ;
    }
    let ghost wv0 = world_view(world.ents@);
    let b: BulletSpawn = bullets.remove(0);
    create_enemy_bullet(world, b.transform, b.sprite, b.move_params, Hitbox::new(b.hitbox_radius));
    proof {
        assert(world_view(world.ents@) =~= wv0.push(Some(spawned_bullet_view_s(b))));
    }
    spawn_bullets(world, bullets);
}

/// The firing pass over the first `n` slots from `i` on.
fn fire_pass(world: &mut World, i: usize, n: usize, player: Transform2D, rng: &mut Lcg, delta: i64)
    requires
        n <= old(world).ents@.len(),
    ensures
        (world_view(final(world).ents@), final(rng).state) == fire_pass_s(
            world_view(old(world).ents@),
            i as int,
            n as int,
            player.position,
            old(rng).state,
            delta as int,
        ),
        final(world).ents@.len() >= old(world).ents@.len(),
    decreases n - i,
{
    if i >= n {
        return ;
    }
    let ghost wv0 = world_view(world.ents@);
    let slot: Option<Entity> = self_take(world, i);
    match slot {
        Some(mut e) => {
            if e.attack.is_some() && e.transform.is_some() {
                let a: AttackMove = e.attack.take().unwrap();
                let t: Transform2D = e.transform.unwrap();
                let (bullets, a2) = a.fire(&t, &player, rng);
                let a3: AttackMove = a2.update_cooldown(delta);
                e.attack = Some(a3);
                let ghost ge = entity_view(e);
                world.ents[i] = Some(e);
                proof {
                    assert(world_view(world.ents@) =~= wv0.update(i as int, Some(ge)));
                }
                spawn_bullets(world, bullets);
                fire_pass(world, i + 1, n, player, rng, delta);
            } else {
                world.ents[i] = Some(e);
                proof {
                    assert(world_view(world.ents@) =~= wv0);
                }
                fire_pass(world, i + 1, n, player, rng, delta);
            }
        },
        None => {
            world.ents[i] = None;
            proof {
                assert(world_view(world.ents@) =~= wv0);
            }
            fire_pass(world, i + 1, n, player, rng, delta);
        },
    }
}

/// Evaluates every entity's attack pattern against the player: eligible
/// leaves fire, their bullets join the store, and every leaf cooldown
/// ticks once.  Without a player nothing fires and no cooldown moves.
pub fn fire_bullets(world: &mut World, rng: &mut Lcg, delta: i64)
    ensures
        (world_view(final(world).ents@), final(rng).state) == fire_bullets_s(
            world_view(old(world).ents@),
            old(rng).state,
            delta as int,
        ),
{
    let player: Option<Transform2D> = first_player(world);
    match player {
        Some(t) => {
            let n: usize = world.ents.len();
            fire_pass(world, 0, n, t, rng, delta);
        },
        None => {},
    }
}

/// Whether one slot is sound for the boss pass: a boss entity carrying a
/// phase queue must carry health for the machine to re-arm.
pub open spec fn boss_wf_slot(s: Option<EntityView>) -> bool {
    match s {
        None => true,
        Some(e) => (e.boss && e.enemy && e.transform is Some && e.boss_moves is Some)
            ==> e.hitpoint is Some,
    }
}

/// Whether every slot is sound for the boss pass.
pub open spec fn boss_wf(v: Seq<Option<EntityView>>) -> bool {
    forall|i: int| 0 <= i < v.len() ==> boss_wf_slot(v[i])
}

/// The boss pass over the first `n` slots from `i` on: each boss entity
/// runs one tick of its phase machine, its bullets joining the store.
pub open spec fn boss_pass_s(
    v: Seq<Option<EntityView>>,
    i: int,
    n: int,
    player: Option<Cpx>,
    state: u64,
    delta: int,
) -> (Seq<Option<EntityView>>, u64)
    decreases n - i,
{
    if i < 0 || i >= n || n > v.len() {
        (v, state)
    } else {
        match v[i] {
            Some(e) => match (e.boss_moves, e.transform, e.hitpoint) {
                (Some(q), Some(t), Some(hp)) => if e.boss && e.enemy {
                    let r = boss_tick_s(q, hp, t.position, player, state, delta);
                    let v2 = append_bullets_s(
                        v.update(
                            i,
                            Some(EntityView { boss_moves: Some(r.1), hitpoint: Some(r.2), ..e }),
                        ),
                        r.0,
                    );
                    boss_pass_s(v2, i + 1, n, player, r.3, delta)
                } else {
                    boss_pass_s(v, i + 1, n, player, state, delta)
                },
                _ => boss_pass_s(v, i + 1, n, player, state, delta),
            },
            None => boss_pass_s(v, i + 1, n, player, state, delta),
        }
    }
}

/// What the boss system does to the whole store: the boss pass over the
/// slots present when the tick began, aimed at the first player if any.
pub open spec fn update_boss_move_s(v: Seq<Option<EntityView>>, state: u64, delta: int) -> (
    Seq<Option<EntityView>>,
    u64,
) {
    let player = match first_player_s(v, 0) {
        Some(t) => Some(t.position),
        None => None,
    };
    boss_pass_s(v, 0, v.len() as int, player, state, delta)
}

/// The boss pass over the first `n` slots from `i` on.
fn boss_pass(
    world: &mut World,
    i: usize,
    n: usize,
    player: Option<Transform2D>,
    rng: &mut Lcg,
    delta: i64,
)
    requires
        n <= old(world).ents@.len(),
        boss_wf(world_view(old(world).ents@)),
    ensures
        (world_view(final(world).ents@), final(rng).state) == boss_pass_s(
            world_view(old(world).ents@),
            i as int,
            n as int,
            match player {
                Some(t) => Some(t.position),
                None => None,
            },
            old(rng).state,
            delta as int,
        ),
        final(world).ents@.len() >= old(world).ents@.len(),
    decreases n - i,
{
    if i >= n {
        return ;
    }
    let ghost wv0 = world_view(world.ents@);
    let slot: Option<Entity> = self_take(world, i);
    match slot {
        Some(mut e) => {
            if e.boss_moves.is_some() && e.transform.is_some() && e.boss && e.enemy {
                proof {
                    assert(boss_wf_slot(wv0[i as int]));
                }
                let mut q: BossMoves = e.boss_moves.take().unwrap();
                let t: Transform2D = e.transform.unwrap();
                let mut hp: Hitpoint = e.hitpoint.unwrap();
                let bullets: Vec<BulletSpawn> = q.update(&mut hp, &t, player, rng, delta);
                e.boss_moves = Some(q);
                e.hitpoint = Some(hp);
                let ghost ge = entity_view(e);
                world.ents[i] = Some(e);
                let ghost wv1 = wv0.update(i as int, Some(ge));
                proof {
                    assert(world_view(world.ents@) =~= wv1);
                }
                spawn_bullets(world, bullets);
                proof {
                    lemma_append_bullets_props(wv1, bullets@);
                    assert forall|j: int| 0 <= j < world_view(world.ents@).len() implies
                        boss_wf_slot(world_view(world.ents@)[j]) by {
                        if j < wv1.len() {
                            assert(world_view(world.ents@)[j] == wv1[j]);
                            if j != i {
                                assert(wv1[j] == wv0[j]);
                                assert(boss_wf_slot(wv0[j]));
                            } else {
                                assert(wv1[j] == Some(ge));
                                assert(ge.hitpoint is Some);
                            }
                        } else {
                            assert(world_view(world.ents@)[j] == Some(
                                spawned_bullet_view_s(bullets@[j - wv1.len()]),
                            ));
                        }
                    }
                }
                boss_pass(world, i + 1, n, player, rng, delta);
            } else {
                world.ents[i] = Some(e);
                proof {
                    assert(world_view(world.ents@) =~= wv0);
                }
                boss_pass(world, i + 1, n, player, rng, delta);
            }
        },
        None => {
            world.ents[i] = None;
            proof {
                assert(world_view(world.ents@) =~= wv0);
            }
            boss_pass(world, i + 1, n, player, rng, delta);
        },
    }
}

/// Runs one phase-machine tick for every boss, firing at the first player
/// if one is live; a boss with no phase left stays invulnerable and
/// fires nothing.
pub fn update_boss_move(world: &mut World, rng: &mut Lcg, delta: i64)
    requires
        boss_wf(world_view(old(world).ents@)),
    ensures
        (world_view(final(world).ents@), final(rng).state) == update_boss_move_s(
            world_view(old(world).ents@),
            old(rng).state,
            delta as int,
        ),
{
    let player: Option<Transform2D> = first_player(world);
    let n: usize = world.ents.len();
    boss_pass(world, 0, n, player, rng, delta);
}

/// The push the held directions add up to, slowed while focusing.
pub open spec fn player_accel_s(input: InputState) -> Cpx {
    let d0 = Cpx { re: 0, im: 0 };
    let d1 = if input.left {
        cpx_add_s(d0, Cpx { re: -819200i64, im: 0 })
    } else {
        d0
    };
    let d2 = if input.right {
        cpx_add_s(d1, Cpx { re: 819200, im: 0 })
    } else {
        d1
    };
    let d3 = if input.up {
        cpx_add_s(d2, Cpx { re: 0, im: -819200i64 })
    } else {
        d2
    };
    let d4 = if input.down {
        cpx_add_s(d3, Cpx { re: 0, im: 819200 })
    } else {
        d3
    };
    if input.focus {
        cpx_scale_s(d4, FOCUS_FACTOR as int)
    } else {
        d4
    }
}

/// A position clamped to the player's movement box.
pub open spec fn player_clamp_s(p: Cpx) -> Cpx {
    Cpx {
        re: if p.re < PLAYER_CLAMP_LO {
            PLAYER_CLAMP_LO
        } else if p.re > PLAYER_CLAMP_HI {
            PLAYER_CLAMP_HI
        } else {
            p.re
        },
        im: if p.im < PLAYER_CLAMP_LO {
            PLAYER_CLAMP_LO
        } else if p.im > PLAYER_CLAMP_HI {
            PLAYER_CLAMP_HI
        } else {
            p.im
        },
    }
}

/// What the input system does to one slot, and where it fires a bullet
/// from, if anywhere: a controllable player has its acceleration set from
/// the held directions, its position clamped to the movement box, and its
/// firing cooldown ticked; holding fire with the cooldown complete spawns
/// one bullet from the clamped position.
pub open spec fn step_controls_s(s: Option<EntityView>, input: InputState, delta: int) -> (
    Option<EntityView>,
    Option<Cpx>,
) {
    match s {
        None => (s, None),
        Some(e) => match (e.transform, e.move_params, e.cooldown) {
            (Some(t), Some(mp), Some(c)) => if e.player && e.controllable {
                let accel0 = player_accel_s(input);
                let clamped = player_clamp_s(t.position);
                let inside = rect_contains_s(
                    Rect {
                        x: PLAYER_CLAMP_LO,
                        y: PLAYER_CLAMP_LO,
                        w: PLAYER_CLAMP_HI,
                        h: PLAYER_CLAMP_HI,
                    },
                    clamped,
                );
                let accel = if inside {
                    accel0
                } else {
                    Cpx { re: 0, im: 0 }
                };
                let fire = input.attack && timer_completed_s(c.0);
                let e2 = EntityView {
                    transform: Some(Transform2D { position: clamped, ..t }),
                    move_params: Some(MoveParams { acceleration: accel, ..mp }),
                    cooldown: Some(Cooldown(timer_update_s(c.0, delta))),
                    ..e
                };
                (
                    Some(e2),
                    if fire {
                        Some(clamped)
                    } else {
                        None
                    },
                )
            } else {
                (s, None)
            },
            _ => (s, None),
        },
    }
}

/// The input pass over the first `n` slots from `i` on: each player slot
/// is steered and may append one bullet.
pub open spec fn controls_pass_s(
    v: Seq<Option<EntityView>>,
    i: int,
    n: int,
    input: InputState,
    delta: int,
) -> Seq<Option<EntityView>>
    decreases n - i,
{
    if i < 0 || i >= n || n > v.len() {
        v
    } else {
        let st = step_controls_s(v[i], input, delta);
        let v2 = v.update(i, st.0);
        let v3 = match st.1 {
            Some(p) => v2.push(Some(player_generic_bullet_view_s(p))),
            None => v2,
        };
        controls_pass_s(v3, i + 1, n, input, delta)
    }
}

/// The input pass over the first `n` slots from `i` on.
#[verifier::rlimit(50)]
fn controls_pass(world: &mut World, i: usize, n: usize, input: InputState, delta: i64)
    requires
        n <= old(world).ents@.len(),
    ensures
        world_view(final(world).ents@) == controls_pass_s(
            world_view(old(world).ents@),
            i as int,
            n as int,
            input,
            delta as int,
        ),
    decreases n - i,
{
    if i >= n {
        return ;
    }
    let ghost wv0 = world_view(world.ents@);
    let slot: Option<Entity> = self_take(world, i);
    match slot {
        Some(mut e) => {
            if e.player && e.controllable && e.transform.is_some() && e.move_params.is_some()
                && e.cooldown.is_some() {
                let t: Transform2D = e.transform.unwrap();
                let mut mp: MoveParams = e.move_params.unwrap();
                let mut c: Cooldown = e.cooldown.unwrap();
                let mut push: Cpx = Cpx::zero();
                if input.left {
                    push = push.add(Cpx { re: -819200, im: 0 });
                }
                if input.right {
                    push = push.add(Cpx { re: 819200, im: 0 });
                }
                if input.up {
                    push = push.add(Cpx { re: 0, im: -819200 });
                }
                if input.down {
                    push = push.add(Cpx { re: 0, im: 819200 });
                }
                let accel0: Cpx = if input.focus {
                    push.scale(FOCUS_FACTOR)
                } else {
                    push
                };
                let clamped: Cpx = t.position.clamp_box(PLAYER_CLAMP_LO, PLAYER_CLAMP_HI);
                let bounds: Rect = Rect::new(
                    PLAYER_CLAMP_LO,
                    PLAYER_CLAMP_LO,
                    PLAYER_CLAMP_HI,
                    PLAYER_CLAMP_HI,
                );
                mp.acceleration = if bounds.contains(clamped) {
                    accel0
                } else {
                    Cpx::zero()
                };
                let fire: bool = input.attack && c.0.completed();
                c.0.update(delta);
                e.transform = Some(Transform2D { position: clamped, scale: t.scale, rotation: t.rotation });
                e.move_params = Some(mp);
                e.cooldown = Some(c);
                let ghost ge = entity_view(e);
                world.ents[i] = Some(e);
                proof {
                    assert(world_view(world.ents@) =~= wv0.update(i as int, Some(ge)));
                }
                if fire {
                    let ghost wv1 = world_view(world.ents@);
                    create_player_generic_bullet(world, clamped);
                    proof {
                        assert(world_view(world.ents@) =~= wv1.push(
                            Some(player_generic_bullet_view_s(clamped)),
                        ));
                    }
                }
                controls_pass(world, i + 1, n, input, delta);
            } else {
                world.ents[i] = Some(e);
                proof {
                    assert(world_view(world.ents@) =~= wv0);
                    assert(wv0.update(i as int, wv0[i as int]) =~= wv0);
                }
                controls_pass(world, i + 1, n, input, delta);
            }
        },
        None => {
            world.ents[i] = None;
            proof {
                assert(world_view(world.ents@) =~= wv0);
                assert(wv0.update(i as int, wv0[i as int]) =~= wv0);
            }
            controls_pass(world, i + 1, n, input, delta);
        },
    }
}

/// Steers every controllable player by the held inputs: acceleration from
/// the held directions (slowed while focusing), position clamped to the
/// movement box, and — when fire is held and the firing cooldown is
/// complete — one bullet spawned from the clamped position.  The firing
/// cooldown ticks either way.
pub fn player_controls(world: &mut World, input: InputState, delta: i64)
    ensures
        world_view(final(world).ents@) == controls_pass_s(
            world_view(old(world).ents@),
            0,
            old(world).ents@.len() as int,
            input,
            delta as int,
        ),
{
    let n: usize = world.ents.len();
    controls_pass(world, 0, n, input, delta);
}

/// The per-slot steps of the pointwise systems keep both soundness
/// conditions: none of them touches a script, roam state, boss marker or
/// health presence.
pub proof fn lemma_pointwise_steps_wf(s: Option<EntityView>, delta: int)
    requires
        wander_wf_slot(s),
        boss_wf_slot(s),
    ensures
        wander_wf_slot(step_motion_s(s, delta)),
        boss_wf_slot(step_motion_s(s, delta)),
        wander_wf_slot(step_cooldown_s(s, delta)),
        boss_wf_slot(step_cooldown_s(s, delta)),
        wander_wf_slot(step_scan_s(s)),
        boss_wf_slot(step_scan_s(s)),
        wander_wf_slot(step_clean_s(s)),
        boss_wf_slot(step_clean_s(s)),
{
}

/// A freshly spawned enemy bullet satisfies both soundness conditions.
pub proof fn lemma_bullet_slot_wf(b: BulletSpawn)
    ensures
        wander_wf_slot(Some(spawned_bullet_view_s(b))),
        boss_wf_slot(Some(spawned_bullet_view_s(b))),
{
}

/// Appending fired bullets keeps both soundness conditions.
pub proof fn lemma_append_bullets_wf(v: Seq<Option<EntityView>>, bs: Seq<BulletSpawn>)
    requires
        wander_wf(v),
        boss_wf(v),
    ensures
        wander_wf(append_bullets_s(v, bs)),
        boss_wf(append_bullets_s(v, bs)),
{
    lemma_append_bullets_props(v, bs);
    let r = append_bullets_s(v, bs);
    assert forall|j: int| 0 <= j < r.len() implies wander_wf_slot(r[j]) && boss_wf_slot(r[j]) by {
        if j < v.len() {
            assert(r[j] == v[j]);
        } else {
            assert(r[j] == Some(spawned_bullet_view_s(bs[j - v.len()])));
        }
    }
}

/// The movement-script pass keeps the boss soundness condition: it never
/// touches a boss marker or health presence.
pub proof fn lemma_moves_pass_boss_wf(v: Seq<Option<EntityView>>, i: int, state: u64, delta: int)
    requires
        boss_wf(v),
    ensures
        boss_wf(moves_pass_s(v, i, state, delta).0),
    decreases v.len() - i,
{
    if 0 <= i < v.len() {
        let stepped = step_moves_s(v[i], state, delta);
        let v2 = v.update(i, stepped.0);
        assert forall|j: int| 0 <= j < v2.len() implies boss_wf_slot(v2[j]) by {
            if j != i {
                assert(v2[j] == v[j]);
            }
        }
        lemma_moves_pass_boss_wf(v2, i + 1, stepped.1, delta);
    }
}

/// The firing pass keeps both soundness conditions: it rewrites only
/// attack patterns and appends bullets.
pub proof fn lemma_fire_pass_wf(
    v: Seq<Option<EntityView>>,
    i: int,
    n: int,
    ppos: Cpx,
    state: u64,
    delta: int,
)
    requires
        wander_wf(v),
        boss_wf(v),
    ensures
        wander_wf(fire_pass_s(v, i, n, ppos, state, delta).0),
        boss_wf(fire_pass_s(v, i, n, ppos, state, delta).0),
    decreases n - i,
{
    if 0 <= i < n && n <= v.len() {
        match v[i] {
            Some(e) => match (e.attack, e.transform) {
                (Some(a), Some(t)) => {
                    let f = fire_s(a, t.position, ppos, state);
                    let v1 = v.update(
                        i,
                        Some(EntityView { attack: Some(cooldowns_ticked_s(f.1, delta)), ..e }),
                    );
                    assert forall|j: int| 0 <= j < v1.len() implies wander_wf_slot(v1[j])
                        && boss_wf_slot(v1[j]) by {
                        if j != i {
                            assert(v1[j] == v[j]);
                        }
                    }
                    lemma_append_bullets_wf(v1, f.0);
                    lemma_fire_pass_wf(append_bullets_s(v1, f.0), i + 1, n, ppos, f.2, delta);
                },
                _ => {
                    lemma_fire_pass_wf(v, i + 1, n, ppos, state, delta);
                },
            },
            None => {
                lemma_fire_pass_wf(v, i + 1, n, ppos, state, delta);
            },
        }
    }
}

/// The boss pass keeps both soundness conditions: it rewrites only phase
/// queues and health (keeping health present) and appends bullets.
pub proof fn lemma_boss_pass_wf(
    v: Seq<Option<EntityView>>,
    i: int,
    n: int,
    player: Option<Cpx>,
    state: u64,
    delta: int,
)
    requires
        wander_wf(v),
        boss_wf(v),
    ensures
        wander_wf(boss_pass_s(v, i, n, player, state, delta).0),
        boss_wf(boss_pass_s(v, i, n, player, state, delta).0),
    decreases n - i,
{
    if 0 <= i < n && n <= v.len() {
        match v[i] {
            Some(e) => match (e.boss_moves, e.transform, e.hitpoint) {
                (Some(q), Some(t), Some(hp)) => if e.boss && e.enemy {
                    let r = boss_tick_s(q, hp, t.position, player, state, delta);
                    let v1 = v.update(
                        i,
                        Some(EntityView { boss_moves: Some(r.1), hitpoint: Some(r.2), ..e }),
                    );
                    assert forall|j: int| 0 <= j < v1.len() implies wander_wf_slot(v1[j])
                        && boss_wf_slot(v1[j]) by {
                        if j != i {
                            assert(v1[j] == v[j]);
                        }
                    }
                    lemma_append_bullets_wf(v1, r.0);
                    lemma_boss_pass_wf(append_bullets_s(v1, r.0), i + 1, n, player, r.3, delta);
                } else {
                    lemma_boss_pass_wf(v, i + 1, n, player, state, delta);
                },
                _ => {
                    lemma_boss_pass_wf(v, i + 1, n, player, state, delta);
                },
            },
            None => {
                lemma_boss_pass_wf(v, i + 1, n, player, state, delta);
            },
        }
    }
}

/// The input pass keeps both soundness conditions: it steers the player
/// and appends player bullets.
pub proof fn lemma_controls_pass_wf(
    v: Seq<Option<EntityView>>,
    i: int,
    n: int,
    input: InputState,
    delta: int,
)
    requires
        wander_wf(v),
        boss_wf(v),
    ensures
        wander_wf(controls_pass_s(v, i, n, input, delta)),
        boss_wf(controls_pass_s(v, i, n, input, delta)),
    decreases n - i,
{
    if 0 <= i < n && n <= v.len() {
        let st = step_controls_s(v[i], input, delta);
        let v2 = v.update(i, st.0);
        assert forall|j: int| 0 <= j < v2.len() implies wander_wf_slot(v2[j]) && boss_wf_slot(
            v2[j],
        ) by {
            if j != i {
                assert(v2[j] == v[j]);
            }
        }
        let v3 = match st.1 {
            Some(p) => v2.push(Some(player_generic_bullet_view_s(p))),
            None => v2,
        };
        assert forall|j: int| 0 <= j < v3.len() implies wander_wf_slot(v3[j]) && boss_wf_slot(
            v3[j],
        ) by {
            if j < v2.len() {
                assert(v3[j] == v2[j]);
            }
        }
        lemma_controls_pass_wf(v3, i + 1, n, input, delta);
    }
}

/// An entity that never enters the viewport is never despawned by the
/// off-screen rule: with its position outside the viewport and its tag
/// unset or false, one scan-and-sweep tick leaves it alive with the tag
/// still false.
pub proof fn lemma_offscreen_never_entered_spared(e: EntityView)
    requires
        e.die_offscreen,
        e.transform is Some,
        !rect_contains_s(viewport_s(), e.transform.unwrap().position),
        e.been_on_screen is None || e.been_on_screen == Some(false),
    ensures
        step_clean_s(step_scan_s(Some(e))) == Some(
            EntityView { been_on_screen: Some(false), ..e },
        ),
{
}

/// Entering the viewport tags an entity; once tagged, the first tick that
/// finds it outside the viewport despawns it.
pub proof fn lemma_offscreen_tagged_then_reaped(e: EntityView)
    requires
        e.die_offscreen,
        e.transform is Some,
    ensures
        rect_contains_s(viewport_s(), e.transform.unwrap().position) ==> step_scan_s(Some(e))
            == Some(EntityView { been_on_screen: Some(true), ..e }),
        e.been_on_screen == Some(true) && !rect_contains_s(
            viewport_s(),
            e.transform.unwrap().position,
        ) ==> step_clean_s(Some(e)) is None,
{
}

} // verus!
