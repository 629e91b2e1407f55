//! One simulation tick: the fixed order in which the systems run each
//! frame, composed over the entity store, the spawn timeline, the held
//! inputs and the random stream.

use vstd::prelude::*;

use crate::collide::collision;
use crate::collide::collision_s;
use crate::collide::lemma_collision_wf;
use crate::fx::fx_add_s;
use crate::moves::Move;
use crate::rng::Lcg;
use crate::spawner::SpawnEventView;
use crate::spawner::Spawner;
use crate::spawner::action_entity_view_s;
use crate::spawner::events_view;
use crate::spawner::spawner_pass_s;
use crate::spawner::SpawnActionView;
use crate::systems::InputState;
use crate::systems::boss_wf;
use crate::systems::boss_wf_slot;
use crate::systems::clean_offscreen;
use crate::systems::controls_pass_s;
use crate::systems::fire_bullets;
use crate::systems::fire_bullets_s;
use crate::systems::lemma_boss_pass_wf;
use crate::systems::lemma_controls_pass_wf;
use crate::systems::lemma_fire_pass_wf;
use crate::systems::lemma_moves_pass_boss_wf;
use crate::systems::lemma_pointwise_steps_wf;
use crate::systems::moves_pass_s;
use crate::systems::first_player_s;
use crate::systems::player_controls;
use crate::systems::scan_been_onscreen;
use crate::systems::step_clean_s;
use crate::systems::step_cooldown_s;
use crate::systems::step_motion_s;
use crate::systems::step_scan_s;
use crate::systems::update_boss_move;
use crate::systems::update_boss_move_s;
use crate::systems::update_cooldown;
use crate::systems::update_movement;
use crate::systems::update_moves;
use crate::systems::wander_wf;
use crate::systems::wander_wf_slot;
use crate::world::EntityView;
use crate::world::World;
use crate::world::world_view;

verus! {

/// The cooldown tick over the whole store.
pub open spec fn cooldown_pass_s(v: Seq<Option<EntityView>>, delta: int) -> Seq<
    Option<EntityView>,
> {
    Seq::new(v.len(), |j: int| step_cooldown_s(v[j], delta))
}

/// Kinematic integration over the whole store.
pub open spec fn motion_pass_s(v: Seq<Option<EntityView>>, delta: int) -> Seq<Option<EntityView>> {
    Seq::new(v.len(), |j: int| step_motion_s(v[j], delta))
}

/// The on-screen scan over the whole store.
pub open spec fn scan_pass_s(v: Seq<Option<EntityView>>) -> Seq<Option<EntityView>> {
    Seq::new(v.len(), |j: int| step_scan_s(v[j]))
}

/// The off-screen sweep over the whole store.
pub open spec fn clean_pass_s(v: Seq<Option<EntityView>>) -> Seq<Option<EntityView>> {
    Seq::new(v.len(), |j: int| step_clean_s(v[j]))
}

/// What one tick does, in order: the spawn timeline fires due creations;
/// standalone cooldowns tick; the player is steered and may fire; movement
/// scripts evaluate; the integrator advances every mover; collisions
/// resolve; attack patterns fire; the boss phase machines run; and the
/// off-screen lifecycle tags and sweeps.
pub open spec fn tick_s(
    v: Seq<Option<EntityView>>,
    evs: Seq<SpawnEventView>,
    timer: i64,
    input: InputState,
    state: u64,
    delta: int,
) -> (Seq<Option<EntityView>>, Seq<SpawnEventView>, i64, u64) {
    let t2 = fx_add_s(timer as int, delta) as i64;
    let sp = spawner_pass_s(evs, t2, v);
    let v1 = sp.1;
    let v2 = cooldown_pass_s(v1, delta);
    let v3 = controls_pass_s(v2, 0, v2.len() as int, input, delta);
    let m = moves_pass_s(v3, 0, state, delta);
    let v4 = motion_pass_s(m.0, delta);
    let v5 = collision_s(v4);
    let f = fire_bullets_s(v5, m.1, delta);
    let b = update_boss_move_s(f.0, f.1, delta);
    let v8 = scan_pass_s(b.0);
    let v9 = clean_pass_s(v8);
    (v9, sp.0, t2, b.1)
}

/// Every entity a timeline action creates is sound for the script and
/// boss passes.
proof fn lemma_action_entity_wf(a: SpawnActionView)
    ensures
        wander_wf_slot(Some(action_entity_view_s(a))),
        boss_wf_slot(Some(action_entity_view_s(a))),
{
    let e = action_entity_view_s(a);
    match a {
        SpawnActionView::RedAlienWait(p) => {
            let q = e.moves.unwrap();
            assert forall|j: int|
                0 <= j < q.len() implies !((#[trigger] q[j]).movement
                matches Move::MoveWanderLinear(_, _, _)) by {
                if j == 0 {
                } else if j == 1 {
                } else {
                    assert(j == 2);
                }
            }
        },
        SpawnActionView::RedAlien(p) => {
            let q = e.moves.unwrap();
            assert forall|j: int|
                0 <= j < q.len() implies !((#[trigger] q[j]).movement
                matches Move::MoveWanderLinear(_, _, _)) by {
                if j == 0 {
                } else {
                    assert(j == 1);
                }
            }
        },
        _ => {},
    }
}

/// The spawn timeline keeps both soundness conditions: it only appends
/// sound entities.
proof fn lemma_spawner_pass_wf(evs: Seq<SpawnEventView>, t2: i64, v: Seq<Option<EntityView>>)
    requires
        wander_wf(v),
        boss_wf(v),
    ensures
        wander_wf(spawner_pass_s(evs, t2, v).1),
        boss_wf(spawner_pass_s(evs, t2, v).1),
    decreases evs.len(),
{
    if evs.len() > 0 {
        let e = evs[0];
        if !e.is_spawned && e.start < t2 {
            let v2 = v.push(Some(action_entity_view_s(e.action)));
            assert forall|j: int| 0 <= j < v2.len() implies wander_wf_slot(v2[j]) && boss_wf_slot(
                v2[j],
            ) by {
                if j < v.len() {
                    assert(v2[j] == v[j]);
                } else {
                    lemma_action_entity_wf(e.action);
                }
            }
            lemma_spawner_pass_wf(evs.drop_first(), t2, v2);
        } else {
            lemma_spawner_pass_wf(evs.drop_first(), t2, v);
        }
    }
}

/// Runs one frame of the simulation over the store, the timeline, the
/// held inputs and the random stream, in the fixed system order.
pub fn tick(
    world: &mut World,
    spawner: &mut Spawner,
    input: InputState,
    rng: &mut Lcg,
    delta: i64,
)
    requires
        wander_wf(world_view(old(world).ents@)),
        boss_wf(world_view(old(world).ents@)),
    ensures
        (
            world_view(final(world).ents@),
            events_view(final(spawner).lists@),
            final(spawner).timer,
            final(rng).state,
        ) == tick_s(
            world_view(old(world).ents@),
            events_view(old(spawner).lists@),
            old(spawner).timer,
            input,
            old(rng).state,
            delta as int,
        ),
        wander_wf(world_view(final(world).ents@)),
        boss_wf(world_view(final(world).ents@)),
{
    let ghost v0 = world_view(world.ents@);
    spawner.update(world, delta);
    proof {
        lemma_spawner_pass_wf(
            events_view(old(spawner).lists@),
            fx_add_s(old(spawner).timer as int, delta as int) as i64,
            v0,
        );
    }
    let ghost v1 = world_view(world.ents@);
    update_cooldown(world, delta);
    proof {
        assert(world_view(world.ents@) =~= cooldown_pass_s(v1, delta as int));
        assert forall|j: int|
            0 <= j < world_view(world.ents@).len() implies wander_wf_slot(
            world_view(world.ents@)[j],
        ) && boss_wf_slot(world_view(world.ents@)[j]) by {
            lemma_pointwise_steps_wf(v1[j], delta as int);
        }
    }
    let ghost v2 = world_view(world.ents@);
    player_controls(world, input, delta);
    proof {
        lemma_controls_pass_wf(v2, 0, v2.len() as int, input, delta as int);
    }
    let ghost v3 = world_view(world.ents@);
    update_moves(world, rng, delta);
    proof {
        lemma_moves_pass_boss_wf(v3, 0, old(rng).state, delta as int);
    }
    let ghost m0 = world_view(world.ents@);
    let ghost state_m = rng.state;
    update_movement(world, delta);
    proof {
        assert(world_view(world.ents@) =~= motion_pass_s(m0, delta as int));
        assert forall|j: int|
            0 <= j < world_view(world.ents@).len() implies wander_wf_slot(
            world_view(world.ents@)[j],
        ) && boss_wf_slot(world_view(world.ents@)[j]) by {
            lemma_pointwise_steps_wf(m0[j], delta as int);
        }
    }
    let ghost v4 = world_view(world.ents@);
    collision(world);
    proof {
        lemma_collision_wf(v4);
    }
    let ghost v5 = world_view(world.ents@);
    fire_bullets(world, rng, delta);
    proof {
        match first_player_s(v5, 0) {
            Some(t) => {
                lemma_fire_pass_wf(v5, 0, v5.len() as int, t.position, state_m, delta as int);
            },
            None => {},
        }
    }
    let ghost v6 = world_view(world.ents@);
    let ghost state_f = rng.state;
    update_boss_move(world, rng, delta);
    proof {
        let player = match first_player_s(v6, 0) {
            Some(t) => Some(t.position),
            None => None,
        };
        lemma_boss_pass_wf(v6, 0, v6.len() as int, player, state_f, delta as int);
    }
    let ghost v7 = world_view(world.ents@);
    scan_been_onscreen(world);
    proof {
        assert(world_view(world.ents@) =~= scan_pass_s(v7));
        assert forall|j: int|
            0 <= j < world_view(world.ents@).len() implies wander_wf_slot(
            world_view(world.ents@)[j],
        ) && boss_wf_slot(world_view(world.ents@)[j]) by {
            lemma_pointwise_steps_wf(v7[j], delta as int);
        }
    }
    let ghost v8 = world_view(world.ents@);
    clean_offscreen(world);
    proof {
        assert(world_view(world.ents@) =~= clean_pass_s(v8));
        assert forall|j: int|
            0 <= j < world_view(world.ents@).len() implies wander_wf_slot(
            world_view(world.ents@)[j],
        ) && boss_wf_slot(world_view(world.ents@)[j]) by {
            lemma_pointwise_steps_wf(v8[j], delta as int);
        }
    }
}

} // verus!
