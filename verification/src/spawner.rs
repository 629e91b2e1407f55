//! The spawn timeline: a running clock and a list of one-shot creation
//! events, each fired exactly once when the clock passes its start, then
//! purged.

use vstd::prelude::*;

use crate::cpx::Cpx;
use crate::entities::boss1_view_s;
use crate::entities::create_boss_1;
use crate::entities::create_player;
use crate::entities::create_red_alien;
use crate::entities::create_red_alien_wait;
use crate::entities::player_view_s;
use crate::entities::red_alien_view_s;
use crate::entities::red_alien_wait_view_s;
use crate::entities::stage_text;
use crate::entities::stage_text_view_s;
use crate::fx::fx_add;
use crate::fx::fx_add_s;
use crate::world::EntityView;
use crate::world::World;
use crate::world::world_view;

verus! {

/// A deferred one-shot creation.
#[derive(Debug)]
pub enum SpawnAction {
    /// Spawn the player.
    CreatePlayer,
    /// Spawn a centered stage caption.
    StageText(String),
    /// Spawn a drift-in, wait, drift-on red alien at a position.
    RedAlienWait(Cpx),
    /// Spawn a sweep-down-and-away red alien at a position.
    RedAlien(Cpx),
    /// Spawn the first boss.
    Boss1,
}

/// A deferred creation as specifications see it.
pub ghost enum SpawnActionView {
    CreatePlayer,
    StageText(Seq<char>),
    RedAlienWait(Cpx),
    RedAlien(Cpx),
    Boss1,
}

/// The view of one action.
pub open spec fn action_view(a: SpawnAction) -> SpawnActionView {
    match a {
        SpawnAction::CreatePlayer => SpawnActionView::CreatePlayer,
        SpawnAction::StageText(s) => SpawnActionView::StageText(s@),
        SpawnAction::RedAlienWait(p) => SpawnActionView::RedAlienWait(p),
        SpawnAction::RedAlien(p) => SpawnActionView::RedAlien(p),
        SpawnAction::Boss1 => SpawnActionView::Boss1,
    }
}

/// The entity an action creates.
pub open spec fn action_entity_view_s(a: SpawnActionView) -> EntityView {
    match a {
        SpawnActionView::CreatePlayer => player_view_s(),
        SpawnActionView::StageText(s) => stage_text_view_s(s),
        SpawnActionView::RedAlienWait(p) => red_alien_wait_view_s(p),
        SpawnActionView::RedAlien(p) => red_alien_view_s(p),
        SpawnActionView::Boss1 => boss1_view_s(),
    }
}

/// One timeline event: when it is due, whether it has fired, and what it
/// creates.
#[derive(Debug)]
pub struct SpawnEvent {
    pub start: i64,
    pub is_spawned: bool,
    pub action: SpawnAction,
}

/// One timeline event as specifications see it.
pub ghost struct SpawnEventView {
    pub start: i64,
    pub is_spawned: bool,
    pub action: SpawnActionView,
}

/// The view of one event.
pub open spec fn event_view(e: SpawnEvent) -> SpawnEventView {
    SpawnEventView { start: e.start, is_spawned: e.is_spawned, action: action_view(e.action) }
}

/// The views of an event list.
pub open spec fn events_view(s: Seq<SpawnEvent>) -> Seq<SpawnEventView> {
    s.map_values(|e: SpawnEvent| event_view(e))
}

/// What one timeline sweep does at clock `t2`: each unfired event due
/// strictly before the clock fires exactly once, appending its entity to
/// the store in list order, and is purged; every other event is retained
/// in order.
pub open spec fn spawner_pass_s(
    evs: Seq<SpawnEventView>,
    t2: i64,
    v: Seq<Option<EntityView>>,
) -> (Seq<SpawnEventView>, Seq<Option<EntityView>>)
    decreases evs.len(),
{
    if evs.len() == 0 {
        (evs, v)
    } else {
        let e = evs[0];
        if !e.is_spawned && e.start < t2 {
            spawner_pass_s(evs.drop_first(), t2, v.push(Some(action_entity_view_s(e.action))))
        } else {
            let r = spawner_pass_s(evs.drop_first(), t2, v);
            (seq![e] + r.0, r.1)
        }
    }
}

/// Spawns one action's entity into the store.
fn apply_action(world: &mut World, a: SpawnAction)
    ensures
        world_view(final(world).ents@) == world_view(old(world).ents@).push(
            Some(action_entity_view_s(action_view(a))),
        ),
{
    let ghost wv0 = world_view(world.ents@);
    let ghost gview = action_entity_view_s(action_view(a));
    match a {
        SpawnAction::CreatePlayer => create_player(world),
        SpawnAction::StageText(s) => stage_text(world, s),
        SpawnAction::RedAlienWait(p) => create_red_alien_wait(world, p),
        SpawnAction::RedAlien(p) => create_red_alien(world, p),
        SpawnAction::Boss1 => create_boss_1(world),
    }
    proof {
        assert(world_view(world.ents@) =~= wv0.push(Some(gview)));
    }
}

/// Fires the due events from an event list in order, returning the
/// retained rest.
fn run_events(world: &mut World, evs: Vec<SpawnEvent>, t2: i64) -> (r: Vec<SpawnEvent>)
    ensures
        (events_view(r@), world_view(final(world).ents@)) == spawner_pass_s(
            events_view(evs@),
            t2,
            world_view(old(world).ents@),
        ),
    decreases evs@.len(),
{
    let mut evs = evs;
    if evs.len() == 0 {
        proof {
            assert(events_view(evs@) =~= Seq::<SpawnEventView>::empty());
            assert(events_view(Seq::<SpawnEvent>::empty()) =~= Seq::<SpawnEventView>::empty());
        }
        Vec::new()
    } else {
        let ghost orig = evs@;
        let ev: SpawnEvent = evs.remove(0);
        proof {
            assert(events_view(orig)[0] == event_view(orig[0]));
            assert(events_view(orig).drop_first() =~= events_view(orig.drop_first()));
        }
        if !ev.is_spawned && ev.start < t2 {
            apply_action(world, ev.action);
            run_events(world, evs, t2)
        } else {
            let mut rest: Vec<SpawnEvent> = run_events(world, evs, t2);
            let ghost tail = rest@;
            rest.insert(0, ev);
            proof {
                assert(rest@.drop_first() =~= tail);
                assert(events_view(rest@) =~= seq![event_view(rest@[0])] + events_view(tail));
            }
            rest
        }
    }
}

/// The spawn timeline: a running clock and deferred creations.
#[derive(Debug)]
pub struct Spawner {
    pub timer: i64,
    pub lists: Vec<SpawnEvent>,
}

impl Spawner {
    /// An empty timeline with the clock at zero.
    pub fn new() -> (r: Spawner)
        ensures
            r.timer == 0,
            r.lists@.len() == 0,
    {
        Spawner { timer: 0, lists: Vec::new() }
    }

    /// Defers `action` until the clock passes `start`.
    pub fn spawn(&mut self, start: i64, action: SpawnAction)
        ensures
            final(self).timer == old(self).timer,
            final(self).lists@.len() == old(self).lists@.len() + 1,
            events_view(final(self).lists@) == events_view(old(self).lists@).push(
                SpawnEventView { start, is_spawned: false, action: action_view(action) },
            ),
    {
        let ghost pre = events_view(self.lists@);
        let ghost gv = action_view(action);
        self.lists.push(SpawnEvent { start, is_spawned: false, action });
        proof {
            assert(events_view(self.lists@) =~= pre.push(
                SpawnEventView { start, is_spawned: false, action: gv },
            ));
        }
    }

    /// Advances the clock by the frame delta and fires every event now
    /// due, exactly once each, in list order; fired events are purged.
    pub fn update(&mut self, world: &mut World, time: i64)
        ensures
            final(self).timer == fx_add_s(old(self).timer as int, time as int),
            (events_view(final(self).lists@), world_view(final(world).ents@)) == spawner_pass_s(
                events_view(old(self).lists@),
                fx_add_s(old(self).timer as int, time as int) as i64,
                world_view(old(world).ents@),
            ),
    {
        self.timer = fx_add(self.timer, time);
        let t2: i64 = self.timer;
        let evs: Vec<SpawnEvent> = self.lists.split_off(0);
        proof {
            assert(evs@ =~= old(self).lists@);
        }
        let remaining: Vec<SpawnEvent> = run_events(world, evs, t2);
        self.lists = remaining;
    }
}

/// Lays out the first stage on a timeline: the player and the stage
/// caption at once, three waves of red aliens, and the boss.
pub fn stage_1(spawner: &mut Spawner)
    ensures
        final(spawner).timer == old(spawner).timer,
        events_view(final(spawner).lists@) == events_view(old(spawner).lists@) + seq![
            SpawnEventView { start: 0, is_spawned: false, action: SpawnActionView::CreatePlayer },
            SpawnEventView {
                start: 0,
                is_spawned: false,
                action: SpawnActionView::StageText("Stage 1"@),
            },
            SpawnEventView {
                start: 196608,
                is_spawned: false,
                action: SpawnActionView::RedAlienWait(Cpx { re: 32768, im: -1311i64 }),
            },
            SpawnEventView {
                start: 262144,
                is_spawned: false,
                action: SpawnActionView::RedAlienWait(Cpx { re: 32768, im: -1311i64 }),
            },
            SpawnEventView {
                start: 327680,
                is_spawned: false,
                action: SpawnActionView::RedAlienWait(Cpx { re: 32768, im: -1311i64 }),
            },
            SpawnEventView {
                start: 458752,
                is_spawned: false,
                action: SpawnActionView::RedAlien(Cpx { re: 13107, im: -1311i64 }),
            },
            SpawnEventView {
                start: 524288,
                is_spawned: false,
                action: SpawnActionView::RedAlien(Cpx { re: 13107, im: -1311i64 }),
            },
            SpawnEventView {
                start: 655360,
                is_spawned: false,
                action: SpawnActionView::RedAlien(Cpx { re: 52429, im: -1311i64 }),
            },
            SpawnEventView {
                start: 720896,
                is_spawned: false,
                action: SpawnActionView::RedAlien(Cpx { re: 52429, im: -1311i64 }),
            },
            SpawnEventView { start: 917504, is_spawned: false, action: SpawnActionView::Boss1 },
        ],
{
    spawner.spawn(0, SpawnAction::CreatePlayer);
    spawner.spawn(0, SpawnAction::StageText("Stage 1".to_string()));
    spawner.spawn(196608, SpawnAction::RedAlienWait(Cpx { re: 32768, im: -1311 }));
    spawner.spawn(262144, SpawnAction::RedAlienWait(Cpx { re: 32768, im: -1311 }));
    spawner.spawn(327680, SpawnAction::RedAlienWait(Cpx { re: 32768, im: -1311 }));
    spawner.spawn(458752, SpawnAction::RedAlien(Cpx { re: 13107, im: -1311 }));
    spawner.spawn(524288, SpawnAction::RedAlien(Cpx { re: 13107, im: -1311 }));
    spawner.spawn(655360, SpawnAction::RedAlien(Cpx { re: 52429, im: -1311 }));
    spawner.spawn(720896, SpawnAction::RedAlien(Cpx { re: 52429, im: -1311 }));
    spawner.spawn(917504, SpawnAction::Boss1);
    proof {
        assert(events_view(spawner.lists@) =~= events_view(old(spawner).lists@) + seq![
            SpawnEventView { start: 0, is_spawned: false, action: SpawnActionView::CreatePlayer },
            SpawnEventView {
                start: 0,
                is_spawned: false,
                action: SpawnActionView::StageText("Stage 1"@),
            },
            SpawnEventView {
                start: 196608,
                is_spawned: false,
                action: SpawnActionView::RedAlienWait(Cpx { re: 32768, im: -1311i64 }),
            },
            SpawnEventView {
                start: 262144,
                is_spawned: false,
                action: SpawnActionView::RedAlienWait(Cpx { re: 32768, im: -1311i64 }),
            },
            SpawnEventView {
                start: 327680,
                is_spawned: false,
                action: SpawnActionView::RedAlienWait(Cpx { re: 32768, im: -1311i64 }),
            },
            SpawnEventView {
                start: 458752,
                is_spawned: false,
                action: SpawnActionView::RedAlien(Cpx { re: 13107, im: -1311i64 }),
            },
            SpawnEventView {
                start: 524288,
                is_spawned: false,
                action: SpawnActionView::RedAlien(Cpx { re: 13107, im: -1311i64 }),
            },
            SpawnEventView {
                start: 655360,
                is_spawned: false,
                action: SpawnActionView::RedAlien(Cpx { re: 52429, im: -1311i64 }),
            },
            SpawnEventView {
                start: 720896,
                is_spawned: false,
                action: SpawnActionView::RedAlien(Cpx { re: 52429, im: -1311i64 }),
            },
            SpawnEventView { start: 917504, is_spawned: false, action: SpawnActionView::Boss1 },
        ]);
    }
}

} // verus!
