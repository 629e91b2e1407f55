//! The collision resolver: snapshots the five entity categories, then
//! despawns enemy bullets that strike the player, and resolves player
//! bullets against bosses and against ordinary enemies — despawning the
//! bullet, damaging the target, and despawning a target whose health has
//! fallen below zero.  A despawned bullet takes part in no further pair
//! tests within the tick.

use vstd::prelude::*;

use crate::cpx::Cpx;
use crate::health::damage_s;
use crate::health::intersects_s;
use crate::health::is_dead_s;
use crate::motion::HALF_ONE;
use crate::world::Entity;
use crate::world::EntityView;
use crate::world::World;
use crate::world::world_view;

verus! {

/// A snapshot of one entity for pair testing: its identifier, where it
/// was, and its hit radius.
#[derive(Clone, Copy, Debug, PartialEq, Eq, Structural)]
pub struct SnapItem {
    pub id: usize,
    pub pos: Cpx,
    pub radius: i64,
}

/// The five snapshot categories of the resolver.
#[derive(Clone, Copy, Debug, PartialEq, Eq, Structural)]
pub enum Category {
    /// The controllable player ship.
    Player,
    /// An enemy that is neither a bullet nor the boss.
    EnemyShip,
    /// A bullet fired by the player.
    PlayerBullet,
    /// A bullet fired by an enemy.
    EnemyBullet,
    /// The boss.
    Boss,
}

/// Whether an entity falls in a category and carries what a snapshot
/// needs: a transform and a hit circle.
pub open spec fn cat_match(c: Category, e: EntityView) -> bool {
    &&& e.transform is Some
    &&& e.hitbox is Some
    &&& match c {
        Category::Player => e.player && e.controllable,
        Category::EnemyShip => e.enemy && !e.bullet && !e.boss,
        Category::PlayerBullet => e.player && e.bullet,
        Category::EnemyBullet => e.enemy && e.bullet,
        Category::Boss => e.boss && e.enemy,
    }
}

/// The position a matching entity is snapshotted at.
pub open spec fn snap_pos(e: EntityView) -> Cpx {
    match e.transform {
        Some(t) => t.position,
        None => Cpx { re: 0, im: 0 },
    }
}

/// The hit radius a matching entity is snapshotted with.
pub open spec fn snap_radius(e: EntityView) -> i64 {
    match e.hitbox {
        Some(h) => h.radius,
        None => 0,
    }
}

/// The snapshots of every slot from `i` on that falls in category `c`,
/// in slot order.
pub open spec fn collect_s(v: Seq<Option<EntityView>>, i: int, c: Category) -> Seq<SnapItem>
    decreases v.len() - i,
{
    if i < 0 || i >= v.len() {
        Seq::empty()
    } else {
        match v[i] {
            Some(e) => if cat_match(c, e) {
                seq![SnapItem { id: i as usize, pos: snap_pos(e), radius: snap_radius(e) }]
                    + collect_s(v, i + 1, c)
            } else {
                collect_s(v, i + 1, c)
            },
            None => collect_s(v, i + 1, c),
        }
    }
}

/// The store with the slot under `id` cleared; an out-of-range identifier
/// changes nothing.
pub open spec fn despawn_id_s(v: Seq<Option<EntityView>>, id: int) -> Seq<Option<EntityView>> {
    if 0 <= id < v.len() {
        v.update(id, None)
    } else {
        v
    }
}

/// The store after one hit lands on the entity under `id`: if it is live
/// and carries health, that health takes half a point of damage, and the
/// entity is despawned when the remaining health reports dead.  A slot
/// without health absorbs the hit unharmed.
pub open spec fn damage_target_s(v: Seq<Option<EntityView>>, id: int) -> Seq<Option<EntityView>> {
    if !(0 <= id < v.len()) {
        v
    } else {
        match v[id] {
            Some(e) => match e.hitpoint {
                Some(h) => {
                    let h2 = damage_s(h, HALF_ONE as int);
                    let v2 = v.update(id, Some(EntityView { hitpoint: Some(h2), ..e }));
                    if is_dead_s(h2) {
                        v2.update(id, None)
                    } else {
                        v2
                    }
                },
                None => v,
            },
            None => v,
        }
    }
}

/// One player bullet tested against the targets from `k` on: the first
/// overlap despawns the bullet and lands one hit on that target, and the
/// bullet takes part in no further tests.
pub open spec fn bullet_vs_targets_s(
    v: Seq<Option<EntityView>>,
    b: SnapItem,
    ts: Seq<SnapItem>,
    k: int,
) -> Seq<Option<EntityView>>
    decreases ts.len() - k,
{
    if k < 0 || k >= ts.len() {
        v
    } else {
        let t = ts[k];
        if intersects_s(b.radius, b.pos, t.radius, t.pos) {
            damage_target_s(despawn_id_s(v, b.id as int), t.id as int)
        } else {
            bullet_vs_targets_s(v, b, ts, k + 1)
        }
    }
}

/// The player bullets from `k` on, each — if still live — tested against
/// the targets in order.
pub open spec fn pass_bullets_s(
    v: Seq<Option<EntityView>>,
    bullets: Seq<SnapItem>,
    ts: Seq<SnapItem>,
    k: int,
) -> Seq<Option<EntityView>>
    decreases bullets.len() - k,
{
    if k < 0 || k >= bullets.len() {
        v
    } else {
        let b = bullets[k];
        if 0 <= b.id < v.len() && v[b.id as int] is Some {
            pass_bullets_s(bullet_vs_targets_s(v, b, ts, 0), bullets, ts, k + 1)
        } else {
            pass_bullets_s(v, bullets, ts, k + 1)
        }
    }
}

/// The enemy bullets from `k` on, each despawned if it overlaps the
/// player.
pub open spec fn pass_player_hits_s(
    v: Seq<Option<EntityView>>,
    player: SnapItem,
    bullets: Seq<SnapItem>,
    k: int,
) -> Seq<Option<EntityView>>
    decreases bullets.len() - k,
{
    if k < 0 || k >= bullets.len() {
        v
    } else {
        let b = bullets[k];
        if intersects_s(player.radius, player.pos, b.radius, b.pos) {
            pass_player_hits_s(despawn_id_s(v, b.id as int), player, bullets, k + 1)
        } else {
            pass_player_hits_s(v, player, bullets, k + 1)
        }
    }
}

/// What the whole collision tick does: snapshot the five categories, then
/// run the enemy-bullets-versus-player pass, the player-bullets-versus-
/// boss pass, and the player-bullets-versus-enemies pass, in that order.
pub open spec fn collision_s(v: Seq<Option<EntityView>>) -> Seq<Option<EntityView>> {
    let players = collect_s(v, 0, Category::Player);
    let enemies = collect_s(v, 0, Category::EnemyShip);
    let pbullets = collect_s(v, 0, Category::PlayerBullet);
    let ebullets = collect_s(v, 0, Category::EnemyBullet);
    let bosses = collect_s(v, 0, Category::Boss);
    let v1 = if players.len() > 0 {
        pass_player_hits_s(v, players[0], ebullets, 0)
    } else {
        v
    };
    let v2 = pass_bullets_s(v1, pbullets, bosses, 0);
    pass_bullets_s(v2, pbullets, enemies, 0)
}

/// Whether every slot satisfies both store soundness conditions.
pub open spec fn both_wf(v: Seq<Option<EntityView>>) -> bool {
    crate::systems::wander_wf(v) && crate::systems::boss_wf(v)
}

/// Clearing a slot keeps both soundness conditions.
proof fn lemma_despawn_wf(v: Seq<Option<EntityView>>, id: int)
    requires
        both_wf(v),
    ensures
        both_wf(despawn_id_s(v, id)),
{
    let r = despawn_id_s(v, id);
    assert forall|j: int|
        0 <= j < r.len() implies crate::systems::wander_wf_slot(r[j])
        && crate::systems::boss_wf_slot(r[j]) by {
        if j != id {
            assert(r[j] == v[j]);
        }
    }
}

/// Landing a hit keeps both soundness conditions: the target's health
/// stays present or the target is cleared.
proof fn lemma_damage_wf(v: Seq<Option<EntityView>>, id: int)
    requires
        both_wf(v),
    ensures
        both_wf(damage_target_s(v, id)),
{
    let r = damage_target_s(v, id);
    assert forall|j: int|
        0 <= j < r.len() implies crate::systems::wander_wf_slot(r[j])
        && crate::systems::boss_wf_slot(r[j]) by {
        if j != id {
            assert(r[j] == v[j]);
        }
    }
}

/// One bullet's target tests keep both soundness conditions.
proof fn lemma_bullet_vs_targets_wf(v: Seq<Option<EntityView>>, b: SnapItem, ts: Seq<SnapItem>, k: int)
    requires
        both_wf(v),
    ensures
        both_wf(bullet_vs_targets_s(v, b, ts, k)),
    decreases ts.len() - k,
{
    if 0 <= k < ts.len() {
        let t = ts[k];
        if intersects_s(b.radius, b.pos, t.radius, t.pos) {
            lemma_despawn_wf(v, b.id as int);
            lemma_damage_wf(despawn_id_s(v, b.id as int), t.id as int);
        } else {
            lemma_bullet_vs_targets_wf(v, b, ts, k + 1);
        }
    }
}

/// A whole bullet pass keeps both soundness conditions.
proof fn lemma_pass_bullets_wf(
    v: Seq<Option<EntityView>>,
    bullets: Seq<SnapItem>,
    ts: Seq<SnapItem>,
    k: int,
)
    requires
        both_wf(v),
    ensures
        both_wf(pass_bullets_s(v, bullets, ts, k)),
    decreases bullets.len() - k,
{
    if 0 <= k < bullets.len() {
        let b = bullets[k];
        if 0 <= b.id < v.len() && v[b.id as int] is Some {
            lemma_bullet_vs_targets_wf(v, b, ts, 0);
            lemma_pass_bullets_wf(bullet_vs_targets_s(v, b, ts, 0), bullets, ts, k + 1);
        } else {
            lemma_pass_bullets_wf(v, bullets, ts, k + 1);
        }
    }
}

/// The enemy-bullets-versus-player pass keeps both soundness conditions.
proof fn lemma_pass_player_hits_wf(
    v: Seq<Option<EntityView>>,
    player: SnapItem,
    bullets: Seq<SnapItem>,
    k: int,
)
    requires
        both_wf(v),
    ensures
        both_wf(pass_player_hits_s(v, player, bullets, k)),
    decreases bullets.len() - k,
{
    if 0 <= k < bullets.len() {
        let b = bullets[k];
        if intersects_s(player.radius, player.pos, b.radius, b.pos) {
            lemma_despawn_wf(v, b.id as int);
            lemma_pass_player_hits_wf(despawn_id_s(v, b.id as int), player, bullets, k + 1);
        } else {
            lemma_pass_player_hits_wf(v, player, bullets, k + 1);
        }
    }
}

/// The whole collision tick keeps both soundness conditions.
pub proof fn lemma_collision_wf(v: Seq<Option<EntityView>>)
    requires
        both_wf(v),
    ensures
        both_wf(collision_s(v)),
{
    let players = collect_s(v, 0, Category::Player);
    let enemies = collect_s(v, 0, Category::EnemyShip);
    let pbullets = collect_s(v, 0, Category::PlayerBullet);
    let ebullets = collect_s(v, 0, Category::EnemyBullet);
    let bosses = collect_s(v, 0, Category::Boss);
    let v1 = if players.len() > 0 {
        pass_player_hits_s(v, players[0], ebullets, 0)
    } else {
        v
    };
    if players.len() > 0 {
        lemma_pass_player_hits_wf(v, players[0], ebullets, 0);
    }
    lemma_pass_bullets_wf(v1, pbullets, bosses, 0);
    lemma_pass_bullets_wf(pass_bullets_s(v1, pbullets, bosses, 0), pbullets, enemies, 0);
}

/// Snapshots every entity of category `c`, in slot order.
fn collect(world: &World, c: Category) -> (r: Vec<SnapItem>)
    ensures
        r@ == collect_s(world_view(world.ents@), 0, c),
{
    let ghost wv = world_view(world.ents@);
    let n: usize = world.ents.len();
    let mut out: Vec<SnapItem> = Vec::new();
    let mut i: usize = 0;
    while i < n
        invariant
            i <= n,
            n == world.ents@.len(),
            collect_s(wv, 0, c) =~= out@ + collect_s(wv, i as int, c),
            wv == world_view(world.ents@),
        decreases n - i,
    {
        let ghost pre = collect_s(wv, i as int, c);
        let matched: Option<SnapItem> = snap_slot(world, i, c);
        match matched {
            Some(s) => {
                out.push(s);
                proof {
                    assert(collect_s(wv, 0, c) =~= out@ + collect_s(wv, i + 1, c));
                }
            },
            None => {
                proof {
                    assert(collect_s(wv, 0, c) =~= out@ + collect_s(wv, i + 1, c));
                }
            },
        }
        i = i + 1;
    }
    out
}

/// Snapshots the slot under `i` if it falls in category `c`.
fn snap_slot(world: &World, i: usize, c: Category) -> (r: Option<SnapItem>)
    requires
        i < world.ents@.len(),
    ensures
        match world_view(world.ents@)[i as int] {
            Some(e) => if cat_match(c, e) {
                r == Some(SnapItem { id: i, pos: snap_pos(e), radius: snap_radius(e) })
            } else {
                r is None
            },
            None => r is None,
        },
{
    match &world.ents[i] {
        None => None,
        Some(e) => {
            let in_cat: bool = match c {
                Category::Player => e.player && e.controllable,
                Category::EnemyShip => e.enemy && !e.bullet && !e.boss,
                Category::PlayerBullet => e.player && e.bullet,
                Category::EnemyBullet => e.enemy && e.bullet,
                Category::Boss => e.boss && e.enemy,
            };
            if in_cat && e.transform.is_some() && e.hitbox.is_some() {
                let t = e.transform.unwrap();
                let h = e.hitbox.unwrap();
                Some(SnapItem { id: i, pos: t.position, radius: h.radius })
            } else {
                None
            }
        },
    }
}

/// Lands one hit on the entity under `id`, despawning it if its health
/// has fallen below zero.
fn damage_target(world: &mut World, id: usize)
    ensures
        world_view(final(world).ents@) == damage_target_s(world_view(old(world).ents@), id as int),
        final(world).ents@.len() == old(world).ents@.len(),
{
    let ghost wv0 = world_view(world.ents@);
    if id < world.ents.len() {
        let slot: Option<Entity> = world.ents[id].take();
        match slot {
            Some(mut e) => {
                if e.hitpoint.is_some() {
                    let mut h = e.hitpoint.unwrap();
                    h.damage(HALF_ONE);
                    let dead: bool = h.is_dead();
                    e.hitpoint = Some(h);
                    let ghost ge = crate::world::entity_view(e);
                    world.ents[id] = Some(e);
                    proof {
                        assert(world_view(world.ents@) =~= wv0.update(id as int, Some(ge)));
                    }
                    if dead {
                        world.despawn(id);
                        proof {
                            assert(world_view(world.ents@) =~= damage_target_s(wv0, id as int));
                        }
                    } else {
                        proof {
                            assert(world_view(world.ents@) =~= damage_target_s(wv0, id as int));
                        }
                    }
                } else {
                    world.ents[id] = Some(e);
                    proof {
                        assert(world_view(world.ents@) =~= wv0);
                    }
                }
            },
            None => {
                world.ents[id] = None;
                proof {
                    assert(world_view(world.ents@) =~= wv0);
                }
            },
        }
    }
}

/// Tests one player bullet against the targets from `k` on, stopping at
/// the first overlap, which despawns the bullet and hits the target.
fn bullet_vs_targets(world: &mut World, b: SnapItem, ts: &Vec<SnapItem>, k: usize)
    requires
        k <= ts@.len(),
    ensures
        world_view(final(world).ents@) == bullet_vs_targets_s(
            world_view(old(world).ents@),
            b,
            ts@,
            k as int,
        ),
        final(world).ents@.len() == old(world).ents@.len(),
    decreases ts@.len() - k,
{
    if k >= ts.len() {
        return ;
    }
    let t: SnapItem = ts[k];
    let sum: i64 = crate::fx::fx_add(b.radius, t.radius);
    if b.pos.dist_sq(t.pos) <= crate::fx::fx_mul(sum, sum) {
        let ghost wv0 = world_view(world.ents@);
        world.despawn(b.id);
        proof {
            assert(world_view(world.ents@) =~= despawn_id_s(wv0, b.id as int));
        }
        damage_target(world, t.id);
    } else {
        bullet_vs_targets(world, b, ts, k + 1);
    }
}

/// Runs the player bullets from `k` on against the targets, skipping
/// bullets already despawned earlier in the tick.
fn pass_bullets(world: &mut World, bullets: &Vec<SnapItem>, ts: &Vec<SnapItem>, k: usize)
    requires
        k <= bullets@.len(),
    ensures
        world_view(final(world).ents@) == pass_bullets_s(
            world_view(old(world).ents@),
            bullets@,
            ts@,
            k as int,
        ),
        final(world).ents@.len() == old(world).ents@.len(),
    decreases bullets@.len() - k,
{
    if k >= bullets.len() {
        return ;
    }
    let b: SnapItem = bullets[k];
    if world.alive(b.id) {
        bullet_vs_targets(world, b, ts, 0);
        pass_bullets(world, bullets, ts, k + 1);
    } else {
        pass_bullets(world, bullets, ts, k + 1);
    }
}

/// Despawns the enemy bullets from `k` on that overlap the player.
fn pass_player_hits(world: &mut World, player: SnapItem, bullets: &Vec<SnapItem>, k: usize)
    requires
        k <= bullets@.len(),
    ensures
        world_view(final(world).ents@) == pass_player_hits_s(
            world_view(old(world).ents@),
            player,
            bullets@,
            k as int,
        ),
        final(world).ents@.len() == old(world).ents@.len(),
    decreases bullets@.len() - k,
{
    if k >= bullets.len() {
        return ;
    }
    let b: SnapItem = bullets[k];
    let sum: i64 = crate::fx::fx_add(player.radius, b.radius);
    if player.pos.dist_sq(b.pos) <= crate::fx::fx_mul(sum, sum) {
        let ghost wv0 = world_view(world.ents@);
        world.despawn(b.id);
        proof {
            assert(world_view(world.ents@) =~= despawn_id_s(wv0, b.id as int));
        }
        pass_player_hits(world, player, bullets, k + 1);
    } else {
        pass_player_hits(world, player, bullets, k + 1);
    }
}

/// Resolves this tick's collisions: enemy bullets against the player,
/// then player bullets against the boss and against ordinary enemies,
/// with damage and despawning as the passes dictate.
pub fn collision(world: &mut World)
    ensures
        world_view(final(world).ents@) == collision_s(world_view(old(world).ents@)),
        final(world).ents@.len() == old(world).ents@.len(),
{
    let players: Vec<SnapItem> = collect(world, Category::Player);
    let enemies: Vec<SnapItem> = collect(world, Category::EnemyShip);
    let pbullets: Vec<SnapItem> = collect(world, Category::PlayerBullet);
    let ebullets: Vec<SnapItem> = collect(world, Category::EnemyBullet);
    let bosses: Vec<SnapItem> = collect(world, Category::Boss);
    if players.len() > 0 {
        let p: SnapItem = players[0];
        pass_player_hits(world, p, &ebullets, 0);
    }
    pass_bullets(world, &pbullets, &bosses, 0);
    pass_bullets(world, &pbullets, &enemies, 0);
}

} // verus!
