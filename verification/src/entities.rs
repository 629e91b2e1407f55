//! Constructors for the game's entities: the player, enemies, bullets, the
//! first boss and stage captions.  Each spawns one fully assembled entity
//! into the store.

use vstd::prelude::*;

use crate::attack::AttackMove;
use crate::attack::AttackView;
use crate::attack::BulletSetup;
use crate::attack::Sprite;
use crate::attack::attack_view;
use crate::attack::attack_views;
use crate::boss::BossMove;
use crate::boss::BossMoveView;
use crate::boss::BossMoves;
use crate::boss::boss_move_view;
use crate::boss::boss_views;
use crate::cpx::Cpx;
use crate::cpx::Rect;
use crate::cpx::Transform2D;
use crate::health::Hitbox;
use crate::health::Hitpoint;
use crate::motion::MoveParams;
use crate::moves::Move;
use crate::moves::Movement;
use crate::moves::Moves;
use crate::moves::Wanderable;
use crate::timer::Cooldown;
use crate::timer::Timer;
use crate::world::Entity;
use crate::world::EntityView;
use crate::world::Text;
use crate::world::TextView;
use crate::world::World;
use crate::world::entity_view;

verus! {

/// Hit radius of the player (0.0125 of the stage, aspect-corrected).
pub const PLAYER_HITBOX_RADIUS: i64 = 671;

/// Hit radius of a player bullet (0.01 of the stage, aspect-corrected).
pub const PLAYER_BULLET_HITBOX_RADIUS: i64 = 536;

/// Hit radius of an ordinary enemy (0.03 of the stage, aspect-corrected).
pub const ENEMY_HITBOX_RADIUS: i64 = 1609;

/// Hit radius of the boss (0.05 of the stage, aspect-corrected).
pub const BOSS_HITBOX_RADIUS: i64 = 2682;

/// The view of an enemy bullet: an enemy-marked bullet that dies off
/// screen, with the given placement, look, motion and hit circle.
pub open spec fn enemy_bullet_view_s(
    transform: Transform2D,
    sprite: Sprite,
    movement: MoveParams,
    hitbox: Hitbox,
) -> EntityView {
    EntityView {
        player: false,
        controllable: false,
        enemy: true,
        boss: false,
        bullet: true,
        die_offscreen: true,
        been_on_screen: None,
        transform: Some(transform),
        sprite: Some(sprite),
        hitbox: Some(hitbox),
        move_params: Some(movement),
        attack: None,
        moves: None,
        boss_moves: None,
        hitpoint: None,
        cooldown: None,
        health_bar: None,
        wanderable: None,
        text: None,
    }
}

/// The view of a player bullet.
pub open spec fn player_bullet_view_s(
    transform: Transform2D,
    sprite: Sprite,
    movement: MoveParams,
    hitbox: Hitbox,
) -> EntityView {
    EntityView {
        player: true,
        enemy: false,
        ..enemy_bullet_view_s(transform, sprite, movement, hitbox)
    }
}

/// Spawns a bullet fired by an enemy.
pub fn create_enemy_bullet(
    world: &mut World,
    transform: Transform2D,
    sprite: Sprite,
    movement: MoveParams,
    hitbox: Hitbox,
)
    ensures
        final(world).ents@.len() == old(world).ents@.len() + 1,
        forall|j: int|
            0 <= j < old(world).ents@.len() ==> final(world).ents@[j] == old(world).ents@[j],
        final(world).ents@.last() matches Some(e) && entity_view(e) == enemy_bullet_view_s(
            transform,
            sprite,
            movement,
            hitbox,
        ),
{
    let mut e: Entity = Entity::empty();
    e.enemy = true;
    e.bullet = true;
    e.die_offscreen = true;
    e.transform = Some(transform);
    e.sprite = Some(sprite);
    e.hitbox = Some(hitbox);
    e.move_params = Some(movement);
    world.spawn(e);
}

/// Spawns a bullet fired by the player.
pub fn create_player_bullet(
    world: &mut World,
    transform: Transform2D,
    sprite: Sprite,
    movement: MoveParams,
    hitbox: Hitbox,
)
    ensures
        final(world).ents@.len() == old(world).ents@.len() + 1,
        forall|j: int|
            0 <= j < old(world).ents@.len() ==> final(world).ents@[j] == old(world).ents@[j],
        final(world).ents@.last() matches Some(e) && entity_view(e) == player_bullet_view_s(
            transform,
            sprite,
            movement,
            hitbox,
        ),
{
    let mut e: Entity = Entity::empty();
    e.player = true;
    e.bullet = true;
    e.die_offscreen = true;
    e.transform = Some(transform);
    e.sprite = Some(sprite);
    e.hitbox = Some(hitbox);
    e.move_params = Some(movement);
    world.spawn(e);
}

/// The view of the player's standard bullet, fired straight up from `pos`.
pub open spec fn player_generic_bullet_view_s(pos: Cpx) -> EntityView {
    player_bullet_view_s(
        Transform2D { position: pos, scale: Cpx { re: 3277, im: 3277 }, rotation: 0 },
        Sprite { x: 0, y: 16, w: 16, h: 16 },
        MoveParams {
            velocity: Cpx { re: 0, im: -131072i64 },
            acceleration: Cpx { re: 0, im: 0 },
            retention: 65536,
            attraction: Cpx { re: 0, im: 0 },
            attraction_point: Cpx { re: 0, im: 0 },
            attraction_exponent: 65536,
        },
        Hitbox { radius: PLAYER_BULLET_HITBOX_RADIUS },
    )
}

/// Spawns the player's standard bullet at `pos`, heading straight up.
pub fn create_player_generic_bullet(world: &mut World, pos: Cpx)
    ensures
        final(world).ents@.len() == old(world).ents@.len() + 1,
        forall|j: int|
            0 <= j < old(world).ents@.len() ==> final(world).ents@[j] == old(world).ents@[j],
        final(world).ents@.last() matches Some(e) && entity_view(e)
            == player_generic_bullet_view_s(pos),
{
    create_player_bullet(
        world,
        Transform2D::new(pos, Cpx { re: 3277, im: 3277 }, 0),
        Sprite::new_from_index(0, 1),
        MoveParams::move_linear(Cpx { re: 0, im: -131072 }),
        Hitbox::new(PLAYER_BULLET_HITBOX_RADIUS),
    );
}

/// The view of the freshly spawned player.
pub open spec fn player_view_s() -> EntityView {
    EntityView {
        player: true,
        controllable: true,
        enemy: false,
        boss: false,
        bullet: false,
        die_offscreen: false,
        been_on_screen: None,
        transform: Some(
            Transform2D {
                position: Cpx { re: 32768, im: 52429 },
                scale: Cpx { re: 6554, im: 6554 },
                rotation: 0,
            },
        ),
        sprite: Some(Sprite { x: 0, y: 0, w: 16, h: 16 }),
        hitbox: Some(Hitbox { radius: PLAYER_HITBOX_RADIUS }),
        move_params: Some(
            MoveParams {
                velocity: Cpx { re: 0, im: 0 },
                acceleration: Cpx { re: 0, im: 0 },
                retention: 55706,
                attraction: Cpx { re: 0, im: 0 },
                attraction_point: Cpx { re: 0, im: 0 },
                attraction_exponent: 65536,
            },
        ),
        attack: None,
        moves: None,
        boss_moves: None,
        hitpoint: None,
        cooldown: Some(Cooldown(Timer { duration: 6554, elapsed: 0, repeat: true })),
        health_bar: None,
        wanderable: None,
        text: None,
    }
}

/// Spawns the player at the bottom center, damped, with the firing
/// cooldown.
pub fn create_player(world: &mut World)
    ensures
        final(world).ents@.len() == old(world).ents@.len() + 1,
        forall|j: int|
            0 <= j < old(world).ents@.len() ==> final(world).ents@[j] == old(world).ents@[j],
        final(world).ents@.last() matches Some(e) && entity_view(e) == player_view_s(),
{
    let mut e: Entity = Entity::empty();
    e.player = true;
    e.controllable = true;
    e.sprite = Some(Sprite::new_from_index(0, 0));
    e.transform = Some(
        Transform2D::new(Cpx { re: 32768, im: 52429 }, Cpx { re: 6554, im: 6554 }, 0),
    );
    e.move_params = Some(MoveParams::move_dampen(Cpx::zero(), 55706));
    e.cooldown = Some(Cooldown(Timer::new(6554, true)));
    e.hitbox = Some(Hitbox::new(PLAYER_HITBOX_RADIUS));
    world.spawn(e);
}

/// Spawns an ordinary enemy from its parts.
pub fn create_enemy(
    world: &mut World,
    transform: Transform2D,
    sprite: Sprite,
    movement: MoveParams,
    moves: Moves,
    attack_move: AttackMove,
    hitbox: Hitbox,
    hitpoint: Hitpoint,
)
    ensures
        final(world).ents@.len() == old(world).ents@.len() + 1,
        forall|j: int|
            0 <= j < old(world).ents@.len() ==> final(world).ents@[j] == old(world).ents@[j],
        final(world).ents@.last() matches Some(e) && entity_view(e) == (EntityView {
            player: false,
            controllable: false,
            enemy: true,
            boss: false,
            bullet: false,
            die_offscreen: true,
            been_on_screen: None,
            transform: Some(transform),
            sprite: Some(sprite),
            hitbox: Some(hitbox),
            move_params: Some(movement),
            attack: Some(attack_view(attack_move)),
            moves: Some(moves.0@),
            boss_moves: None,
            hitpoint: Some(hitpoint),
            cooldown: None,
            health_bar: None,
            wanderable: None,
            text: None,
        }),
{
    let mut e: Entity = Entity::empty();
    e.enemy = true;
    e.die_offscreen = true;
    e.transform = Some(transform);
    e.sprite = Some(sprite);
    e.hitbox = Some(hitbox);
    e.move_params = Some(movement);
    e.attack = Some(attack_move);
    e.moves = Some(moves);
    e.hitpoint = Some(hitpoint);
    world.spawn(e);
}

/// Spawns a boss from its parts: an enemy and boss both, with a phase
/// queue, a health bar and roam state seeded at its spawn position.
pub fn create_boss(
    world: &mut World,
    transform: Transform2D,
    sprite: Sprite,
    movement: MoveParams,
    moves: Moves,
    attack_move: BossMoves,
    hitbox: Hitbox,
    hitpoint: Hitpoint,
    cooldown: Cooldown,
)
    ensures
        final(world).ents@.len() == old(world).ents@.len() + 1,
        forall|j: int|
            0 <= j < old(world).ents@.len() ==> final(world).ents@[j] == old(world).ents@[j],
        final(world).ents@.last() matches Some(e) && entity_view(e) == (EntityView {
            player: false,
            controllable: false,
            enemy: true,
            boss: true,
            bullet: false,
            die_offscreen: false,
            been_on_screen: None,
            transform: Some(transform),
            sprite: Some(sprite),
            hitbox: Some(hitbox),
            move_params: Some(movement),
            attack: Some(AttackView::Multiple(Seq::empty())),
            moves: Some(moves.0@),
            boss_moves: Some(boss_views(attack_move.0@)),
            hitpoint: Some(hitpoint),
            cooldown: Some(cooldown),
            health_bar: Some(Rect { x: 2621, y: 1311, w: 58982, h: 655 }),
            wanderable: Some(
                Wanderable { last_position: transform.position, target_position: None },
            ),
            text: None,
        }),
{
    let mut e: Entity = Entity::empty();
    e.enemy = true;
    e.boss = true;
    e.transform = Some(transform);
    e.sprite = Some(sprite);
    e.hitbox = Some(hitbox);
    e.move_params = Some(movement);
    e.boss_moves = Some(attack_move);
    let empty_attacks: Vec<AttackMove> = Vec::new();
    proof {
        assert(attack_view(AttackMove::Multiple(empty_attacks)) == AttackView::Multiple(
            Seq::<AttackView>::empty(),
        )) by {
            assert(crate::attack::attack_views(empty_attacks@) =~= Seq::<AttackView>::empty());
        }
    }
    e.attack = Some(AttackMove::Multiple(empty_attacks));
    e.moves = Some(moves);
    e.hitpoint = Some(hitpoint);
    e.cooldown = Some(cooldown);
    e.health_bar = Some(Rect::new(2621, 1311, 58982, 655));
    e.wanderable = Some(Wanderable::new(transform.position));
    world.spawn(e);
}

/// The view of a drift-in, wait, drift-on red alien.
pub open spec fn red_alien_wait_view_s(position: Cpx) -> EntityView {
    EntityView {
        player: false,
        controllable: false,
        enemy: true,
        boss: false,
        bullet: false,
        die_offscreen: true,
        been_on_screen: None,
        transform: Some(
            Transform2D { position, scale: Cpx { re: 6554, im: 6554 }, rotation: 0 },
        ),
        sprite: Some(Sprite { x: 16, y: 0, w: 16, h: 16 }),
        hitbox: Some(Hitbox { radius: ENEMY_HITBOX_RADIUS }),
        move_params: Some(
            MoveParams {
                velocity: Cpx { re: 0, im: 13107 },
                acceleration: Cpx { re: 0, im: 0 },
                retention: 65536,
                attraction: Cpx { re: 0, im: 0 },
                attraction_point: Cpx { re: 0, im: 0 },
                attraction_exponent: 65536,
            },
        ),
        attack: Some(
            AttackView::AtPlayer {
                num: 3,
                speed: 32768,
                spread: 6554,
                total_shoot: 1,
                cooldown: Timer { duration: 65536, elapsed: 0, repeat: true },
                sprite: Sprite { x: 0, y: 16, w: 16, h: 16 },
            },
        ),
        moves: Some(
            seq![
                Movement {
                    timer: Timer { duration: 6554, elapsed: 0, repeat: false },
                    movement: Move::MoveDampen(Cpx { re: 0, im: 52429 }, 39322),
                },
                Movement {
                    timer: Timer { duration: 65536, elapsed: 0, repeat: false },
                    movement: Move::MoveDampen(Cpx { re: 0, im: 6554 }, 36045),
                },
                Movement {
                    timer: Timer { duration: 131072, elapsed: 0, repeat: false },
                    movement: Move::MoveAccelerated2(Cpx { re: 0, im: 6554 }),
                },
            ],
        ),
        boss_moves: None,
        hitpoint: Some(Hitpoint { hp: 131072, max_hp: 131072, invulnerable: false }),
        cooldown: None,
        health_bar: None,
        wanderable: None,
        text: None,
    }
}

/// Spawns a red alien that drifts in, waits, then drifts on, firing a
/// three-bullet aimed burst once.
pub fn create_red_alien_wait(world: &mut World, position: Cpx)
    ensures
        final(world).ents@.len() == old(world).ents@.len() + 1,
        forall|j: int|
            0 <= j < old(world).ents@.len() ==> final(world).ents@[j] == old(world).ents@[j],
        final(world).ents@.last() matches Some(e) && entity_view(e) == red_alien_wait_view_s(
            position,
        ),
{
    let mut movements: Vec<Movement> = Vec::new();
    movements.push(Movement::new(6554, Move::MoveDampen(Cpx { re: 0, im: 52429 }, 39322)));
    movements.push(Movement::new(65536, Move::MoveDampen(Cpx { re: 0, im: 6554 }, 36045)));
    movements.push(Movement::new(131072, Move::MoveAccelerated2(Cpx { re: 0, im: 6554 })));
    proof {
        assert(movements@ =~= seq![
            Movement {
                timer: Timer { duration: 6554, elapsed: 0, repeat: false },
                movement: Move::MoveDampen(Cpx { re: 0, im: 52429 }, 39322),
            },
            Movement {
                timer: Timer { duration: 65536, elapsed: 0, repeat: false },
                movement: Move::MoveDampen(Cpx { re: 0, im: 6554 }, 36045),
            },
            Movement {
                timer: Timer { duration: 131072, elapsed: 0, repeat: false },
                movement: Move::MoveAccelerated2(Cpx { re: 0, im: 6554 }),
            },
        ]);
    }
    create_enemy(
        world,
        Transform2D::new(position, Cpx { re: 6554, im: 6554 }, 0),
        Sprite::new_from_index(1, 0),
        MoveParams::move_linear(Cpx { re: 0, im: 13107 }),
        Moves::new(movements),
        AttackMove::AtPlayer {
            num: 3,
            spread: 6554,
            speed: 32768,
            total_shoot: 1,
            setup: BulletSetup(Sprite::new_from_index(0, 1)),
            cooldown: Cooldown::new(65536),
        },
        Hitbox::new(ENEMY_HITBOX_RADIUS),
        Hitpoint::new(131072),
    );
}

/// The view of a sweep-down-and-away red alien.
pub open spec fn red_alien_view_s(position: Cpx) -> EntityView {
    EntityView {
        sprite: Some(Sprite { x: 16, y: 0, w: 16, h: 16 }),
        attack: Some(
            AttackView::AtPlayer {
                num: 1,
                speed: 32768,
                spread: 131072,
                total_shoot: 1,
                cooldown: Timer { duration: 65536, elapsed: 0, repeat: true },
                sprite: Sprite { x: 16, y: 16, w: 16, h: 16 },
            },
        ),
        moves: Some(
            seq![
                Movement {
                    timer: Timer { duration: 32768, elapsed: 0, repeat: false },
                    movement: Move::MoveTowardExp(
                        Cpx { re: 0, im: 65536 },
                        Cpx { re: 6554, im: 6554 },
                        6554,
                    ),
                },
                Movement {
                    timer: Timer { duration: 78643, elapsed: 0, repeat: false },
                    movement: Move::MoveTowardExp(
                        Cpx { re: -65536i64, im: 0 },
                        Cpx { re: -6554i64, im: -6554i64 },
                        6554,
                    ),
                },
            ],
        ),
        ..red_alien_wait_view_s(position)
    }
}

/// Spawns a red alien that sweeps down and away, firing one aimed bullet.
pub fn create_red_alien(world: &mut World, position: Cpx)
    ensures
        final(world).ents@.len() == old(world).ents@.len() + 1,
        forall|j: int|
            0 <= j < old(world).ents@.len() ==> final(world).ents@[j] == old(world).ents@[j],
        final(world).ents@.last() matches Some(e) && entity_view(e) == red_alien_view_s(position),
{
    let mut movements: Vec<Movement> = Vec::new();
    movements.push(
        Movement::new(
            32768,
            Move::MoveTowardExp(Cpx { re: 0, im: 65536 }, Cpx { re: 6554, im: 6554 }, 6554),
        ),
    );
    movements.push(
        Movement::new(
            78643,
            Move::MoveTowardExp(Cpx { re: -65536, im: 0 }, Cpx { re: -6554, im: -6554 }, 6554),
        ),
    );
    proof {
        assert(movements@ =~= seq![
            Movement {
                timer: Timer { duration: 32768, elapsed: 0, repeat: false },
                movement: Move::MoveTowardExp(
                    Cpx { re: 0, im: 65536 },
                    Cpx { re: 6554, im: 6554 },
                    6554,
                ),
            },
            Movement {
                timer: Timer { duration: 78643, elapsed: 0, repeat: false },
                movement: Move::MoveTowardExp(
                    Cpx { re: -65536i64, im: 0 },
                    Cpx { re: -6554i64, im: -6554i64 },
                    6554,
                ),
            },
        ]);
    }
    create_enemy(
        world,
        Transform2D::new(position, Cpx { re: 6554, im: 6554 }, 0),
        Sprite::new_from_index(1, 0),
        MoveParams::move_linear(Cpx { re: 0, im: 13107 }),
        Moves::new(movements),
        AttackMove::AtPlayer {
            num: 1,
            spread: 131072,
            speed: 32768,
            total_shoot: 1,
            setup: BulletSetup(Sprite::new_from_index(1, 1)),
            cooldown: Cooldown::new(65536),
        },
        Hitbox::new(ENEMY_HITBOX_RADIUS),
        Hitpoint::new(131072),
    );
}

/// The aimed five-bullet burst both boss phases share.
pub open spec fn boss1_burst_view_s() -> AttackView {
    AttackView::AtPlayer {
        num: 5,
        speed: 32768,
        spread: 1310720,
        total_shoot: 2,
        cooldown: Timer { duration: 65536, elapsed: 0, repeat: true },
        sprite: Sprite { x: 0, y: 16, w: 16, h: 16 },
    }
}

/// The view of the first boss.
pub open spec fn boss1_view_s() -> EntityView {
    EntityView {
        player: false,
        controllable: false,
        enemy: true,
        boss: true,
        bullet: false,
        die_offscreen: false,
        been_on_screen: None,
        transform: Some(
            Transform2D {
                position: Cpx { re: 32768, im: -1311i64 },
                scale: Cpx { re: 6554, im: 6554 },
                rotation: 0,
            },
        ),
        sprite: Some(Sprite { x: 32, y: 0, w: 16, h: 16 }),
        hitbox: Some(Hitbox { radius: BOSS_HITBOX_RADIUS }),
        move_params: Some(
            MoveParams {
                velocity: Cpx { re: 0, im: 13107 },
                acceleration: Cpx { re: 0, im: 0 },
                retention: 65536,
                attraction: Cpx { re: 0, im: 0 },
                attraction_point: Cpx { re: 0, im: 0 },
                attraction_exponent: 65536,
            },
        ),
        attack: Some(AttackView::Multiple(Seq::empty())),
        moves: Some(
            seq![
                Movement {
                    timer: Timer { duration: 6554, elapsed: 0, repeat: false },
                    movement: Move::MoveDampen(Cpx { re: 0, im: 52429 }, 39322),
                },
                Movement {
                    timer: Timer { duration: 3276800, elapsed: 0, repeat: false },
                    movement: Move::MoveWanderLinear(
                        Rect { x: 1311, y: 1311, w: 58982, h: 29491 },
                        13107,
                        65536,
                    ),
                },
            ],
        ),
        boss_moves: Some(
            seq![
                BossMoveView {
                    timeout: Timer { duration: 131072, elapsed: 0, repeat: false },
                    hp: 786432,
                    attack: AttackView::Multiple(
                        seq![
                            boss1_burst_view_s(),
                            AttackView::Circle {
                                sides: 16,
                                rotation_per_fire: 393216,
                                rotation: 786432,
                                cooldown: Timer { duration: 65536, elapsed: 0, repeat: true },
                                sprite: Sprite { x: 0, y: 16, w: 16, h: 16 },
                            },
                        ],
                    ),
                },
                BossMoveView {
                    timeout: Timer { duration: 786432, elapsed: 0, repeat: false },
                    hp: 786432,
                    attack: AttackView::Multiple(seq![boss1_burst_view_s()]),
                },
            ],
        ),
        hitpoint: Some(Hitpoint { hp: 65536, max_hp: 65536, invulnerable: true }),
        cooldown: Some(Cooldown(Timer { duration: 65536, elapsed: 0, repeat: true })),
        health_bar: Some(Rect { x: 2621, y: 1311, w: 58982, h: 655 }),
        wanderable: Some(
            Wanderable {
                last_position: Cpx { re: 32768, im: -1311i64 },
                target_position: None,
            },
        ),
        text: None,
    }
}

/// Spawns the first boss: a drift-in, then a long wander over the upper
/// half of the stage, with two phases — a combined aimed-burst and
/// sweeping-ring phase, then an aimed-burst phase.
pub fn create_boss_1(world: &mut World)
    ensures
        final(world).ents@.len() == old(world).ents@.len() + 1,
        forall|j: int|
            0 <= j < old(world).ents@.len() ==> final(world).ents@[j] == old(world).ents@[j],
        final(world).ents@.last() matches Some(e) && entity_view(e) == boss1_view_s(),
{
    let mut movements: Vec<Movement> = Vec::new();
    movements.push(Movement::new(6554, Move::MoveDampen(Cpx { re: 0, im: 52429 }, 39322)));
    movements.push(
        Movement::new(
            3276800,
            Move::MoveWanderLinear(Rect::new(1311, 1311, 58982, 29491), 13107, 65536),
        ),
    );
    let mut phase1_attacks: Vec<AttackMove> = Vec::new();
    phase1_attacks.push(
        AttackMove::AtPlayer {
            num: 5,
            speed: 32768,
            spread: 1310720,
            total_shoot: 2,
            cooldown: Cooldown::new(65536),
            setup: BulletSetup(Sprite::new_from_index(0, 1)),
        },
    );
    phase1_attacks.push(
        AttackMove::Circle {
            sides: 16,
            rotation: 786432,
            rotation_per_fire: 393216,
            setup: BulletSetup(Sprite::new_from_index(0, 1)),
            cooldown: Cooldown::new(65536),
        },
    );
    let mut phase2_attacks: Vec<AttackMove> = Vec::new();
    phase2_attacks.push(
        AttackMove::AtPlayer {
            num: 5,
            speed: 32768,
            spread: 1310720,
            total_shoot: 2,
            cooldown: Cooldown::new(65536),
            setup: BulletSetup(Sprite::new_from_index(0, 1)),
        },
    );
    proof {
        assert(movements@ =~= seq![
            Movement {
                timer: Timer { duration: 6554, elapsed: 0, repeat: false },
                movement: Move::MoveDampen(Cpx { re: 0, im: 52429 }, 39322),
            },
            Movement {
                timer: Timer { duration: 3276800, elapsed: 0, repeat: false },
                movement: Move::MoveWanderLinear(
                    Rect { x: 1311, y: 1311, w: 58982, h: 29491 },
                    13107,
                    65536,
                ),
            },
        ]);
        assert(attack_views(phase1_attacks@.drop_first().drop_first())
            =~= Seq::<AttackView>::empty());
        assert(phase1_attacks@.drop_first()[0] == phase1_attacks@[1]);
        assert(attack_views(phase1_attacks@.drop_first()) =~= seq![
            attack_view(phase1_attacks@[1]),
        ]);
        assert(attack_views(phase1_attacks@) =~= seq![attack_view(phase1_attacks@[0])]
            + attack_views(phase1_attacks@.drop_first()));
        assert(attack_views(phase1_attacks@) =~= seq![
            attack_view(phase1_attacks@[0]),
            attack_view(phase1_attacks@[1]),
        ]);
        assert(attack_views(phase2_attacks@.drop_first()) =~= Seq::<AttackView>::empty());
        assert(attack_views(phase2_attacks@) =~= seq![attack_view(phase2_attacks@[0])]);
        assert(attack_views(phase1_attacks@) =~= seq![
            boss1_burst_view_s(),
            AttackView::Circle {
                sides: 16,
                rotation_per_fire: 393216,
                rotation: 786432,
                cooldown: Timer { duration: 65536, elapsed: 0, repeat: true },
                sprite: Sprite { x: 0, y: 16, w: 16, h: 16 },
            },
        ]);
        assert(attack_views(phase2_attacks@) =~= seq![boss1_burst_view_s()]);
    }
    let ghost p1v = attack_views(phase1_attacks@);
    let ghost p2v = attack_views(phase2_attacks@);
    let mut phases: Vec<BossMove> = Vec::new();
    let phase1: BossMove = BossMove::new(131072, 786432, AttackMove::Multiple(phase1_attacks));
    let phase2: BossMove = BossMove::new(786432, 786432, AttackMove::Multiple(phase2_attacks));
    proof {
        assert(boss_move_view(phase1) == BossMoveView {
            timeout: Timer { duration: 131072, elapsed: 0, repeat: false },
            hp: 786432,
            attack: AttackView::Multiple(p1v),
        });
        assert(boss_move_view(phase2) == BossMoveView {
            timeout: Timer { duration: 786432, elapsed: 0, repeat: false },
            hp: 786432,
            attack: AttackView::Multiple(p2v),
        });
    }
    let ghost ph1v = boss_move_view(phase1);
    let ghost ph2v = boss_move_view(phase2);
    phases.push(phase1);
    phases.push(phase2);
    proof {
        assert(boss_views(phases@.drop_first().drop_first()) =~= Seq::<BossMoveView>::empty());
        assert(phases@.drop_first()[0] == phases@[1]);
        assert(boss_views(phases@.drop_first()) =~= seq![boss_move_view(phases@[1])]);
        assert(boss_views(phases@) =~= seq![boss_move_view(phases@[0])] + boss_views(
            phases@.drop_first(),
        ));
        assert(boss_views(phases@) =~= seq![ph1v, ph2v]);
    }
    create_boss(
        world,
        Transform2D::new(Cpx { re: 32768, im: -1311 }, Cpx { re: 6554, im: 6554 }, 0),
        Sprite::new_from_index(2, 0),
        MoveParams::move_linear(Cpx { re: 0, im: 13107 }),
        Moves::new(movements),
        BossMoves::new(phases),
        Hitbox::new(BOSS_HITBOX_RADIUS),
        Hitpoint::invulnerable(),
        Cooldown::new(65536),
    );
}

/// The view of a centered stage caption.
pub open spec fn stage_text_view_s(chars: Seq<char>) -> EntityView {
    EntityView {
        player: false,
        controllable: false,
        enemy: false,
        boss: false,
        bullet: false,
        die_offscreen: true,
        been_on_screen: None,
        transform: Some(
            Transform2D {
                position: Cpx { re: 32768, im: 19661 },
                scale: Cpx { re: 3277, im: 3277 },
                rotation: 0,
            },
        ),
        sprite: None,
        hitbox: None,
        move_params: None,
        attack: None,
        moves: None,
        boss_moves: None,
        hitpoint: None,
        cooldown: None,
        health_bar: None,
        wanderable: None,
        text: Some(TextView::Center(chars)),
    }
}

/// Spawns a centered stage caption that scrolls off screen.
pub fn stage_text(world: &mut World, text: String)
    ensures
        final(world).ents@.len() == old(world).ents@.len() + 1,
        forall|j: int|
            0 <= j < old(world).ents@.len() ==> final(world).ents@[j] == old(world).ents@[j],
        final(world).ents@.last() matches Some(e) && entity_view(e) == stage_text_view_s(text@),
{
    let mut e: Entity = Entity::empty();
    e.die_offscreen = true;
    e.transform = Some(
        Transform2D::new(Cpx { re: 32768, im: 19661 }, Cpx { re: 3277, im: 3277 }, 0),
    );
    e.text = Some(Text::Center(text));
    world.spawn(e);
}

} // verus!
