use mininvader::collide::collision;
use mininvader::cpx::Cpx;
use mininvader::cpx::Transform2D;
use mininvader::entities::create_player;
use mininvader::game::tick;
use mininvader::health::Hitbox;
use mininvader::health::Hitpoint;
use mininvader::rng::Lcg;
use mininvader::spawner::SpawnAction;
use mininvader::spawner::Spawner;
use mininvader::spawner::stage_1;
use mininvader::systems::InputState;
use mininvader::systems::clean_offscreen;
use mininvader::systems::scan_been_onscreen;
use mininvader::world::Entity;
use mininvader::world::World;

fn at(re: i64, im: i64) -> Transform2D {
    Transform2D::new(Cpx { re, im }, Cpx { re: 6554, im: 6554 }, 0)
}

fn spawn_enemy(world: &mut World, pos: Transform2D, hp: i64) -> usize {
    let mut e = Entity::empty();
    e.enemy = true;
    e.transform = Some(pos);
    e.hitbox = Some(Hitbox::new(1609));
    e.hitpoint = Some(Hitpoint::new(hp));
    world.spawn(e)
}

fn spawn_player_bullet(world: &mut World, pos: Transform2D) -> usize {
    let mut e = Entity::empty();
    e.player = true;
    e.bullet = true;
    e.transform = Some(pos);
    e.hitbox = Some(Hitbox::new(536));
    world.spawn(e)
}

fn spawn_enemy_bullet(world: &mut World, pos: Transform2D) -> usize {
    let mut e = Entity::empty();
    e.enemy = true;
    e.bullet = true;
    e.transform = Some(pos);
    e.hitbox = Some(Hitbox::new(655));
    world.spawn(e)
}

fn spawn_player_ship(world: &mut World, pos: Transform2D) -> usize {
    let mut e = Entity::empty();
    e.player = true;
    e.controllable = true;
    e.transform = Some(pos);
    e.hitbox = Some(Hitbox::new(671));
    world.spawn(e)
}

fn enemy_hp(world: &World, id: usize) -> i64 {
    world.ents[id].as_ref().unwrap().hitpoint.as_ref().unwrap().hp
}

// An enemy with two health survives four half-point bullets — the fourth
// leaves it at exactly zero, which is still alive — and the fifth
// despawns it.
#[test]
fn enemy_survives_to_exactly_zero_health() {
    let mut world = World::new();
    let spot = at(32768, 32768);
    let enemy = spawn_enemy(&mut world, spot, 131072);
    for expected in [98304i64, 65536, 32768, 0] {
        let bullet = spawn_player_bullet(&mut world, spot);
        collision(&mut world);
        assert!(!world.alive(bullet), "the bullet is spent");
        assert!(world.alive(enemy), "the enemy survives at hp {expected}");
        assert_eq!(enemy_hp(&world, enemy), expected);
    }
    spawn_player_bullet(&mut world, spot);
    collision(&mut world);
    assert!(!world.alive(enemy), "strictly below zero despawns the enemy");
}

#[test]
fn enemy_bullet_striking_player_despawns() {
    let mut world = World::new();
    let spot = at(32768, 52429);
    spawn_player_ship(&mut world, spot);
    let near = spawn_enemy_bullet(&mut world, spot);
    let far = spawn_enemy_bullet(&mut world, at(0, 0));
    collision(&mut world);
    assert!(!world.alive(near));
    assert!(world.alive(far));
}

#[test]
fn spent_bullet_hits_only_one_target() {
    let mut world = World::new();
    let spot = at(32768, 32768);
    let first = spawn_enemy(&mut world, spot, 131072);
    let second = spawn_enemy(&mut world, spot, 131072);
    spawn_player_bullet(&mut world, spot);
    collision(&mut world);
    // The bullet despawns on its first overlap and is excluded from the
    // remaining pair tests.
    assert_eq!(enemy_hp(&world, first), 98304);
    assert_eq!(enemy_hp(&world, second), 131072);
}

#[test]
fn double_despawn_is_tolerated() {
    let mut world = World::new();
    let id = spawn_enemy(&mut world, at(0, 0), 131072);
    world.despawn(id);
    world.despawn(id);
    world.despawn(9999);
    assert!(!world.alive(id));
}

// Off-screen lifecycle: an entity that never enters the viewport is never
// despawned by the rule; once seen inside, the first tick that finds it
// outside despawns it.
#[test]
fn offscreen_rule_spares_the_never_seen() {
    let mut world = World::new();
    let mut e = Entity::empty();
    e.die_offscreen = true;
    e.transform = Some(at(32768, -6554));
    let id = world.spawn(e);
    for _ in 0..3 {
        scan_been_onscreen(&mut world);
        clean_offscreen(&mut world);
        assert!(world.alive(id), "never-seen entities are spared");
    }
    assert_eq!(world.ents[id].as_ref().unwrap().been_on_screen, Some(false));

    // It enters the viewport: it is tagged.
    world.ents[id].as_mut().unwrap().transform = Some(at(32768, 32768));
    scan_been_onscreen(&mut world);
    clean_offscreen(&mut world);
    assert!(world.alive(id));
    assert_eq!(world.ents[id].as_ref().unwrap().been_on_screen, Some(true));

    // It leaves: the first out-of-bounds tick despawns it.
    world.ents[id].as_mut().unwrap().transform = Some(at(32768, 131072));
    scan_been_onscreen(&mut world);
    clean_offscreen(&mut world);
    assert!(!world.alive(id));
}

// The spawn timeline fires each due event exactly once, in order, and
// purges it.
#[test]
fn spawner_fires_each_event_once() {
    let mut world = World::new();
    let mut spawner = Spawner::new();
    spawner.spawn(65536, SpawnAction::CreatePlayer);
    spawner.spawn(917504, SpawnAction::Boss1);
    spawner.update(&mut world, 131072);
    assert_eq!(world.len(), 1, "only the due event fires");
    assert_eq!(spawner.lists.len(), 1, "the fired event is purged");
    spawner.update(&mut world, 0);
    assert_eq!(world.len(), 1, "nothing fires twice");
    // A clock jump past several periods still fires the rest once.
    spawner.update(&mut world, 6553600);
    assert_eq!(world.len(), 2);
    assert_eq!(spawner.lists.len(), 0);
}

#[test]
fn stage_one_lays_out_ten_events() {
    let mut spawner = Spawner::new();
    stage_1(&mut spawner);
    assert_eq!(spawner.lists.len(), 10);
    assert_eq!(spawner.timer, 0);
}

#[test]
fn create_player_spawns_one_controllable() {
    let mut world = World::new();
    create_player(&mut world);
    assert_eq!(world.len(), 1);
    let e = world.ents[0].as_ref().unwrap();
    assert!(e.player && e.controllable);
    assert_eq!(e.cooldown.as_ref().unwrap().0.duration, 6554);
}

// A few whole frames of the first stage: the immediate events fire on the
// first tick, nothing due later fires early, and the player holding fire
// spawns a bullet once the firing cooldown completes.
#[test]
fn first_stage_ticks_through_opening_frames() {
    let mut world = World::new();
    let mut spawner = Spawner::new();
    let mut rng = Lcg::new(2024);
    stage_1(&mut spawner);
    let idle = InputState {
        left: false,
        right: false,
        up: false,
        down: false,
        focus: false,
        attack: false,
    };
    tick(&mut world, &mut spawner, idle, &mut rng, 6554);
    assert_eq!(world.len(), 2, "the player and the caption spawn at once");
    assert_eq!(spawner.lists.len(), 8);
    tick(&mut world, &mut spawner, idle, &mut rng, 6554);
    assert_eq!(world.len(), 2, "the aliens are not due yet");

    let firing = InputState { attack: true, ..idle };
    let before = world.len();
    // The player's cooldown (one tenth of a second) completes during
    // these frames; holding fire then spawns exactly one bullet per
    // completed period.
    tick(&mut world, &mut spawner, firing, &mut rng, 6554);
    tick(&mut world, &mut spawner, firing, &mut rng, 6554);
    assert!(world.len() > before, "holding fire eventually spawns a bullet");
}

#[test]
fn spawn_ids_are_sequential_and_stable() {
    let mut world = World::new();
    let a = spawn_enemy(&mut world, at(0, 0), 131072);
    let b = spawn_enemy(&mut world, at(0, 0), 131072);
    assert_eq!((a, b), (0, 1));
    world.despawn(a);
    assert!(!world.alive(a) && world.alive(b));
    let c = spawn_enemy(&mut world, at(0, 0), 131072);
    assert_eq!(c, 2, "cleared slots are not reused");
}
