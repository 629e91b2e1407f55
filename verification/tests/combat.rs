use mininvader::attack::AttackMove;
use mininvader::attack::BulletSetup;
use mininvader::attack::Sprite;
use mininvader::boss::BossMove;
use mininvader::boss::BossMoves;
use mininvader::cpx::Cpx;
use mininvader::cpx::Transform2D;
use mininvader::fx::SCALE;
use mininvader::fx::fx_add;
use mininvader::health::Hitbox;
use mininvader::health::Hitpoint;
use mininvader::rng::Lcg;
use mininvader::timer::Cooldown;
use mininvader::trig::TAU_FX;
use mininvader::trig::cos_fx;
use mininvader::trig::sin_fx;

fn ready_cooldown() -> Cooldown {
    // A zero-length cooldown is complete on every tick.
    Cooldown::new(0)
}

fn here() -> Transform2D {
    Transform2D::new(Cpx { re: 32768, im: 13107 }, Cpx { re: 6554, im: 6554 }, 0)
}

fn player_below() -> Transform2D {
    Transform2D::new(Cpx { re: 32768, im: 52429 }, Cpx { re: 6554, im: 6554 }, 0)
}

// An aimed leaf with a budget of two fires its full burst on each of the
// first two ready ticks and nothing on the third.
#[test]
fn at_player_budget_boundary() {
    let mut rng = Lcg::new(5);
    let mut attack = AttackMove::AtPlayer {
        num: 5,
        speed: 32768,
        spread: 1310720,
        total_shoot: 2,
        cooldown: ready_cooldown(),
        setup: BulletSetup(Sprite::new_from_index(0, 1)),
    };
    let (volley1, a1) = attack.fire(&here(), &player_below(), &mut rng);
    assert_eq!(volley1.len(), 5);
    let (volley2, a2) = a1.fire(&here(), &player_below(), &mut rng);
    assert_eq!(volley2.len(), 5);
    let (volley3, a3) = a2.fire(&here(), &player_below(), &mut rng);
    assert_eq!(volley3.len(), 0);
    match a3 {
        AttackMove::AtPlayer { total_shoot, .. } => assert_eq!(total_shoot, 0),
        _ => panic!("the leaf changed kind"),
    }
    attack = a3;
    let (volley4, _) = attack.fire(&here(), &player_below(), &mut rng);
    assert_eq!(volley4.len(), 0);
}

#[test]
fn at_player_single_shot_leaf() {
    let mut rng = Lcg::new(5);
    let attack = AttackMove::AtPlayer {
        num: 1,
        speed: 32768,
        spread: 131072,
        total_shoot: 1,
        cooldown: ready_cooldown(),
        setup: BulletSetup(Sprite::new_from_index(1, 1)),
    };
    let (volley, _) = attack.fire(&here(), &player_below(), &mut rng);
    assert_eq!(volley.len(), 1);
}

#[test]
fn cold_leaf_fires_nothing() {
    let mut rng = Lcg::new(5);
    let attack = AttackMove::AtPlayer {
        num: 5,
        speed: 32768,
        spread: 1310720,
        total_shoot: 2,
        cooldown: Cooldown::new(65536),
        setup: BulletSetup(Sprite::new_from_index(0, 1)),
    };
    let (volley, a2) = attack.fire(&here(), &player_below(), &mut rng);
    assert_eq!(volley.len(), 0);
    match a2 {
        AttackMove::AtPlayer { total_shoot, .. } => assert_eq!(total_shoot, 2),
        _ => panic!("the leaf changed kind"),
    }
}

// A ring of sixteen fires exactly sixteen bullets, their directions one
// sixteenth of a turn apart offset by the ring's rotation, and the
// rotation sweeps on by `rotation_per_fire`.
#[test]
fn circle_ring_directions_evenly_spaced() {
    let mut rng = Lcg::new(9);
    let rotation: i64 = 786432;
    let attack = AttackMove::Circle {
        sides: 16,
        rotation,
        rotation_per_fire: 393216,
        cooldown: ready_cooldown(),
        setup: BulletSetup(Sprite::new_from_index(0, 1)),
    };
    let (ring, swept) = attack.fire(&here(), &player_below(), &mut rng);
    assert_eq!(ring.len(), 16);
    for (i, bullet) in ring.iter().enumerate() {
        let offset = ((i as u64 * TAU_FX as u64) / 16) as i64;
        let angle = fx_add(rotation, offset);
        let expected = Cpx { re: cos_fx(angle), im: sin_fx(angle) };
        assert_eq!(bullet.move_params.velocity, expected, "bullet {i}");
        assert_eq!(bullet.transform.position, here().position);
    }
    match swept {
        AttackMove::Circle { rotation, .. } => assert_eq!(rotation, 786432 + 393216),
        _ => panic!("the leaf changed kind"),
    }
}

#[test]
fn circle_with_no_sides_fires_nothing() {
    let mut rng = Lcg::new(9);
    let attack = AttackMove::Circle {
        sides: 0,
        rotation: 0,
        rotation_per_fire: 393216,
        cooldown: ready_cooldown(),
        setup: BulletSetup(Sprite::new_from_index(0, 1)),
    };
    let (ring, _) = attack.fire(&here(), &player_below(), &mut rng);
    assert_eq!(ring.len(), 0);
}

// A combined pattern evaluates every child: the burst and the ring fire
// together.
#[test]
fn multiple_fires_all_children() {
    let mut rng = Lcg::new(5);
    let attack = AttackMove::Multiple(vec![
        AttackMove::AtPlayer {
            num: 5,
            speed: 32768,
            spread: 1310720,
            total_shoot: 2,
            cooldown: ready_cooldown(),
            setup: BulletSetup(Sprite::new_from_index(0, 1)),
        },
        AttackMove::Circle {
            sides: 16,
            rotation: 786432,
            rotation_per_fire: 393216,
            cooldown: ready_cooldown(),
            setup: BulletSetup(Sprite::new_from_index(0, 1)),
        },
    ]);
    let (bullets, _) = attack.fire(&here(), &player_below(), &mut rng);
    assert_eq!(bullets.len(), 21);
}

// Health: damage lowers hp by exactly the amount; zero is still alive;
// only strictly below zero is dead; an invulnerable entity ignores it all.
#[test]
fn hitpoint_strict_death_threshold() {
    let mut hp = Hitpoint::new(131072);
    assert!(!hp.is_dead());
    hp.damage(32768);
    assert_eq!(hp.hp, 98304);
    assert!(!hp.is_dead());
    hp.damage(32768);
    hp.damage(32768);
    assert_eq!(hp.hp, 32768);
    assert!(!hp.is_dead());
    let reported = hp.damage(32768);
    assert_eq!(hp.hp, 0);
    assert!(reported, "the fourth hit reaches zero");
    assert!(!hp.is_dead(), "zero exactly is still alive");
    hp.damage(32768);
    assert!(hp.is_dead(), "strictly below zero is dead");
    assert_eq!(hp.max_hp, 131072);
}

#[test]
fn invulnerable_hitpoint_ignores_damage() {
    let mut hp = Hitpoint::invulnerable();
    assert!(!hp.damage(SCALE));
    assert_eq!(hp.hp, SCALE);
    assert!(!hp.is_dead());
}

#[test]
fn hitbox_overlap_exact_boundary() {
    let a = Hitbox::new(655);
    let b = Hitbox::new(655);
    let at = |re: i64| Transform2D::new(Cpx { re, im: 0 }, Cpx { re: 6554, im: 6554 }, 0);
    // Summed radii squared is 26 in fixed point; distance squared is 15
    // at 1000 apart and 61 at 2000 apart.
    assert!(a.is_intersect(&at(0), &at(1000), &b));
    assert!(!a.is_intersect(&at(0), &at(2000), &b));
    assert!(a.near(&at(0), &at(2000), &b));
}

// The boss phase machine: past the first phase's timeout the exposed
// health budget is replaced whole by the next phase's, so damage taken
// against the first phase does not carry over.
#[test]
fn boss_phase_transition_resets_budget() {
    let mut rng = Lcg::new(3);
    let mut phases = BossMoves::new(vec![
        BossMove::new(
            131072,
            655360,
            AttackMove::Multiple(vec![]),
        ),
        BossMove::new(
            786432,
            655360,
            AttackMove::Multiple(vec![]),
        ),
    ]);
    let mut hp = Hitpoint::invulnerable();
    let boss_at = here();

    // One second in: the first phase re-arms the boss with its budget.
    phases.update(&mut hp, &boss_at, Some(player_below()), &mut rng, 65536);
    assert_eq!(hp, Hitpoint::new(655360));
    assert_eq!(phases.0.len(), 2);

    // The boss takes damage against the first phase's budget.
    hp.damage(131072);
    assert_eq!(hp.hp, 524288);

    // Past the timeout (2.01 seconds): the phase is popped and the second
    // phase's full budget is installed; the damage is gone.
    phases.update(&mut hp, &boss_at, Some(player_below()), &mut rng, 66191);
    assert_eq!(phases.0.len(), 1);
    assert_eq!(hp, Hitpoint::new(655360));
}

#[test]
fn boss_with_no_phase_left_goes_invulnerable() {
    let mut rng = Lcg::new(3);
    let mut phases = BossMoves::new(vec![BossMove::new(
        65536,
        655360,
        AttackMove::Multiple(vec![]),
    )]);
    let mut hp = Hitpoint::invulnerable();
    phases.update(&mut hp, &here(), None, &mut rng, 65536);
    assert_eq!(phases.0.len(), 0);
    assert_eq!(hp, Hitpoint::invulnerable());
    // An exhausted queue is a no-op.
    let bullets = phases.update(&mut hp, &here(), Some(player_below()), &mut rng, 65536);
    assert!(bullets.is_empty());
    assert_eq!(hp, Hitpoint::invulnerable());
}

// The first boss phase of the stage fires its burst and its ring
// together: twenty-one bullets on a ready tick.
#[test]
fn boss_phase_fires_burst_and_ring() {
    let mut rng = Lcg::new(11);
    let mut phases = BossMoves::new(vec![BossMove::new(
        131072,
        786432,
        AttackMove::Multiple(vec![
            AttackMove::AtPlayer {
                num: 5,
                speed: 32768,
                spread: 1310720,
                total_shoot: 2,
                cooldown: ready_cooldown(),
                setup: BulletSetup(Sprite::new_from_index(0, 1)),
            },
            AttackMove::Circle {
                sides: 16,
                rotation: 786432,
                rotation_per_fire: 393216,
                cooldown: ready_cooldown(),
                setup: BulletSetup(Sprite::new_from_index(0, 1)),
            },
        ]),
    )]);
    let mut hp = Hitpoint::invulnerable();
    let bullets = phases.update(&mut hp, &here(), Some(player_below()), &mut rng, 6554);
    assert_eq!(bullets.len(), 21);
    assert_eq!(hp, Hitpoint::new(786432), "the active phase exposes its budget");
}
