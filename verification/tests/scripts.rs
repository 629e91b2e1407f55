use mininvader::cpx::Cpx;
use mininvader::cpx::Rect;
use mininvader::cpx::Transform2D;
use mininvader::motion::MoveParams;
use mininvader::moves::Move;
use mininvader::moves::Movement;
use mininvader::moves::Moves;
use mininvader::moves::Wanderable;
use mininvader::rng::Lcg;
use mininvader::timer::Cooldown;
use mininvader::timer::Timer;

#[test]
fn timer_counts_and_completes() {
    let mut t = Timer::new(131072, false);
    assert!(!t.completed());
    t.update(65536);
    assert!(!t.completed());
    t.update(65536);
    assert!(t.completed());
    t.update(65536);
    assert!(t.completed());
    assert_eq!(t.elapsed, 196608);
}

#[test]
fn repeating_timer_wraps_each_period() {
    let mut t = Timer::new(65536, true);
    t.update(65536);
    assert!(t.completed());
    t.update(65536);
    // One duration was subtracted before adding the new delta.
    assert_eq!(t.elapsed, 65536);
    assert!(t.completed());
}

#[test]
fn cooldown_is_a_repeating_timer() {
    let c = Cooldown::new(6554);
    assert_eq!(c.0, Timer { duration: 6554, elapsed: 0, repeat: true });
}

#[test]
fn lcg_is_deterministic_and_in_range() {
    let mut a = Lcg::new(7);
    let mut b = Lcg::new(7);
    for _ in 0..32 {
        let x = a.unit_fx();
        assert_eq!(x, b.unit_fx());
        assert!(0 <= x && x < 65536);
    }
}

// A two-entry script: the first recipe is active while its time box
// lasts, the tick that ends the box pops it and hands the caller's state
// through, the second recipe then takes over, and an exhausted script is
// a frozen no-op.
#[test]
fn script_schedule_over_two_entries() {
    let first_vel = Cpx { re: 65536, im: 0 };
    let dampen_vel = Cpx { re: 0, im: 13107 };
    let mut moves = Moves::new(vec![
        Movement::new(131072, Move::MoveLinear(first_vel)),
        Movement::new(131072, Move::MoveDampen(dampen_vel, 39322)),
    ]);
    let caller = MoveParams::move_linear(Cpx { re: 111, im: 222 });
    let here = Transform2D::new(Cpx { re: 0, im: 0 }, Cpx { re: 6554, im: 6554 }, 0);
    let mut w: Option<Wanderable> = None;
    let mut rng = Lcg::new(1);

    // Tick one: inside the first box, the first recipe is active.
    let r1 = moves.update(&caller, &here, &mut w, &mut rng, 65536);
    assert_eq!(r1, MoveParams::move_linear(first_vel));
    assert_eq!(moves.0.len(), 2);

    // Tick two: the box ends; the entry is popped and the caller's state
    // passes through unchanged for this tick.
    let r2 = moves.update(&caller, &here, &mut w, &mut rng, 65536);
    assert_eq!(r2, caller);
    assert_eq!(moves.0.len(), 1);

    // Tick three: the second recipe is now the active one.
    let r3 = moves.update(&caller, &here, &mut w, &mut rng, 65536);
    assert_eq!(r3, MoveParams::move_dampen(dampen_vel, 39322));

    // Tick four: the second box ends too.
    let r4 = moves.update(&caller, &here, &mut w, &mut rng, 65536);
    assert_eq!(r4, caller);
    assert_eq!(moves.0.len(), 0);

    // Exhausted: every further update is an idempotent no-op.
    let r5 = moves.update(&caller, &here, &mut w, &mut rng, 65536);
    assert_eq!(r5, caller);
    let r6 = moves.update(&caller, &here, &mut w, &mut rng, 65536);
    assert_eq!(r6, caller);
    assert_eq!(moves.0.len(), 0);
}

// Wander: the first tick picks a target inside the zone and pauses; the
// target then stays put until the mover comes within the arrival
// distance; arrival clears it, and the next tick picks a fresh one.
#[test]
fn wander_target_lifecycle() {
    let zone = Rect::new(0, 0, 65536, 65536);
    let mut moves = Moves::new(vec![Movement::new(
        6553600,
        Move::MoveWanderLinear(zone, 13107, 65536),
    )]);
    let caller = MoveParams::move_linear(Cpx::zero());
    let far = Transform2D::new(Cpx { re: -655360, im: -655360 }, Cpx { re: 6554, im: 6554 }, 0);
    let mut w: Option<Wanderable> = Some(Wanderable::new(far.position));
    let mut rng = Lcg::new(42);

    // Tick one: a target is chosen inside the zone; the mover pauses.
    let r1 = moves.update(&caller, &far, &mut w, &mut rng, 655);
    assert_eq!(r1, MoveParams::move_linear(Cpx::zero()));
    let t1 = w.as_ref().unwrap().target_position.expect("a target should be chosen");
    assert!(0 <= t1.re && t1.re <= 65536, "target {t1:?} left the zone");
    assert!(0 <= t1.im && t1.im <= 65536, "target {t1:?} left the zone");

    // Tick two, still far away: the target does not move.
    moves.update(&caller, &far, &mut w, &mut rng, 655);
    assert_eq!(w.as_ref().unwrap().target_position, Some(t1));

    // Standing on the target: this tick still heads toward it, but the
    // target is cleared for the next cycle.
    let at_target = Transform2D::new(t1, Cpx { re: 6554, im: 6554 }, 0);
    let r3 = moves.update(&caller, &at_target, &mut w, &mut rng, 655);
    assert_eq!(r3.attraction_point, t1);
    assert!(w.as_ref().unwrap().target_position.is_none());

    // Next tick: a fresh target, again inside the zone.
    moves.update(&caller, &far, &mut w, &mut rng, 655);
    let t2 = w.as_ref().unwrap().target_position.expect("a new target should be chosen");
    assert!(0 <= t2.re && t2.re <= 65536);
    assert!(0 <= t2.im && t2.im <= 65536);
}
