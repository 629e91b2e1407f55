use mininvader::cpx::Cpx;
use mininvader::cpx::Rect;
use mininvader::cpx::Transform2D;
use mininvader::fx::LIM;
use mininvader::fx::fx_add;
use mininvader::fx::fx_div;
use mininvader::fx::fx_mul;
use mininvader::fx::fx_mul_int;
use mininvader::fx::fx_sub;
use mininvader::motion::MoveParams;
use mininvader::trig::atan2_fx;
use mininvader::trig::cos_fx;
use mininvader::trig::HALF_PI_FX;
use mininvader::trig::PI_FX;
use mininvader::trig::isqrt;
use mininvader::trig::pow_fx;
use mininvader::trig::sin_fx;
use mininvader::trig::sqrt_fx;

#[test]
fn fixed_point_arithmetic_exact() {
    assert_eq!(fx_add(65536, 32768), 98304);
    assert_eq!(fx_sub(32768, 65536), -32768);
    assert_eq!(fx_mul(131072, 98304), 196608);
    assert_eq!(fx_mul(-131072, 98304), -196608);
    assert_eq!(fx_mul(6554, 6554), 655);
    assert_eq!(fx_div(65536, 131072), 32768);
    assert_eq!(fx_div(196608, -65536), -196608);
    assert_eq!(fx_mul_int(3, 13107), 39321);
}

#[test]
fn fixed_point_saturates_at_limit() {
    assert_eq!(fx_add(LIM, 1), LIM);
    assert_eq!(fx_sub(-LIM, 5), -LIM);
    assert_eq!(fx_mul(LIM, LIM), LIM);
    assert_eq!(fx_mul(-LIM, LIM), -LIM);
}

#[test]
fn roots_and_powers_exact() {
    assert_eq!(isqrt(16), 4);
    assert_eq!(isqrt(15), 3);
    assert_eq!(isqrt(0), 0);
    assert_eq!(sqrt_fx(262144), 131072);
    assert_eq!(sqrt_fx(65536), 65536);
    assert_eq!(pow_fx(131072, 65536), 131072);
    assert_eq!(pow_fx(262144, 32768), 131072);
    assert_eq!(pow_fx(131072, -65536), 32768);
}

#[test]
fn circular_functions_behave() {
    assert_eq!(sin_fx(0), 0);
    let peak = sin_fx(HALF_PI_FX);
    assert!(peak >= 65000 && peak <= 65536, "sine peak was {peak}");
    assert_eq!(cos_fx(0), peak);
    assert_eq!(atan2_fx(0, 65536), 0);
    assert_eq!(atan2_fx(65536, 0), HALF_PI_FX);
    assert_eq!(atan2_fx(0, -65536), PI_FX);
}

#[test]
fn rect_contains_is_inclusive() {
    let r = Rect::new(0, 0, 65536, 65536);
    assert!(r.contains(Cpx { re: 0, im: 0 }));
    assert!(r.contains(Cpx { re: 65536, im: 65536 }));
    assert!(!r.contains(Cpx { re: 65537, im: 0 }));
    assert!(!r.contains(Cpx { re: 0, im: -1 }));
}

// Repeated updates with a zero attraction coefficient follow the same
// trajectory whatever the attraction point and exponent say.
#[test]
fn zero_attraction_ignores_attraction_fields() {
    let vel = Cpx { re: 3277, im: -6554 };
    let mut p = MoveParams::move_towards_exp(vel, Cpx { re: 999, im: 123 }, Cpx::zero(), 6554);
    let mut q = MoveParams::move_towards_exp(
        vel,
        Cpx { re: -4444, im: 70000 },
        Cpx::zero(),
        131072,
    );
    let mut pos_p = Cpx { re: 32768, im: 32768 };
    let mut pos_q = Cpx { re: 32768, im: 32768 };
    for _ in 0..10 {
        p.update(&mut pos_p, 1638);
        q.update(&mut pos_q, 1638);
        assert_eq!(pos_p, pos_q);
        assert_eq!(p.velocity, q.velocity);
    }
}

// Linear motion accumulates exactly: N updates advance the position by
// N times the per-tick step, and the velocity never changes.
#[test]
fn linear_motion_accumulates() {
    let mut p = MoveParams::move_linear(Cpx { re: 6554, im: 0 });
    let mut pos = Cpx { re: 0, im: 0 };
    for _ in 0..10 {
        let before = p.velocity;
        p.update(&mut pos, 6554);
        assert_eq!(p.velocity, before);
    }
    assert_eq!(pos, Cpx { re: 6550, im: 0 });
}

#[test]
fn attraction_pulls_toward_point() {
    // A mover left of the attraction point with unit exponent is pushed
    // to the right.
    let mut p = MoveParams::move_towards(
        Cpx::zero(),
        Cpx { re: 65536, im: 0 },
        Cpx { re: 65536, im: 0 },
    );
    let mut pos = Cpx { re: 0, im: 0 };
    p.update(&mut pos, 65536);
    assert!(p.velocity.re > 0, "velocity was {:?}", p.velocity);
}

#[test]
fn transform_getters_return_fields() {
    let t = Transform2D::new(Cpx { re: 5, im: 6 }, Cpx { re: 7, im: 8 }, 9);
    assert_eq!(t.position(), Cpx { re: 5, im: 6 });
    assert_eq!(t.scale(), Cpx { re: 7, im: 8 });
    assert_eq!(t.rotation(), 9);
}

#[test]
fn cpx_complex_product() {
    // i * i == -1 in fixed point.
    let i_unit = Cpx { re: 0, im: 65536 };
    assert_eq!(i_unit.cmul(i_unit), Cpx { re: -65536, im: 0 });
    // Multiplying by one is the identity on representable values.
    let one = Cpx { re: 65536, im: 0 };
    let z = Cpx { re: 1234, im: -5678 };
    assert_eq!(z.cmul(one), z);
}

#[test]
fn sine_has_a_full_turn_period() {
    for a in [0i64, 1000, 51472, -99999, 205887] {
        assert_eq!(sin_fx(a + 411774), sin_fx(a));
        assert_eq!(cos_fx(a + 411774), cos_fx(a));
    }
}

#[test]
fn asymptotic_halflife_formula() {
    // A halflife of one gives a damping factor of exactly one half.
    let r = MoveParams::move_asymptotic_halflife(
        Cpx { re: 65536, im: 0 },
        Cpx { re: 0, im: 0 },
        65536,
    );
    assert_eq!(r.retention, 32768);
    assert_eq!(r.velocity, Cpx { re: 65536, im: 0 });
}

#[test]
fn asymptotic_simple_boost() {
    // A full boost starts at twice the goal velocity, damped at 0.8.
    let r = MoveParams::move_asymptotic_simple(Cpx { re: 32768, im: 0 }, 65536);
    assert_eq!(r.velocity, Cpx { re: 65536, im: 0 });
    assert_eq!(r.retention, 52429);
}

#[test]
fn power_law_attraction_pulls() {
    // A non-unit exponent still pulls toward the point, short-circuiting
    // only when the mover sits exactly on it.
    let mut p = MoveParams::move_towards_exp(
        Cpx::zero(),
        Cpx { re: 131072, im: 0 },
        Cpx { re: 65536, im: 0 },
        131072,
    );
    let mut pos = Cpx { re: 0, im: 0 };
    p.update(&mut pos, 65536);
    assert!(p.velocity.re > 0, "velocity was {:?}", p.velocity);

    let mut q = MoveParams::move_towards_exp(
        Cpx::zero(),
        Cpx { re: 0, im: 0 },
        Cpx { re: 65536, im: 0 },
        131072,
    );
    let mut at_point = Cpx { re: 0, im: 0 };
    q.update(&mut at_point, 65536);
    assert_eq!(q.velocity, Cpx::zero(), "on the point there is no pull");
}
