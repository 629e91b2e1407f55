//! The recursive attack-pattern tree: cooldown-gated projectile emission,
//! aimed volleys with a shots budget, sweeping rings, and recursive
//! combination.  Firing returns the bullets to spawn as plain records.

use vstd::prelude::*;

use crate::cpx::Cpx;
use crate::cpx::Transform2D;
use crate::cpx::cis_s;
use crate::cpx::cpx_add_s;
use crate::cpx::cpx_scale_s;
use crate::fx::fx_add;
use crate::fx::fx_add_s;
use crate::fx::fx_mul;
use crate::fx::fx_mul_s;
use crate::fx::fx_mul_int;
use crate::fx::fx_mul_int_s;
use crate::fx::fx_sub_s;
use crate::fx::SCALE;
use crate::motion::MoveParams;
use crate::motion::towards_s;
use crate::rng::Lcg;
use crate::rng::lcg_next_s;
use crate::rng::lcg_unit_s;
use crate::timer::Cooldown;
use crate::timer::Timer;
use crate::timer::timer_completed_s;
use crate::timer::timer_update_s;
use crate::trig::TAU_FX;
use crate::trig::atan2_fx;
use crate::trig::atan2_s;

verus! {

/// Render scale of a spawned bullet (0.05 in fixed point).
pub const BULLET_SCALE: i64 = 3277;

/// Magnitude of the random per-bullet velocity jitter (0.005 in fixed point).
pub const BULLET_JITTER: i64 = 328;

/// Hitbox radius of a spawned bullet (0.01 in fixed point).
pub const BULLET_HITBOX_RADIUS: i64 = 655;

/// A reference into the sprite atlas, in pixels.
#[derive(Clone, Copy, Debug, PartialEq, Eq, Structural)]
pub struct Sprite {
    pub x: i64,
    pub y: i64,
    pub w: i64,
    pub h: i64,
}

/// Width of one atlas cell, in pixels.
pub const SPRITE_CELL_WIDTH: u32 = 16;

/// Height of one atlas cell, in pixels.
pub const SPRITE_CELL_HEIGHT: u32 = 16;

impl Sprite {
    /// A sprite rectangle from pixel coordinates.
    pub fn new(x: i64, y: i64, width: i64, height: i64) -> (r: Sprite)
        ensures
            r == (Sprite { x, y, w: width, h: height }),
    {
        Sprite { x, y, w: width, h: height }
    }

    /// The atlas cell at column `x`, row `y`.
    pub fn new_from_index(x: u32, y: u32) -> (r: Sprite)
        ensures
            r == (Sprite {
                x: (x as int * SPRITE_CELL_WIDTH as int) as i64,
                y: (y as int * SPRITE_CELL_HEIGHT as int) as i64,
                w: SPRITE_CELL_WIDTH as i64,
                h: SPRITE_CELL_HEIGHT as i64,
            }),
    {
        Sprite {
            x: x as i64 * 16,
            y: y as i64 * 16,
            w: 16,
            h: 16,
        }
    }
}

/// How the bullets of an attack look.
#[derive(Clone, Copy, Debug, PartialEq, Eq, Structural)]
pub struct BulletSetup(pub Sprite);

/// One bullet to spawn: where, how it moves, how it looks, how big it hits.
#[derive(Clone, Copy, Debug, PartialEq, Eq, Structural)]
pub struct BulletSpawn {
    pub transform: Transform2D,
    pub move_params: MoveParams,
    pub sprite: Sprite,
    pub hitbox_radius: i64,
}

/// A recursive attack pattern.  Cooldowns live on the leaves; `Multiple`
/// combines sub-patterns evaluated together.
#[derive(Debug)]
pub enum AttackMove {
    /// Aim `num` bullets at the player, fanned by `spread` around the aim,
    /// at most `total_shoot` firings in all.
    AtPlayer {
        num: u16,
        speed: i64,
        spread: i64,
        total_shoot: u16,
        cooldown: Cooldown,
        setup: BulletSetup,
    },
    /// A ring of `sides` bullets, swept by `rotation_per_fire` each firing;
    /// fires whenever its cooldown completes, with no budget.
    Circle {
        sides: u16,
        rotation_per_fire: i64,
        rotation: i64,
        cooldown: Cooldown,
        setup: BulletSetup,
    },
    /// All of the given patterns at once.
    Multiple(Vec<AttackMove>),
}

/// The attack-pattern tree as specifications see it.
pub ghost enum AttackView {
    AtPlayer {
        num: u16,
        speed: i64,
        spread: i64,
        total_shoot: u16,
        cooldown: Timer,
        sprite: Sprite,
    },
    Circle { sides: u16, rotation_per_fire: i64, rotation: i64, cooldown: Timer, sprite: Sprite },
    Multiple(Seq<AttackView>),
}

/// The view of an attack-pattern tree.
pub open spec fn attack_view(a: AttackMove) -> AttackView
    decreases a,
{
    match a {
        AttackMove::AtPlayer { num, speed, spread, total_shoot, cooldown, setup } => {
            AttackView::AtPlayer { num, speed, spread, total_shoot, cooldown: cooldown.0, sprite: setup.0 }
        },
        AttackMove::Circle { sides, rotation_per_fire, rotation, cooldown, setup } => {
            AttackView::Circle { sides, rotation_per_fire, rotation, cooldown: cooldown.0, sprite: setup.0 }
        },
        AttackMove::Multiple(list) => AttackView::Multiple(attack_views(list@)),
    }
}

/// The views of a list of attack-pattern trees.
pub open spec fn attack_views(s: Seq<AttackMove>) -> Seq<AttackView>
    decreases s,
{
    if s.len() == 0 {
        Seq::empty()
    } else {
        seq![attack_view(s[0])] + attack_views(s.drop_first())
    }
}

/// One bullet heading in the direction of the angle `ang` with speed
/// `speed` and a small jitter in the direction of the angle `jang`,
/// facing its direction of travel.
pub open spec fn bullet_s(pos: Cpx, ang: int, speed: int, jang: int, jitter: int, sprite: Sprite) -> BulletSpawn {
    let vel = cpx_add_s(cpx_scale_s(cis_s(ang), speed), cpx_scale_s(cis_s(jang), jitter));
    BulletSpawn {
        transform: Transform2D {
            position: pos,
            scale: Cpx { re: BULLET_SCALE, im: BULLET_SCALE },
            rotation: atan2_s(vel.im as int, vel.re as int) as i64,
        },
        move_params: towards_s(vel, Cpx { re: 0, im: 0 }, Cpx { re: 0, im: 0 }, SCALE),
        sprite,
        hitbox_radius: BULLET_HITBOX_RADIUS,
    }
}

/// The bullets of an aimed volley, `k` of them still to emit out of `num`,
/// and the random state left behind: bullet `i` is fanned `(i - 1) *
/// spread` around the aim angle `base` and jittered by one random draw.
pub open spec fn volley_s(
    pos: Cpx,
    base: int,
    spread: int,
    speed: int,
    sprite: Sprite,
    state: u64,
    k: nat,
    num: int,
) -> (Seq<BulletSpawn>, u64)
    decreases k,
{
    if k == 0 {
        (Seq::empty(), state)
    } else {
        let i = num - k;
        let s1 = lcg_next_s(state);
        let jang = fx_mul_s(lcg_unit_s(s1), TAU_FX as int);
        let ang = fx_add_s(base, fx_mul_int_s(i - 1, spread));
        let b = bullet_s(pos, ang, speed, jang, BULLET_JITTER as int, sprite);
        let rest = volley_s(pos, base, spread, speed, sprite, s1, (k - 1) as nat, num);
        (seq![b] + rest.0, rest.1)
    }
}

/// The bullets of a ring, `k` of them still to emit out of `sides`:
/// bullet for side `i` heads along `rotation + i * TAU_FX / sides`, at
/// unit speed, with no jitter.
pub open spec fn ring_s(pos: Cpx, rotation: int, sides: int, sprite: Sprite, k: nat) -> Seq<
    BulletSpawn,
>
    decreases k,
{
    if k == 0 {
        Seq::empty()
    } else {
        let i = sides - k;
        let ang = fx_add_s(rotation, (i * TAU_FX) / sides);
        let b = bullet_s(pos, ang, SCALE as int, 0, 0, sprite);
        seq![b] + ring_s(pos, rotation, sides, sprite, (k - 1) as nat)
    }
}

/// The angle from the emitter to the player: where an aimed volley points.
pub open spec fn aim_s(tpos: Cpx, ppos: Cpx) -> int {
    atan2_s(fx_sub_s(ppos.im as int, tpos.im as int), fx_sub_s(ppos.re as int, tpos.re as int))
}

/// What one firing pass does to an attack-pattern tree: the bullets
/// emitted, the tree afterwards, and the random state left behind.  A leaf
/// fires only when its cooldown has completed; an aimed leaf also needs
/// shots left in its budget, which firing decrements; a ring leaf advances
/// its rotation by `rotation_per_fire` when it fires.  Cooldowns are not
/// advanced here.
pub open spec fn fire_s(a: AttackView, tpos: Cpx, ppos: Cpx, state: u64) -> (
    Seq<BulletSpawn>,
    AttackView,
    u64,
)
    decreases a,
{
    match a {
        AttackView::AtPlayer { num, speed, spread, total_shoot, cooldown, sprite } => {
            if timer_completed_s(cooldown) && total_shoot > 0 {
                let base = aim_s(tpos, ppos);
                let a2 = AttackView::AtPlayer {
                    num,
                    speed,
                    spread,
                    total_shoot: (total_shoot - 1) as u16,
                    cooldown,
                    sprite,
                };
                if num > 1 {
                    let v = volley_s(
                        tpos,
                        base,
                        spread as int,
                        speed as int,
                        sprite,
                        state,
                        num as nat,
                        num as int,
                    );
                    (v.0, a2, v.1)
                } else {
                    let vel = cpx_scale_s(cis_s(base), speed as int);
                    (seq![bullet_s(tpos, base, speed as int, 0, 0, sprite)], a2, state)
                }
            } else {
                (Seq::empty(), a, state)
            }
        },
        AttackView::Circle { sides, rotation_per_fire, rotation, cooldown, sprite } => {
            if timer_completed_s(cooldown) {
                let a2 = AttackView::Circle {
                    sides,
                    rotation_per_fire,
                    rotation: fx_add_s(rotation as int, rotation_per_fire as int) as i64,
                    cooldown,
                    sprite,
                };
                (ring_s(tpos, rotation as int, sides as int, sprite, sides as nat), a2, state)
            } else {
                (Seq::empty(), a, state)
            }
        },
        AttackView::Multiple(list) => {
            let m = fire_multi_s(list, tpos, ppos, state);
            (m.0, AttackView::Multiple(m.1), m.2)
        },
    }
}

/// One firing pass over a list of sub-patterns, in order, threading the
/// random state through.
pub open spec fn fire_multi_s(list: Seq<AttackView>, tpos: Cpx, ppos: Cpx, state: u64) -> (
    Seq<BulletSpawn>,
    Seq<AttackView>,
    u64,
)
    decreases list,
{
    if list.len() == 0 {
        (Seq::empty(), list, state)
    } else {
        let h = fire_s(list[0], tpos, ppos, state);
        let rest = fire_multi_s(list.drop_first(), tpos, ppos, h.2);
        (h.0 + rest.0, seq![h.1] + rest.1, rest.2)
    }
}

/// What one cooldown tick does to a tree: every leaf's cooldown advanced
/// by `delta`, exactly once, whatever the nesting.
pub open spec fn cooldowns_ticked_s(a: AttackView, delta: int) -> AttackView
    decreases a,
{
    match a {
        AttackView::AtPlayer { num, speed, spread, total_shoot, cooldown, sprite } => {
            AttackView::AtPlayer {
                num,
                speed,
                spread,
                total_shoot,
                cooldown: timer_update_s(cooldown, delta),
                sprite,
            }
        },
        AttackView::Circle { sides, rotation_per_fire, rotation, cooldown, sprite } => {
            AttackView::Circle {
                sides,
                rotation_per_fire,
                rotation,
                cooldown: timer_update_s(cooldown, delta),
                sprite,
            }
        },
        AttackView::Multiple(list) => AttackView::Multiple(cooldowns_ticked_multi_s(list, delta)),
    }
}

/// One cooldown tick over a list of sub-patterns.
pub open spec fn cooldowns_ticked_multi_s(list: Seq<AttackView>, delta: int) -> Seq<AttackView>
    decreases list,
{
    if list.len() == 0 {
        list
    } else {
        seq![cooldowns_ticked_s(list[0], delta)] + cooldowns_ticked_multi_s(list.drop_first(), delta)
    }
}

/// A volley emits exactly as many bullets as it has left to emit.
pub proof fn lemma_volley_len(
    pos: Cpx,
    base: int,
    spread: int,
    speed: int,
    sprite: Sprite,
    state: u64,
    k: nat,
    num: int,
)
    ensures
        volley_s(pos, base, spread, speed, sprite, state, k, num).0.len() == k,
    decreases k,
{
    if k > 0 {
        lemma_volley_len(pos, base, spread, speed, sprite, lcg_next_s(state), (k - 1) as nat, num);
    }
}

/// The shots budget gates an aimed leaf exactly: with its cooldown
/// complete, a leaf with shots left fires its full `num` bullets and its
/// budget drops by one; a leaf whose budget is exhausted fires nothing,
/// decrements nothing, and leaves the random state untouched.
pub proof fn lemma_at_player_budget(
    num: u16,
    speed: i64,
    spread: i64,
    total_shoot: u16,
    cooldown: Timer,
    sprite: Sprite,
    tpos: Cpx,
    ppos: Cpx,
    state: u64,
)
    requires
        timer_completed_s(cooldown),
    ensures
        ({
            let a = AttackView::AtPlayer { num, speed, spread, total_shoot, cooldown, sprite };
            let f = fire_s(a, tpos, ppos, state);
            &&& total_shoot > 0 && num > 1 ==> f.0.len() == num
            &&& total_shoot > 0 && num <= 1 ==> f.0.len() == 1
            &&& total_shoot > 0 ==> f.1 == AttackView::AtPlayer {
                num,
                speed,
                spread,
                total_shoot: (total_shoot - 1) as u16,
                cooldown,
                sprite,
            }
            &&& total_shoot == 0 ==> f.0.len() == 0 && f.1 == a && f.2 == state
        }),
{
    if total_shoot > 0 && num > 1 {
        lemma_volley_len(
            tpos,
            aim_s(tpos, ppos),
            spread as int,
            speed as int,
            sprite,
            state,
            num as nat,
            num as int,
        );
    }
}

/// A ring emits one bullet per remaining side, and bullet `j` of the
/// remainder heads along `rotation + (sides - k + j) * TAU_FX / sides`.
pub proof fn lemma_ring_directions(pos: Cpx, rotation: int, sides: int, sprite: Sprite, k: nat)
    requires
        k <= sides,
    ensures
        ring_s(pos, rotation, sides, sprite, k).len() == k,
        forall|j: int|
            0 <= j < k ==> ring_s(pos, rotation, sides, sprite, k)[j] == bullet_s(
                pos,
                fx_add_s(rotation, ((sides - k + j) * TAU_FX) / sides),
                SCALE as int,
                0,
                0,
                sprite,
            ),
    decreases k,
{
    if k > 0 {
        lemma_ring_directions(pos, rotation, sides, sprite, (k - 1) as nat);
    }
}

/// A ring leaf whose cooldown is complete fires exactly `sides` bullets
/// whose directions are spaced one `sides`-th of a turn apart, offset by
/// the accumulated rotation, and sweeps its rotation by
/// `rotation_per_fire`; one whose cooldown is not complete fires nothing.
pub proof fn lemma_circle_fire(
    sides: u16,
    rotation_per_fire: i64,
    rotation: i64,
    cooldown: Timer,
    sprite: Sprite,
    tpos: Cpx,
    ppos: Cpx,
    state: u64,
)
    ensures
        ({
            let a = AttackView::Circle { sides, rotation_per_fire, rotation, cooldown, sprite };
            let f = fire_s(a, tpos, ppos, state);
            &&& timer_completed_s(cooldown) ==> f.0.len() == sides
            &&& timer_completed_s(cooldown) ==> forall|i: int|
                0 <= i < sides ==> f.0[i] == bullet_s(
                    tpos,
                    fx_add_s(rotation as int, (i * TAU_FX) / (sides as int)),
                    SCALE as int,
                    0,
                    0,
                    sprite,
                )
            &&& timer_completed_s(cooldown) ==> f.1 == AttackView::Circle {
                sides,
                rotation_per_fire,
                rotation: fx_add_s(rotation as int, rotation_per_fire as int) as i64,
                cooldown,
                sprite,
            }
            &&& !timer_completed_s(cooldown) ==> f.0.len() == 0 && f.1 == a && f.2 == state
        }),
{
    if timer_completed_s(cooldown) {
        lemma_ring_directions(tpos, rotation as int, sides as int, sprite, sides as nat);
    }
}

/// Emits one bullet heading in the direction of `ang` at `speed`, jittered
/// in the direction of `jang` by `jitter`, facing its direction of travel.
fn make_bullet(pos: Cpx, ang: i64, speed: i64, jang: i64, jitter: i64, sprite: Sprite) -> (r:
    BulletSpawn)
    ensures
        r == bullet_s(pos, ang as int, speed as int, jang as int, jitter as int, sprite),
{
    let vel: Cpx = Cpx::cis(ang).scale(speed).add(Cpx::cis(jang).scale(jitter));
    let rot: i64 = atan2_fx(vel.im, vel.re);
    BulletSpawn {
        transform: Transform2D {
            position: pos,
            scale: Cpx { re: BULLET_SCALE, im: BULLET_SCALE },
            rotation: rot,
        },
        move_params: MoveParams::move_linear(vel),
        sprite,
        hitbox_radius: BULLET_HITBOX_RADIUS,
    }
}

impl AttackMove {
    /// One firing pass: returns the bullets the pattern owes this tick and
    /// the pattern as firing leaves it.  Cooldowns are not advanced here.
    pub fn fire(self, transform: &Transform2D, player: &Transform2D, rng: &mut Lcg) -> (r: (
        Vec<BulletSpawn>,
        AttackMove,
    ))
        ensures
            (r.0@, attack_view(r.1), final(rng).state) == fire_s(
                attack_view(self),
                transform.position,
                player.position,
                old(rng).state,
            ),
        decreases self,
    {
        match self {
            AttackMove::AtPlayer { num, speed, spread, total_shoot, cooldown, setup } => {
                let mut out: Vec<BulletSpawn> = Vec::new();
                if cooldown.0.completed() && total_shoot > 0 {
                    let base: i64 = transform.position.angle_to(player.position);
                    if num > 1 {
                        let ghost v = volley_s(
                            transform.position,
                            base as int,
                            spread as int,
                            speed as int,
                            setup.0,
                            rng.state,
                            num as nat,
                            num as int,
                        );
                        let mut i: u16 = 0;
                        while i < num
                            invariant
                                i <= num,
                                v.0 =~= out@ + volley_s(
                                    transform.position,
                                    base as int,
                                    spread as int,
                                    speed as int,
                                    setup.0,
                                    rng.state,
                                    (num - i) as nat,
                                    num as int,
                                ).0,
                                v.1 == volley_s(
                                    transform.position,
                                    base as int,
                                    spread as int,
                                    speed as int,
                                    setup.0,
                                    rng.state,
                                    (num - i) as nat,
                                    num as int,
                                ).1,
                                out@.len() == i as int,
                            decreases num - i,
                        {
                            let ghost pre = volley_s(
                                transform.position,
                                base as int,
                                spread as int,
                                speed as int,
                                setup.0,
                                rng.state,
                                (num - i) as nat,
                                num as int,
                            );
                            let draw: i64 = rng.unit_fx();
                            let jang: i64 = fx_mul(draw, TAU_FX);
                            let ang: i64 = fx_add(base, fx_mul_int(i as i64 - 1, spread));
                            let b: BulletSpawn = make_bullet(
                                transform.position,
                                ang,
                                speed,
                                jang,
                                BULLET_JITTER,
                                setup.0,
                            );
                            out.push(b);
                            i = i + 1;
                            proof {
                                assert(pre.0 =~= seq![b] + volley_s(
                                    transform.position,
                                    base as int,
                                    spread as int,
                                    speed as int,
                                    setup.0,
                                    rng.state,
                                    (num - i) as nat,
                                    num as int,
                                ).0);
                                assert(v.0 =~= out@ + volley_s(
                                    transform.position,
                                    base as int,
                                    spread as int,
                                    speed as int,
                                    setup.0,
                                    rng.state,
                                    (num - i) as nat,
                                    num as int,
                                ).0);
                            }
                        }
                        proof {
                            assert(v.0 =~= out@);
                        }
                        (
                            out,
                            AttackMove::AtPlayer {
                                num,
                                speed,
                                spread,
                                total_shoot: total_shoot - 1,
                                cooldown,
                                setup,
                            },
                        )
                    } else {
                        let b: BulletSpawn = make_bullet(
                            transform.position,
                            base,
                            speed,
                            0,
                            0,
                            setup.0,
                        );
                        out.push(b);
                        proof {
                            assert(out@ =~= seq![b]);
                        }
                        (
                            out,
                            AttackMove::AtPlayer {
                                num,
                                speed,
                                spread,
                                total_shoot: total_shoot - 1,
                                cooldown,
                                setup,
                            },
                        )
                    }
                } else {
                    proof {
                        assert(out@ =~= Seq::<BulletSpawn>::empty());
                    }
                    (out, AttackMove::AtPlayer { num, speed, spread, total_shoot, cooldown, setup })
                }
            },
            AttackMove::Circle { sides, rotation_per_fire, rotation, cooldown, setup } => {
                let mut out: Vec<BulletSpawn> = Vec::new();
                if cooldown.0.completed() {
                    let ghost rv = ring_s(
                        transform.position,
                        rotation as int,
                        sides as int,
                        setup.0,
                        sides as nat,
                    );
                    let mut i: u16 = 0;
                    while i < sides
                        invariant
                            i <= sides,
                            rv =~= out@ + ring_s(
                                transform.position,
                                rotation as int,
                                sides as int,
                                setup.0,
                                (sides - i) as nat,
                            ),
                            out@.len() == i as int,
                        decreases sides - i,
                    {
                        let ghost pre = ring_s(
                            transform.position,
                            rotation as int,
                            sides as int,
                            setup.0,
                            (sides - i) as nat,
                        );
                        let off: i64 = (((i as u64) * 411774) / (sides as u64)) as i64;
                        let ang: i64 = fx_add(rotation, off);
                        let b: BulletSpawn = make_bullet(transform.position, ang, SCALE, 0, 0, setup.0);
                        out.push(b);
                        i = i + 1;
                        proof {
                            assert(pre =~= seq![b] + ring_s(
                                transform.position,
                                rotation as int,
                                sides as int,
                                setup.0,
                                (sides - i) as nat,
                            ));
                            assert(rv =~= out@ + ring_s(
                                transform.position,
                                rotation as int,
                                sides as int,
                                setup.0,
                                (sides - i) as nat,
                            ));
                        }
                    }
                    proof {
                        assert(rv =~= out@);
                    }
                    (
                        out,
                        AttackMove::Circle {
                            sides,
                            rotation_per_fire,
                            rotation: fx_add(rotation, rotation_per_fire),
                            cooldown,
                            setup,
                        },
                    )
                } else {
                    proof {
                        assert(out@ =~= Seq::<BulletSpawn>::empty());
                    }
                    (out, AttackMove::Circle { sides, rotation_per_fire, rotation, cooldown, setup })
                }
            },
            AttackMove::Multiple(list) => {
                let (bullets, updated) = fire_multi(list, transform, player, rng);
                (bullets, AttackMove::Multiple(updated))
            },
        }
    }

    /// Advances every leaf's cooldown by the frame delta, exactly once per
    /// leaf, whatever the nesting.
    pub fn update_cooldown(self, delta: i64) -> (r: AttackMove)
        ensures
            attack_view(r) == cooldowns_ticked_s(attack_view(self), delta as int),
        decreases self,
    {
        match self {
            AttackMove::AtPlayer { num, speed, spread, total_shoot, mut cooldown, setup } => {
                cooldown.0.update(delta);
                AttackMove::AtPlayer { num, speed, spread, total_shoot, cooldown, setup }
            },
            AttackMove::Circle { sides, rotation_per_fire, rotation, mut cooldown, setup } => {
                cooldown.0.update(delta);
                AttackMove::Circle { sides, rotation_per_fire, rotation, cooldown, setup }
            },
            AttackMove::Multiple(list) => AttackMove::Multiple(update_cooldown_multi(list, delta)),
        }
    }
}

/// One firing pass over a list of sub-patterns, in order.
fn fire_multi(list: Vec<AttackMove>, transform: &Transform2D, player: &Transform2D, rng: &mut Lcg)
    -> (r: (Vec<BulletSpawn>, Vec<AttackMove>))
    ensures
        (r.0@, attack_views(r.1@), final(rng).state) == fire_multi_s(
            attack_views(list@),
            transform.position,
            player.position,
            old(rng).state,
        ),
    decreases list@,
{
    let mut list = list;
    if list.len() == 0 {
        proof {
            assert(attack_views(list@) =~= Seq::<AttackView>::empty());
            assert(attack_views(Seq::<AttackMove>::empty()) =~= Seq::<AttackView>::empty());
        }
        (Vec::new(), Vec::new())
    } else {
        let ghost orig = list@;
        let head: AttackMove = list.remove(0);
        let (mut bullets, h2) = head.fire(transform, player, rng);
        let (tail_bullets, mut rest) = fire_multi(list, transform, player, rng);
        proof {
            assert(attack_views(orig).drop_first() =~= attack_views(orig.drop_first()));
            assert(attack_views(orig)[0] == attack_view(orig[0]));
        }
        let mut tail_bullets = tail_bullets;
        let ghost tail = rest@;
        bullets.append(&mut tail_bullets);
        rest.insert(0, h2);
        proof {
            assert(rest@.drop_first() =~= tail);
            assert(attack_views(rest@) =~= seq![attack_view(h2)] + attack_views(tail));
        }
        (bullets, rest)
    }
}

/// One cooldown tick over a list of sub-patterns.
fn update_cooldown_multi(list: Vec<AttackMove>, delta: i64) -> (r: Vec<AttackMove>)
    ensures
        attack_views(r@) == cooldowns_ticked_multi_s(attack_views(list@), delta as int),
    decreases list@,
{
    let mut list = list;
    if list.len() == 0 {
        proof {
            assert(attack_views(list@) =~= Seq::<AttackView>::empty());
            assert(attack_views(Seq::<AttackMove>::empty()) =~= Seq::<AttackView>::empty());
        }
        Vec::new()
    } else {
        let ghost orig = list@;
        let head: AttackMove = list.remove(0);
        let h2: AttackMove = head.update_cooldown(delta);
        let mut rest: Vec<AttackMove> = update_cooldown_multi(list, delta);
        proof {
            assert(attack_views(orig).drop_first() =~= attack_views(orig.drop_first()));
        }
        let ghost tail = rest@;
        rest.insert(0, h2);
        proof {
            assert(rest@.drop_first() =~= tail);
            assert(attack_views(rest@) =~= seq![attack_view(h2)] + attack_views(tail));
        }
        rest
    }
}

} // verus!
