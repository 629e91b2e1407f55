//! Kinematic and combat-pattern core of a frame-stepped arcade shooter.
//!
//! All quantities (positions, velocities, durations, angles, health) are
//! fixed-point numbers: an `i64` counts units of `1 / SCALE`, and every
//! arithmetic step saturates at `±LIM` so that no operation can overflow.
//! The library covers the per-frame integrator, time-sliced movement
//! scripts, the recursive attack-pattern tree, the boss phase machine,
//! the spawn timeline, the collision resolver and the off-screen
//! lifecycle, all over a small typed entity store.

pub mod collide;
pub mod cpx;
pub mod entities;
pub mod fx;
pub mod motion;
pub mod attack;
pub mod boss;
pub mod game;
pub mod health;
pub mod moves;
pub mod rng;
pub mod spawner;
pub mod systems;
pub mod timer;
pub mod trig;
pub mod world;
