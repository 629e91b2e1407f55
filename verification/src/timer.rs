//! Countdown timers: the scheduling primitive behind cooldowns, movement
//! scripts and boss phase timeouts.

use vstd::prelude::*;

use crate::fx::fx_add;
use crate::fx::fx_add_s;
use crate::fx::fx_sub;
use crate::fx::fx_sub_s;
use crate::fx::in_lim;

verus! {

/// A monotonic countdown.  `elapsed` grows by each frame's delta; the timer
/// is completed once `elapsed` reaches `duration`.  A repeating timer wraps
/// by one `duration` on the update that follows a completed tick, so
/// `completed` reports each expiry for exactly the tick it happens on.
#[derive(Clone, Copy, Debug, PartialEq, Eq, Structural)]
pub struct Timer {
    pub duration: i64,
    pub elapsed: i64,
    pub repeat: bool,
}

/// The timer after one update by `delta`.
pub open spec fn timer_update_s(t: Timer, delta: int) -> Timer {
    let base = if t.repeat && t.elapsed >= t.duration {
        fx_sub_s(t.elapsed as int, t.duration as int)
    } else {
        t.elapsed as int
    };
    Timer { duration: t.duration, elapsed: fx_add_s(base, delta) as i64, repeat: t.repeat }
}

/// Whether the timer has run out.
pub open spec fn timer_completed_s(t: Timer) -> bool {
    t.elapsed >= t.duration
}

impl Timer {
    /// A fresh timer: nothing elapsed yet.
    pub fn new(duration: i64, repeat: bool) -> (r: Timer)
        ensures
            r == (Timer { duration, elapsed: 0, repeat }),
    {
        Timer { duration, elapsed: 0, repeat }
    }

    /// Advances the timer by the frame delta, wrapping a completed
    /// repeating timer by one duration.
    pub fn update(&mut self, delta: i64)
        ensures
            *final(self) == timer_update_s(*old(self), delta as int),
    {
        if self.repeat && self.elapsed >= self.duration {
            self.elapsed = fx_sub(self.elapsed, self.duration);
        }
        self.elapsed = fx_add(self.elapsed, delta);
    }

    /// Whether the timer has run out.
    pub fn completed(&self) -> (r: bool)
        ensures
            r == timer_completed_s(*self),
    {
        self.elapsed >= self.duration
    }
}

/// The timer after `n` updates by `delta` each.
pub open spec fn timer_iterate_s(t: Timer, delta: int, n: nat) -> Timer
    decreases n,
{
    if n == 0 {
        t
    } else {
        timer_update_s(timer_iterate_s(t, delta, (n - 1) as nat), delta)
    }
}

/// A non-repeating timer accumulates exactly the sum of its deltas: after
/// `n` updates by `delta` it has elapsed `n * delta`, as long as that sum
/// stays in the representable range.
pub proof fn lemma_timer_accumulates(t: Timer, delta: int, n: nat)
    requires
        !t.repeat,
        0 <= delta,
        in_lim(t.elapsed as int),
        in_lim(t.elapsed + n * delta),
    ensures
        timer_iterate_s(t, delta, n) == (Timer {
            duration: t.duration,
            elapsed: (t.elapsed + n * delta) as i64,
            repeat: false,
        }),
    decreases n,
{
    if n == 0 {
        assert(n * delta == 0) by (nonlinear_arith)
            requires
                n == 0,
        ;
    } else {
        assert(0 <= (n - 1) * delta <= n * delta && (n - 1) * delta + delta == n * delta)
            by (nonlinear_arith)
            requires
                n >= 1,
                0 <= delta,
        ;
        lemma_timer_accumulates(t, delta, (n - 1) as nat);
    }
}

/// A repeating timer gating how often an action may fire.
#[derive(Clone, Copy, Debug, PartialEq, Eq, Structural)]
pub struct Cooldown(pub Timer);

impl Cooldown {
    /// A repeating cooldown of the given period.
    pub fn new(time: i64) -> (r: Cooldown)
        ensures
            r == Cooldown(Timer { duration: time, elapsed: 0, repeat: true }),
    {
        Cooldown(Timer::new(time, true))
    }
}

} // verus!
