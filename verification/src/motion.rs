//! The motion controller: a position that advances by a signed step at most
//! once per fixed interval, wrapping around a boundary.

use vstd::prelude::*;
use crate::modular::signed_modulo;

verus! {

/// Milliseconds between accepted ticks: one update every tenth of a second.
pub const MILLIS_PER_UPDATE: u64 = 100;

/// Absolute value of a step.
pub open spec fn abs_step(x: int) -> int {
    if x < 0 { -x } else { x }
}

/// The step after a direction command: the commanded sign carrying the
/// current magnitude.
pub open spec fn directed_step(step: int, sign: int) -> int {
    sign * abs_step(step)
}

/// The keys the controller reacts to. `Other` stands for every key it
/// ignores.
#[derive(Clone, Copy, Debug, PartialEq, Eq, Structural)]
pub enum Key {
    Escape,
    Left,
    Right,
    Other,
}

/// One horizontal mover: a position in abstract units, a signed step whose
/// sign is the travel direction and whose magnitude is the speed per tick,
/// the timestamp of the last accepted tick, and the wraparound modulus.
pub struct MotionState {
    pub position: i64,
    pub step: i64,
    pub last_update: u64,
    pub boundary: i64,
}

impl MotionState {
    /// Well-formedness: the boundary is a positive modulus, and the step is
    /// small enough that a tick cannot overflow. The position itself is
    /// unconstrained: it may exceed the boundary by up to one step between
    /// ticks, since the modulus is applied before the add, not after it.
    pub open spec fn wf(self) -> bool {
        &&& 0 < self.boundary <= 0x4000_0000_0000_0000
        &&& -0x4000_0000_0000_0000 <= self.step <= 0x4000_0000_0000_0000
    }

    /// A fresh mover at the left edge, travelling right ten units per tick,
    /// with the given clock reading as its last accepted tick.
    pub fn new(now: u64, boundary: i64) -> (s: MotionState)
        requires
            0 < boundary <= 0x4000_0000_0000_0000,
        ensures
            s.wf(),
            s.position == 0,
            s.step == 10,
            s.last_update == now,
            s.boundary == boundary,
    {
        MotionState { position: 0, step: 10, last_update: now, boundary }
    }

    /// A fixed-rate gate: if at least `MILLIS_PER_UPDATE` milliseconds have
    /// passed since the last accepted tick, wrap the position into
    /// `[0, boundary)` and advance it by one step, recording `now`; otherwise
    /// change nothing. Excess elapsed time is dropped, not accumulated.
    pub fn tick(&mut self, now: u64)
        requires
            old(self).wf(),
            now >= old(self).last_update,
        ensures
            final(self).wf(),
            final(self).step == old(self).step,
            final(self).boundary == old(self).boundary,
            now - old(self).last_update >= MILLIS_PER_UPDATE ==> {
                &&& final(self).position
                    == old(self).position as int % old(self).boundary as int
                        + old(self).step
                &&& final(self).last_update == now
            },
            now - old(self).last_update < MILLIS_PER_UPDATE ==> {
                &&& final(self).position == old(self).position
                &&& final(self).last_update == old(self).last_update
            },
    {
        if now - self.last_update >= MILLIS_PER_UPDATE {
            self.position = signed_modulo(self.position, self.boundary) + self.step;
            self.last_update = now;
        }
    }

    /// Point the step in the commanded direction, keeping its magnitude:
    /// `step` becomes `sign * |step|`. Nothing else changes.
    pub fn set_direction(&mut self, sign: i64)
        requires
            old(self).wf(),
            sign == 1 || sign == -1,
        ensures
            final(self).wf(),
            final(self).step == directed_step(old(self).step as int, sign as int),
            final(self).position == old(self).position,
            final(self).last_update == old(self).last_update,
            final(self).boundary == old(self).boundary,
    {
        let magnitude: i64 = if self.step < 0 { -self.step } else { self.step };
        self.step = if sign == 1 { magnitude } else { -magnitude };
    }

    /// React to one key press: `Escape` requests a quit, `Left` and `Right`
    /// point the step in that direction, and every other key is ignored.
    /// Returns whether the caller should quit.
    pub fn on_key_down(&mut self, key: Key) -> (quit: bool)
        requires
            old(self).wf(),
        ensures
            final(self).wf(),
            final(self).position == old(self).position,
            final(self).last_update == old(self).last_update,
            final(self).boundary == old(self).boundary,
            quit == (key is Escape),
            key is Left ==> final(self).step == directed_step(old(self).step as int, -1),
            key is Right ==> final(self).step == directed_step(old(self).step as int, 1),
            !(key is Left) && !(key is Right) ==> final(self).step == old(self).step,
    {
        match key {
            Key::Escape => true,
            Key::Left => {
                self.set_direction(-1);
                false
            },
            Key::Right => {
                self.set_direction(1);
                false
            },
            Key::Other => false,
        }
    }
}

/// Repeating a direction command changes nothing further: a step already
/// pointed by `sign` is a fixed point of `directed_step`.
pub proof fn lemma_set_direction_idempotent(step: int, sign: int)
    requires
        sign == 1 || sign == -1,
    ensures
        directed_step(directed_step(step, sign), sign) == directed_step(step, sign),
{
}

} // verus!
