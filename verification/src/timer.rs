//! Countdown timers advanced once per tick by the frame's elapsed-time delta.

use vstd::prelude::*;

verus! {

/// A one-shot countdown timer. It accumulates elapsed ticks up to its
/// duration and reports itself finished once the duration is reached.
///
/// A timer that has never been started is represented with
/// `elapsed == duration`, i.e. already expired, so that querying an
/// uninitialized timer is fail-safe.
#[derive(Clone, Copy, PartialEq, Eq, Structural, Debug)]
pub struct Timer {
    pub elapsed: i64,
    pub duration: i64,
}

/// The value of a timer after one tick of `dt` elapsed time: the elapsed
/// count grows by `dt` but saturates at the duration.
pub open spec fn advanced(t: Timer, dt: i64) -> Timer {
    if t.elapsed + dt <= t.duration {
        Timer { elapsed: (t.elapsed + dt) as i64, duration: t.duration }
    } else {
        Timer { elapsed: t.duration, duration: t.duration }
    }
}

impl Timer {
    /// Well-formed: the elapsed count never exceeds the duration.
    pub open spec fn wf(self) -> bool {
        0 <= self.elapsed <= self.duration
    }

    /// A timer is finished once its elapsed count has reached its duration.
    pub open spec fn is_finished(self) -> bool {
        self.elapsed >= self.duration
    }

    /// A fresh, running timer.
    pub fn new(duration: i64) -> (t: Timer)
        requires
            duration >= 0,
        ensures
            t == (Timer { elapsed: 0, duration }),
            t.wf(),
    {
        Timer { elapsed: 0, duration }
    }

    /// A timer in the never-started state: treated as already expired.
    pub fn expired(duration: i64) -> (t: Timer)
        requires
            duration >= 0,
        ensures
            t == (Timer { elapsed: duration, duration }),
            t.wf(),
            t.is_finished(),
    {
        Timer { elapsed: duration, duration }
    }

    /// Advance the timer by the tick's elapsed-time delta, saturating at the
    /// duration.
    pub fn advance(&mut self, dt: i64)
        requires
            old(self).wf(),
            0 <= dt,
        ensures
            *final(self) == advanced(*old(self), dt),
            final(self).wf(),
            final(self).duration == old(self).duration,
    {
        if dt <= self.duration - self.elapsed {
            self.elapsed = self.elapsed + dt;
        } else {
            self.elapsed = self.duration;
        }
    }

    /// Whether the timer has run for its whole duration.
    pub fn finished(&self) -> (b: bool)
        ensures
            b == self.is_finished(),
    {
        self.elapsed >= self.duration
    }

    /// Restart the timer from zero, keeping its duration.
    pub fn reset(&mut self)
        ensures
            *final(self) == (Timer { elapsed: 0, duration: old(self).duration }),
    {
        self.elapsed = 0;
    }
}

} // verus!
