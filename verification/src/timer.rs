//! Countdown timers over whole milliseconds.
//!
//! The trainer never sleeps: all waiting is a timer that is advanced by the
//! elapsed time of each tick and inspected afterwards.  A timer clamps at
//! its duration, so `finished` stays true once the duration is reached.

use vstd::prelude::*;

verus! {

/// Upper bound on a timer's duration, far above the few seconds used here;
/// it keeps the fraction arithmetic free of overflow.
pub const MAX_TIMER_MS: u64 = 86_400_000;

/// A one-shot countdown timer.
pub struct CountdownTimer {
    pub duration_ms: u64,
    pub elapsed_ms: u64,
}

/// The value of `t` after advancing it by `delta` milliseconds, clamped at
/// the duration.
pub open spec fn advanced(t: CountdownTimer, delta: u64) -> CountdownTimer {
    CountdownTimer {
        duration_ms: t.duration_ms,
        elapsed_ms: if t.elapsed_ms + delta <= t.duration_ms {
            (t.elapsed_ms + delta) as u64
        } else {
            t.duration_ms
        },
    }
}

/// The value of `t` after rewinding it to its start.
pub open spec fn reset_of(t: CountdownTimer) -> CountdownTimer {
    CountdownTimer { duration_ms: t.duration_ms, elapsed_ms: 0 }
}

impl CountdownTimer {
    /// A timer is well formed when its duration is positive and bounded and
    /// the elapsed time never exceeds it.
    pub open spec fn wf(self) -> bool {
        0 < self.duration_ms <= MAX_TIMER_MS && self.elapsed_ms <= self.duration_ms
    }

    /// Whether the timer has run down completely.
    pub open spec fn spec_finished(self) -> bool {
        self.elapsed_ms == self.duration_ms
    }

    /// Whether at least three tenths of the duration have elapsed.
    pub open spec fn spec_three_tenths_elapsed(self) -> bool {
        10 * self.elapsed_ms >= 3 * self.duration_ms
    }

    /// A fresh timer with nothing elapsed.
    pub fn new(duration_ms: u64) -> (r: Self)
        requires
            0 < duration_ms <= MAX_TIMER_MS,
        ensures
            r.wf(),
            r.duration_ms == duration_ms,
            r.elapsed_ms == 0,
    {
        CountdownTimer { duration_ms, elapsed_ms: 0 }
    }

    /// Rewinds the timer to its start; the duration is kept.
    pub fn reset(&mut self)
        ensures
            *final(self) == reset_of(*old(self)),
    {
        self.elapsed_ms = 0;
    }

    /// Advances the timer by the time elapsed since the previous tick,
    /// clamping at the duration.
    pub fn advance(&mut self, delta_ms: u64)
        requires
            old(self).wf(),
        ensures
            final(self).wf(),
            *final(self) == advanced(*old(self), delta_ms),
    {
        let remaining = self.duration_ms - self.elapsed_ms;
        if delta_ms >= remaining {
            self.elapsed_ms = self.duration_ms;
        } else {
            self.elapsed_ms = self.elapsed_ms + delta_ms;
        }
    }

    /// Whether the timer has run down completely.
    pub fn finished(&self) -> (r: bool)
        ensures
            r == self.spec_finished(),
    {
        self.elapsed_ms == self.duration_ms
    }

    /// Whether at least three tenths of the duration have elapsed: the point
    /// at which the pause display replaces the answer display.
    pub fn three_tenths_elapsed(&self) -> (r: bool)
        requires
            self.wf(),
        ensures
            r == self.spec_three_tenths_elapsed(),
    {
        10 * self.elapsed_ms >= 3 * self.duration_ms
    }
}

} // verus!
