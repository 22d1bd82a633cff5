//! A one-shot countdown timer over whole nanoseconds.

use vstd::prelude::*;

verus! {

/// A non-repeating timer. Time is counted in nanoseconds. `just_finished`
/// holds only after the tick on which the elapsed time reached the duration.
/// A timer of zero duration is finished from the start.
#[derive(Clone, Copy, Debug, PartialEq, Eq, Structural)]
pub struct OnceTimer {
    pub duration: u64,
    pub elapsed: u64,
    pub just_finished: bool,
}

impl OnceTimer {
    /// The elapsed time never passes the duration.
    pub open spec fn wf(self) -> bool {
        self.elapsed <= self.duration
    }

    pub open spec fn is_finished(self) -> bool {
        self.elapsed >= self.duration
    }

    /// The timer after `delta` more nanoseconds: a finished timer stays where
    /// it is, any other one advances and stops at its duration.
    pub open spec fn ticked(self, delta: u64) -> OnceTimer {
        if self.is_finished() {
            OnceTimer { duration: self.duration, elapsed: self.elapsed, just_finished: false }
        } else {
            let e: u64 = if delta >= self.duration - self.elapsed {
                self.duration
            } else {
                (self.elapsed + delta) as u64
            };
            OnceTimer { duration: self.duration, elapsed: e, just_finished: e == self.duration }
        }
    }

    /// A timer of `duration` nanoseconds that has not run yet.
    pub fn new(duration: u64) -> (r: OnceTimer)
        ensures
            r == (OnceTimer { duration, elapsed: 0, just_finished: false }),
            r.wf(),
    {
        OnceTimer { duration, elapsed: 0, just_finished: false }
    }

    pub fn finished(&self) -> (r: bool)
        ensures
            r == self.is_finished(),
    {
        self.elapsed >= self.duration
    }

    /// Nanoseconds left until the timer finishes.
    pub fn remaining(&self) -> (r: u64)
        requires
            self.wf(),
        ensures
            r == self.duration - self.elapsed,
    {
        self.duration - self.elapsed
    }

    /// Advances the timer by `delta` nanoseconds.
    pub fn tick(&mut self, delta: u64)
        requires
            old(self).wf(),
        ensures
            *final(self) == old(self).ticked(delta),
            final(self).wf(),
    {
        if self.elapsed >= self.duration {
            self.just_finished = false;
        } else {
            if delta >= self.duration - self.elapsed {
                self.elapsed = self.duration;
            } else {
                self.elapsed = self.elapsed + delta;
            }
            self.just_finished = self.elapsed == self.duration;
        }
    }
}

/// Ticking never moves a timer backwards, and a longer tick takes it at least
/// as far as a shorter one.
pub proof fn lemma_tick_monotone(t: OnceTimer, d1: u64, d2: u64)
    requires
        t.wf(),
        d1 <= d2,
    ensures
        t.elapsed <= t.ticked(d1).elapsed,
        t.ticked(d1).elapsed <= t.ticked(d2).elapsed,
        t.ticked(d1).wf(),
        t.ticked(d1).duration == t.duration,
{
}

} // verus!
