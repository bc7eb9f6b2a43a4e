//! A repeating countdown timer measured in whole microseconds.
//!
//! The timer accumulates elapsed time; each time the accumulated time
//! crosses the interval it reports "just finished" once and carries the
//! remainder over, so long frames are not lost.

use vstd::prelude::*;

verus! {

/// A repeating timer: `elapsed_micros` grows with each tick and wraps
/// modulo `interval_micros` whenever the interval is crossed.
pub struct RepeatTimer {
    pub interval_micros: u32,
    pub elapsed_micros: u32,
}

impl RepeatTimer {
    /// A timer is well formed when its interval is positive and the
    /// accumulated time has not yet reached the interval.
    pub open spec fn wf(self) -> bool {
        0 < self.interval_micros && self.elapsed_micros < self.interval_micros
    }

    /// A fresh timer with the given interval and nothing accumulated.
    pub fn from_micros(interval_micros: u32) -> (t: RepeatTimer)
        requires
            0 < interval_micros,
        ensures
            t.wf(),
            t.interval_micros == interval_micros,
            t.elapsed_micros == 0,
    {
        RepeatTimer { interval_micros, elapsed_micros: 0 }
    }

    /// Advance the timer by `delta_micros`. Returns true exactly when the
    /// accumulated time crossed the interval during this tick; the
    /// remainder past the last whole interval is carried over.
    pub fn tick(&mut self, delta_micros: u32) -> (just_finished: bool)
        requires
            old(self).wf(),
        ensures
            final(self).wf(),
            final(self).interval_micros == old(self).interval_micros,
            just_finished == (old(self).elapsed_micros + delta_micros
                >= old(self).interval_micros),
            final(self).elapsed_micros == (old(self).elapsed_micros + delta_micros)
                % (old(self).interval_micros as int),
    {
        let total: u64 = self.elapsed_micros as u64 + delta_micros as u64;
        let finished: bool = total >= self.interval_micros as u64;
        self.elapsed_micros = (total % self.interval_micros as u64) as u32;
        finished
    }
}

} // verus!
