//! Millisecond timers with the semantics the round state machine needs:
//! a repeating timer fires and wraps its elapsed time each lap, a one-shot
//! timer fires once and then stays finished.

use vstd::prelude::*;

use crate::constants::MAX_PERIOD_MS;

verus! {

/// Whether a timer fires repeatedly or only once.
#[derive(Clone, Copy, PartialEq, Eq, Structural, Debug)]
pub enum TimerMode {
    Once,
    Repeating,
}

/// A countdown over elapsed frame time, in milliseconds. `fired` records
/// whether the most recent tick completed the period.
#[derive(Clone, Copy, PartialEq, Eq, Structural, Debug)]
pub struct Timer {
    pub period_ms: u64,
    pub elapsed_ms: u64,
    pub mode: TimerMode,
    pub fired: bool,
}

impl Timer {
    /// The period is positive and bounded, and elapsed time never runs
    /// past the period.
    pub open spec fn wf(self) -> bool {
        1 <= self.period_ms <= MAX_PERIOD_MS && self.elapsed_ms <= self.period_ms
    }

    /// Whether advancing by `delta` milliseconds completes the period.
    /// A one-shot timer that already finished never fires again.
    pub open spec fn spec_fires(self, delta: u64) -> bool {
        self.elapsed_ms < self.period_ms && self.elapsed_ms + delta >= self.period_ms
    }

    /// Elapsed time after advancing by `delta`: a repeating timer wraps
    /// on firing, a one-shot timer is capped at its period.
    pub open spec fn spec_elapsed_after(self, delta: u64) -> u64 {
        if self.spec_fires(delta) {
            match self.mode {
                TimerMode::Repeating => ((self.elapsed_ms + delta) % (self.period_ms as int)) as u64,
                TimerMode::Once => self.period_ms,
            }
        } else if self.elapsed_ms + delta <= self.period_ms {
            (self.elapsed_ms + delta) as u64
        } else {
            self.period_ms
        }
    }

    /// The whole timer after advancing by `delta`.
    pub open spec fn spec_tick(self, delta: u64) -> Timer {
        Timer {
            elapsed_ms: self.spec_elapsed_after(delta),
            fired: self.spec_fires(delta),
            ..self
        }
    }

    /// A fresh timer with nothing elapsed.
    pub fn new(period_ms: u64, mode: TimerMode) -> (t: Timer)
        requires
            1 <= period_ms <= MAX_PERIOD_MS,
        ensures
            t == (Timer { period_ms, elapsed_ms: 0, mode, fired: false }),
            t.wf(),
    {
        Timer { period_ms, elapsed_ms: 0, mode, fired: false }
    }

    /// Advances the timer by one frame's delta.
    pub fn tick(&mut self, delta: u32)
        requires
            old(self).wf(),
        ensures
            *final(self) == old(self).spec_tick(delta as u64),
            final(self).wf(),
    {
        let d = delta as u64;
        if self.elapsed_ms < self.period_ms && d >= self.period_ms - self.elapsed_ms {
            self.fired = true;
            match self.mode {
                TimerMode::Repeating => {
                    self.elapsed_ms = (self.elapsed_ms + d) % self.period_ms;
                },
                TimerMode::Once => {
                    self.elapsed_ms = self.period_ms;
                },
            }
        } else {
            self.fired = false;
            if self.elapsed_ms < self.period_ms {
                self.elapsed_ms = self.elapsed_ms + d;
            }
        }
    }

    /// Whether the most recent tick completed the period.
    pub fn just_finished(&self) -> (r: bool)
        ensures
            r == self.fired,
    {
        self.fired
    }
}

} // verus!
