//! Countdown timers in whole milliseconds, ticked forward by the elapsed
//! time of each simulation step and polled for completion.

use vstd::prelude::*;

verus! {

/// Bound on a timer's duration and on one tick's delta, far beyond any
/// real play session, so that sums never leave `u64`.
pub const TIME_BOUND: u64 = 0x1000_0000_0000_0000;

#[derive(Clone, Copy, Debug, PartialEq, Eq, Structural)]
pub enum TimerMode {
    /// Runs to its duration once and stays finished until reset.
    Once,
    /// Starts over each time it completes; reads as finished only on the
    /// tick that completed it.
    Repeating,
}

#[derive(Clone, Copy, Debug, PartialEq, Eq, Structural)]
pub struct Timer {
    pub duration_ms: u64,
    pub elapsed_ms: u64,
    pub mode: TimerMode,
    /// For a repeating timer: whether the latest tick completed a period.
    pub wrapped: bool,
}

impl Timer {
    pub open spec fn wf(self) -> bool {
        &&& 1 <= self.duration_ms <= TIME_BOUND
        &&& self.elapsed_ms <= self.duration_ms
        &&& (self.mode is Repeating ==> self.elapsed_ms < self.duration_ms)
    }

    /// Whether the timer reads as finished: a one-shot timer once its
    /// duration has elapsed, a repeating timer on the tick it wrapped.
    pub open spec fn spec_finished(self) -> bool {
        match self.mode {
            TimerMode::Once => self.elapsed_ms >= self.duration_ms,
            TimerMode::Repeating => self.wrapped,
        }
    }

    /// The value of a one-shot timer after a tick of `dt` milliseconds:
    /// elapsed time grows and saturates at the duration.
    pub open spec fn spec_tick_once(self, dt: u64) -> Timer {
        Timer {
            duration_ms: self.duration_ms,
            elapsed_ms: if self.elapsed_ms + dt <= self.duration_ms {
                (self.elapsed_ms + dt) as u64
            } else {
                self.duration_ms
            },
            mode: self.mode,
            wrapped: self.wrapped,
        }
    }

    /// A fresh one-shot timer of the given duration.
    pub open spec fn spec_once(duration_ms: u64) -> Timer {
        Timer { duration_ms, elapsed_ms: 0, mode: TimerMode::Once, wrapped: false }
    }

    /// The value of a timer wound back to the start of its period.
    pub open spec fn spec_reset(self) -> Timer {
        Timer { duration_ms: self.duration_ms, elapsed_ms: 0, mode: self.mode, wrapped: false }
    }

    pub fn new(duration_ms: u64, mode: TimerMode) -> (t: Timer)
        requires
            1 <= duration_ms <= TIME_BOUND,
        ensures
            t == (Timer { duration_ms, elapsed_ms: 0, mode, wrapped: false }),
            t.wf(),
    {
        Timer { duration_ms, elapsed_ms: 0, mode, wrapped: false }
    }

    /// Advance the timer by `dt` milliseconds. A one-shot timer saturates
    /// at its duration; a repeating timer wraps and records that it did.
    pub fn tick(&mut self, dt: u64)
        requires
            old(self).wf(),
            dt <= TIME_BOUND,
        ensures
            final(self).wf(),
            final(self).duration_ms == old(self).duration_ms,
            final(self).mode == old(self).mode,
            old(self).mode is Once ==> *final(self) == old(self).spec_tick_once(dt),
            old(self).mode is Repeating ==> {
                &&& final(self).wrapped == (old(self).elapsed_ms + dt >= old(self).duration_ms)
                &&& final(self).elapsed_ms == (old(self).elapsed_ms + dt) % (
                old(self).duration_ms as int)
            },
    {
        match self.mode {
            TimerMode::Once => {
                let total = self.elapsed_ms + dt;
                self.elapsed_ms = if total <= self.duration_ms {
                    total
                } else {
                    self.duration_ms
                };
            },
            TimerMode::Repeating => {
                let total = self.elapsed_ms + dt;
                self.wrapped = total >= self.duration_ms;
                self.elapsed_ms = total % self.duration_ms;
            },
        }
    }

    pub fn finished(&self) -> (r: bool)
        ensures
            r == self.spec_finished(),
    {
        match self.mode {
            TimerMode::Once => self.elapsed_ms >= self.duration_ms,
            TimerMode::Repeating => self.wrapped,
        }
    }

    /// Wind the timer back to the start of its period.
    pub fn reset(&mut self)
        ensures
            final(self).duration_ms == old(self).duration_ms,
            final(self).mode == old(self).mode,
            final(self).elapsed_ms == 0,
            !final(self).wrapped,
            old(self).wf() ==> final(self).wf(),
    {
        self.elapsed_ms = 0;
        self.wrapped = false;
    }

    pub fn duration(&self) -> (d: u64)
        ensures
            d == self.duration_ms,
    {
        self.duration_ms
    }

    /// Change the period; elapsed time past the new duration is dropped,
    /// so a finished one-shot timer stays finished.
    pub fn set_duration(&mut self, duration_ms: u64)
        requires
            old(self).wf(),
            1 <= duration_ms <= TIME_BOUND,
        ensures
            final(self).wf(),
            final(self).duration_ms == duration_ms,
            final(self).mode == old(self).mode,
            final(self).wrapped == old(self).wrapped,
            final(self).elapsed_ms == if old(self).mode is Repeating {
                if old(self).elapsed_ms < duration_ms {
                    old(self).elapsed_ms as int
                } else {
                    duration_ms - 1
                }
            } else {
                if old(self).elapsed_ms <= duration_ms {
                    old(self).elapsed_ms as int
                } else {
                    duration_ms as int
                }
            },
    {
        self.duration_ms = duration_ms;
        match self.mode {
            TimerMode::Repeating => {
                if self.elapsed_ms >= duration_ms {
                    self.elapsed_ms = duration_ms - 1;
                }
            },
            TimerMode::Once => {
                if self.elapsed_ms > duration_ms {
                    self.elapsed_ms = duration_ms;
                }
            },
        }
    }

    /// Milliseconds left in the current period.
    pub fn remaining(&self) -> (r: u64)
        requires
            self.wf(),
        ensures
            r == self.duration_ms - self.elapsed_ms,
    {
        self.duration_ms - self.elapsed_ms
    }
}

} // verus!
