//! A repeating countdown timer over integer microseconds.
//!
//! The model keeps the elapsed time strictly below the period: when a tick
//! crosses the period, the remainder wraps around and the number of whole
//! periods completed during that tick is recorded. "Just finished" holds from
//! the tick that completed a period until the next tick or reset.

use vstd::prelude::*;

verus! {

/// Largest accepted timer period, in microseconds.
pub const PERIOD_LIMIT_US: u64 = 1_000_000_000_000;

/// Largest accepted time advance for a single tick, in microseconds.
pub const DT_LIMIT_US: u64 = 1_000_000_000_000;

/// A repeating timer. While paused, ticking does not advance it.
#[derive(Copy, Clone, PartialEq, Eq, Structural, Debug)]
pub struct Timer {
    /// Length of one cycle, in microseconds; always at least one.
    pub period_us: u64,
    /// Time accumulated in the current cycle; always below the period.
    pub elapsed_us: u64,
    /// Whole periods completed by the most recent tick.
    pub times_finished: u64,
    /// While set, ticks leave the elapsed time unchanged.
    pub paused: bool,
}

impl Timer {
    /// Structural validity: a positive, bounded period and a wrapped elapsed
    /// time.
    pub open spec fn wf(self) -> bool {
        &&& 1 <= self.period_us <= PERIOD_LIMIT_US
        &&& self.elapsed_us < self.period_us
    }

    /// A freshly armed, running timer.
    pub open spec fn spec_new(period_us: u64) -> Timer {
        Timer { period_us, elapsed_us: 0, times_finished: 0, paused: false }
    }

    /// The timer after advancing by `dt_us`. A paused timer only clears the
    /// completion count; a running one accumulates the time and wraps it
    /// around the period, recording how many whole periods were crossed.
    pub open spec fn spec_ticked(self, dt_us: u64) -> Timer {
        if self.paused {
            Timer { times_finished: 0, ..self }
        } else {
            let sum = self.elapsed_us + dt_us;
            if sum >= self.period_us {
                Timer {
                    elapsed_us: (sum % (self.period_us as int)) as u64,
                    times_finished: (sum / (self.period_us as int)) as u64,
                    ..self
                }
            } else {
                Timer { elapsed_us: sum as u64, times_finished: 0, ..self }
            }
        }
    }

    /// The timer rewound to the start of a cycle, with no completed periods.
    pub open spec fn spec_reset(self) -> Timer {
        Timer { elapsed_us: 0, times_finished: 0, ..self }
    }

    /// Arm a fresh repeating timer with the given period.
    pub fn new(period_us: u64) -> (r: Timer)
        requires
            1 <= period_us <= PERIOD_LIMIT_US,
        ensures
            r == Timer::spec_new(period_us),
            r.wf(),
    {
        Timer { period_us, elapsed_us: 0, times_finished: 0, paused: false }
    }

    /// Advance the timer by `dt_us` microseconds.
    pub fn tick(&mut self, dt_us: u64)
        requires
            old(self).wf(),
            dt_us <= DT_LIMIT_US,
        ensures
            *final(self) == old(self).spec_ticked(dt_us),
            final(self).wf(),
    {
        if self.paused {
            self.times_finished = 0;
            return;
        }
        let sum: u128 = (self.elapsed_us as u128) + (dt_us as u128);
        let period: u128 = self.period_us as u128;
        if sum >= period {
            self.times_finished = (sum / period) as u64;
            self.elapsed_us = (sum % period) as u64;
        } else {
            self.elapsed_us = sum as u64;
            self.times_finished = 0;
        }
    }

    /// Whether the most recent tick completed at least one period.
    pub fn just_finished(&self) -> (r: bool)
        ensures
            r == (self.times_finished > 0),
    {
        self.times_finished > 0
    }

    /// Whether the timer is paused.
    pub fn paused(&self) -> (r: bool)
        ensures
            r == self.paused,
    {
        self.paused
    }

    /// Stop the timer from advancing on ticks.
    pub fn pause(&mut self)
        ensures
            *final(self) == (Timer { paused: true, ..*old(self) }),
    {
        self.paused = true;
    }

    /// Let the timer advance on ticks again.
    pub fn unpause(&mut self)
        ensures
            *final(self) == (Timer { paused: false, ..*old(self) }),
    {
        self.paused = false;
    }

    /// Rewind to the start of a cycle and clear the completion count.
    pub fn reset(&mut self)
        ensures
            *final(self) == old(self).spec_reset(),
    {
        self.elapsed_us = 0;
        self.times_finished = 0;
    }
}

} // verus!
