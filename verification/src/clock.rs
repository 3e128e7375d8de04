//! The simulation clock: a two-state (running/stopped) timer that gates how
//! often the grid advances a generation, polled against a caller-supplied
//! monotonic time in milliseconds.

use vstd::prelude::*;

verus! {

/// Shortest permitted interval between generations, in milliseconds.
pub const MIN_INTERVAL_MS: u64 = 10;
/// Longest permitted interval between generations, in milliseconds.
pub const MAX_INTERVAL_MS: u64 = 400;
/// Amount by which one speed command changes the interval.
pub const INTERVAL_STEP_MS: u64 = 10;

pub struct SimulationClock {
    /// Time between generations, always within the permitted range.
    pub interval_ms: u64,
    /// Absolute time at which the next generation is due.
    pub next_due_ms: u64,
    /// Whether generations advance at all.
    pub running: bool,
}

impl SimulationClock {
    pub open spec fn wf(self) -> bool {
        MIN_INTERVAL_MS <= self.interval_ms <= MAX_INTERVAL_MS
    }

    pub fn new(now_ms: u64, interval_ms: u64, running: bool) -> (c: SimulationClock)
        requires
            MIN_INTERVAL_MS <= interval_ms <= MAX_INTERVAL_MS,
            now_ms + interval_ms <= u64::MAX,
        ensures
            c.wf(),
            c == (SimulationClock { interval_ms, next_due_ms: (now_ms + interval_ms) as u64, running }),
    {
        SimulationClock { interval_ms, next_due_ms: now_ms + interval_ms, running }
    }

    /// Toggles between running and stopped.
    pub fn start_stop(&mut self)
        requires
            old(self).wf(),
        ensures
            final(self).wf(),
            *final(self) == (SimulationClock { running: !old(self).running, ..*old(self) }),
    {
        self.running = !self.running;
    }

    /// Stops the clock (placement always pauses the simulation).
    pub fn stop(&mut self)
        requires
            old(self).wf(),
        ensures
            final(self).wf(),
            *final(self) == (SimulationClock { running: false, ..*old(self) }),
    {
        self.running = false;
    }

    /// Shortens the interval by one step, saturating at the minimum.
    pub fn speed_up(&mut self)
        requires
            old(self).wf(),
        ensures
            final(self).wf(),
            *final(self) == (SimulationClock {
                interval_ms: if old(self).interval_ms >= MIN_INTERVAL_MS + INTERVAL_STEP_MS {
                    (old(self).interval_ms - INTERVAL_STEP_MS) as u64
                } else {
                    MIN_INTERVAL_MS
                },
                ..*old(self)
            }),
    {
        if self.interval_ms >= MIN_INTERVAL_MS + INTERVAL_STEP_MS {
            self.interval_ms = self.interval_ms - INTERVAL_STEP_MS;
        } else {
            self.interval_ms = MIN_INTERVAL_MS;
        }
    }

    /// Lengthens the interval by one step, saturating at the maximum.
    pub fn speed_down(&mut self)
        requires
            old(self).wf(),
        ensures
            final(self).wf(),
            *final(self) == (SimulationClock {
                interval_ms: if old(self).interval_ms + INTERVAL_STEP_MS <= MAX_INTERVAL_MS {
                    (old(self).interval_ms + INTERVAL_STEP_MS) as u64
                } else {
                    MAX_INTERVAL_MS
                },
                ..*old(self)
            }),
    {
        if self.interval_ms + INTERVAL_STEP_MS <= MAX_INTERVAL_MS {
            self.interval_ms = self.interval_ms + INTERVAL_STEP_MS;
        } else {
            self.interval_ms = MAX_INTERVAL_MS;
        }
    }

    /// One poll at time `now_ms`: reports whether a generation fires now.
    /// It fires exactly when the clock is running and the due time has been
    /// reached, and then the next due time is pushed one interval past
    /// `now_ms`; a stopped clock never fires, however much time has passed.
    pub fn poll(&mut self, now_ms: u64) -> (fire: bool)
        requires
            old(self).wf(),
            now_ms + MAX_INTERVAL_MS <= u64::MAX,
        ensures
            final(self).wf(),
            fire == (old(self).running && now_ms >= old(self).next_due_ms),
            *final(self) == (SimulationClock {
                next_due_ms: if fire {
                    (now_ms + old(self).interval_ms) as u64
                } else {
                    old(self).next_due_ms
                },
                ..*old(self)
            }),
    {
        if self.running && now_ms >= self.next_due_ms {
            self.next_due_ms = now_ms + self.interval_ms;
            true
        } else {
            false
        }
    }
}

} // verus!
