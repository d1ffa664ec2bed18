//! Millisecond countdown timers, one-shot or repeating, mirroring the
//! engine-side timers the behaviours and the spawner run on.

use vstd::prelude::*;

verus! {

/// Longest duration a timer may be configured with, in milliseconds.
pub const TIMER_DURATION_LIMIT: u64 = 0x1_0000_0000;

/// Longest time step a single tick may advance, in milliseconds.
pub const TICK_MS_LIMIT: u64 = 60_000;

/// A one-shot timer after one tick of `dt_ms`: advanced, saturating at
/// its duration.
pub open spec fn once_after(t: TickTimer, dt_ms: int) -> TickTimer {
    TickTimer {
        elapsed_ms: (if t.elapsed_ms + dt_ms >= t.duration_ms {
            t.duration_ms as int
        } else {
            t.elapsed_ms + dt_ms
        }) as u64,
        duration_ms: t.duration_ms,
        repeating: t.repeating,
    }
}

/// A repeating timer after one tick of `dt_ms`: advanced, wrapping and
/// keeping the remainder when a period completes.
pub open spec fn repeating_after(t: TickTimer, dt_ms: int) -> TickTimer {
    TickTimer {
        elapsed_ms: (if t.elapsed_ms + dt_ms >= t.duration_ms {
            (t.elapsed_ms + dt_ms) % (t.duration_ms as int)
        } else {
            t.elapsed_ms + dt_ms
        }) as u64,
        duration_ms: t.duration_ms,
        repeating: t.repeating,
    }
}

/// A millisecond timer. A one-shot timer saturates at its duration; a
/// repeating timer wraps around and reports each completed period.
#[derive(Clone, Copy, PartialEq, Eq, Structural, Debug)]
pub struct TickTimer {
    pub elapsed_ms: u64,
    pub duration_ms: u64,
    pub repeating: bool,
}

impl TickTimer {
    /// Well-formedness: a positive, bounded duration and an elapsed time
    /// that never exceeds it.
    pub open spec fn wf(self) -> bool {
        &&& 1 <= self.duration_ms <= TIMER_DURATION_LIMIT
        &&& self.elapsed_ms <= self.duration_ms
    }

    /// A one-shot timer is finished once its elapsed time has reached its
    /// duration; a repeating timer reports completion only through the
    /// return value of [`TickTimer::tick`].
    pub open spec fn finished_spec(self) -> bool {
        self.elapsed_ms >= self.duration_ms
    }

    pub fn new(duration_ms: u64, repeating: bool) -> (r: TickTimer)
        requires
            1 <= duration_ms <= TIMER_DURATION_LIMIT,
        ensures
            r.wf(),
            r.duration_ms == duration_ms,
            r.repeating == repeating,
            r.elapsed_ms == 0,
    {
        TickTimer { elapsed_ms: 0, duration_ms, repeating }
    }

    pub fn finished(&self) -> (r: bool)
        ensures
            r == self.finished_spec(),
    {
        self.elapsed_ms >= self.duration_ms
    }

    /// Restart the countdown from zero.
    pub fn reset(&mut self)
        ensures
            *final(self) == (TickTimer {
                elapsed_ms: 0,
                duration_ms: old(self).duration_ms,
                repeating: old(self).repeating,
            }),
    {
        self.elapsed_ms = 0;
    }

    /// Change the period and restart the countdown.
    pub fn set_duration(&mut self, duration_ms: u64)
        requires
            1 <= duration_ms <= TIMER_DURATION_LIMIT,
        ensures
            *final(self) == (TickTimer {
                elapsed_ms: 0,
                duration_ms,
                repeating: old(self).repeating,
            }),
            final(self).wf(),
    {
        self.duration_ms = duration_ms;
        self.elapsed_ms = 0;
    }

    /// Change the period without restarting: the accumulated time is kept,
    /// capped at the new duration.
    pub fn retime(&mut self, duration_ms: u64)
        requires
            old(self).wf(),
            1 <= duration_ms <= TIMER_DURATION_LIMIT,
        ensures
            final(self).wf(),
            final(self).duration_ms == duration_ms,
            final(self).repeating == old(self).repeating,
            final(self).elapsed_ms == if old(self).elapsed_ms <= duration_ms {
                old(self).elapsed_ms as int
            } else {
                duration_ms as int
            },
    {
        self.duration_ms = duration_ms;
        if self.elapsed_ms > duration_ms {
            self.elapsed_ms = duration_ms;
        }
    }

    /// Advance by `dt_ms` milliseconds. Returns whether the timer completed
    /// a period during this call: a one-shot timer completes once, the call
    /// that carries it across its duration; a repeating timer completes on
    /// every call that accumulates a full period, and keeps the remainder.
    pub fn tick(&mut self, dt_ms: u64) -> (just_finished: bool)
        requires
            old(self).wf(),
            dt_ms <= TICK_MS_LIMIT,
        ensures
            final(self).wf(),
            final(self).duration_ms == old(self).duration_ms,
            final(self).repeating == old(self).repeating,
            old(self).repeating ==> {
                &&& just_finished == (old(self).elapsed_ms + dt_ms >= old(self).duration_ms)
                &&& (just_finished ==> final(self).elapsed_ms == (old(self).elapsed_ms + dt_ms)
                    % (old(self).duration_ms as int))
                &&& (!just_finished ==> final(self).elapsed_ms == old(self).elapsed_ms + dt_ms)
            },
            !old(self).repeating ==> {
                &&& just_finished == (old(self).elapsed_ms < old(self).duration_ms
                    && old(self).elapsed_ms + dt_ms >= old(self).duration_ms)
                &&& final(self).elapsed_ms == if old(self).elapsed_ms + dt_ms
                    >= old(self).duration_ms {
                    old(self).duration_ms
                } else {
                    (old(self).elapsed_ms + dt_ms) as u64
                }
                &&& (just_finished ==> final(self).finished_spec())
            },
    {
        let total: u64 = self.elapsed_ms + dt_ms;
        if self.repeating {
            if total >= self.duration_ms {
                self.elapsed_ms = total % self.duration_ms;
                true
            } else {
                self.elapsed_ms = total;
                false
            }
        } else {
            let was_finished: bool = self.elapsed_ms >= self.duration_ms;
            if total >= self.duration_ms {
                self.elapsed_ms = self.duration_ms;
                !was_finished
            } else {
                self.elapsed_ms = total;
                false
            }
        }
    }
}

} // verus!
