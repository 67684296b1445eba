//! Countdown timers with edge-triggered completion: one-shot timers stop at
//! their duration, repeating timers keep their phase. However much time one
//! tick brings, a timer signals completion at most once per call.

use vstd::prelude::*;

verus! {

/// Longest duration a timer accepts, in milliseconds.
pub const MAX_DURATION_MS: u64 = 0x1_0000_0000;

#[derive(Clone, Copy, Debug, PartialEq, Eq, Structural)]
pub enum TimerMode {
    Once,
    Repeating,
}

/// A countdown driven by `tick`: `just_finished` is true exactly for the
/// tick in which the timer crossed its duration.
#[derive(Clone, Copy, Debug, PartialEq, Eq, Structural)]
pub struct TickTimer {
    pub duration_ms: u64,
    pub elapsed_ms: u64,
    pub mode: TimerMode,
    pub fired: bool,
}

/// A timer the tick function accepts: positive bounded duration, elapsed
/// time never past the duration.
pub open spec fn timer_wf(t: TickTimer) -> bool {
    &&& 1 <= t.duration_ms <= MAX_DURATION_MS
    &&& t.elapsed_ms <= t.duration_ms
}

/// The timer state after one tick of `dt` milliseconds: a one-shot timer
/// saturates at its duration; a repeating timer wraps, keeping its phase.
pub open spec fn tick_spec(t: TickTimer, dt: int) -> TickTimer {
    let total = t.elapsed_ms + dt;
    match t.mode {
        TimerMode::Once => (TickTimer {
            elapsed_ms: if total >= t.duration_ms {
                t.duration_ms
            } else {
                total as u64
            },
            fired: tick_fires(t, dt),
            ..t
        }),
        TimerMode::Repeating => (TickTimer {
            elapsed_ms: if total >= t.duration_ms {
                (total % (t.duration_ms as int)) as u64
            } else {
                total as u64
            },
            fired: tick_fires(t, dt),
            ..t
        }),
    }
}

/// Whether a tick of `dt` milliseconds completes the timer in that call: it
/// crosses the duration now, and, for a one-shot timer, had not crossed it
/// before. Several periods elapsing in one oversized tick still fire only
/// this one signal.
pub open spec fn tick_fires(t: TickTimer, dt: int) -> bool {
    match t.mode {
        TimerMode::Once => t.elapsed_ms < t.duration_ms && t.elapsed_ms + dt >= t.duration_ms,
        TimerMode::Repeating => t.elapsed_ms + dt >= t.duration_ms,
    }
}

impl TickTimer {
    /// A fresh timer of `duration_ms` in the given mode.
    pub fn new(duration_ms: u64, mode: TimerMode) -> (r: TickTimer)
        requires
            1 <= duration_ms <= MAX_DURATION_MS,
        ensures
            r == (TickTimer { duration_ms, elapsed_ms: 0, mode, fired: false }),
            timer_wf(r),
    {
        TickTimer { duration_ms, elapsed_ms: 0, mode, fired: false }
    }

    /// Advances the timer by `dt` milliseconds.
    pub fn tick(&mut self, dt_ms: u64) -> (fired: bool)
        requires
            timer_wf(*old(self)),
            dt_ms <= MAX_DURATION_MS,
        ensures
            *final(self) == tick_spec(*old(self), dt_ms as int),
            fired == tick_fires(*old(self), dt_ms as int),
            timer_wf(*final(self)),
    {
        let total = self.elapsed_ms + dt_ms;
        let fired: bool;
        match self.mode {
            TimerMode::Once => {
                fired = self.elapsed_ms < self.duration_ms && total >= self.duration_ms;
                if total >= self.duration_ms {
                    self.elapsed_ms = self.duration_ms;
                } else {
                    self.elapsed_ms = total;
                }
            },
            TimerMode::Repeating => {
                fired = total >= self.duration_ms;
                if total >= self.duration_ms {
                    self.elapsed_ms = total % self.duration_ms;
                } else {
                    self.elapsed_ms = total;
                }
            },
        }
        self.fired = fired;
        fired
    }

    /// Whether the last tick completed the timer.
    pub fn just_finished(&self) -> (r: bool)
        ensures
            r == self.fired,
    {
        self.fired
    }

    /// Whether the timer has reached its duration: for a one-shot timer,
    /// ever; for a repeating timer, in the last tick.
    pub fn finished(&self) -> (r: bool)
        ensures
            r == match self.mode {
                TimerMode::Once => self.elapsed_ms >= self.duration_ms,
                TimerMode::Repeating => self.fired,
            },
    {
        match self.mode {
            TimerMode::Once => self.elapsed_ms >= self.duration_ms,
            TimerMode::Repeating => self.fired,
        }
    }

    /// Rewinds to the start without changing duration or mode.
    pub fn reset(&mut self)
        ensures
            *final(self) == (TickTimer { elapsed_ms: 0, fired: false, ..*old(self) }),
    {
        self.elapsed_ms = 0;
        self.fired = false;
    }
}

/// A one-shot timer signals exactly once: once a tick has completed it, no
/// later tick signals again, whatever time the later ticks bring.
pub proof fn lemma_once_signals_once(t: TickTimer, dt1: int, dt2: int)
    requires
        t.mode == TimerMode::Once,
        dt1 >= 0,
        dt2 >= 0,
        tick_fires(t, dt1),
    ensures
        !tick_fires(tick_spec(t, dt1), dt2),
{
}

/// A repeating timer keeps its phase: after a completing tick, the elapsed
/// remainder is what overflowed past the period.
pub proof fn lemma_repeating_keeps_phase(t: TickTimer, dt: int)
    requires
        timer_wf(t),
        t.mode == TimerMode::Repeating,
        dt >= 0,
        tick_fires(t, dt),
    ensures
        tick_spec(t, dt).elapsed_ms == (t.elapsed_ms + dt) % (t.duration_ms as int),
{
}

} // verus!
