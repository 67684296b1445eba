//! The trail-of-ghost-sprites effect behind fast entities: a spawner drops
//! a fading copy of the sprite at a fixed rate, for a count of copies, for
//! a window of time, or forever; each copy fades out by the smoothing step
//! until it despawns.

use vstd::prelude::*;

use crate::steering::MAX_TICK_MS;
use crate::timer::{tick_fires, tick_spec, timer_wf, TickTimer, TimerMode};

verus! {

/// How long a trail spawner keeps dropping copies.
#[derive(Clone, Copy, Debug, PartialEq, Eq, Structural)]
pub enum TrailSpawnerKind {
    Count { remaining: u32 },
    Window { remaining_ms: i64 },
    Infinite,
}

/// A trail spawner: the drop period, and for how long it runs.
#[derive(Clone, Copy, Debug, PartialEq, Eq, Structural)]
pub struct TrailSpawner {
    pub rate: TickTimer,
    pub kind: TrailSpawnerKind,
}

/// A spawner the tick accepts: a repeating period, a positive remaining
/// count or a bounded window.
pub open spec fn trail_spawner_wf(t: TrailSpawner) -> bool {
    &&& timer_wf(t.rate)
    &&& t.rate.mode == TimerMode::Repeating
    &&& match t.kind {
        TrailSpawnerKind::Count { remaining } => remaining >= 1,
        TrailSpawnerKind::Window { remaining_ms } => -crate::projectile::TIME_LIMIT
            <= remaining_ms <= crate::projectile::TIME_LIMIT,
        TrailSpawnerKind::Infinite => true,
    }
}

/// The spawner kind after one tick in which `spawned` copies were dropped.
pub open spec fn kind_next(kind: TrailSpawnerKind, spawned: bool, dt_ms: int)
    -> TrailSpawnerKind {
    match kind {
        TrailSpawnerKind::Count { remaining } => {
            if spawned {
                (TrailSpawnerKind::Count { remaining: (remaining - 1) as u32 })
            } else {
                kind
            }
        },
        TrailSpawnerKind::Window { remaining_ms } => (TrailSpawnerKind::Window {
            remaining_ms: (remaining_ms - dt_ms) as i64,
        }),
        TrailSpawnerKind::Infinite => kind,
    }
}

/// Whether the spawner is finished after this tick and is removed.
pub open spec fn kind_done(kind: TrailSpawnerKind) -> bool {
    match kind {
        TrailSpawnerKind::Count { remaining } => remaining == 0,
        TrailSpawnerKind::Window { remaining_ms } => remaining_ms < 0,
        TrailSpawnerKind::Infinite => false,
    }
}

impl TrailSpawner {
    /// A spawner dropping a copy every `rate_ms` for as long as `kind`
    /// says.
    pub fn new(rate_ms: u64, kind: TrailSpawnerKind) -> (r: TrailSpawner)
        requires
            1 <= rate_ms <= crate::timer::MAX_DURATION_MS,
            match kind {
                TrailSpawnerKind::Count { remaining } => remaining >= 1,
                TrailSpawnerKind::Window { remaining_ms } => 0 <= remaining_ms
                    <= crate::projectile::TIME_LIMIT,
                TrailSpawnerKind::Infinite => true,
            },
        ensures
            r.rate == (TickTimer {
                duration_ms: rate_ms,
                elapsed_ms: 0,
                mode: TimerMode::Repeating,
                fired: false,
            }),
            r.kind == kind,
            trail_spawner_wf(r),
    {
        TrailSpawner { rate: TickTimer::new(rate_ms, TimerMode::Repeating), kind }
    }

    /// One tick: a copy drops each time the period completes; a counted
    /// spawner is spent after that many drops, a windowed one after its
    /// time runs out, an infinite one never.
    pub fn tick(&mut self, dt_ms: u64) -> (r: (bool, bool))
        requires
            trail_spawner_wf(*old(self)),
            dt_ms <= MAX_TICK_MS,
        ensures
            final(self).rate == tick_spec(old(self).rate, dt_ms as int),
            r.0 == tick_fires(old(self).rate, dt_ms as int),
            final(self).kind == kind_next(old(self).kind, r.0, dt_ms as int),
            r.1 == kind_done(final(self).kind),
            !r.1 ==> trail_spawner_wf(*final(self)),
    {
        let spawned = self.rate.tick(dt_ms);
        let done: bool;
        match self.kind {
            TrailSpawnerKind::Count { remaining } => {
                if spawned {
                    let left = remaining - 1;
                    self.kind = TrailSpawnerKind::Count { remaining: left };
                    done = left == 0;
                } else {
                    done = false;
                }
            },
            TrailSpawnerKind::Window { remaining_ms } => {
                let left = remaining_ms - (dt_ms as i64);
                self.kind = TrailSpawnerKind::Window { remaining_ms: left };
                done = left < 0;
            },
            TrailSpawnerKind::Infinite => {
                done = false;
            },
        }
        (spawned, done)
    }
}

} // verus!
