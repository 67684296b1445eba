//! The wave scheduler: a time-ascending table of waves drives population
//! growth. A running clock accumulates gameplay time; when it passes the
//! next unconsumed wave's timestamp, one spawn-wave event is emitted and
//! the pointer advances — never backward, and at most one wave per tick.

use vstd::prelude::*;

use crate::perimeter::{on_perimeter, spawn_point_on_outline, RES_HEIGHT, RES_WIDTH,
    SPAWN_MARGIN};
use crate::steering::MAX_TICK_MS;
use crate::vec2::Vec2i;

verus! {

/// The wave clock stays within this bound.
pub const CLOCK_LIMIT: u64 = 0x4_0000_0000_0000;

/// Most enemies of one type a single wave may ask for.
pub const MAX_WAVE_COUNT: u32 = 10_000;

/// One table entry: when it triggers, and how many enemies of each type it
/// spawns.
#[derive(Clone, Copy, Debug, PartialEq, Eq, Structural)]
pub struct Wave {
    pub timestamp_ms: u64,
    pub ghosts: u32,
    pub coffins: u32,
    pub hands: u32,
}

impl Wave {
    pub fn new(timestamp_ms: u64, ghosts: u32, coffins: u32, hands: u32) -> (r: Wave)
        ensures
            r == (Wave { timestamp_ms, ghosts, coffins, hands }),
    {
        Wave { timestamp_ms, ghosts, coffins, hands }
    }
}

/// A wave table the scheduler accepts: sorted ascending by timestamp, with
/// bounded timestamps and counts.
pub open spec fn table_wf(s: Seq<Wave>) -> bool {
    &&& forall|i: int, j: int|
        0 <= i < j < s.len() ==> #[trigger] s[i].timestamp_ms <= #[trigger] s[j].timestamp_ms
    &&& forall|i: int| 0 <= i < s.len() ==> (#[trigger] s[i]).timestamp_ms <= CLOCK_LIMIT
    &&& forall|i: int|
        0 <= i < s.len() ==> (#[trigger] s[i]).ghosts <= MAX_WAVE_COUNT && s[i].coffins
            <= MAX_WAVE_COUNT && s[i].hands <= MAX_WAVE_COUNT
}

/// Appends a wave to a table, keeping it sorted: the new timestamp may not
/// precede the last one.
pub fn push_wave(waves: &mut Vec<Wave>, w: Wave)
    requires
        table_wf(old(waves)@),
        old(waves)@.len() > 0 ==> old(waves)@.last().timestamp_ms <= w.timestamp_ms,
        w.timestamp_ms <= CLOCK_LIMIT,
        w.ghosts <= MAX_WAVE_COUNT,
        w.coffins <= MAX_WAVE_COUNT,
        w.hands <= MAX_WAVE_COUNT,
        old(waves)@.len() < usize::MAX,
    ensures
        final(waves)@ == old(waves)@.push(w),
        table_wf(final(waves)@),
{
    let ghost prior = waves@;
    waves.push(w);
    proof {
        assert forall|i: int, j: int| 0 <= i < j < waves@.len() implies #[trigger] waves@[i]
            .timestamp_ms <= #[trigger] waves@[j].timestamp_ms by {
            if j < prior.len() as int {
            } else {
                if i < prior.len() as int - 1 {
                    assert(prior[i].timestamp_ms <= prior[prior.len() - 1].timestamp_ms);
                }
            }
        }
    }
}

/// The gameplay clock and the wave pointer, reset together on entering
/// gameplay.
#[derive(Clone, Copy, Debug, PartialEq, Eq, Structural)]
pub struct WaveScheduler {
    pub clock_ms: u64,
    pub next_index: usize,
}

impl WaveScheduler {
    /// A scheduler at the start of a session.
    pub fn new() -> (r: WaveScheduler)
        ensures
            r == (WaveScheduler { clock_ms: 0, next_index: 0 }),
    {
        WaveScheduler { clock_ms: 0, next_index: 0 }
    }

    /// Rewinds clock and pointer to zero, as entering gameplay does.
    pub fn reset(&mut self)
        ensures
            *final(self) == (WaveScheduler { clock_ms: 0, next_index: 0 }),
    {
        self.clock_ms = 0;
        self.next_index = 0;
    }

    /// One tick of scheduling: while unconsumed waves remain, the clock
    /// accumulates `dt_ms`, and if it then exceeds the next wave's
    /// timestamp that single wave's index is emitted and the pointer
    /// advances by one — it never rewinds, and even a clock that overshot
    /// several thresholds emits only this one wave now (the pointer catches
    /// up on later ticks). Past the end of the table nothing changes.
    pub fn tick(&mut self, waves: &Vec<Wave>, dt_ms: u64) -> (r: Option<usize>)
        requires
            table_wf(waves@),
            old(self).next_index <= waves@.len(),
            old(self).clock_ms <= CLOCK_LIMIT + MAX_TICK_MS * 0x1_0000_0000,
            dt_ms <= MAX_TICK_MS,
        ensures
            old(self).next_index == waves@.len() ==> r.is_none() && *final(self) == *old(self),
            old(self).next_index < waves@.len() ==> {
                &&& final(self).clock_ms == old(self).clock_ms + dt_ms
                &&& (final(self).clock_ms > waves@[old(self).next_index as int].timestamp_ms
                    ==> r == Some(old(self).next_index) && final(self).next_index == old(
                    self,
                ).next_index + 1)
                &&& (final(self).clock_ms <= waves@[old(self).next_index as int].timestamp_ms
                    ==> r.is_none() && final(self).next_index == old(self).next_index)
            },
            final(self).next_index >= old(self).next_index,
            final(self).next_index <= old(self).next_index + 1,
            final(self).next_index <= waves@.len(),
    {
        if self.next_index >= waves.len() {
            return None;
        }
        let wave = waves[self.next_index];
        self.clock_ms = self.clock_ms + dt_ms;
        if self.clock_ms > wave.timestamp_ms {
            let fired = self.next_index;
            self.next_index = self.next_index + 1;
            Some(fired)
        } else {
            None
        }
    }
}

/// Which enemy type a spawn asks for.
#[derive(Clone, Copy, Debug, PartialEq, Eq, Structural)]
pub enum EnemyKind {
    GhostEnemy,
    Coffin,
    Hand,
}

/// One spawn intent of a consumed wave: an enemy type and a position on
/// the offscreen outline.
#[derive(Clone, Copy, Debug, PartialEq, Eq, Structural)]
pub struct EnemySpawn {
    pub kind: EnemyKind,
    pub pos: Vec2i,
}

/// Whether a spawn position lies on the offscreen spawn outline.
pub open spec fn on_spawn_outline(v: Vec2i) -> bool {
    on_perimeter(
        (Vec2i { x: 0, y: 0 }),
        (RES_WIDTH + SPAWN_MARGIN) as int,
        (RES_HEIGHT + SPAWN_MARGIN) as int,
        v,
    )
}

/// Consumes one wave: one spawn intent per requested enemy, each placed
/// uniformly on the offscreen outline — first the ghosts, then the
/// coffins, then the hands.
pub fn wave_spawns(wave: &Wave) -> (r: Vec<EnemySpawn>)
    requires
        wave.ghosts <= MAX_WAVE_COUNT,
        wave.coffins <= MAX_WAVE_COUNT,
        wave.hands <= MAX_WAVE_COUNT,
    ensures
        r@.len() == wave.ghosts + wave.coffins + wave.hands,
        forall|i: int|
            0 <= i < wave.ghosts ==> (#[trigger] r@[i]).kind == EnemyKind::GhostEnemy,
        forall|i: int|
            wave.ghosts <= i < wave.ghosts + wave.coffins ==> (#[trigger] r@[i]).kind
                == EnemyKind::Coffin,
        forall|i: int|
            wave.ghosts + wave.coffins <= i < r@.len() ==> (#[trigger] r@[i]).kind
                == EnemyKind::Hand,
        forall|i: int| 0 <= i < r@.len() ==> on_spawn_outline((#[trigger] r@[i]).pos),
{
    let mut spawns: Vec<EnemySpawn> = Vec::new();
    let mut i: u32 = 0;
    while i < wave.ghosts
        invariant
            0 <= i <= wave.ghosts,
            spawns@.len() == i,
            forall|j: int| 0 <= j < i ==> (#[trigger] spawns@[j]).kind == EnemyKind::GhostEnemy,
            forall|j: int| 0 <= j < spawns@.len() ==> on_spawn_outline((#[trigger] spawns@[j]).pos),
        decreases wave.ghosts - i,
    {
        let pos = spawn_point_on_outline();
        spawns.push(EnemySpawn { kind: EnemyKind::GhostEnemy, pos });
        i = i + 1;
    }
    let mut i: u32 = 0;
    while i < wave.coffins
        invariant
            0 <= i <= wave.coffins,
            spawns@.len() == wave.ghosts + i,
            forall|j: int| 0 <= j < wave.ghosts ==> (#[trigger] spawns@[j]).kind == EnemyKind::GhostEnemy,
            forall|j: int|
                wave.ghosts <= j < spawns@.len() ==> (#[trigger] spawns@[j]).kind
                    == EnemyKind::Coffin,
            forall|j: int| 0 <= j < spawns@.len() ==> on_spawn_outline((#[trigger] spawns@[j]).pos),
        decreases wave.coffins - i,
    {
        let pos = spawn_point_on_outline();
        spawns.push(EnemySpawn { kind: EnemyKind::Coffin, pos });
        i = i + 1;
    }
    let mut i: u32 = 0;
    while i < wave.hands
        invariant
            0 <= i <= wave.hands,
            spawns@.len() == wave.ghosts + wave.coffins + i,
            forall|j: int| 0 <= j < wave.ghosts ==> (#[trigger] spawns@[j]).kind == EnemyKind::GhostEnemy,
            forall|j: int|
                wave.ghosts <= j < wave.ghosts + wave.coffins ==> (#[trigger] spawns@[j]).kind
                    == EnemyKind::Coffin,
            forall|j: int|
                wave.ghosts + wave.coffins <= j < spawns@.len() ==> (#[trigger] spawns@[j]).kind
                    == EnemyKind::Hand,
            forall|j: int| 0 <= j < spawns@.len() ==> on_spawn_outline((#[trigger] spawns@[j]).pos),
        decreases wave.hands - i,
    {
        let pos = spawn_point_on_outline();
        spawns.push(EnemySpawn { kind: EnemyKind::Hand, pos });
        i = i + 1;
    }
    spawns
}

} // verus!
