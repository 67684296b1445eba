//! Spawning: the stats each archetype is created with, the compiled-in
//! wave table, the coffin that breeds ghosts on its timers, and the hand
//! that fans out finger projectiles.

use vstd::prelude::*;

use crate::mathx::{div_trunc, div_trunc_i64, UNIT};
use crate::steering::{EnemyClass, MAX_TICK_MS};
use crate::timer::{tick_fires, tick_spec, timer_wf, TickTimer, TimerMode};
use crate::vec2::Vec2i;
use crate::waves::{push_wave, table_wf, EnemyKind, Wave};

verus! {

/// The stats a combatant spawns with. A hitbox damage of zero stands for
/// an enemy whose body deals no contact damage itself (its projectiles or
/// spawn do).
#[derive(Clone, Copy, Debug, PartialEq, Eq, Structural)]
pub struct CharacterStats {
    pub health: i64,
    pub speed: i64,
    pub class: EnemyClass,
    pub hitbox_damage: i64,
}

/// The base every character starts from before an archetype overrides it.
pub fn character_base_stats() -> (r: CharacterStats)
    ensures
        r == (CharacterStats { health: 20, speed: 0, class: EnemyClass::Melee, hitbox_damage: 0 }),
{
    CharacterStats { health: 20, speed: 0, class: EnemyClass::Melee, hitbox_damage: 0 }
}

/// A ghost: fragile, quick, always closing in, and lethal on contact.
pub fn ghost_stats() -> (r: CharacterStats)
    ensures
        r == (CharacterStats { health: 2, speed: 64, class: EnemyClass::Melee, hitbox_damage: 1 }),
{
    CharacterStats { health: 2, speed: 64, class: EnemyClass::Melee, hitbox_damage: 1 }
}

/// A coffin: sturdy, slow, holds its distance, and harmless to touch — its
/// spawned ghosts do the damage.
pub fn coffin_stats() -> (r: CharacterStats)
    ensures
        r == (CharacterStats {
            health: 15,
            speed: 48,
            class: EnemyClass::Ranged { max_range: 64 },
            hitbox_damage: 0,
        }),
{
    CharacterStats {
        health: 15,
        speed: 48,
        class: EnemyClass::Ranged { max_range: 64 },
        hitbox_damage: 0,
    }
}

/// A hand: tough, keeps a long distance, and shoots fingers instead of
/// touching.
pub fn hand_stats() -> (r: CharacterStats)
    ensures
        r == (CharacterStats {
            health: 20,
            speed: 48,
            class: EnemyClass::Ranged { max_range: 96 },
            hitbox_damage: 0,
        }),
{
    CharacterStats {
        health: 20,
        speed: 48,
        class: EnemyClass::Ranged { max_range: 96 },
        hitbox_damage: 0,
    }
}

/// The stats of the requested enemy type.
pub fn enemy_stats(kind: EnemyKind) -> (r: CharacterStats)
    ensures
        kind == EnemyKind::GhostEnemy ==> r == (CharacterStats {
            health: 2,
            speed: 64,
            class: EnemyClass::Melee,
            hitbox_damage: 1,
        }),
        kind == EnemyKind::Coffin ==> r == (CharacterStats {
            health: 15,
            speed: 48,
            class: EnemyClass::Ranged { max_range: 64 },
            hitbox_damage: 0,
        }),
        kind == EnemyKind::Hand ==> r == (CharacterStats {
            health: 20,
            speed: 48,
            class: EnemyClass::Ranged { max_range: 96 },
            hitbox_damage: 0,
        }),
{
    match kind {
        EnemyKind::GhostEnemy => ghost_stats(),
        EnemyKind::Coffin => coffin_stats(),
        EnemyKind::Hand => hand_stats(),
    }
}

/// The player: one hit point, the fastest feet on the field, no contact
/// damage (the boomerang carries it).
pub fn player_stats() -> (r: CharacterStats)
    ensures
        r == (CharacterStats { health: 1, speed: 96, class: EnemyClass::Melee, hitbox_damage: 0 }),
{
    CharacterStats { health: 1, speed: 96, class: EnemyClass::Melee, hitbox_damage: 0 }
}

/// The compiled-in wave table: one wave every three seconds from the
/// second one on, ramping from a couple of ghosts to a finale of ghosts,
/// coffins and hands.
pub fn default_waves() -> (r: Vec<Wave>)
    ensures
        table_wf(r@),
        r@.len() == 46,
{
    let mut w: Vec<Wave> = Vec::new();
    push_wave(&mut w, Wave::new(2_000, 2, 0, 0));
    push_wave(&mut w, Wave::new(5_000, 3, 0, 0));
    push_wave(&mut w, Wave::new(8_000, 4, 0, 0));
    push_wave(&mut w, Wave::new(11_000, 5, 0, 0));
    push_wave(&mut w, Wave::new(14_000, 6, 0, 0));
    push_wave(&mut w, Wave::new(17_000, 6, 1, 0));
    push_wave(&mut w, Wave::new(20_000, 7, 1, 0));
    push_wave(&mut w, Wave::new(23_000, 7, 2, 0));
    push_wave(&mut w, Wave::new(26_000, 8, 2, 0));
    push_wave(&mut w, Wave::new(29_000, 8, 3, 0));
    push_wave(&mut w, Wave::new(32_000, 9, 3, 1));
    push_wave(&mut w, Wave::new(35_000, 9, 3, 2));
    push_wave(&mut w, Wave::new(38_000, 10, 3, 2));
    push_wave(&mut w, Wave::new(41_000, 10, 4, 2));
    push_wave(&mut w, Wave::new(44_000, 11, 4, 3));
    push_wave(&mut w, Wave::new(47_000, 12, 4, 3));
    push_wave(&mut w, Wave::new(50_000, 12, 5, 3));
    push_wave(&mut w, Wave::new(53_000, 13, 5, 4));
    push_wave(&mut w, Wave::new(56_000, 14, 5, 4));
    push_wave(&mut w, Wave::new(59_000, 14, 6, 5));
    push_wave(&mut w, Wave::new(62_000, 15, 6, 5));
    push_wave(&mut w, Wave::new(65_000, 16, 6, 6));
    push_wave(&mut w, Wave::new(68_000, 16, 7, 6));
    push_wave(&mut w, Wave::new(71_000, 17, 7, 6));
    push_wave(&mut w, Wave::new(74_000, 18, 7, 7));
    push_wave(&mut w, Wave::new(77_000, 18, 8, 7));
    push_wave(&mut w, Wave::new(80_000, 19, 8, 8));
    push_wave(&mut w, Wave::new(83_000, 20, 8, 8));
    push_wave(&mut w, Wave::new(86_000, 20, 9, 8));
    push_wave(&mut w, Wave::new(89_000, 21, 9, 9));
    push_wave(&mut w, Wave::new(92_000, 22, 9, 9));
    push_wave(&mut w, Wave::new(95_000, 22, 10, 9));
    push_wave(&mut w, Wave::new(98_000, 23, 10, 10));
    push_wave(&mut w, Wave::new(101_000, 24, 10, 10));
    push_wave(&mut w, Wave::new(104_000, 25, 10, 10));
    push_wave(&mut w, Wave::new(107_000, 25, 11, 11));
    push_wave(&mut w, Wave::new(110_000, 26, 11, 12));
    push_wave(&mut w, Wave::new(113_000, 26, 12, 12));
    push_wave(&mut w, Wave::new(116_000, 27, 12, 13));
    push_wave(&mut w, Wave::new(119_000, 28, 12, 14));
    push_wave(&mut w, Wave::new(122_000, 28, 13, 14));
    push_wave(&mut w, Wave::new(125_000, 29, 13, 15));
    push_wave(&mut w, Wave::new(128_000, 30, 13, 15));
    push_wave(&mut w, Wave::new(131_000, 30, 14, 16));
    push_wave(&mut w, Wave::new(134_000, 31, 14, 17));
    push_wave(&mut w, Wave::new(137_000, 32, 15, 18));
    w
}

/// A coffin's breeding state: after an initial delay, a burst of ghosts
/// every period.
#[derive(Clone, Copy, Debug, PartialEq, Eq, Structural)]
pub struct CoffinSpawner {
    pub initial: TickTimer,
    pub rate: TickTimer,
    pub count: u32,
    pub spacing: i64,
}

/// A coffin spawner the tick accepts: a one-shot initial delay gating a
/// repeating period.
pub open spec fn coffin_spawner_wf(c: CoffinSpawner) -> bool {
    &&& timer_wf(c.initial)
    &&& timer_wf(c.rate)
    &&& c.initial.mode == TimerMode::Once
    &&& c.rate.mode == TimerMode::Repeating
}

impl CoffinSpawner {
    /// The breeding cadence coffins spawn with: a burst of five ghosts one
    /// second after arrival and every five seconds after that, placed
    /// thirty-two units out.
    pub fn new() -> (r: CoffinSpawner)
        ensures
            coffin_spawner_wf(r),
            r.initial == (TickTimer {
                duration_ms: 1_000,
                elapsed_ms: 0,
                mode: TimerMode::Once,
                fired: false,
            }),
            r.rate == (TickTimer {
                duration_ms: 5_000,
                elapsed_ms: 0,
                mode: TimerMode::Repeating,
                fired: false,
            }),
            r.count == 5,
            r.spacing == 32,
    {
        CoffinSpawner {
            initial: TickTimer::new(1_000, TimerMode::Once),
            rate: TickTimer::new(5_000, TimerMode::Repeating),
            count: 5,
            spacing: 32,
        }
    }

    /// One tick of breeding: the initial delay always advances; the period
    /// advances only once the delay has passed; a burst of `count` ghosts
    /// goes out the tick the delay completes and each tick the period
    /// completes.
    pub fn tick(&mut self, dt_ms: u64) -> (r: Option<u32>)
        requires
            coffin_spawner_wf(*old(self)),
            dt_ms <= MAX_TICK_MS,
        ensures
            coffin_spawner_wf(*final(self)),
            final(self).initial == tick_spec(old(self).initial, dt_ms as int),
            final(self).count == old(self).count,
            final(self).spacing == old(self).spacing,
            final(self).initial.elapsed_ms >= final(self).initial.duration_ms
                ==> final(self).rate == tick_spec(old(self).rate, dt_ms as int),
            final(self).initial.elapsed_ms < final(self).initial.duration_ms ==> final(self).rate
                == old(self).rate,
            r == if tick_fires(old(self).initial, dt_ms as int) || (old(self).initial.elapsed_ms
                + dt_ms >= old(self).initial.duration_ms && tick_fires(
                old(self).rate,
                dt_ms as int,
            )) {
                Some(old(self).count)
            } else {
                None::<u32>
            },
    {
        let initial_fired = self.initial.tick(dt_ms);
        let mut rate_fired = false;
        if self.initial.finished() {
            rate_fired = self.rate.tick(dt_ms);
        }
        if initial_fired || rate_fired {
            Some(self.count)
        } else {
            None
        }
    }
}

/// The displacement of one bred ghost from its coffin: a random direction
/// (or the unit x direction when the draw is degenerate) scaled by the
/// spacing — each component stays within the spacing.
pub fn coffin_ghost_offset(spacing: i64) -> (r: Vec2i)
    requires
        0 <= spacing <= 0x10_0000,
    ensures
        -spacing <= r.x <= spacing,
        -spacing <= r.y <= spacing,
{
    let dx: i64 = crate::perimeter::sample_milli() as i64;
    let dy: i64 = crate::perimeter::sample_milli() as i64;
    let dir = Vec2i { x: dx, y: dy };
    let u = if dx == 0 && dy == 0 {
        Vec2i { x: UNIT, y: 0 }
    } else {
        dir.unit_or_zero()
    };
    proof {
        assert(-(spacing * 1000) <= u.x * spacing <= spacing * 1000
            && -(spacing * 1000) <= u.y * spacing <= spacing * 1000) by (nonlinear_arith)
            requires
                -1000i64 <= u.x <= 1000i64,
                -1000i64 <= u.y <= 1000i64,
                0 <= spacing <= 0x10_0000i64,
        ;
        crate::mathx::lemma_div_trunc_abs_le(u.x * spacing, UNIT as int, spacing as int);
        crate::mathx::lemma_div_trunc_abs_le(u.y * spacing, UNIT as int, spacing as int);
    }
    Vec2i {
        x: div_trunc_i64(u.x * spacing, UNIT),
        y: div_trunc_i64(u.y * spacing, UNIT),
    }
}

/// A hand's trigger state: a repeating shot period and how many fingers
/// each volley fans out.
#[derive(Clone, Copy, Debug, PartialEq, Eq, Structural)]
pub struct HandShooter {
    pub rate: TickTimer,
    pub finger_count: u32,
}

/// A hand shooter the tick accepts.
pub open spec fn hand_shooter_wf(h: HandShooter) -> bool {
    &&& timer_wf(h.rate)
    &&& h.rate.mode == TimerMode::Repeating
    &&& h.finger_count <= 0x1000
}

impl HandShooter {
    /// The cadence hands spawn with: five fingers every one and a half
    /// seconds.
    pub fn new() -> (r: HandShooter)
        ensures
            hand_shooter_wf(r),
            r.rate == (TickTimer {
                duration_ms: 1_500,
                elapsed_ms: 0,
                mode: TimerMode::Repeating,
                fired: false,
            }),
            r.finger_count == 5,
    {
        HandShooter { rate: TickTimer::new(1_500, TimerMode::Repeating), finger_count: 5 }
    }

    /// One tick of the trigger: a volley goes out each time the period
    /// completes.
    pub fn tick(&mut self, dt_ms: u64) -> (r: Option<u32>)
        requires
            hand_shooter_wf(*old(self)),
            dt_ms <= MAX_TICK_MS,
        ensures
            hand_shooter_wf(*final(self)),
            final(self).rate == tick_spec(old(self).rate, dt_ms as int),
            final(self).finger_count == old(self).finger_count,
            r == if tick_fires(old(self).rate, dt_ms as int) {
                Some(old(self).finger_count)
            } else {
                None::<u32>
            },
    {
        let fired = self.rate.tick(dt_ms);
        if fired {
            Some(self.finger_count)
        } else {
            None
        }
    }
}

/// The spread positions of one volley: the step indices of the fingers,
/// `-(count / 2)` up to but not including `count / 2`; each finger's aim is
/// the hand's aim rotated by the spread angle times its index.
pub fn volley_indices(finger_count: u32) -> (r: Vec<i64>)
    requires
        finger_count <= 0x1000,
    ensures
        r@.len() == 2 * (finger_count / 2),
        forall|i: int| 0 <= i < r@.len() ==> #[trigger] r@[i] == i - (finger_count / 2),
{
    let half: i64 = (finger_count / 2) as i64;
    let mut r: Vec<i64> = Vec::new();
    let mut idx: i64 = -half;
    while idx < half
        invariant
            -half <= idx <= half,
            0 <= half <= 0x1000,
            r@.len() == idx + half,
            forall|i: int| 0 <= i < r@.len() ==> #[trigger] r@[i] == i - half,
        decreases half - idx,
    {
        r.push(idx);
        idx = idx + 1;
    }
    r
}

} // verus!
