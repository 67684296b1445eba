//! Projectile lifecycle: screen-wrap teleporting with mirrored coordinates,
//! lifetime countdown, wrap counting with a despawn threshold, the
//! returning boomerang that arms after wrapping or after enough travel, and
//! the shot cooldown.

use vstd::prelude::*;

use crate::mathx::{div_trunc, div_trunc_i64, isqrt, sqrt_floor, UNIT};
use crate::steering::{MAX_TICK_MS, VEL_LIMIT};
use crate::vec2::{dist_sq_spec, in_bounds, norm_sq, unit_or_zero_spec, Vec2i, COORD_LIMIT};

verus! {

/// Accumulated lifetimes and travel distances stay within this bound.
pub const TIME_LIMIT: i64 = 0x100_0000_0000;

/// Where a wrap-tracked entity at `p` ends up against a play field of half
/// extents `bx` and `by` (margins included), and how many wrap events that
/// emits: crossing a horizontal boundary teleports to the opposite edge and
/// mirrors the x coordinate; crossing a vertical boundary mirrors y. The
/// four boundary checks run in order on the running value.
pub open spec fn wrap_spec(p: Vec2i, bx: int, by: int) -> (Vec2i, int) {
    let x0 = p.x as int;
    let y0 = p.y as int;
    let hit1 = y0 < -by;
    let x1 = if hit1 { -x0 } else { x0 };
    let y1 = if hit1 { by } else { y0 };
    let hit2 = y1 > by;
    let x2 = if hit2 { -x1 } else { x1 };
    let y2 = if hit2 { -by } else { y1 };
    let hit3 = x2 < -bx;
    let x3 = if hit3 { bx } else { x2 };
    let y3 = if hit3 { -y2 } else { y2 };
    let hit4 = x3 > bx;
    let x4 = if hit4 { -bx } else { x3 };
    let y4 = if hit4 { -y3 } else { y3 };
    let wraps = (if hit1 { 1int } else { 0int }) + (if hit2 { 1int } else { 0int }) + (if hit3 {
        1int
    } else {
        0int
    }) + (if hit4 { 1int } else { 0int });
    ((Vec2i { x: x4 as i64, y: y4 as i64 }), wraps)
}

/// Teleports an entity that crossed a play-field boundary to the opposite
/// edge, mirroring the perpendicular coordinate, and counts the wrap
/// events to emit for it.
pub fn wrap_position(p: Vec2i, bx: i64, by: i64) -> (r: (Vec2i, u32))
    requires
        in_bounds(p),
        0 <= bx <= COORD_LIMIT,
        0 <= by <= COORD_LIMIT,
    ensures
        (r.0, r.1 as int) == wrap_spec(p, bx as int, by as int),
        in_bounds(r.0),
{
    let mut x = p.x;
    let mut y = p.y;
    let mut wraps: u32 = 0;
    if y < -by {
        y = by;
        x = -x;
        wraps = wraps + 1;
    }
    if (y > by) {
        y = -by;
        x = -x;
        wraps = wraps + 1;
    }
    if x < -bx {
        x = bx;
        y = -y;
        wraps = wraps + 1;
    }
    if (x > bx) {
        x = -bx;
        y = -y;
        wraps = wraps + 1;
    }
    (Vec2i { x, y }, wraps)
}

/// A finite lifetime counting down to despawn.
#[derive(Clone, Copy, Debug, PartialEq, Eq, Structural)]
pub struct Lifetime {
    pub remaining_ms: i64,
}

impl Lifetime {
    pub fn new(remaining_ms: i64) -> (r: Lifetime)
        ensures
            r == (Lifetime { remaining_ms }),
    {
        Lifetime { remaining_ms }
    }

    /// Counts down one tick; the projectile despawns once the remainder
    /// goes negative.
    pub fn tick(&mut self, dt_ms: u64) -> (expired: bool)
        requires
            -TIME_LIMIT <= old(self).remaining_ms <= TIME_LIMIT,
            dt_ms <= MAX_TICK_MS,
        ensures
            final(self).remaining_ms == old(self).remaining_ms - dt_ms,
            expired == (final(self).remaining_ms < 0),
    {
        self.remaining_ms = self.remaining_ms - (dt_ms as i64);
        self.remaining_ms < 0
    }
}

/// Wrap bookkeeping of a projectile whose lifetime is gated by wrap count
/// rather than by time.
#[derive(Clone, Copy, Debug, PartialEq, Eq, Structural)]
pub struct WrapTracker {
    pub count: u32,
    pub max_wraps: u32,
}

impl WrapTracker {
    /// A fresh tracker that tolerates `max_wraps` wraps.
    pub fn new(max_wraps: u32) -> (r: WrapTracker)
        ensures
            r == (WrapTracker { count: 0, max_wraps }),
    {
        WrapTracker { count: 0, max_wraps }
    }

    /// Accumulates the wrap events of one tick.
    pub fn record_wraps(&mut self, n: u32)
        requires
            old(self).count + n <= u32::MAX,
        ensures
            *final(self) == (WrapTracker { count: (old(self).count + n) as u32, ..*old(self) }),
    {
        self.count = self.count + n;
    }

    /// Whether the projectile has wrapped more often than it tolerates and
    /// despawns at this check.
    pub fn should_despawn(&self) -> (r: bool)
        ensures
            r == (self.count > self.max_wraps),
    {
        self.count > self.max_wraps
    }
}

/// A projectile that tolerates one wrap survives the check after its first
/// wrap and is removed by the check right after its second wrap event.
pub proof fn lemma_max_wrap_one_despawns_after_second(t: WrapTracker)
    requires
        t.count == 0,
        t.max_wraps == 1,
    ensures
        !((t.count + 1) > t.max_wraps),
        (t.count + 2) > t.max_wraps,
{
}

/// The returning projectile: it accumulates travel distance, and becomes
/// lethal ("armed") once it has wrapped or traveled past its configured
/// range, at which point it heads back toward the player.
#[derive(Clone, Copy, Debug, PartialEq, Eq, Structural)]
pub struct Boomerang {
    pub traveled: i64,
    pub max_distance: i64,
    pub armed: bool,
}

/// Armed state after seeing the wrap counter: wrapping arms, and arming an
/// already-armed boomerang changes nothing.
pub open spec fn armed_after_wraps(armed: bool, wrap_count: int) -> bool {
    armed || wrap_count > 0
}

/// The scalar speed of a velocity: the rounded-down length.
pub open spec fn speed_of(vel: Vec2i) -> int {
    sqrt_floor(norm_sq(vel))
}

/// Whether this flight tick takes the boomerang past its range.
pub open spec fn fly_turns(b: Boomerang, vel: Vec2i, dt_ms: int) -> bool {
    b.traveled + div_trunc(speed_of(vel) * dt_ms, 1000) > b.max_distance
}

/// The velocity after a flight tick: unchanged while in range; turned
/// toward the player at the same speed once past it.
pub open spec fn fly_velocity(b: Boomerang, vel: Vec2i, pos: Vec2i, player: Vec2i, dt_ms: int)
    -> Vec2i {
    if fly_turns(b, vel, dt_ms) {
        let u = unit_or_zero_spec(
            Vec2i { x: (player.x - pos.x) as i64, y: (player.y - pos.y) as i64 },
        );
        (Vec2i {
            x: div_trunc(u.x * speed_of(vel), UNIT as int) as i64,
            y: div_trunc(u.y * speed_of(vel), UNIT as int) as i64,
        })
    } else {
        vel
    }
}

impl Boomerang {
    /// A fresh boomerang, unarmed and with nothing traveled.
    pub fn new(max_distance: i64) -> (r: Boomerang)
        ensures
            r == (Boomerang { traveled: 0, max_distance, armed: false }),
    {
        Boomerang { traveled: 0, max_distance, armed: false }
    }

    /// Arms the boomerang once its wrap counter is positive; arming is
    /// idempotent.
    pub fn arm_after_wraps(&mut self, wrap_count: u32)
        ensures
            *final(self) == (Boomerang {
                armed: armed_after_wraps(old(self).armed, wrap_count as int),
                ..*old(self)
            }),
    {
        if wrap_count > 0 {
            self.armed = true;
        }
    }

    /// One flight tick: travel accumulates by `speed * dt`; past the
    /// configured range the boomerang arms and its velocity is redirected
    /// toward the player at unchanged speed.
    pub fn fly(&mut self, vel: Vec2i, pos: Vec2i, player: Vec2i, dt_ms: u64) -> (r: Vec2i)
        requires
            -VEL_LIMIT <= vel.x <= VEL_LIMIT,
            -VEL_LIMIT <= vel.y <= VEL_LIMIT,
            in_bounds(pos),
            in_bounds(player),
            0 <= old(self).traveled <= TIME_LIMIT,
            -TIME_LIMIT <= old(self).max_distance <= TIME_LIMIT,
            dt_ms <= MAX_TICK_MS,
        ensures
            final(self).traveled == old(self).traveled + div_trunc(
                speed_of(vel) * dt_ms,
                1000,
            ),
            final(self).max_distance == old(self).max_distance,
            final(self).armed == (old(self).armed || fly_turns(*old(self), vel, dt_ms as int)),
            r == fly_velocity(*old(self), vel, pos, player, dt_ms as int),
    {
        let speed_sq: u64 = vel.len_sq();
        let speed: u64 = isqrt(speed_sq);
        proof {
            assert(speed < 0x8000_0000) by (nonlinear_arith)
                requires
                    speed * speed <= speed_sq < 0x4000_0000_0000_0000u64,
            ;
            assert(0 <= (speed as int) * (dt_ms as int) <= 0x7_0000_0000_0000)
                by (nonlinear_arith)
                requires
                    0 <= speed < 0x8000_0000u64,
                    0 <= dt_ms <= 60_000u64,
            ;
            vstd::arithmetic::div_mod::lemma_div_is_ordered(
                (speed as int) * (dt_ms as int),
                0x7_0000_0000_0000,
                1000,
            );
            vstd::arithmetic::div_mod::lemma_div_pos_is_pos((speed as int) * (dt_ms as int), 1000);
        }
        let advance: i64 = ((speed as i64) * (dt_ms as i64)) / 1000;
        self.traveled = self.traveled + advance;
        if self.traveled > self.max_distance {
            self.armed = true;
            let u = player.sub(pos).unit_or_zero();
            proof {
                assert(-(1000 * (speed as int)) <= u.x * (speed as int) <= 1000 * (speed as int)
                    && -(1000 * (speed as int)) <= u.y * (speed as int) <= 1000 * (speed as int))
                    by (nonlinear_arith)
                    requires
                        -1000i64 <= u.x <= 1000i64,
                        -1000i64 <= u.y <= 1000i64,
                        0 <= speed < 0x8000_0000u64,
                ;
                crate::mathx::lemma_div_trunc_abs_le(
                    u.x * (speed as int),
                    UNIT as int,
                    speed as int,
                );
                crate::mathx::lemma_div_trunc_abs_le(
                    u.y * (speed as int),
                    UNIT as int,
                    speed as int,
                );
            }
            Vec2i {
                x: div_trunc_i64(u.x * (speed as i64), UNIT),
                y: div_trunc_i64(u.y * (speed as i64), UNIT),
            }
        } else {
            vel
        }
    }

    /// Whether the returning boomerang has come back: past its range and
    /// within the pickup distance of the player, where it despawns.
    pub fn back_at_player(&self, pos: Vec2i, player: Vec2i) -> (r: bool)
        requires
            in_bounds(pos),
            in_bounds(player),
        ensures
            r == (self.traveled > self.max_distance && dist_sq_spec(pos, player) < 256),
    {
        self.traveled > self.max_distance && pos.dist_sq(player) < 256
    }
}

/// Whether a projectile that despawns on confirmed contact goes now: it
/// carries damage (is armed) and something overlaps it.
pub fn despawn_on_contact(armed: bool, contact_count: usize) -> (r: bool)
    ensures
        r == (armed && contact_count > 0),
{
    armed && contact_count > 0
}

/// The random aim deviation of one shot: a uniform draw across the spread,
/// centered on the aim, so the deviation lies in `[-spread / 2, spread / 2)`
/// (in the caller's angle unit).
pub fn roll_spread(spread: i64) -> (r: i64)
    requires
        0 <= spread <= 0x1_0000_0000,
    ensures
        spread >= 1 ==> -(spread / 2) <= r < spread - spread / 2,
        spread == 0 ==> r == 0,
{
    if spread == 0 {
        return 0;
    }
    let half = spread / 2;
    let draw = crate::perimeter::sample_below(spread as u64);
    (draw as i64) - half
}

/// The player's shot cooldown: holding the trigger drains it; each time it
/// reaches zero a shot fires and the firing rate is added back, so the
/// cadence is kept; releasing the trigger clears it.
#[derive(Clone, Copy, Debug, PartialEq, Eq, Structural)]
pub struct ShootControl {
    pub cooldown_ms: i64,
    pub rate_ms: i64,
}

/// A cooldown state the tick accepts.
pub open spec fn shoot_wf(s: ShootControl) -> bool {
    &&& 1 <= s.rate_ms <= TIME_LIMIT
    &&& -TIME_LIMIT <= s.cooldown_ms <= TIME_LIMIT
}

impl ShootControl {
    pub fn new(rate_ms: i64) -> (r: ShootControl)
        requires
            1 <= rate_ms <= TIME_LIMIT,
        ensures
            r == (ShootControl { cooldown_ms: 0, rate_ms }),
            shoot_wf(r),
    {
        ShootControl { cooldown_ms: 0, rate_ms }
    }

    /// One tick of trigger handling. The cooldown saturates at the time
    /// bound, a machine limit no reachable play approaches.
    pub fn tick(&mut self, pressed: bool, dt_ms: u64) -> (fire: bool)
        requires
            shoot_wf(*old(self)),
            dt_ms <= MAX_TICK_MS,
        ensures
            final(self).rate_ms == old(self).rate_ms,
            !pressed ==> !fire && final(self).cooldown_ms == 0,
            pressed ==> fire == (old(self).cooldown_ms - dt_ms <= 0),
            pressed && fire ==> final(self).cooldown_ms == vstd::math::max(
                old(self).cooldown_ms - dt_ms + old(self).rate_ms,
                -TIME_LIMIT as int,
            ),
            pressed && !fire ==> final(self).cooldown_ms == old(self).cooldown_ms - dt_ms,
            shoot_wf(*final(self)),
    {
        if !pressed {
            self.cooldown_ms = 0;
            return false;
        }
        let drained = self.cooldown_ms - (dt_ms as i64);
        if drained <= 0 {
            let refilled = drained + self.rate_ms;
            if refilled >= -TIME_LIMIT {
                self.cooldown_ms = refilled;
            } else {
                self.cooldown_ms = -TIME_LIMIT;
            }
            true
        } else {
            self.cooldown_ms = drained;
            false
        }
    }
}

} // verus!
