//! Per-tick movement: velocity integration, friction while not actively
//! moving, and the player's acceleration-capped steering from an input
//! axis.

use vstd::prelude::*;

use crate::mathx::{div_trunc, div_trunc_i64, UNIT};
use crate::steering::{MAX_TICK_MS, RATE_LIMIT, VEL_LIMIT};
use crate::vec2::{in_bounds, move_towards_spec, Vec2i};

verus! {

/// The translation of one tick: `velocity * dt`, with velocities in units
/// per second and `dt` in milliseconds.
pub open spec fn integrate_spec(pos: Vec2i, vel: Vec2i, dt_ms: int) -> Vec2i {
    (Vec2i {
        x: (pos.x + div_trunc(vel.x * dt_ms, 1000)) as i64,
        y: (pos.y + div_trunc(vel.y * dt_ms, 1000)) as i64,
    })
}

/// Advances a position by its velocity for one tick.
pub fn integrate(pos: Vec2i, vel: Vec2i, dt_ms: u64) -> (r: Vec2i)
    requires
        in_bounds(pos),
        -VEL_LIMIT <= vel.x <= VEL_LIMIT,
        -VEL_LIMIT <= vel.y <= VEL_LIMIT,
        dt_ms <= MAX_TICK_MS,
    ensures
        r == integrate_spec(pos, vel, dt_ms as int),
{
    proof {
        assert(-0x0002_0000_0000_0000 <= vel.x * (dt_ms as int) <= 0x0002_0000_0000_0000
            && -0x0002_0000_0000_0000 <= vel.y * (dt_ms as int) <= 0x0002_0000_0000_0000)
            by (nonlinear_arith)
            requires
                -0x0800_0000i64 <= vel.x <= 0x0800_0000i64,
                -0x0800_0000i64 <= vel.y <= 0x0800_0000i64,
                0 <= dt_ms <= 60_000u64,
        ;
        crate::mathx::lemma_div_trunc_le_abs(vel.x * (dt_ms as int), 1000);
        crate::mathx::lemma_div_trunc_le_abs(vel.y * (dt_ms as int), 1000);
    }
    Vec2i {
        x: pos.x + div_trunc_i64(vel.x * (dt_ms as i64), 1000),
        y: pos.y + div_trunc_i64(vel.y * (dt_ms as i64), 1000),
    }
}

/// The friction step cap of one tick: `speed * dt * 10`.
pub open spec fn friction_step(speed: int, dt_ms: int) -> int {
    10 * speed * dt_ms / 1000
}

/// Friction for a character that is not actively moving: its velocity moves
/// toward zero by at most `speed * dt * 10`.
pub fn apply_friction(vel: Vec2i, speed: i64, dt_ms: u64) -> (r: Vec2i)
    requires
        in_bounds(vel),
        0 <= speed <= RATE_LIMIT,
        dt_ms <= MAX_TICK_MS,
    ensures
        r == move_towards_spec(vel, (Vec2i { x: 0, y: 0 }), friction_step(speed as int, dt_ms as int)),
        in_bounds(r),
{
    proof {
        assert(0 <= 10 * speed * (dt_ms as int) <= 630_000_000_000) by (nonlinear_arith)
            requires
                0 <= speed <= 0x10_0000i64,
                0 <= dt_ms <= 60_000u64,
        ;
        vstd::arithmetic::div_mod::lemma_div_is_ordered(
            10 * speed * (dt_ms as int),
            630_000_000_000,
            1000,
        );
        vstd::arithmetic::div_mod::lemma_div_pos_is_pos(10 * speed * (dt_ms as int), 1000);
    }
    let step: i64 = 10 * speed * (dt_ms as i64) / 1000;
    vel.move_towards(Vec2i { x: 0, y: 0 }, step)
}

/// The acceleration cap of the player's own steering: `speed * dt * 20`.
pub open spec fn control_step(speed: int, dt_ms: int) -> int {
    20 * speed * dt_ms / 1000
}

/// The velocity the player steers toward: the input axis (clamped by the
/// caller to at most unit length, scaled by `UNIT`) times full speed.
pub open spec fn control_target(axis: Vec2i, speed: int) -> Vec2i {
    (Vec2i {
        x: div_trunc(axis.x * speed, UNIT as int) as i64,
        y: div_trunc(axis.y * speed, UNIT as int) as i64,
    })
}

/// One tick of player control: with any input, the velocity moves toward
/// the input direction at full speed under the acceleration cap and the
/// player counts as moving; with no input it coasts (friction runs
/// elsewhere) and stops counting as moving.
pub fn player_move(vel: Vec2i, axis: Vec2i, speed: i64, dt_ms: u64) -> (r: (Vec2i, bool))
    requires
        in_bounds(vel),
        -UNIT <= axis.x <= UNIT,
        -UNIT <= axis.y <= UNIT,
        0 <= speed <= RATE_LIMIT,
        dt_ms <= MAX_TICK_MS,
    ensures
        r.1 == !(axis.x == 0 && axis.y == 0),
        axis.x == 0 && axis.y == 0 ==> r.0 == vel,
        !(axis.x == 0 && axis.y == 0) ==> r.0 == move_towards_spec(
            vel,
            control_target(axis, speed as int),
            control_step(speed as int, dt_ms as int),
        ),
        in_bounds(r.0),
{
    if axis.x == 0 && axis.y == 0 {
        return (vel, false);
    }
    proof {
        assert(-(speed * 1000) <= axis.x * speed <= speed * 1000
            && -(speed * 1000) <= axis.y * speed <= speed * 1000) by (nonlinear_arith)
            requires
                -1000i64 <= axis.x <= 1000i64,
                -1000i64 <= axis.y <= 1000i64,
                0 <= speed <= 0x10_0000i64,
        ;
        crate::mathx::lemma_div_trunc_abs_le(axis.x * speed, UNIT as int, speed as int);
        crate::mathx::lemma_div_trunc_abs_le(axis.y * speed, UNIT as int, speed as int);
        assert(0 <= 20 * speed * (dt_ms as int) <= 1_260_000_000_000) by (nonlinear_arith)
            requires
                0 <= speed <= 0x10_0000i64,
                0 <= dt_ms <= 60_000u64,
        ;
        vstd::arithmetic::div_mod::lemma_div_is_ordered(
            20 * speed * (dt_ms as int),
            1_260_000_000_000,
            1000,
        );
        vstd::arithmetic::div_mod::lemma_div_pos_is_pos(20 * speed * (dt_ms as int), 1000);
    }
    let target = Vec2i {
        x: div_trunc_i64(axis.x * speed, UNIT),
        y: div_trunc_i64(axis.y * speed, UNIT),
    };
    let step: i64 = 20 * speed * (dt_ms as i64) / 1000;
    (vel.move_towards(target, step), true)
}

} // verus!
