//! Fixed-point 2-D vectors. Positions and velocities are plain `i64`
//! coordinates; directions are vectors scaled so that a unit vector has
//! components of magnitude at most `UNIT`.

use vstd::prelude::*;

use crate::mathx::{div_trunc, div_trunc_i64, isqrt, sqrt_floor, UNIT};
use crate::mathx::{lemma_div_trunc_abs_le, lemma_sqrt_floor};

verus! {

/// Coordinates the geometry works on stay within this bound, so that squared
/// distances and scaled products fit in the machine integers.
pub const COORD_LIMIT: i64 = 0x2000_0000;

/// Largest step `move_towards` accepts.
pub const STEP_LIMIT: i64 = 0x8000_0000;

#[derive(Clone, Copy, Debug, PartialEq, Eq, Structural)]
pub struct Vec2i {
    pub x: i64,
    pub y: i64,
}

/// Both coordinates within `COORD_LIMIT`.
pub open spec fn in_bounds(v: Vec2i) -> bool {
    &&& -COORD_LIMIT <= v.x <= COORD_LIMIT
    &&& -COORD_LIMIT <= v.y <= COORD_LIMIT
}

/// Squared length of `v`.
pub open spec fn norm_sq(v: Vec2i) -> int {
    v.x * v.x + v.y * v.y
}

/// Squared distance between `a` and `b`.
pub open spec fn dist_sq_spec(a: Vec2i, b: Vec2i) -> int {
    (a.x - b.x) * (a.x - b.x) + (a.y - b.y) * (a.y - b.y)
}

/// `v` scaled to length roughly `UNIT`, or zero when `v` is zero: each
/// component is `c * UNIT / |v|`, rounded toward zero.
pub open spec fn unit_or_zero_spec(v: Vec2i) -> Vec2i {
    if v.x == 0 && v.y == 0 {
        (Vec2i { x: 0, y: 0 })
    } else {
        (Vec2i {
            x: div_trunc(v.x * UNIT, sqrt_floor(norm_sq(v))) as i64,
            y: div_trunc(v.y * UNIT, sqrt_floor(norm_sq(v))) as i64,
        })
    }
}

impl Vec2i {
    pub fn new(x: i64, y: i64) -> (r: Vec2i)
        ensures
            r == (Vec2i { x, y }),
    {
        Vec2i { x, y }
    }

    pub fn zero() -> (r: Vec2i)
        ensures
            r == (Vec2i { x: 0, y: 0 }),
    {
        Vec2i { x: 0, y: 0 }
    }

    pub fn add(self, o: Vec2i) -> (r: Vec2i)
        requires
            i64::MIN <= self.x + o.x <= i64::MAX,
            i64::MIN <= self.y + o.y <= i64::MAX,
        ensures
            r.x == self.x + o.x,
            r.y == self.y + o.y,
    {
        Vec2i { x: self.x + o.x, y: self.y + o.y }
    }

    pub fn sub(self, o: Vec2i) -> (r: Vec2i)
        requires
            i64::MIN <= self.x - o.x <= i64::MAX,
            i64::MIN <= self.y - o.y <= i64::MAX,
        ensures
            r.x == self.x - o.x,
            r.y == self.y - o.y,
    {
        Vec2i { x: self.x - o.x, y: self.y - o.y }
    }

    /// Squared length. Bounded coordinates keep the squares inside `u64`.
    pub fn len_sq(self) -> (r: u64)
        requires
            in_bounds(self),
        ensures
            r == norm_sq(self),
            r < 0x4000_0000_0000_0000,
    {
        proof {
            assert(self.x * self.x <= COORD_LIMIT * COORD_LIMIT && self.x * self.x >= 0)
                by (nonlinear_arith)
                requires
                    -COORD_LIMIT <= self.x <= COORD_LIMIT,
            ;
            assert(self.y * self.y <= COORD_LIMIT * COORD_LIMIT && self.y * self.y >= 0)
                by (nonlinear_arith)
                requires
                    -COORD_LIMIT <= self.y <= COORD_LIMIT,
            ;
        }
        let xx: i64 = self.x * self.x;
        let yy: i64 = self.y * self.y;
        (xx as u64) + (yy as u64)
    }

    /// Squared distance to `o`.
    pub fn dist_sq(self, o: Vec2i) -> (r: u64)
        requires
            in_bounds(self),
            in_bounds(o),
        ensures
            r == dist_sq_spec(self, o),
            r < 0x4000_0000_0000_0000,
    {
        let d = Vec2i { x: self.x - o.x, y: self.y - o.y };
        proof {
            assert((self.x - o.x) * (self.x - o.x) <= (2 * COORD_LIMIT) * (2 * COORD_LIMIT)
                && (self.x - o.x) * (self.x - o.x) >= 0) by (nonlinear_arith)
                requires
                    -(2 * COORD_LIMIT) <= self.x - o.x <= 2 * COORD_LIMIT,
            ;
            assert((self.y - o.y) * (self.y - o.y) <= (2 * COORD_LIMIT) * (2 * COORD_LIMIT)
                && (self.y - o.y) * (self.y - o.y) >= 0) by (nonlinear_arith)
                requires
                    -(2 * COORD_LIMIT) <= self.y - o.y <= 2 * COORD_LIMIT,
            ;
        }
        let xx: i64 = d.x * d.x;
        let yy: i64 = d.y * d.y;
        (xx as u64) + (yy as u64)
    }

    /// Scales toward a unit direction: the result is `self * UNIT / |self|`
    /// componentwise (rounded toward zero), or zero for the zero vector,
    /// the recovery the steering rules ask for when two positions coincide.
    pub fn unit_or_zero(self) -> (r: Vec2i)
        requires
            -(2 * COORD_LIMIT) <= self.x <= 2 * COORD_LIMIT,
            -(2 * COORD_LIMIT) <= self.y <= 2 * COORD_LIMIT,
        ensures
            r == unit_or_zero_spec(self),
            -UNIT <= r.x <= UNIT,
            -UNIT <= r.y <= UNIT,
    {
        if self.x == 0 && self.y == 0 {
            return Vec2i { x: 0, y: 0 };
        }
        let n: u64 = self.len_sq_wide();
        proof {
            assert(self.x * self.x >= 1 || self.y * self.y >= 1) by (nonlinear_arith)
                requires
                    self.x != 0 || self.y != 0,
            ;
            assert(self.x * self.x >= 0 && self.y * self.y >= 0) by (nonlinear_arith);
        }
        let len: u64 = isqrt(n);
        proof {
            assert(len < 0x8000_0000) by (nonlinear_arith)
                requires
                    len * len <= n < 0x4000_0000_0000_0000u64,
            ;
            lemma_unit_component_bound(self.x as int, n as int);
            lemma_unit_component_bound(self.y as int, n as int);
        }
        let len_i: i64 = len as i64;
        Vec2i {
            x: div_trunc_i64(self.x * UNIT, len_i),
            y: div_trunc_i64(self.y * UNIT, len_i),
        }
    }
}

/// Where `v` ends up after moving toward `target` by at most `step`: the
/// target itself when it is within `step`, otherwise `v` plus a vector of
/// length `step` pointing at the target (componentwise
/// `d * step / |d|`, rounded toward zero).
pub open spec fn move_towards_spec(v: Vec2i, target: Vec2i, step: int) -> Vec2i {
    let dx = target.x - v.x;
    let dy = target.y - v.y;
    let n = dx * dx + dy * dy;
    if n <= step * step {
        target
    } else {
        (Vec2i {
            x: (v.x + div_trunc(dx * step, sqrt_floor(n))) as i64,
            y: (v.y + div_trunc(dy * step, sqrt_floor(n))) as i64,
        })
    }
}

impl Vec2i {
    /// Moves toward `target`, covering at most `step`; arrives exactly when
    /// the remaining distance is within `step`. The result stays in the
    /// bounding box spanned by `self` and `target`.
    pub fn move_towards(self, target: Vec2i, step: i64) -> (r: Vec2i)
        requires
            in_bounds(self),
            in_bounds(target),
            0 <= step <= STEP_LIMIT,
        ensures
            r == move_towards_spec(self, target, step as int),
            in_bounds(r),
    {
        let d = Vec2i { x: target.x - self.x, y: target.y - self.y };
        let n: u64 = d.len_sq_wide();
        proof {
            assert((step as u64) * (step as u64) <= 0x4000_0000_0000_0000u64)
                by (nonlinear_arith)
                requires
                    0 <= step <= 0x8000_0000i64,
            ;
        }
        if n <= (step as u64) * (step as u64) {
            return target;
        }
        let len: u64 = isqrt(n);
        proof {
            assert(len < 0x8000_0000) by (nonlinear_arith)
                requires
                    len * len <= n < 0x4000_0000_0000_0000u64,
            ;
            assert(len >= step) by (nonlinear_arith)
                requires
                    step >= 0,
                    n > step * step,
                    n < (len + 1) * (len + 1),
                    len >= 0,
            ;
            assert(len >= 1) by (nonlinear_arith)
                requires
                    n > step * step,
                    step >= 0,
                    len * len <= n,
                    n < (len + 1) * (len + 1),
                    len >= 0,
            ;
            lemma_move_delta(d.x as int, step as int, len as int);
            lemma_move_delta(d.y as int, step as int, len as int);
            assert(-0x2000_0000_0000_0000 <= d.x * step <= 0x2000_0000_0000_0000)
                by (nonlinear_arith)
                requires
                    -0x4000_0000i64 <= d.x <= 0x4000_0000i64,
                    0 <= step <= 0x8000_0000i64,
            ;
            assert(-0x2000_0000_0000_0000 <= d.y * step <= 0x2000_0000_0000_0000)
                by (nonlinear_arith)
                requires
                    -0x4000_0000i64 <= d.y <= 0x4000_0000i64,
                    0 <= step <= 0x8000_0000i64,
            ;
        }
        let len_i: i64 = len as i64;
        Vec2i {
            x: self.x + div_trunc_i64(d.x * step, len_i),
            y: self.y + div_trunc_i64(d.y * step, len_i),
        }
    }

    /// Squared length for differences of in-bounds vectors, whose
    /// coordinates may reach twice the coordinate bound.
    fn len_sq_wide(self) -> (r: u64)
        requires
            -(2 * COORD_LIMIT) <= self.x <= 2 * COORD_LIMIT,
            -(2 * COORD_LIMIT) <= self.y <= 2 * COORD_LIMIT,
        ensures
            r == norm_sq(self),
            r < 0x4000_0000_0000_0000,
    {
        proof {
            assert(self.x * self.x <= 0x1000_0000_0000_0000 && self.x * self.x >= 0)
                by (nonlinear_arith)
                requires
                    -0x4000_0000i64 <= self.x <= 0x4000_0000i64,
            ;
            assert(self.y * self.y <= 0x1000_0000_0000_0000 && self.y * self.y >= 0)
                by (nonlinear_arith)
                requires
                    -0x4000_0000i64 <= self.y <= 0x4000_0000i64,
            ;
        }
        let xx: i64 = self.x * self.x;
        let yy: i64 = self.y * self.y;
        (xx as u64) + (yy as u64)
    }
}

/// One step of `move_towards` keeps each component between where it was and
/// the target component: `d * step / len` has the sign of `d` and magnitude
/// at most `|d|` whenever `step <= len`.
proof fn lemma_move_delta(d: int, step: int, len: int)
    requires
        len >= 1,
        0 <= step <= len,
    ensures
        d >= 0 ==> 0 <= div_trunc(d * step, len) <= d,
        d < 0 ==> d <= div_trunc(d * step, len) <= 0,
{
    if d >= 0 {
        assert(0 <= d * step <= d * len) by (nonlinear_arith)
            requires
                d >= 0,
                0 <= step <= len,
        ;
        lemma_div_trunc_abs_le(d * step, len, d);
    } else {
        assert(-((-d) * len) <= d * step <= (-d) * len) by (nonlinear_arith)
            requires
                d < 0,
                0 <= step <= len,
        ;
        lemma_div_trunc_abs_le(d * step, len, -d);
        assert(d * step <= 0) by (nonlinear_arith)
            requires
                d < 0,
                step >= 0,
        ;
    }
}

/// A component of a vector divided by the rounded-down length of the vector
/// is at most one, so scaled by `UNIT` it is at most `UNIT`.
proof fn lemma_unit_component_bound(c: int, n: int)
    requires
        c * c <= n,
        n >= 1,
    ensures
        sqrt_floor(n) >= 1,
        c * UNIT <= UNIT * sqrt_floor(n),
        -(UNIT * sqrt_floor(n)) <= c * UNIT,
        -UNIT <= div_trunc(c * UNIT, sqrt_floor(n)) <= UNIT,
{
    lemma_sqrt_floor(n);
    let s = sqrt_floor(n);
    assert(s >= 1) by (nonlinear_arith)
        requires
            s >= 0,
            s * s <= n,
            n < (s + 1) * (s + 1),
            n >= 1,
    ;
    assert(-s <= c <= s) by (nonlinear_arith)
        requires
            c * c <= n,
            n < (s + 1) * (s + 1),
            s >= 0,
    ;
    assert(c * UNIT <= UNIT * s && -(UNIT * s) <= c * UNIT) by (nonlinear_arith)
        requires
            -s <= c <= s,
    ;
    lemma_div_trunc_abs_le(c * UNIT, s, UNIT as int);
}

} // verus!
