//! Spawn positions on the play-field outline: a point along the total
//! perimeter length of a rectangle is drawn uniformly and mapped to local
//! edge coordinates, so each edge is selected in proportion to its length.

use vstd::prelude::*;

use crate::vec2::{in_bounds, Vec2i, COORD_LIMIT};

verus! {

/// In-game resolution width.
pub const RES_WIDTH: i64 = 320;

/// In-game resolution height.
pub const RES_HEIGHT: i64 = 288;

/// Spawns happen this far past the screen edge, just offscreen.
pub const SPAWN_MARGIN: i64 = 16;

/// Rectangles the sampler accepts stay within this extent.
pub const EXTENT_LIMIT: i64 = 0x0800_0000;

/// Relies on rand::random_range over `0..bound`, which returns a value of
/// the range, uniformly; the range is nonempty, so it does not panic.
#[verifier::external_body]
pub(crate) fn sample_below(bound: u64) -> (r: u64)
    requires
        bound >= 1,
    ensures
        r < bound,
{
    rand::random_range(0..bound)
}

/// A uniform draw of a fraction, in thousandths: used for the direction a
/// bred ghost is pushed out in.
pub(crate) fn sample_milli() -> (r: u64)
    ensures
        r < 1000,
{
    sample_below(1000)
}

/// The point at curvilinear position `p` along the perimeter of the
/// rectangle of `width` by `height` around `center`: the top edge from left
/// to right for the first `width` of `p`, then the right edge top to
/// bottom, the bottom edge right to left, and the left edge bottom to top.
pub open spec fn perimeter_point_spec(center: Vec2i, width: int, height: int, p: int) -> Vec2i {
    let hw = width / 2;
    let hh = height / 2;
    if p < width {
        (Vec2i { x: (center.x - hw + p) as i64, y: (center.y + hh) as i64 })
    } else if p < width + height {
        (Vec2i { x: (center.x + hw) as i64, y: (center.y + hh - (p - width)) as i64 })
    } else if p < 2 * width + height {
        (Vec2i { x: (center.x + hw - (p - width - height)) as i64, y: (center.y - hh) as i64 })
    } else {
        (Vec2i {
            x: (center.x - hw) as i64,
            y: (center.y - hh + (p - 2 * width - height)) as i64,
        })
    }
}

/// Maps a perimeter position to play-field coordinates.
pub fn perimeter_point(center: Vec2i, width: i64, height: i64, p: i64) -> (r: Vec2i)
    requires
        in_bounds(center),
        1 <= width <= EXTENT_LIMIT,
        1 <= height <= EXTENT_LIMIT,
        0 <= p < 2 * (width + height),
    ensures
        r == perimeter_point_spec(center, width as int, height as int, p as int),
{
    let hw = width / 2;
    let hh = height / 2;
    if p < width {
        Vec2i { x: center.x - hw + p, y: center.y + hh }
    } else if p < width + height {
        Vec2i { x: center.x + hw, y: center.y + hh - (p - width) }
    } else if p < 2 * width + height {
        Vec2i { x: center.x + hw - (p - width - height), y: center.y - hh }
    } else {
        Vec2i { x: center.x - hw, y: center.y - hh + (p - 2 * width - height) }
    }
}

/// Whether `v` lies on the sampled perimeter of the rectangle.
pub open spec fn on_perimeter(center: Vec2i, width: int, height: int, v: Vec2i) -> bool {
    exists|p: int|
        0 <= p < 2 * (width + height) && v == #[trigger] perimeter_point_spec(
            center,
            width,
            height,
            p,
        )
}

/// A uniformly drawn point on the rectangle's perimeter: the edge falls in
/// proportion to its share of the total perimeter length.
pub fn random_perimeter_point(center: Vec2i, width: i64, height: i64) -> (r: Vec2i)
    requires
        in_bounds(center),
        1 <= width <= EXTENT_LIMIT,
        1 <= height <= EXTENT_LIMIT,
    ensures
        on_perimeter(center, width as int, height as int, r),
{
    let p: u64 = sample_below((2 * (width + height)) as u64);
    let r = perimeter_point(center, width, height, p as i64);
    proof {
        assert(0 <= (p as int) && (p as int) < 2 * (width + height));
    }
    r
}

/// A spawn position just offscreen: a uniform draw on the outline of the
/// screen rectangle grown by the spawn margin, centered on the origin.
pub fn spawn_point_on_outline() -> (r: Vec2i)
    ensures
        on_perimeter(
            (Vec2i { x: 0, y: 0 }),
            (RES_WIDTH + SPAWN_MARGIN) as int,
            (RES_HEIGHT + SPAWN_MARGIN) as int,
            r,
        ),
{
    random_perimeter_point(
        Vec2i { x: 0, y: 0 },
        RES_WIDTH + SPAWN_MARGIN,
        RES_HEIGHT + SPAWN_MARGIN,
    )
}

} // verus!
