//! 2D integer geometry: points and closed axis-aligned box intersection.

use vstd::prelude::*;

verus! {

/// A 2D position or displacement in integer world units.
#[derive(Copy, Clone, PartialEq, Eq, Structural, Hash, Debug)]
pub struct Point {
    pub x: i64,
    pub y: i64,
}

/// Magnitude of an integer.
pub open spec fn iabs(v: int) -> int {
    if v < 0 {
        -v
    } else {
        v
    }
}

/// Two axis-aligned boxes, given by center and non-negative half-extents,
/// overlap exactly when the centers are no farther apart than the summed
/// half-extents on each axis. The intervals are closed: touching edges count
/// as an overlap.
pub open spec fn spec_boxes_intersect(
    c: Point,
    chx: int,
    chy: int,
    s: Point,
    shx: int,
    shy: int,
) -> bool {
    &&& iabs(c.x - s.x) <= chx + shx
    &&& iabs(c.y - s.y) <= chy + shy
}

/// The intersection test is closed on its boundary: centers exactly the
/// summed half-extents apart on one axis, and within them on the other,
/// still count as overlapping.
pub proof fn lemma_boundary_touch_intersects(
    c: Point,
    chx: int,
    chy: int,
    s: Point,
    shx: int,
    shy: int,
)
    requires
        iabs(c.x - s.x) == chx + shx,
        iabs(c.y - s.y) <= chy + shy,
    ensures
        spec_boxes_intersect(c, chx, chy, s, shx, shy),
{
}

/// Closed-interval intersection test for two centered axis-aligned boxes.
pub fn boxes_intersect(c: Point, chx: i64, chy: i64, s: Point, shx: i64, shy: i64) -> (r: bool)
    requires
        chx >= 0,
        chy >= 0,
        shx >= 0,
        shy >= 0,
    ensures
        r == spec_boxes_intersect(c, chx as int, chy as int, s, shx as int, shy as int),
{
    let dx: i128 = (c.x as i128) - (s.x as i128);
    let dy: i128 = (c.y as i128) - (s.y as i128);
    let adx: i128 = if dx < 0 {
        -dx
    } else {
        dx
    };
    let ady: i128 = if dy < 0 {
        -dy
    } else {
        dy
    };
    adx <= (chx as i128) + (shx as i128) && ady <= (chy as i128) + (shy as i128)
}

} // verus!
