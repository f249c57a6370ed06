//! Integer plane geometry: positions and the circle-overlap test that decides
//! whether a player's collider reaches the goal sensor.

use vstd::prelude::*;

verus! {

/// Largest coordinate magnitude the world admits. Bounding coordinates (and
/// radii) by a million units keeps every squared distance below `2^63`, so the
/// overlap test is exact `i64` arithmetic.
pub const COORD_LIMIT: i64 = 1000000;

/// A point of the world plane, in whole world units.
#[derive(Clone, Copy, PartialEq, Eq, Structural, Debug)]
pub struct Vec2I {
    pub x: i64,
    pub y: i64,
}

impl Vec2I {
    /// The point lies within the world's coordinate bound.
    pub open spec fn wf(self) -> bool {
        -COORD_LIMIT <= self.x <= COORD_LIMIT && -COORD_LIMIT <= self.y <= COORD_LIMIT
    }

    /// Builds the point `(x, y)`.
    pub fn new(x: i64, y: i64) -> (v: Vec2I)
        ensures
            v == (Vec2I { x, y }),
    {
        Vec2I { x, y }
    }
}

/// Squared Euclidean distance between two points, as a mathematical integer.
pub open spec fn dist_sq(a: Vec2I, b: Vec2I) -> int {
    (a.x - b.x) * (a.x - b.x) + (a.y - b.y) * (a.y - b.y)
}

/// Whether two circles overlap (touching counts as overlapping): the distance
/// between the centers is at most the sum of the radii.
pub open spec fn circles_overlap(a: Vec2I, ra: i64, b: Vec2I, rb: i64) -> bool {
    dist_sq(a, b) <= (ra + rb) * (ra + rb)
}

/// Decides whether the circle of radius `ra` around `a` overlaps the circle of
/// radius `rb` around `b`.
pub fn circles_overlap_check(a: Vec2I, ra: i64, b: Vec2I, rb: i64) -> (r: bool)
    requires
        a.wf(),
        b.wf(),
        0 <= ra <= COORD_LIMIT,
        0 <= rb <= COORD_LIMIT,
    ensures
        r == circles_overlap(a, ra, b, rb),
{
    let dx = a.x - b.x;
    let dy = a.y - b.y;
    proof {
        assert(dx * dx <= 4000000000000 && dx * dx >= 0) by (nonlinear_arith)
            requires
                -2000000 <= dx <= 2000000,
        ;
        assert(dy * dy <= 4000000000000 && dy * dy >= 0) by (nonlinear_arith)
            requires
                -2000000 <= dy <= 2000000,
        ;
    }
    let d2 = dx * dx + dy * dy;
    let rs = ra + rb;
    proof {
        assert(rs * rs <= 4000000000000 && rs * rs >= 0) by (nonlinear_arith)
            requires
                0 <= rs <= 2000000,
        ;
    }
    d2 <= rs * rs
}

} // verus!
