//! World-space points and axis-aligned rectangles, with a strict containment
//! predicate that normalizes corner order.

use vstd::prelude::*;

verus! {

/// A point in world-space coordinates, in thousandths of a game unit.
#[derive(Clone, Copy, Debug, PartialEq, Eq, Structural)]
pub struct Vector2 {
    pub x: i64,
    pub y: i64,
}

/// An axis-aligned rectangle given by two opposite corners. The corners may
/// be stored in either order; containment normalizes per axis.
#[derive(Clone, Copy, Debug, PartialEq, Eq, Structural)]
pub struct Rect {
    pub c1: Vector2,
    pub c2: Vector2,
}

impl Rect {
    pub open spec fn x_min(self) -> int {
        if self.c1.x <= self.c2.x { self.c1.x as int } else { self.c2.x as int }
    }

    pub open spec fn x_max(self) -> int {
        if self.c1.x <= self.c2.x { self.c2.x as int } else { self.c1.x as int }
    }

    pub open spec fn y_min(self) -> int {
        if self.c1.y <= self.c2.y { self.c1.y as int } else { self.c2.y as int }
    }

    pub open spec fn y_max(self) -> int {
        if self.c1.y <= self.c2.y { self.c2.y as int } else { self.c1.y as int }
    }

    /// Strict containment: a point on any edge of the rectangle is outside.
    pub open spec fn spec_contains(self, p: Vector2) -> bool {
        &&& self.x_min() < p.x as int
        &&& (p.x as int) < self.x_max()
        &&& self.y_min() < p.y as int
        &&& (p.y as int) < self.y_max()
    }

    /// Builds a rectangle from its four bounds, stored as the bottom-left and
    /// top-right corners.
    pub fn new(left: i64, right: i64, bottom: i64, top: i64) -> (r: Rect)
        ensures
            r == (Rect { c1: Vector2 { x: left, y: bottom }, c2: Vector2 { x: right, y: top } }),
    {
        Rect { c1: Vector2 { x: left, y: bottom }, c2: Vector2 { x: right, y: top } }
    }
}

impl Vector2 {
    pub fn new(x: i64, y: i64) -> (v: Vector2)
        ensures
            v == (Vector2 { x, y }),
    {
        Vector2 { x, y }
    }

    /// Whether this point lies strictly inside `bounds`, whatever order its
    /// corners were given in.
    pub fn in_bounds(self, bounds: &Rect) -> (r: bool)
        ensures
            r == bounds.spec_contains(self),
    {
        let x_lo = if bounds.c1.x <= bounds.c2.x { bounds.c1.x } else { bounds.c2.x };
        let x_hi = if bounds.c1.x <= bounds.c2.x { bounds.c2.x } else { bounds.c1.x };
        let y_lo = if bounds.c1.y <= bounds.c2.y { bounds.c1.y } else { bounds.c2.y };
        let y_hi = if bounds.c1.y <= bounds.c2.y { bounds.c2.y } else { bounds.c1.y };
        x_lo < self.x && self.x < x_hi && y_lo < self.y && self.y < y_hi
    }
}

/// A point lying exactly on any edge of a rectangle is never inside it:
/// containment is strict on all four bounds.
pub proof fn lemma_boundary_point_not_contained(r: Rect, p: Vector2)
    requires
        p.x == r.x_min() || p.x == r.x_max() || p.y == r.y_min() || p.y == r.y_max(),
    ensures
        !r.spec_contains(p),
{
}

} // verus!
