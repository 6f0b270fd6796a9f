//! Vectors, axis-aligned boxes and the overlap test.
use vstd::prelude::*;

verus! {

/// Number of length units in one pixel.
pub const UNITS_PER_PIXEL: i64 = 10_000_000;

/// Whether a mathematical integer can be stored in an `i64`.
pub open spec fn fits(n: int) -> bool {
    i64::MIN <= n <= i64::MAX
}

/// A box in the plane as mathematics sees it: a centre and the distance from
/// the centre to each side.
pub struct Rect {
    pub cx: int,
    pub cy: int,
    pub hx: int,
    pub hy: int,
}

impl Rect {
    /// The left side.
    pub open spec fn min_x(self) -> int {
        self.cx - self.hx
    }

    /// The right side.
    pub open spec fn max_x(self) -> int {
        self.cx + self.hx
    }

    /// The lower side.
    pub open spec fn min_y(self) -> int {
        self.cy - self.hy
    }

    /// The upper side.
    pub open spec fn max_y(self) -> int {
        self.cy + self.hy
    }

    /// The height of the upper side.
    pub open spec fn top(self) -> int {
        self.max_y()
    }

    /// Two boxes overlap when their interiors meet on both axes. Boxes that
    /// only touch along a side or at a corner do not overlap.
    pub open spec fn overlaps(self, other: Rect) -> bool {
        &&& self.min_x() < other.max_x()
        &&& self.max_x() > other.min_x()
        &&& self.min_y() < other.max_y()
        &&& self.max_y() > other.min_y()
    }
}

/// A point or a displacement, in length units.
#[derive(Clone, Copy, Debug, PartialEq, Eq, Structural)]
pub struct Vector {
    pub x: i64,
    pub y: i64,
}

impl Vector {
    /// The vector with the given coordinates.
    pub fn new(x: i64, y: i64) -> (v: Vector)
        ensures
            v.x == x,
            v.y == y,
    {
        Vector { x, y }
    }

    /// The vector with both coordinates zero.
    pub fn zero() -> (v: Vector)
        ensures
            v.x == 0,
            v.y == 0,
    {
        Vector { x: 0, y: 0 }
    }
}

/// An axis-aligned box: its centre and its half-extents.
#[derive(Clone, Copy, Debug, PartialEq, Eq, Structural)]
pub struct Aabb {
    pub center: Vector,
    pub half_extents: Vector,
}

impl View for Aabb {
    type V = Rect;

    open spec fn view(&self) -> Rect {
        Rect {
            cx: self.center.x as int,
            cy: self.center.y as int,
            hx: self.half_extents.x as int,
            hy: self.half_extents.y as int,
        }
    }
}

impl Aabb {
    /// The box with the given centre and half-extents.
    pub fn new(center: Vector, half_extents: Vector) -> (b: Aabb)
        ensures
            b.center == center,
            b.half_extents == half_extents,
    {
        Aabb { center, half_extents }
    }

    /// The overlap test. The sides are computed in 128 bits, so the test is
    /// defined for every pair of boxes.
    pub fn overlaps(&self, other: &Aabb) -> (hit: bool)
        ensures
            hit == self@.overlaps(other@),
    {
        let a_min_x: i128 = self.center.x as i128 - self.half_extents.x as i128;
        let a_max_x: i128 = self.center.x as i128 + self.half_extents.x as i128;
        let a_min_y: i128 = self.center.y as i128 - self.half_extents.y as i128;
        let a_max_y: i128 = self.center.y as i128 + self.half_extents.y as i128;
        let b_min_x: i128 = other.center.x as i128 - other.half_extents.x as i128;
        let b_max_x: i128 = other.center.x as i128 + other.half_extents.x as i128;
        let b_min_y: i128 = other.center.y as i128 - other.half_extents.y as i128;
        let b_max_y: i128 = other.center.y as i128 + other.half_extents.y as i128;
        a_min_x < b_max_x && a_max_x > b_min_x && a_min_y < b_max_y && a_max_y > b_min_y
    }
}

} // verus!
