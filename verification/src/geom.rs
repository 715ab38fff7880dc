//! Plane geometry on integer coordinates: vectors, axis-aligned rectangles
//! and the overlap test used by collision resolution.

use vstd::prelude::*;

verus! {

/// Largest coordinate magnitude the geometric routines accept. Keeping every
/// point within this range lets squared distances and cross products be
/// computed exactly in `i128` without overflow.
pub const MAX_COORD: i64 = 0x80_0000_0000_0000;

/// A point or displacement in the plane, in integer world units.
#[derive(Clone, Copy, Debug, PartialEq, Eq, Structural)]
pub struct Vec2i {
    pub x: i64,
    pub y: i64,
}

impl Vec2i {
    pub open spec fn is_zero(self) -> bool {
        self.x == 0 && self.y == 0
    }

    /// The coordinates are small enough for exact `i128` geometry.
    pub open spec fn in_world(self) -> bool {
        &&& -MAX_COORD <= self.x <= MAX_COORD
        &&& -MAX_COORD <= self.y <= MAX_COORD
    }

    /// Squared Euclidean length, as an unbounded integer.
    pub open spec fn mag_sq(self) -> int {
        self.x * self.x + self.y * self.y
    }
}

/// Multiplies a vector by an integer scalar, exactly.
pub fn scale(v: Vec2i, m: i64) -> (r: Vec2i)
    requires
        -MAX_COORD <= v.x * m <= MAX_COORD,
        -MAX_COORD <= v.y * m <= MAX_COORD,
    ensures
        r.x == v.x * m,
        r.y == v.y * m,
        r.in_world(),
{
    let x: i128 = (v.x as i128) * (m as i128);
    let y: i128 = (v.y as i128) * (m as i128);
    Vec2i { x: x as i64, y: y as i64 }
}

/// Bounds a product from bounds on its factors; the geometric routines use
/// it to show their exact `i128` arithmetic cannot overflow.
pub proof fn lemma_mul_in_range(x: int, y: int, b1: int, b2: int)
    requires
        -b1 <= x <= b1,
        -b2 <= y <= b2,
        0 <= b1,
        0 <= b2,
    ensures
        -(b1 * b2) <= x * y <= b1 * b2,
{
    assert(-(b1 * b2) <= x * y <= b1 * b2) by (nonlinear_arith)
        requires
            -b1 <= x <= b1,
            -b2 <= y <= b2,
            0 <= b1,
            0 <= b2,
    ;
}

/// A static axis-aligned rectangle given by its center and half-extents.
#[derive(Clone, Copy, Debug, PartialEq, Eq, Structural)]
pub struct Boundary {
    pub center: Vec2i,
    pub half: Vec2i,
}

/// Strict overlap of two axis-aligned boxes, each given by center and
/// half-extents: the boxes share interior area, touching edges do not count.
/// The second box's center is given as unbounded integers so that candidate
/// positions (a position plus a velocity) can be tested without rounding.
pub open spec fn overlaps_at(c: Vec2i, h: Vec2i, px: int, py: int, ph: Vec2i) -> bool {
    &&& c.x - px < h.x + ph.x
    &&& px - c.x < h.x + ph.x
    &&& c.y - py < h.y + ph.y
    &&& py - c.y < h.y + ph.y
}

pub open spec fn overlaps(c: Vec2i, h: Vec2i, p: Vec2i, ph: Vec2i) -> bool {
    overlaps_at(c, h, p.x as int, p.y as int, ph)
}

/// Exact strict-overlap test between two axis-aligned boxes.
pub fn aabb_overlap(c: Vec2i, h: Vec2i, p: Vec2i, ph: Vec2i) -> (r: bool)
    ensures
        r == overlaps(c, h, p, ph),
{
    let cx: i128 = c.x as i128;
    let cy: i128 = c.y as i128;
    let px: i128 = p.x as i128;
    let py: i128 = p.y as i128;
    let wx: i128 = h.x as i128 + ph.x as i128;
    let wy: i128 = h.y as i128 + ph.y as i128;
    cx - px < wx && px - cx < wx && cy - py < wy && py - cy < wy
}

} // verus!
