//! Axis-aligned geometry primitives: 2-D integer vectors, axis-aligned
//! bounding boxes, overlap tests, closest-point queries and swept volumes.
//!
//! Coordinates are in micro-units (one play-field unit is 1_000_000), so a
//! frame's displacement `velocity * dt` is exact integer arithmetic.

use vstd::prelude::*;

verus! {

/// Bound on coordinates accepted by the geometric operations; sums of two
/// in-range coordinates stay well inside `i64`.
pub const COORD_LIMIT: i64 = 0x00ff_ffff_ffff_ffff;

/// A two-dimensional integer vector (position, displacement or velocity).
#[derive(Clone, Copy, Debug, PartialEq, Eq, Structural)]
pub struct Vec2i {
    pub x: i64,
    pub y: i64,
}

impl Vec2i {
    /// Both components within `lim` in magnitude.
    pub open spec fn bounded(self, lim: int) -> bool {
        -lim <= self.x <= lim && -lim <= self.y <= lim
    }

    pub fn new(x: i64, y: i64) -> (v: Vec2i)
        ensures
            v == (Vec2i { x, y }),
    {
        Vec2i { x, y }
    }
}

/// An axis-aligned bounding box given by its center and half-extents.
#[derive(Clone, Copy, Debug, PartialEq, Eq, Structural)]
pub struct Aabb {
    pub center: Vec2i,
    pub half: Vec2i,
}

impl Aabb {
    /// Valid box: non-negative half-extents, coordinates in range.
    pub open spec fn wf(self) -> bool {
        &&& self.half.x >= 0
        &&& self.half.y >= 0
        &&& self.center.bounded(COORD_LIMIT as int)
        &&& self.half.bounded(COORD_LIMIT as int)
    }

    pub open spec fn min_x(self) -> int { self.center.x - self.half.x }

    pub open spec fn max_x(self) -> int { self.center.x + self.half.x }

    pub open spec fn min_y(self) -> int { self.center.y - self.half.y }

    pub open spec fn max_y(self) -> int { self.center.y + self.half.y }

    pub fn new(center: Vec2i, half: Vec2i) -> (b: Aabb)
        ensures
            b == (Aabb { center, half }),
    {
        Aabb { center, half }
    }
}

/// A box given by its two extreme corners, as a swept volume comes out.
#[derive(Clone, Copy, Debug, PartialEq, Eq, Structural)]
pub struct Bounds {
    pub min: Vec2i,
    pub max: Vec2i,
}

/// Overlap of the closed intervals `[a.min, a.max]` on both axes.
pub open spec fn spec_intersects(a: Aabb, b: Aabb) -> bool {
    &&& a.min_x() <= b.max_x()
    &&& b.min_x() <= a.max_x()
    &&& a.min_y() <= b.max_y()
    &&& b.min_y() <= a.max_y()
}

/// True iff the two boxes overlap on both axes (touching edges count).
pub fn intersects(a: &Aabb, b: &Aabb) -> (r: bool)
    requires
        a.wf(),
        b.wf(),
    ensures
        r == spec_intersects(*a, *b),
{
    a.center.x - a.half.x <= b.center.x + b.half.x
        && b.center.x - b.half.x <= a.center.x + a.half.x
        && a.center.y - a.half.y <= b.center.y + b.half.y
        && b.center.y - b.half.y <= a.center.y + a.half.y
}

/// Overlap of a corner-form box with a center-form box, on both axes.
pub open spec fn spec_bounds_intersect(s: Bounds, b: Aabb) -> bool {
    &&& s.min.x <= b.max_x()
    &&& b.min_x() <= s.max.x
    &&& s.min.y <= b.max_y()
    &&& b.min_y() <= s.max.y
}

/// True iff the corner-form box `s` overlaps the box `b` on both axes.
pub fn bounds_intersect(s: &Bounds, b: &Aabb) -> (r: bool)
    requires
        b.wf(),
        s.min.bounded(3 * COORD_LIMIT as int),
        s.max.bounded(3 * COORD_LIMIT as int),
    ensures
        r == spec_bounds_intersect(*s, *b),
{
    s.min.x <= b.center.x + b.half.x
        && b.center.x - b.half.x <= s.max.x
        && s.min.y <= b.center.y + b.half.y
        && b.center.y - b.half.y <= s.max.y
}

/// `v` clamped into the closed interval `[lo, hi]`.
pub open spec fn spec_clamp(v: int, lo: int, hi: int) -> int {
    if v < lo { lo } else if v > hi { hi } else { v }
}

/// Clamp `v` into `[lo, hi]`; total for `lo <= hi`.
pub fn clamp_i64(v: i64, lo: i64, hi: i64) -> (r: i64)
    requires
        lo <= hi,
    ensures
        r == spec_clamp(v as int, lo as int, hi as int),
{
    if v < lo { lo } else if v > hi { hi } else { v }
}

/// The point of `b` closest to `p`: `p` clamped into `b`'s extent.
pub open spec fn spec_closest_point(b: Aabb, p: Vec2i) -> Vec2i {
    Vec2i {
        x: spec_clamp(p.x as int, b.min_x(), b.max_x()) as i64,
        y: spec_clamp(p.y as int, b.min_y(), b.max_y()) as i64,
    }
}

/// Clamps `p` into `b`'s extent, the closest point of `b` to `p`.
pub fn closest_point(b: &Aabb, p: Vec2i) -> (r: Vec2i)
    requires
        b.wf(),
    ensures
        r == spec_closest_point(*b, p),
        b.min_x() <= r.x <= b.max_x(),
        b.min_y() <= r.y <= b.max_y(),
{
    Vec2i {
        x: clamp_i64(p.x, b.center.x - b.half.x, b.center.x + b.half.x),
        y: clamp_i64(p.y, b.center.y - b.half.y, b.center.y + b.half.y),
    }
}

/// Minimal covering box of `b` and `b` translated by `d`, as corners.
pub open spec fn spec_swept_volume(b: Aabb, d: Vec2i) -> Bounds {
    Bounds {
        min: Vec2i {
            x: (if d.x < 0 { b.min_x() + d.x } else { b.min_x() }) as i64,
            y: (if d.y < 0 { b.min_y() + d.y } else { b.min_y() }) as i64,
        },
        max: Vec2i {
            x: (if d.x > 0 { b.max_x() + d.x } else { b.max_x() }) as i64,
            y: (if d.y > 0 { b.max_y() + d.y } else { b.max_y() }) as i64,
        },
    }
}

/// The minimal bounding box covering `b`'s extent now and after moving by `d`.
pub fn swept_volume(b: &Aabb, d: Vec2i) -> (s: Bounds)
    requires
        b.wf(),
        d.bounded(COORD_LIMIT as int),
    ensures
        s == spec_swept_volume(*b, d),
        s.min.x <= s.max.x,
        s.min.y <= s.max.y,
        s.min.bounded(3 * COORD_LIMIT as int),
        s.max.bounded(3 * COORD_LIMIT as int),
{
    let min_x: i64 = b.center.x - b.half.x;
    let max_x: i64 = b.center.x + b.half.x;
    let min_y: i64 = b.center.y - b.half.y;
    let max_y: i64 = b.center.y + b.half.y;
    Bounds {
        min: Vec2i {
            x: if d.x < 0 { min_x + d.x } else { min_x },
            y: if d.y < 0 { min_y + d.y } else { min_y },
        },
        max: Vec2i {
            x: if d.x > 0 { max_x + d.x } else { max_x },
            y: if d.y > 0 { max_y + d.y } else { max_y },
        },
    }
}

} // verus!
