//! Fixed-point world geometry: positions in tenths of a world unit,
//! rotations as raw scaled quaternion components, and the squared-distance
//! proximity test that the collision rules are built on.

use vstd::prelude::*;

verus! {

/// Every coordinate the game works with stays well inside this bound
/// (the island is a few thousand tenths across); holding positions to it
/// keeps all squared-distance arithmetic inside `i64`.
pub const COORD_BOUND: i64 = 1_000_000;

/// A point in world space, in tenths of a world unit.
#[derive(Clone, Copy, Debug, PartialEq, Eq, Structural)]
pub struct Vec3Fix {
    pub x: i64,
    pub y: i64,
    pub z: i64,
}

/// A rotation, stored as the four quaternion components scaled to
/// thousandths. The game only stores and restores rotations, so nothing
/// here computes with them.
#[derive(Clone, Copy, Debug, PartialEq, Eq, Structural)]
pub struct QuatFix {
    pub x: i64,
    pub y: i64,
    pub z: i64,
    pub w: i64,
}

/// A saved pose: where something stands and which way it faces.
#[derive(Clone, Copy, Debug, PartialEq, Eq, Structural)]
pub struct Placement {
    pub position: Vec3Fix,
    pub rotation: QuatFix,
}

impl Vec3Fix {
    pub open spec fn in_bounds(self) -> bool {
        -COORD_BOUND <= self.x <= COORD_BOUND
            && -COORD_BOUND <= self.y <= COORD_BOUND
            && -COORD_BOUND <= self.z <= COORD_BOUND
    }

    pub fn new(x: i64, y: i64, z: i64) -> (v: Vec3Fix)
        ensures
            v == (Vec3Fix { x, y, z }),
    {
        Vec3Fix { x, y, z }
    }

    /// Decides `in_bounds`, so that callers outside the proofs can test
    /// it before handing a position to the proximity checks.
    pub fn bounded(&self) -> (r: bool)
        ensures
            r == self.in_bounds(),
    {
        -COORD_BOUND <= self.x && self.x <= COORD_BOUND && -COORD_BOUND <= self.y
            && self.y <= COORD_BOUND && -COORD_BOUND <= self.z && self.z <= COORD_BOUND
    }
}

/// The squared distance between two points, as a mathematical integer.
pub open spec fn dist_sq(a: Vec3Fix, b: Vec3Fix) -> int {
    (a.x - b.x) * (a.x - b.x) + (a.y - b.y) * (a.y - b.y) + (a.z - b.z) * (a.z - b.z)
}

/// Whether `a` lies strictly within `radius` of `b`, decided exactly on
/// the squared distance so that no square root is needed.
pub fn within_radius(a: Vec3Fix, b: Vec3Fix, radius: i64) -> (r: bool)
    requires
        a.in_bounds(),
        b.in_bounds(),
        0 <= radius <= COORD_BOUND,
    ensures
        r == (dist_sq(a, b) < radius * radius),
{
    let dx: i64 = a.x - b.x;
    let dy: i64 = a.y - b.y;
    let dz: i64 = a.z - b.z;
    proof {
        assert(dx * dx <= 4_000_000_000_000 && dx * dx >= 0) by (nonlinear_arith)
            requires
                -2_000_000 <= dx <= 2_000_000,
        ;
        assert(dy * dy <= 4_000_000_000_000 && dy * dy >= 0) by (nonlinear_arith)
            requires
                -2_000_000 <= dy <= 2_000_000,
        ;
        assert(dz * dz <= 4_000_000_000_000 && dz * dz >= 0) by (nonlinear_arith)
            requires
                -2_000_000 <= dz <= 2_000_000,
        ;
        assert(0 <= radius * radius <= 1_000_000_000_000) by (nonlinear_arith)
            requires
                0 <= radius <= 1_000_000,
        ;
    }
    dx * dx + dy * dy + dz * dz < radius * radius
}

/// Clamps `x` into `[lo, hi]`.
pub open spec fn clamped(x: int, lo: int, hi: int) -> int {
    if x < lo {
        lo
    } else if x > hi {
        hi
    } else {
        x
    }
}

} // verus!
