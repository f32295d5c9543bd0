use vstd::prelude::*;

verus! {

/// Fixed-point scale: one world unit is this many micro-units.
pub const UNIT: i64 = 1_000_000;

/// A vector in world space, each component in micro-units.
#[derive(Clone, Copy, Debug, PartialEq, Eq, Structural)]
pub struct Vec3 {
    pub x: i64,
    pub y: i64,
    pub z: i64,
}

/// Absolute value of an integer.
pub open spec fn abs(v: int) -> int {
    if v < 0 { -v } else { v }
}

/// Squared euclidean distance between two points, in squared micro-units.
pub open spec fn sq_dist(a: Vec3, b: Vec3) -> int {
    (a.x - b.x) * (a.x - b.x) + (a.y - b.y) * (a.y - b.y) + (a.z - b.z) * (a.z - b.z)
}

/// Every component lies in `[-bound, bound]`.
pub open spec fn within(v: Vec3, bound: int) -> bool {
    abs(v.x as int) <= bound && abs(v.y as int) <= bound && abs(v.z as int) <= bound
}

impl Vec3 {
    pub fn new(x: i64, y: i64, z: i64) -> (r: Vec3)
        ensures
            r == (Vec3 { x, y, z }),
    {
        Vec3 { x, y, z }
    }

    pub fn zero() -> (r: Vec3)
        ensures
            r == (Vec3 { x: 0, y: 0, z: 0 }),
    {
        Vec3 { x: 0, y: 0, z: 0 }
    }

    /// Squared distance to `other`, for vectors whose components lie in `[-bound, bound]`
    /// with `bound` at most `2^29`.
    pub fn sq_distance(&self, other: &Vec3) -> (r: i64)
        requires
            within(*self, 0x2000_0000),
            within(*other, 0x2000_0000),
        ensures
            r == sq_dist(*self, *other),
    {
        let dx: i64 = self.x - other.x;
        let dy: i64 = self.y - other.y;
        let dz: i64 = self.z - other.z;
        assert(dx * dx <= 0x4000_0000 * 0x4000_0000) by (nonlinear_arith)
            requires
                -0x4000_0000 <= dx <= 0x4000_0000,
        ;
        assert(dy * dy <= 0x4000_0000 * 0x4000_0000) by (nonlinear_arith)
            requires
                -0x4000_0000 <= dy <= 0x4000_0000,
        ;
        assert(dz * dz <= 0x4000_0000 * 0x4000_0000) by (nonlinear_arith)
            requires
                -0x4000_0000 <= dz <= 0x4000_0000,
        ;
        assert(dx * dx >= 0 && dy * dy >= 0 && dz * dz >= 0) by (nonlinear_arith);
        dx * dx + dy * dy + dz * dz
    }
}

} // verus!
