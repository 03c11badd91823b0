use vstd::prelude::*;

verus! {

/// Largest magnitude, in micro-units, of a camera position coordinate the
/// engine works with: one million world units away from the origin.
pub const POS_MAX: i64 = 1_000_000_000_000;

/// Largest magnitude, in micro-units, of a camera facing-vector coordinate.
pub const CAM_DIR_MAX: i64 = 1_000_000_000_000;

/// Largest magnitude, in micro-units, of a generated ray-direction
/// coordinate.
pub const DIR_MAX: i64 = 5_000_000_000_000;

/// A point or vector in world space, each coordinate in fixed-point
/// micro-units.
#[derive(Clone, Copy, PartialEq, Eq, Structural, Debug)]
pub struct Vec3 {
    pub x: i64,
    pub y: i64,
    pub z: i64,
}

/// Every coordinate of `v` lies within `[-bound, bound]`.
pub open spec fn in_range(v: Vec3, bound: int) -> bool {
    &&& -bound <= v.x <= bound
    &&& -bound <= v.y <= bound
    &&& -bound <= v.z <= bound
}

impl Vec3 {
    /// Builds a vector from its three micro-unit coordinates.
    pub fn new(x: i64, y: i64, z: i64) -> (v: Vec3)
        ensures
            v == (Vec3 { x, y, z }),
    {
        Vec3 { x, y, z }
    }
}

} // verus!
