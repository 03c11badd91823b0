use vstd::prelude::*;

use crate::color::{sky, Color};
use crate::fixed::{lemma_mul_bound, SCALE};
use crate::pattern::{
    checkerboard_spec, grid_spec, ground_checkerboard, ground_grid, hit_wf, HitPoint, HIT_DEN_MAX,
    HIT_NUM_MAX,
};
use crate::vec3::{in_range, Vec3, DIR_MAX, POS_MAX};

verus! {

/// Threshold, in micro-units, below which a ray's downward slope is taken to
/// reach the ground: 0.001 of a world unit.
pub const EPS: i64 = 1_000;

/// A world-space ray: an origin point and a direction vector, both in
/// micro-units.  The direction need not be unit length; its magnitude only
/// scales the ray parameter, never the color decisions.
#[derive(Clone, Copy, PartialEq, Eq, Structural, Debug)]
pub struct Ray {
    pub pos: Vec3,
    pub dir: Vec3,
}

/// Which ground pattern the shader paints the plane with.
#[derive(Clone, Copy, PartialEq, Eq, Structural, Debug)]
pub enum GroundPattern {
    Checkerboard,
    Grid,
}

/// A ray the shader can work on: coordinates within the fixed-point range.
pub open spec fn ray_wf(ray: Ray) -> bool {
    &&& in_range(ray.pos, POS_MAX as int)
    &&& in_range(ray.dir, DIR_MAX as int)
}

/// Where the ray meets the ground plane `z == 0`, as an exact rational
/// point: with `t == pos.z / -dir.z`, the hit point is
/// `(pos + t * dir).xy`, whose coordinates share the positive denominator
/// `SCALE * |dir.z|`.
pub open spec fn hit_point_spec(ray: Ray) -> HitPoint {
    let ndz = -(ray.dir.z as int);
    let nx0 = ray.pos.x * ndz + ray.dir.x * ray.pos.z;
    let ny0 = ray.pos.y * ndz + ray.dir.y * ray.pos.z;
    let den0 = SCALE * ndz;
    if den0 < 0 {
        HitPoint { nx: (-nx0) as i128, ny: (-ny0) as i128, den: (-den0) as i128 }
    } else {
        HitPoint { nx: nx0 as i128, ny: ny0 as i128, den: den0 as i128 }
    }
}

/// The chosen ground pattern applied to a hit point.
pub open spec fn pattern_spec(pat: GroundPattern, h: HitPoint) -> Color {
    match pat {
        GroundPattern::Checkerboard => checkerboard_spec(h),
        GroundPattern::Grid => grid_spec(h),
    }
}

/// What `shade` returns: the sky color for every ray that never reaches the
/// plane (direction z at or above the epsilon, or exactly level), and the
/// ground pattern at the exact rational hit point for every other ray.
pub open spec fn shade_spec(ray: Ray, pat: GroundPattern) -> Color {
    if ray.dir.z >= EPS || ray.dir.z == 0 {
        sky()
    } else {
        pattern_spec(pat, hit_point_spec(ray))
    }
}

/// The hit point of a well-formed ground-bound ray is well formed.
pub proof fn lemma_hit_point_wf(ray: Ray)
    requires
        ray_wf(ray),
        ray.dir.z < EPS,
        ray.dir.z != 0,
    ensures
        hit_wf(hit_point_spec(ray)),
{
    let ndz = -(ray.dir.z as int);
    lemma_mul_bound(ray.pos.x as int, ndz, POS_MAX as int, DIR_MAX as int);
    lemma_mul_bound(ray.pos.y as int, ndz, POS_MAX as int, DIR_MAX as int);
    lemma_mul_bound(ray.dir.x as int, ray.pos.z as int, DIR_MAX as int, POS_MAX as int);
    lemma_mul_bound(ray.dir.y as int, ray.pos.z as int, DIR_MAX as int, POS_MAX as int);
    lemma_mul_bound(SCALE as int, ndz, SCALE as int, DIR_MAX as int);
    assert(SCALE * ndz != 0) by (nonlinear_arith)
        requires
            ndz != 0,
    ;
}

/// Shades one world-space ray against the infinite ground plane: sky for
/// rays that never reach it, the chosen pattern at the exact hit point for
/// the rest.
pub fn shade(ray: Ray, pat: GroundPattern) -> (c: Color)
    requires
        ray_wf(ray),
    ensures
        c == shade_spec(ray, pat),
{
    if ray.dir.z >= EPS || ray.dir.z == 0 {
        Color { r: 0, g: 0, b: 255 }
    } else {
        proof {
            lemma_hit_point_wf(ray);
            let ndz = -(ray.dir.z as int);
            lemma_mul_bound(ray.pos.x as int, ndz, POS_MAX as int, DIR_MAX as int);
            lemma_mul_bound(ray.pos.y as int, ndz, POS_MAX as int, DIR_MAX as int);
            lemma_mul_bound(ray.dir.x as int, ray.pos.z as int, DIR_MAX as int, POS_MAX as int);
            lemma_mul_bound(ray.dir.y as int, ray.pos.z as int, DIR_MAX as int, POS_MAX as int);
            lemma_mul_bound(SCALE as int, ndz, SCALE as int, DIR_MAX as int);
        }
        let ndz: i128 = -(ray.dir.z as i128);
        let nx0: i128 = (ray.pos.x as i128) * ndz + (ray.dir.x as i128) * (ray.pos.z as i128);
        let ny0: i128 = (ray.pos.y as i128) * ndz + (ray.dir.y as i128) * (ray.pos.z as i128);
        let den0: i128 = (SCALE as i128) * ndz;
        let h: HitPoint = if den0 < 0 {
            HitPoint { nx: -nx0, ny: -ny0, den: -den0 }
        } else {
            HitPoint { nx: nx0, ny: ny0, den: den0 }
        };
        match pat {
            GroundPattern::Checkerboard => ground_checkerboard(h),
            GroundPattern::Grid => ground_grid(h),
        }
    }
}

/// Every ray whose direction z-component is at or above the epsilon is
/// shaded with the sky color, whatever its origin: two such rays with the
/// same direction shade alike from any two origins.
pub proof fn lemma_sky_independent_of_origin(a: Ray, b: Ray, pat: GroundPattern)
    requires
        a.dir == b.dir,
        a.dir.z >= EPS,
    ensures
        shade_spec(a, pat) == sky(),
        shade_spec(a, pat) == shade_spec(b, pat),
{
}

/// A ray cast straight down from above the plane hits it directly below its
/// origin: the hit point is exactly `(pos.x, pos.y)` in world units, reached
/// at ray parameter `t == pos.z` in world units (the rational
/// `pos.z / -dir.z` over micro-units).
pub proof fn lemma_shade_straight_down(ray: Ray)
    requires
        ray_wf(ray),
        ray.pos.z > 0,
        ray.dir == (Vec3 { x: 0, y: 0, z: (-SCALE) as i64 }),
    ensures
        hit_wf(hit_point_spec(ray)),
        hit_point_spec(ray).den == SCALE * SCALE,
        hit_point_spec(ray).nx == ray.pos.x * SCALE,
        hit_point_spec(ray).ny == ray.pos.y * SCALE,
        // the hit point equals the origin's ground projection, as rationals:
        // nx / den == pos.x / SCALE  and  ny / den == pos.y / SCALE
        hit_point_spec(ray).nx * SCALE == ray.pos.x * hit_point_spec(ray).den,
        hit_point_spec(ray).ny * SCALE == ray.pos.y * hit_point_spec(ray).den,
        // the ray parameter pos.z / -dir.z equals pos.z / SCALE: the
        // camera height in world units
        -(ray.dir.z as int) == SCALE,
{
    lemma_hit_point_wf(ray);
    assert(ray.pos.x * (SCALE as int) + 0 * ray.pos.z == ray.pos.x * SCALE) by (nonlinear_arith);
    assert(ray.pos.x * SCALE * SCALE == ray.pos.x * (SCALE * SCALE)) by (nonlinear_arith);
    assert(ray.pos.y * SCALE * SCALE == ray.pos.y * (SCALE * SCALE)) by (nonlinear_arith);
}

} // verus!
