use vstd::prelude::*;

use crate::color::{avg_color, Color};
use crate::fixed::{div_trunc64, lemma_mul_bound, lemma_trunc_div_mag, trunc_div, SCALE};
use crate::shade::{shade, shade_spec, GroundPattern, Ray};
use crate::vec3::{in_range, Vec3, DIR_MAX, POS_MAX};

verus! {

/// Largest magnitude, in micro-units, of a rotation coefficient: rotation
/// entries are cosines, so they stay within one world unit with a little
/// slack for rounding.
pub const ROT_MAX: i64 = 1_500_000;

/// Largest magnitude, in micro-units, of the `tan(fov / 2)` scale factor.
pub const TAN_MAX: i64 = 1_000_000_000_000;

/// Largest viewport width or height, in pixels.
pub const VIEW_MAX: usize = 16384;

/// A rotation from camera-local to world coordinates, its nine coefficients
/// in fixed-point micro-units.  Column `j` holds the world-space image of
/// the camera's local axis `j`; the camera looks along its local `+z`.
#[derive(Clone, Copy, PartialEq, Eq, Structural, Debug)]
pub struct Mat3 {
    pub m00: i64,
    pub m01: i64,
    pub m02: i64,
    pub m10: i64,
    pub m11: i64,
    pub m12: i64,
    pub m20: i64,
    pub m21: i64,
    pub m22: i64,
}

/// Every coefficient of `m` lies within the rotation range.
pub open spec fn mat_wf(m: Mat3) -> bool {
    &&& -ROT_MAX <= m.m00 <= ROT_MAX
    &&& -ROT_MAX <= m.m01 <= ROT_MAX
    &&& -ROT_MAX <= m.m02 <= ROT_MAX
    &&& -ROT_MAX <= m.m10 <= ROT_MAX
    &&& -ROT_MAX <= m.m11 <= ROT_MAX
    &&& -ROT_MAX <= m.m12 <= ROT_MAX
    &&& -ROT_MAX <= m.m20 <= ROT_MAX
    &&& -ROT_MAX <= m.m21 <= ROT_MAX
    &&& -ROT_MAX <= m.m22 <= ROT_MAX
}

/// The immutable per-frame snapshot every rendering worker reads: camera
/// position, the world rotation of the camera frame, the field-of-view
/// scale `tan(fov / 2)` in micro-units, and the viewport size in pixels.
#[derive(Clone, Copy, PartialEq, Eq, Structural, Debug)]
pub struct RenderContext {
    pub pos: Vec3,
    pub rot: Mat3,
    pub tan_half_fov: i64,
    pub width: usize,
    pub height: usize,
}

/// A context the renderer can work on: everything in fixed-point range and
/// a viewport of at least one pixel each way.
pub open spec fn ctx_wf(ctx: RenderContext) -> bool {
    &&& in_range(ctx.pos, POS_MAX as int)
    &&& mat_wf(ctx.rot)
    &&& -TAN_MAX <= ctx.tan_half_fov <= TAN_MAX
    &&& 1 <= ctx.width <= VIEW_MAX
    &&& 1 <= ctx.height <= VIEW_MAX
}

/// The numerator of the normalized device coordinate of a pixel along one
/// axis, over the denominator `extent`: `2 * (p / extent - 1/2)`, with the
/// second anti-aliasing tap half a pixel further.
pub open spec fn ndc_num(p: int, extent: int, half: bool) -> int {
    2 * p + (if half {
        1int
    } else {
        0int
    }) - extent
}

/// The camera-local x-component of the ray for a pixel column, in
/// micro-units: the normalized device coordinate scaled by `tan(fov / 2)`.
pub open spec fn local_x_spec(ctx: RenderContext, x: int, half: bool) -> int {
    trunc_div(ndc_num(x, ctx.width as int, half) * ctx.tan_half_fov, ctx.width as int)
}

/// The camera-local y-component of the ray for a pixel row, in micro-units:
/// as for x but with the sign flipped, so that rows counted downward on the
/// screen map to directions turned downward in camera space.
pub open spec fn local_y_spec(ctx: RenderContext, y: int, half: bool) -> int {
    trunc_div(-ndc_num(y, ctx.height as int, half) * ctx.tan_half_fov, ctx.height as int)
}

/// One row of the rotation applied to the camera-local direction
/// `(lx, ly, SCALE)`, rescaled back into micro-units.
pub open spec fn rot_apply_row(a: int, b: int, c: int, lx: int, ly: int) -> int {
    trunc_div(a * lx + b * ly + c * SCALE, SCALE as int)
}

/// The world-space ray for a pixel: origin at the camera position,
/// direction the rotated camera-local direction
/// `(ndc_x * tan(fov/2), -ndc_y * tan(fov/2), 1)`.
pub open spec fn ray_spec(ctx: RenderContext, x: int, y: int, half: bool) -> Ray {
    let lx = local_x_spec(ctx, x, half);
    let ly = local_y_spec(ctx, y, half);
    Ray {
        pos: ctx.pos,
        dir: Vec3 {
            x: rot_apply_row(ctx.rot.m00 as int, ctx.rot.m01 as int, ctx.rot.m02 as int, lx, ly) as i64,
            y: rot_apply_row(ctx.rot.m10 as int, ctx.rot.m11 as int, ctx.rot.m12 as int, lx, ly) as i64,
            z: rot_apply_row(ctx.rot.m20 as int, ctx.rot.m21 as int, ctx.rot.m22 as int, lx, ly) as i64,
        },
    }
}

/// A camera-local component stays within `TAN_MAX`, and one rotated row
/// within `DIR_MAX`.
pub proof fn lemma_ray_dir_in_range(a: int, b: int, c: int, lx: int, ly: int)
    requires
        -ROT_MAX <= a <= ROT_MAX,
        -ROT_MAX <= b <= ROT_MAX,
        -ROT_MAX <= c <= ROT_MAX,
        -TAN_MAX <= lx <= TAN_MAX,
        -TAN_MAX <= ly <= TAN_MAX,
    ensures
        -DIR_MAX <= rot_apply_row(a, b, c, lx, ly) <= DIR_MAX,
{
    lemma_mul_bound(a, lx, ROT_MAX as int, TAN_MAX as int);
    lemma_mul_bound(b, ly, ROT_MAX as int, TAN_MAX as int);
    lemma_mul_bound(c, SCALE as int, ROT_MAX as int, SCALE as int);
    lemma_trunc_div_mag(a * lx + b * ly + c * SCALE, SCALE as int, DIR_MAX as int);
    assert(DIR_MAX * (SCALE as int) >= 2 * (ROT_MAX * TAN_MAX) + ROT_MAX * SCALE);
}

/// One rotated direction component, as executable code.
fn rot_apply_row_exec(a: i64, b: i64, c: i64, lx: i64, ly: i64) -> (r: i64)
    requires
        -ROT_MAX <= a <= ROT_MAX,
        -ROT_MAX <= b <= ROT_MAX,
        -ROT_MAX <= c <= ROT_MAX,
        -TAN_MAX <= lx <= TAN_MAX,
        -TAN_MAX <= ly <= TAN_MAX,
    ensures
        r == rot_apply_row(a as int, b as int, c as int, lx as int, ly as int),
        -DIR_MAX <= r <= DIR_MAX,
{
    proof {
        lemma_mul_bound(a as int, lx as int, ROT_MAX as int, TAN_MAX as int);
        lemma_mul_bound(b as int, ly as int, ROT_MAX as int, TAN_MAX as int);
        lemma_mul_bound(c as int, SCALE as int, ROT_MAX as int, SCALE as int);
        lemma_ray_dir_in_range(a as int, b as int, c as int, lx as int, ly as int);
    }
    div_trunc64(a * lx + b * ly + c * SCALE, SCALE)
}

/// One camera-local component: `num * tan / extent`, truncating.
fn local_component(num: i64, tan_half_fov: i64, extent: i64) -> (r: i64)
    requires
        1 <= extent <= VIEW_MAX as i64,
        -extent <= num <= extent,
        -TAN_MAX <= tan_half_fov <= TAN_MAX,
    ensures
        r == trunc_div(num * tan_half_fov, extent as int),
        -TAN_MAX <= r <= TAN_MAX,
{
    proof {
        lemma_mul_bound(num as int, tan_half_fov as int, extent as int, TAN_MAX as int);
        lemma_mul_bound(extent as int, TAN_MAX as int, VIEW_MAX as int, TAN_MAX as int);
        lemma_trunc_div_mag(num * tan_half_fov, extent as int, TAN_MAX as int);
        assert(TAN_MAX * (extent as int) >= extent * TAN_MAX) by (nonlinear_arith);
    }
    div_trunc64(num * tan_half_fov, extent)
}

/// Builds the world-space ray for the pixel at column `x`, row `y`; with
/// `half` set, the ray for the second anti-aliasing tap half a pixel right
/// and down.
pub fn ray_for_pixel(ctx: &RenderContext, x: usize, y: usize, half: bool) -> (ray: Ray)
    requires
        ctx_wf(*ctx),
        x < ctx.width,
        y < ctx.height,
    ensures
        ray == ray_spec(*ctx, x as int, y as int, half),
        crate::shade::ray_wf(ray),
{
    let off: i64 = if half {
        1
    } else {
        0
    };
    let w: i64 = ctx.width as i64;
    let h: i64 = ctx.height as i64;
    let nx: i64 = 2 * (x as i64) + off - w;
    let ny: i64 = -(2 * (y as i64) + off - h);
    let lx: i64 = local_component(nx, ctx.tan_half_fov, w);
    let ly: i64 = local_component(ny, ctx.tan_half_fov, h);
    let dir_x: i64 = rot_apply_row_exec(ctx.rot.m00, ctx.rot.m01, ctx.rot.m02, lx, ly);
    let dir_y: i64 = rot_apply_row_exec(ctx.rot.m10, ctx.rot.m11, ctx.rot.m12, lx, ly);
    let dir_z: i64 = rot_apply_row_exec(ctx.rot.m20, ctx.rot.m21, ctx.rot.m22, lx, ly);
    Ray { pos: ctx.pos, dir: Vec3 { x: dir_x, y: dir_y, z: dir_z } }
}

/// The color of one pixel: the two anti-aliasing taps shaded and averaged.
pub open spec fn pixel_spec(ctx: RenderContext, pat: GroundPattern, x: int, y: int) -> Color {
    avg_color(
        shade_spec(ray_spec(ctx, x, y, false), pat),
        shade_spec(ray_spec(ctx, x, y, true), pat),
    )
}

/// Computes the displayed color of the pixel at column `x`, row `y`:
/// shades the two sub-pixel rays and averages them channel-wise.
pub fn pixel_color(ctx: &RenderContext, pat: GroundPattern, x: usize, y: usize) -> (c: Color)
    requires
        ctx_wf(*ctx),
        x < ctx.width,
        y < ctx.height,
    ensures
        c == pixel_spec(*ctx, pat, x as int, y as int),
{
    let r0 = ray_for_pixel(ctx, x, y, false);
    let r1 = ray_for_pixel(ctx, x, y, true);
    let c0 = shade(r0, pat);
    let c1 = shade(r1, pat);
    crate::color::combine_colors(c0, c1)
}

} // verus!
