use groundray::raygen::{pixel_color, ray_for_pixel, Mat3, RenderContext};
use groundray::shade::GroundPattern;
use groundray::vec3::Vec3;

const SCALE: i64 = 1_000_000;

fn identity() -> Mat3 {
    Mat3 {
        m00: SCALE,
        m01: 0,
        m02: 0,
        m10: 0,
        m11: SCALE,
        m12: 0,
        m20: 0,
        m21: 0,
        m22: SCALE,
    }
}

#[test]
fn corner_pixel_ray_with_identity_rotation() {
    // fov a quarter-turn: tan(fov / 2) = 1, so the frustum spans one unit
    // either side at unit depth
    let ctx = RenderContext {
        pos: Vec3::new(0, 0, 5 * SCALE),
        rot: identity(),
        tan_half_fov: SCALE,
        width: 2,
        height: 2,
    };
    // pixel (0, 0): ndc numerators (2*0 - 2, -(2*0 - 2)) = (-2, 2) over 2:
    // local (-1, 1, 1), unrotated
    let ray = ray_for_pixel(&ctx, 0, 0, false);
    assert_eq!(ray.pos, Vec3::new(0, 0, 5 * SCALE));
    assert_eq!(ray.dir, Vec3::new(-SCALE, SCALE, SCALE));
    // the second anti-aliasing tap sits half a pixel right and down: ndc
    // numerators (-1, 1) over 2: local (-0.5, 0.5, 1)
    let tap = ray_for_pixel(&ctx, 0, 0, true);
    assert_eq!(tap.dir, Vec3::new(-500_000, 500_000, SCALE));
}

#[test]
fn fov_scales_ray_spread() {
    // tan(fov / 2) = 0.25: the same corner pixel leans only a quarter as far
    let ctx = RenderContext {
        pos: Vec3::new(0, 0, 5 * SCALE),
        rot: identity(),
        tan_half_fov: 250_000,
        width: 2,
        height: 2,
    };
    let ray = ray_for_pixel(&ctx, 1, 1, false);
    // pixel (1, 1): ndc numerators (0, 0): straight along the local axis
    assert_eq!(ray.dir, Vec3::new(0, 0, SCALE));
    let corner = ray_for_pixel(&ctx, 0, 0, false);
    assert_eq!(corner.dir, Vec3::new(-250_000, 250_000, SCALE));
}

#[test]
fn rotation_turns_local_into_world() {
    // the camera looks straight down: local +z maps to world -z, local +y
    // to world +y, local +x to world -x (a half-turn about world y composed
    // with the downward pitch)
    let down = Mat3 {
        m00: -SCALE,
        m01: 0,
        m02: 0,
        m10: 0,
        m11: SCALE,
        m12: 0,
        m20: 0,
        m21: 0,
        m22: -SCALE,
    };
    let ctx = RenderContext {
        pos: Vec3::new(0, 0, 5 * SCALE),
        rot: down,
        tan_half_fov: SCALE,
        width: 2,
        height: 2,
    };
    let ray = ray_for_pixel(&ctx, 0, 0, false);
    // local (-1, 1, 1) maps to (1, 1, -1)
    assert_eq!(ray.dir, Vec3::new(SCALE, SCALE, -SCALE));
}

#[test]
fn pixel_color_averages_two_taps() {
    // camera one unit above the plane looking straight down with a wide
    // frustum: both taps of pixel (0, 0) land on the checkerboard; the
    // first tap hits (1, 1) (black cell pair: 1 + 1 even), the second
    // (0.5, 0.5) (also even): the average stays black
    let down = Mat3 {
        m00: -SCALE,
        m01: 0,
        m02: 0,
        m10: 0,
        m11: SCALE,
        m12: 0,
        m20: 0,
        m21: 0,
        m22: -SCALE,
    };
    let ctx = RenderContext {
        pos: Vec3::new(0, 0, SCALE),
        rot: down,
        tan_half_fov: SCALE,
        width: 2,
        height: 2,
    };
    let c = pixel_color(&ctx, GroundPattern::Checkerboard, 0, 0);
    assert_eq!(c, groundray::color::Color::new(0, 0, 0));
}
