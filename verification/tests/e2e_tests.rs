use groundray::color::Color;
use groundray::engine::{Camera, Engine};
use groundray::raygen::{Mat3, RenderContext};
use groundray::scheduler::render;
use groundray::shade::GroundPattern;
use groundray::vec3::Vec3;

const SCALE: i64 = 1_000_000;
const FOV_QUARTER_TURN: i64 = 785_398;

/// The rotation that faces a camera from (3, 3, 3) toward the origin, with
/// the world z axis as the up reference, worked out by hand: the facing
/// direction (-3, -3, -3) normalizes to -1/sqrt(3) each way; the local
/// right axis is the normalized cross product of up with it,
/// (1/sqrt(2), -1/sqrt(2), 0); the local up axis completes the frame as
/// (-1/sqrt(6), -1/sqrt(6), 2/sqrt(6)).  Each coefficient is truncated to
/// micro-units.
fn facing_origin() -> Mat3 {
    Mat3 {
        m00: 707_106,
        m01: -408_248,
        m02: -577_350,
        m10: -707_106,
        m11: -408_248,
        m12: -577_350,
        m20: 0,
        m21: 816_496,
        m22: -577_350,
    }
}

// tan(fov / 2) for a quarter-turn fov: tan(pi / 8) = 0.41421356,
// truncated to micro-units
const TAN_HALF_FOV: i64 = 414_213;

const B: Color = Color { r: 0, g: 0, b: 0 };
const W: Color = Color { r: 255, g: 255, b: 255 };
const BW: Color = Color { r: 127, g: 127, b: 127 };
const GW: Color = Color { r: 207, g: 207, b: 207 };

fn expected_checkerboard() -> Vec<Color> {
    vec![
        B, B, B, B,
        B, BW, BW, B,
        BW, B, B, BW,
        B, BW, B, BW,
    ]
}

fn expected_grid() -> Vec<Color> {
    vec![
        W, W, W, W,
        W, W, W, W,
        W, W, GW, W,
        W, W, W, W,
    ]
}

#[test]
fn four_by_four_frame_from_the_corner_camera() {
    let ctx = RenderContext {
        pos: Vec3::new(3 * SCALE, 3 * SCALE, 3 * SCALE),
        rot: facing_origin(),
        tan_half_fov: TAN_HALF_FOV,
        width: 4,
        height: 4,
    };
    let checker = render(&ctx, GroundPattern::Checkerboard);
    assert_eq!(checker.pixels, expected_checkerboard());
    let grid = render(&ctx, GroundPattern::Grid);
    assert_eq!(grid.pixels, expected_grid());
}

#[test]
fn four_by_four_frame_through_the_engine() {
    let cam = Camera::new(
        Vec3::new(3 * SCALE, 3 * SCALE, 3 * SCALE),
        Vec3::new(-3 * SCALE, -3 * SCALE, -3 * SCALE),
        FOV_QUARTER_TURN,
        4,
        4,
    );
    let mut e = Engine::new(cam, GroundPattern::Checkerboard);
    e.render_frame(facing_origin(), TAN_HALF_FOV);
    assert_eq!(e.buffer.width, 4);
    assert_eq!(e.buffer.height, 4);
    assert_eq!(e.buffer.pixels, expected_checkerboard());
}
