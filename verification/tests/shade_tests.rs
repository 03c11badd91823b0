use groundray::color::Color;
use groundray::shade::{shade, GroundPattern, Ray};
use groundray::vec3::Vec3;

const SCALE: i64 = 1_000_000;

#[test]
fn straight_down_ray_hits_below_origin() {
    // camera above (2.5, 3.5): the straight-down ray hits the plane at
    // (2.5, 3.5), cells 2 + 3, odd, so the checkerboard shows white
    let ray = Ray {
        pos: Vec3::new(2_500_000, 3_500_000, 7 * SCALE),
        dir: Vec3::new(0, 0, -SCALE),
    };
    assert_eq!(shade(ray, GroundPattern::Checkerboard), Color::new(255, 255, 255));
    // moved one cell along x: 3 + 3, even, black
    let ray2 = Ray {
        pos: Vec3::new(3_500_000, 3_500_000, 7 * SCALE),
        dir: Vec3::new(0, 0, -SCALE),
    };
    assert_eq!(shade(ray2, GroundPattern::Checkerboard), Color::new(0, 0, 0));
}

#[test]
fn straight_down_ray_on_grid_line() {
    // camera above (4.002, 0.5): within the 0.01-wide line along x = 4
    let ray = Ray {
        pos: Vec3::new(4_002_000, 500_000, 3 * SCALE),
        dir: Vec3::new(0, 0, -SCALE),
    };
    assert_eq!(shade(ray, GroundPattern::Grid), Color::new(160, 160, 160));
}

#[test]
fn upward_rays_are_sky_everywhere() {
    // direction z exactly at the epsilon: sky, whatever the origin
    for pos in [
        Vec3::new(0, 0, SCALE),
        Vec3::new(-7 * SCALE, 12 * SCALE, 900 * SCALE),
        Vec3::new(123_456, -654_321, 1),
    ] {
        let ray = Ray { pos, dir: Vec3::new(500_000, -200_000, 1_000) };
        assert_eq!(shade(ray, GroundPattern::Checkerboard), Color::new(0, 0, 255));
        assert_eq!(shade(ray, GroundPattern::Grid), Color::new(0, 0, 255));
    }
}

#[test]
fn level_ray_is_sky() {
    let ray = Ray {
        pos: Vec3::new(3 * SCALE, 3 * SCALE, 3 * SCALE),
        dir: Vec3::new(SCALE, 0, 0),
    };
    assert_eq!(shade(ray, GroundPattern::Grid), Color::new(0, 0, 255));
}

#[test]
fn slightly_upward_ray_shades_the_backward_point() {
    // direction z in (0, epsilon): the ray parameter is negative and the
    // pattern is taken at the point behind the camera, as the branch
    // structure has it; with no sideways motion that is the camera's own
    // ground cell: (3, 3), even, black
    let ray = Ray {
        pos: Vec3::new(3 * SCALE, 3 * SCALE, 3 * SCALE),
        dir: Vec3::new(0, 0, 500),
    };
    assert_eq!(shade(ray, GroundPattern::Checkerboard), Color::new(0, 0, 0));
}

#[test]
fn oblique_ray_hit_point() {
    // from (0, 0, 2) along (1, 0, -1): t = 2, hit (2, 0): cells 2 + 0,
    // even, black
    let ray = Ray {
        pos: Vec3::new(0, 0, 2 * SCALE),
        dir: Vec3::new(SCALE, 0, -SCALE),
    };
    assert_eq!(shade(ray, GroundPattern::Checkerboard), Color::new(0, 0, 0));
    // along (-1, 0, -1): hit (-2, 0): cell counted by truncation is -2:
    // -2 + 0 even, black
    let ray2 = Ray {
        pos: Vec3::new(0, 0, 2 * SCALE),
        dir: Vec3::new(-SCALE, 0, -SCALE),
    };
    assert_eq!(shade(ray2, GroundPattern::Checkerboard), Color::new(0, 0, 0));
}
