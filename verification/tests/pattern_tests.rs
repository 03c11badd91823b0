use groundray::color::Color;
use groundray::pattern::{ground_checkerboard, ground_grid, HitPoint};

const DEN: i128 = 1_000_000;

fn at(x_micro: i128, y_micro: i128) -> HitPoint {
    HitPoint { nx: x_micro, ny: y_micro, den: DEN }
}

#[test]
fn checkerboard_even_cell_is_black() {
    // (0.5, 0.5): cells 0 + 0, even
    assert_eq!(ground_checkerboard(at(500_000, 500_000)), Color::new(0, 0, 0));
    // (2.5, 3.5): cells 2 + 3, odd
    assert_eq!(ground_checkerboard(at(2_500_000, 3_500_000)), Color::new(255, 255, 255));
}

#[test]
fn checkerboard_adjacent_cells_alternate() {
    let a = ground_checkerboard(at(500_000, 500_000));
    let bx = ground_checkerboard(at(1_500_000, 500_000));
    let by = ground_checkerboard(at(500_000, 1_500_000));
    assert_ne!(a, bx);
    assert_ne!(a, by);
}

#[test]
fn checkerboard_period_two_per_axis() {
    let a = ground_checkerboard(at(500_000, 500_000));
    assert_eq!(a, ground_checkerboard(at(2_500_000, 500_000)));
    assert_eq!(a, ground_checkerboard(at(500_000, 2_500_000)));
}

#[test]
fn checkerboard_truncation_quirk_at_origin() {
    // Truncation toward zero puts (-0.5, 0.5) in the same cell pair as
    // (0.5, 0.5): the two cells either side of the origin share a color.
    assert_eq!(ground_checkerboard(at(-500_000, 500_000)), Color::new(0, 0, 0));
    // One more cell out the alternation resumes: (-1.5, 0.5) is white.
    assert_eq!(ground_checkerboard(at(-1_500_000, 500_000)), Color::new(255, 255, 255));
}

#[test]
fn grid_line_is_gray_within_thickness() {
    // 0.005 above the boundary: inside the 0.01-wide line
    assert_eq!(ground_grid(at(5_000, 500_000)), Color::new(160, 160, 160));
    assert_eq!(ground_grid(at(500_000, 2_005_000)), Color::new(160, 160, 160));
    // negative coordinates measure from the boundary too: |-3.003| mod 1 = 0.003
    assert_eq!(ground_grid(at(-3_003_000, 700_000)), Color::new(160, 160, 160));
}

#[test]
fn grid_interior_is_white() {
    assert_eq!(ground_grid(at(500_000, 500_000)), Color::new(255, 255, 255));
    // exactly at the thickness: no longer on the line
    assert_eq!(ground_grid(at(10_000, 500_000)), Color::new(255, 255, 255));
    // just below the next boundary: the line is one-sided
    assert_eq!(ground_grid(at(995_000, 500_000)), Color::new(255, 255, 255));
}

#[test]
fn grid_works_on_any_denominator() {
    // exactly on a boundary: fractional part zero, gray
    assert_eq!(
        ground_grid(HitPoint { nx: 0, ny: 7, den: 3 }),
        Color::new(160, 160, 160)
    );
    // 1/3: fractional part 1/3, far from any line
    assert_eq!(
        ground_grid(HitPoint { nx: 1, ny: 1, den: 3 }),
        Color::new(255, 255, 255)
    );
}
