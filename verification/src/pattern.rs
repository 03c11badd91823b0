use vstd::prelude::*;

use crate::color::{black, gray, white, Color};
use crate::fixed::{abs_rem, div_trunc, lemma_trunc_div_mag, lemma_trunc_div_shift, trunc_div};

verus! {

/// Largest numerator magnitude a well-formed hit point may carry.
pub const HIT_NUM_MAX: i128 = 100_000_000_000_000_000_000_000_000;

/// Largest denominator a well-formed hit point may carry.
pub const HIT_DEN_MAX: i128 = 10_000_000_000_000_000_000;

/// A point on the ground plane, held exactly: the world-space point
/// `(nx / den, ny / den)` in world units, with a shared positive
/// denominator.
#[derive(Clone, Copy, PartialEq, Eq, Structural, Debug)]
pub struct HitPoint {
    pub nx: i128,
    pub ny: i128,
    pub den: i128,
}

/// A hit point the pattern functions can work on: positive denominator and
/// numerators small enough for exact 128-bit arithmetic.
pub open spec fn hit_wf(h: HitPoint) -> bool {
    &&& 0 < h.den <= HIT_DEN_MAX
    &&& -HIT_NUM_MAX <= h.nx <= HIT_NUM_MAX
    &&& -HIT_NUM_MAX <= h.ny <= HIT_NUM_MAX
}

/// The unit cell a coordinate falls in, counted with truncation toward zero
/// (so the two cells either side of zero share the count 0 — a deliberate
/// quirk of the checkerboard, kept as it is).
pub open spec fn cell_index(n: int, den: int) -> int {
    trunc_div(n, den)
}

/// The checkerboard ground pattern: black where the cell indices of the two
/// coordinates have an even sum, white elsewhere.
pub open spec fn checkerboard_spec(h: HitPoint) -> Color {
    if (cell_index(h.nx as int, h.den as int) + cell_index(h.ny as int, h.den as int)) % 2 == 0 {
        black()
    } else {
        white()
    }
}

/// The fractional part of `|n / den|`, scaled by the denominator: the
/// distance of `|n / den|` above the nearest integer below it, as the exact
/// rational `(|n| mod den) / den`.
pub open spec fn frac_abs(n: int, den: int) -> int {
    (vstd::math::abs(n) as int) % den
}

/// A coordinate lies on a grid line when the fractional part of its absolute
/// value is below the line thickness of 1/100 of a unit cell.
pub open spec fn on_grid_line(n: int, den: int) -> bool {
    100 * frac_abs(n, den) < den
}

/// The grid ground pattern: gray on the lines drawn along every integer
/// boundary (each line 1/100 of a cell wide, measured from the boundary
/// toward larger absolute values), white elsewhere.
pub open spec fn grid_spec(h: HitPoint) -> Color {
    if on_grid_line(h.nx as int, h.den as int) || on_grid_line(h.ny as int, h.den as int) {
        gray()
    } else {
        white()
    }
}

/// Shades a ground-plane point with the checkerboard pattern.
pub fn ground_checkerboard(h: HitPoint) -> (c: Color)
    requires
        hit_wf(h),
    ensures
        c == checkerboard_spec(h),
{
    proof {
        lemma_trunc_div_mag(h.nx as int, h.den as int, HIT_NUM_MAX as int);
        lemma_trunc_div_mag(h.ny as int, h.den as int, HIT_NUM_MAX as int);
        assert(HIT_NUM_MAX * h.den >= HIT_NUM_MAX) by (nonlinear_arith)
            requires
                h.den >= 1,
        ;
    }
    let tx: i128 = div_trunc(h.nx, h.den);
    let ty: i128 = div_trunc(h.ny, h.den);
    let s: i128 = tx + ty;
    let even: bool = if s >= 0 {
        (s as u128) % 2 == 0
    } else {
        ((-s) as u128) % 2 == 0
    };
    if even {
        Color { r: 0, g: 0, b: 0 }
    } else {
        Color { r: 255, g: 255, b: 255 }
    }
}

/// Shades a ground-plane point with the grid pattern.
pub fn ground_grid(h: HitPoint) -> (c: Color)
    requires
        hit_wf(h),
    ensures
        c == grid_spec(h),
{
    let mx: i128 = abs_rem(h.nx, h.den);
    let my: i128 = abs_rem(h.ny, h.den);
    if 100 * mx < h.den || 100 * my < h.den {
        Color { r: 160, g: 160, b: 160 }
    } else {
        Color { r: 255, g: 255, b: 255 }
    }
}

/// Stepping one whole cell along x flips the checkerboard color, on the
/// nonnegative side of the axis.  (Across zero the truncation quirk makes
/// the two cells either side of the origin share a color instead.)
pub proof fn lemma_checkerboard_alternates_x(h: HitPoint)
    requires
        hit_wf(h),
        h.nx >= 0,
        h.nx + h.den <= HIT_NUM_MAX,
    ensures
        checkerboard_spec(HitPoint { nx: (h.nx + h.den) as i128, ny: h.ny, den: h.den })
            != checkerboard_spec(h),
{
    lemma_trunc_div_shift(h.nx as int, h.den as int);
}

/// Stepping one whole cell along y flips the checkerboard color, on the
/// nonnegative side of the axis.
pub proof fn lemma_checkerboard_alternates_y(h: HitPoint)
    requires
        hit_wf(h),
        h.ny >= 0,
        h.ny + h.den <= HIT_NUM_MAX,
    ensures
        checkerboard_spec(HitPoint { nx: h.nx, ny: (h.ny + h.den) as i128, den: h.den })
            != checkerboard_spec(h),
{
    lemma_trunc_div_shift(h.ny as int, h.den as int);
}

/// The checkerboard is periodic with period two cells along x, on the
/// nonnegative side of the axis.
pub proof fn lemma_checkerboard_period_x(h: HitPoint)
    requires
        hit_wf(h),
        h.nx >= 0,
        h.nx + 2 * h.den <= HIT_NUM_MAX,
    ensures
        checkerboard_spec(HitPoint { nx: (h.nx + 2 * h.den) as i128, ny: h.ny, den: h.den })
            == checkerboard_spec(h),
{
    lemma_trunc_div_shift(h.nx as int, h.den as int);
    lemma_trunc_div_shift(h.nx + h.den, h.den as int);
}

/// The checkerboard is periodic with period two cells along y, on the
/// nonnegative side of the axis.
pub proof fn lemma_checkerboard_period_y(h: HitPoint)
    requires
        hit_wf(h),
        h.ny >= 0,
        h.ny + 2 * h.den <= HIT_NUM_MAX,
    ensures
        checkerboard_spec(HitPoint { nx: h.nx, ny: (h.ny + 2 * h.den) as i128, den: h.den })
            == checkerboard_spec(h),
{
    lemma_trunc_div_shift(h.ny as int, h.den as int);
    lemma_trunc_div_shift(h.ny + h.den, h.den as int);
}

} // verus!
