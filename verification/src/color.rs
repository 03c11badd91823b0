use vstd::prelude::*;

verus! {

/// An RGB color with 8-bit channels, the unit every pattern and the final
/// pixel buffer speak in.
#[derive(Clone, Copy, PartialEq, Eq, Structural, Debug)]
pub struct Color {
    pub r: u8,
    pub g: u8,
    pub b: u8,
}

/// The color of a checkerboard cell with an even coordinate-sum.
pub open spec fn black() -> Color {
    Color { r: 0, g: 0, b: 0 }
}

/// The color of the bright cells in both ground patterns.
pub open spec fn white() -> Color {
    Color { r: 255, g: 255, b: 255 }
}

/// The color of the grid lines.
pub open spec fn gray() -> Color {
    Color { r: 160, g: 160, b: 160 }
}

/// The sky color, returned for every ray that never reaches the ground.
pub open spec fn sky() -> Color {
    Color { r: 0, g: 0, b: 255 }
}

/// Channel-wise average of two colors, each channel rounded down.
pub open spec fn avg_color(a: Color, b: Color) -> Color {
    Color {
        r: ((a.r + b.r) / 2) as u8,
        g: ((a.g + b.g) / 2) as u8,
        b: ((a.b + b.b) / 2) as u8,
    }
}

impl Color {
    /// Builds a color from its three channels.
    pub fn new(r: u8, g: u8, b: u8) -> (c: Color)
        ensures
            c == (Color { r, g, b }),
    {
        Color { r, g, b }
    }
}

/// The two-tap anti-aliasing filter: combines the colors of the two
/// sub-pixel samples into the displayed pixel color by averaging each
/// channel with equal weight, rounding down.
pub fn combine_colors(a: Color, b: Color) -> (c: Color)
    ensures
        c == avg_color(a, b),
{
    Color {
        r: ((a.r as u16 + b.r as u16) / 2) as u8,
        g: ((a.g as u16 + b.g as u16) / 2) as u8,
        b: ((a.b as u16 + b.b as u16) / 2) as u8,
    }
}

} // verus!
