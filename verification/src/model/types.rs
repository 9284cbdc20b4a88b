use vstd::prelude::*;

verus! {

/// An 8-bit-per-channel RGBA color (straight, not premultiplied, alpha).
#[derive(Clone, Copy, Debug, PartialEq, Eq, Structural)]
pub struct RgbaColor {
    pub r: u8,
    pub g: u8,
    pub b: u8,
    pub a: u8,
}

impl RgbaColor {
    /// Builds a color from its four channels.
    pub fn from_rgba(r: u8, g: u8, b: u8, a: u8) -> (color: Self)
        ensures
            color == (RgbaColor { r, g, b, a }),
    {
        RgbaColor { r, g, b, a }
    }
}

/// The color new annotations start with: an opaque red.
pub open spec fn default_color() -> RgbaColor {
    RgbaColor { r: 255, g: 59, b: 48, a: 255 }
}

impl Default for RgbaColor {
    fn default() -> (color: Self)
        ensures
            color == default_color(),
    {
        RgbaColor::from_rgba(255, 59, 48, 255)
    }
}

} // verus!
