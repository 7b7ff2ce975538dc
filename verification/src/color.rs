use vstd::prelude::*;

verus! {

/// The colour space in which a colour's three coordinates are read.
#[derive(Clone, Copy, Debug, PartialEq, Eq, Structural)]
pub enum ColorSpace {
    Srgba,
    LinearRgba,
    Hsla,
    Hsva,
    Hwba,
    Laba,
    Lcha,
    Oklaba,
    Oklcha,
    Xyza,
}

/// A colour: a colour space, three coordinates in it and an alpha.
///
/// Each of the four numbers is held as the bit pattern of a single-precision
/// number, the form in which the renderer takes it. Nothing here computes with
/// a colour; it is chosen and handed on, bit for bit.
#[derive(Clone, Copy, Debug, PartialEq, Eq, Structural)]
pub struct Color {
    pub space: ColorSpace,
    pub first: u32,
    pub second: u32,
    pub third: u32,
    pub alpha: u32,
}

/// The bit pattern of the single-precision number one.
pub const ONE_BITS: u32 = 0x3f80_0000;

impl Default for Color {
    fn default() -> (color: Self)
        ensures
            color == Color::spec_black(),
    {
        Color::black()
    }
}

impl Color {
    /// Opaque black in linear RGB: the colour of a collection that was given
    /// none.
    pub open spec fn spec_black() -> Color {
        Color { space: ColorSpace::LinearRgba, first: 0, second: 0, third: 0, alpha: ONE_BITS }
    }

    /// Opaque black in linear RGB.
    pub fn black() -> (color: Color)
        ensures
            color == Color::spec_black(),
    {
        Color { space: ColorSpace::LinearRgba, first: 0, second: 0, third: 0, alpha: ONE_BITS }
    }
}

} // verus!
