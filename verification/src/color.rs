//! Colours on both sides of the adapter.
//!
//! Both sides hold red, green and blue as bytes. Opacity arrives from the chart
//! side as a double-precision number; it is carried through as the bit pattern
//! of that number and never computed with, so that no rounding happens here.

use vstd::prelude::*;

verus! {

/// The bit pattern of the double-precision number 1.0: full opacity.
pub const OPAQUE_ALPHA_BITS: u64 = 0x3FF0_0000_0000_0000;

/// A colour as the chart side gives it.
#[derive(Clone, Copy, Debug, PartialEq, Eq)]
pub struct BackendColor {
    /// Opacity, as the bit pattern of a double-precision number.
    pub alpha_bits: u64,
    /// Red, green and blue.
    pub rgb: (u8, u8, u8),
}

/// A colour as the canvas takes it.
#[derive(Clone, Copy, Debug, PartialEq, Eq, Structural)]
pub struct Color {
    /// Red channel.
    pub r: u8,
    /// Green channel.
    pub g: u8,
    /// Blue channel.
    pub b: u8,
    /// Opacity, as the bit pattern of a double-precision number.
    pub alpha_bits: u64,
}

impl Color {
    /// Opaque black, the canvas's default colour.
    pub open spec fn spec_black() -> Color {
        Color { r: 0, g: 0, b: 0, alpha_bits: OPAQUE_ALPHA_BITS }
    }

    /// Opaque black, the canvas's default colour.
    #[verifier::when_used_as_spec(spec_black)]
    pub fn black() -> (out: Color)
        ensures
            out == Color::spec_black(),
    {
        Color { r: 0, g: 0, b: 0, alpha_bits: OPAQUE_ALPHA_BITS }
    }

    /// A colour from its byte channels and its opacity's bit pattern.
    pub fn from_rgba8(r: u8, g: u8, b: u8, alpha_bits: u64) -> (out: Color)
        ensures
            out == (Color { r, g, b, alpha_bits }),
    {
        Color { r, g, b, alpha_bits }
    }
}

} // verus!
