//! Color types: the pixel layouts an image may use on the CPU side.

use vstd::prelude::*;

verus! {

/// An enumeration of the pixel layouts an image held in CPU memory may use.
///
/// The `Rgba8` and `Bgra8` color types are assumed to be non-linear sRGB.
#[derive(Clone, Copy, Debug, PartialEq, Eq, Structural)]
pub enum ColorType {
    /// 8-bit grayscale.
    L8,
    /// 8-bit grayscale with an 8-bit alpha channel.
    La8,
    /// 8-bit red, green and blue channels.
    Rgb8,
    /// 8-bit red, green, blue and alpha channels.
    Rgba8,
    /// 8-bit blue, green, red and alpha channels.
    Bgra8,
    /// 16-bit grayscale.
    L16,
    /// 16-bit grayscale with a 16-bit alpha channel.
    La16,
    /// 16-bit red, green and blue channels.
    Rgb16,
    /// 16-bit red, green, blue and alpha channels.
    Rgba16,
}

/// The number of bytes a single pixel of the given color type occupies.
pub open spec fn spec_bytes_per_pixel(color_type: ColorType) -> nat {
    match color_type {
        ColorType::L8 => 1,
        ColorType::La8 => 2,
        ColorType::Rgb8 => 3,
        ColorType::Rgba8 => 4,
        ColorType::Bgra8 => 4,
        ColorType::L16 => 2,
        ColorType::La16 => 4,
        ColorType::Rgb16 => 6,
        ColorType::Rgba16 => 8,
    }
}

} // verus!
