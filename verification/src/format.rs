//! Texture formats: the memory layouts a GPU texture may use.

use vstd::prelude::*;

verus! {

/// An enumeration of the memory layouts a GPU texture may use.
///
/// Only formats whose texel size in bytes is a power of two are representable
/// on the GPU side; this is what makes the mapping from color types partial.
#[derive(Clone, Copy, Debug, PartialEq, Eq, Structural)]
pub enum TextureFormat {
    /// Single 8-bit channel, unsigned normalised.
    R8Unorm,
    /// Single 8-bit channel, signed normalised.
    R8Snorm,
    /// Two 8-bit channels, unsigned normalised.
    Rg8Unorm,
    /// Two 8-bit channels, signed normalised.
    Rg8Snorm,
    /// Four 8-bit channels, unsigned normalised, non-linear sRGB.
    Rgba8UnormSrgb,
    /// Four 8-bit channels, signed normalised.
    Rgba8Snorm,
    /// Four 8-bit channels in blue, green, red, alpha order, non-linear sRGB.
    Bgra8UnormSrgb,
    /// Single 16-bit channel, unsigned normalised.
    R16Unorm,
    /// Single 16-bit channel, signed normalised.
    R16Snorm,
    /// Two 16-bit channels, unsigned normalised.
    Rg16Unorm,
    /// Two 16-bit channels, signed normalised.
    Rg16Snorm,
    /// Four 16-bit channels, unsigned normalised.
    Rgba16Unorm,
    /// Four 16-bit channels, signed normalised.
    Rgba16Snorm,
}

/// The number of bytes a single texel of the given format occupies.
pub open spec fn spec_bytes_per_texel(format: TextureFormat) -> nat {
    match format {
        TextureFormat::R8Unorm => 1,
        TextureFormat::R8Snorm => 1,
        TextureFormat::Rg8Unorm => 2,
        TextureFormat::Rg8Snorm => 2,
        TextureFormat::Rgba8UnormSrgb => 4,
        TextureFormat::Rgba8Snorm => 4,
        TextureFormat::Bgra8UnormSrgb => 4,
        TextureFormat::R16Unorm => 2,
        TextureFormat::R16Snorm => 2,
        TextureFormat::Rg16Unorm => 4,
        TextureFormat::Rg16Snorm => 4,
        TextureFormat::Rgba16Unorm => 8,
        TextureFormat::Rgba16Snorm => 8,
    }
}

/// The number of bytes a single texel of the given format occupies.
pub fn bytes_per_texel(format: TextureFormat) -> (result: usize)
    ensures
        result == spec_bytes_per_texel(format),
{
    match format {
        TextureFormat::R8Unorm => 1,
        TextureFormat::R8Snorm => 1,
        TextureFormat::Rg8Unorm => 2,
        TextureFormat::Rg8Snorm => 2,
        TextureFormat::Rgba8UnormSrgb => 4,
        TextureFormat::Rgba8Snorm => 4,
        TextureFormat::Bgra8UnormSrgb => 4,
        TextureFormat::R16Unorm => 2,
        TextureFormat::R16Snorm => 2,
        TextureFormat::Rg16Unorm => 4,
        TextureFormat::Rg16Snorm => 4,
        TextureFormat::Rgba16Unorm => 8,
        TextureFormat::Rgba16Snorm => 8,
    }
}

/// Whether `n` is a power of two.
pub open spec fn spec_is_power_of_two(n: nat) -> bool {
    exists|k: nat| n == vstd::arithmetic::power2::pow2(k)
}

/// Every texture format has a power-of-two texel size: this is the constraint
/// that decides which color types can be paired with a format at all.
pub proof fn lemma_texel_size_is_power_of_two(format: TextureFormat)
    ensures
        spec_is_power_of_two(spec_bytes_per_texel(format)),
{
    vstd::arithmetic::power2::lemma2_to64();
    match format {
        TextureFormat::R8Unorm => {
            assert(spec_bytes_per_texel(format) == vstd::arithmetic::power2::pow2(0));
        },
        TextureFormat::R8Snorm => {
            assert(spec_bytes_per_texel(format) == vstd::arithmetic::power2::pow2(0));
        },
        TextureFormat::Rg8Unorm => {
            assert(spec_bytes_per_texel(format) == vstd::arithmetic::power2::pow2(1));
        },
        TextureFormat::Rg8Snorm => {
            assert(spec_bytes_per_texel(format) == vstd::arithmetic::power2::pow2(1));
        },
        TextureFormat::Rgba8UnormSrgb => {
            assert(spec_bytes_per_texel(format) == vstd::arithmetic::power2::pow2(2));
        },
        TextureFormat::Rgba8Snorm => {
            assert(spec_bytes_per_texel(format) == vstd::arithmetic::power2::pow2(2));
        },
        TextureFormat::Bgra8UnormSrgb => {
            assert(spec_bytes_per_texel(format) == vstd::arithmetic::power2::pow2(2));
        },
        TextureFormat::R16Unorm => {
            assert(spec_bytes_per_texel(format) == vstd::arithmetic::power2::pow2(1));
        },
        TextureFormat::R16Snorm => {
            assert(spec_bytes_per_texel(format) == vstd::arithmetic::power2::pow2(1));
        },
        TextureFormat::Rg16Unorm => {
            assert(spec_bytes_per_texel(format) == vstd::arithmetic::power2::pow2(2));
        },
        TextureFormat::Rg16Snorm => {
            assert(spec_bytes_per_texel(format) == vstd::arithmetic::power2::pow2(2));
        },
        TextureFormat::Rgba16Unorm => {
            assert(spec_bytes_per_texel(format) == vstd::arithmetic::power2::pow2(3));
        },
        TextureFormat::Rgba16Snorm => {
            assert(spec_bytes_per_texel(format) == vstd::arithmetic::power2::pow2(3));
        },
    }
}

} // verus!
