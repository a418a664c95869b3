//! The bidirectional, partial mapping between color types and texture formats.

use vstd::prelude::*;

use crate::color::ColorType;
use crate::color::spec_bytes_per_pixel;
use crate::format::TextureFormat;
use crate::format::spec_bytes_per_texel;
use crate::format::spec_is_power_of_two;

verus! {

/// The texture format paired with the given color type, if one exists.
pub open spec fn spec_format_from_color_type(color_type: ColorType) -> Option<TextureFormat> {
    match color_type {
        ColorType::L8 => Some(TextureFormat::R8Unorm),
        ColorType::La8 => Some(TextureFormat::Rg8Unorm),
        ColorType::Rgba8 => Some(TextureFormat::Rgba8UnormSrgb),
        ColorType::L16 => Some(TextureFormat::R16Unorm),
        ColorType::La16 => Some(TextureFormat::Rg16Unorm),
        ColorType::Rgba16 => Some(TextureFormat::Rgba16Unorm),
        ColorType::Bgra8 => Some(TextureFormat::Bgra8UnormSrgb),
        _ => None,
    }
}

/// The color type paired with the given texture format, if one exists.
pub open spec fn spec_color_type_from_format(format: TextureFormat) -> Option<ColorType> {
    match format {
        TextureFormat::R8Unorm => Some(ColorType::L8),
        TextureFormat::Rg8Unorm => Some(ColorType::La8),
        TextureFormat::Rgba8UnormSrgb => Some(ColorType::Rgba8),
        TextureFormat::R16Unorm => Some(ColorType::L16),
        TextureFormat::Rg16Unorm => Some(ColorType::La16),
        TextureFormat::Rgba16Unorm => Some(ColorType::Rgba16),
        TextureFormat::Bgra8UnormSrgb => Some(ColorType::Bgra8),
        _ => None,
    }
}

/// Convert the given color type to the corresponding texture format.
///
/// Returns `None` if there is no directly compatible texture format - this is
/// the case exactly when the color type's bytes-per-pixel is not a power of
/// two.
///
/// The `Rgba8` and `Bgra8` color types are assumed to be non-linear sRGB.
pub fn format_from_image_color_type(color_type: ColorType) -> (format: Option<TextureFormat>)
    ensures
        format == spec_format_from_color_type(color_type),
{
    match color_type {
        ColorType::L8 => Some(TextureFormat::R8Unorm),
        ColorType::La8 => Some(TextureFormat::Rg8Unorm),
        ColorType::Rgba8 => Some(TextureFormat::Rgba8UnormSrgb),
        ColorType::L16 => Some(TextureFormat::R16Unorm),
        ColorType::La16 => Some(TextureFormat::Rg16Unorm),
        ColorType::Rgba16 => Some(TextureFormat::Rgba16Unorm),
        ColorType::Bgra8 => Some(TextureFormat::Bgra8UnormSrgb),
        _ => None,
    }
}

/// Convert the given texture format to the corresponding color type.
///
/// Returns `None` if there is no directly compatible color type.
///
/// The `Rgba8` and `Bgra8` color types are assumed to be non-linear sRGB.
pub fn image_color_type_from_format(format: TextureFormat) -> (color_type: Option<ColorType>)
    ensures
        color_type == spec_color_type_from_format(format),
{
    match format {
        TextureFormat::R8Unorm => Some(ColorType::L8),
        TextureFormat::Rg8Unorm => Some(ColorType::La8),
        TextureFormat::Rgba8UnormSrgb => Some(ColorType::Rgba8),
        TextureFormat::R16Unorm => Some(ColorType::L16),
        TextureFormat::Rg16Unorm => Some(ColorType::La16),
        TextureFormat::Rgba16Unorm => Some(ColorType::Rgba16),
        TextureFormat::Bgra8UnormSrgb => Some(ColorType::Bgra8),
        _ => None,
    }
}

/// A color type that maps to a texture format is recovered unchanged by the
/// reverse mapping.
pub proof fn lemma_color_type_format_round_trip(color_type: ColorType)
    ensures
        spec_format_from_color_type(color_type) matches Some(format) ==>
            spec_color_type_from_format(format) == Some(color_type),
{
}

/// A texture format that maps to a color type is recovered unchanged by the
/// reverse mapping.
pub proof fn lemma_format_color_type_round_trip(format: TextureFormat)
    ensures
        spec_color_type_from_format(format) matches Some(color_type) ==>
            spec_format_from_color_type(color_type) == Some(format),
{
}

/// The mapping pairs a color type with a texture format of the same size: a
/// pixel and the texel it is loaded into occupy the same number of bytes.
pub proof fn lemma_mapping_preserves_size(color_type: ColorType)
    ensures
        spec_format_from_color_type(color_type) matches Some(format) ==>
            spec_bytes_per_texel(format) == spec_bytes_per_pixel(color_type),
{
}

/// A color type has a texture format counterpart exactly when its
/// bytes-per-pixel is a power of two.
pub proof fn lemma_format_exists_iff_power_of_two(color_type: ColorType)
    ensures
        spec_format_from_color_type(color_type).is_some() <==> spec_is_power_of_two(
            spec_bytes_per_pixel(color_type),
        ),
{
    if spec_format_from_color_type(color_type).is_some() {
        vstd::arithmetic::power2::lemma2_to64();
        lemma_mapping_preserves_size(color_type);
        let format = spec_format_from_color_type(color_type)->Some_0;
        crate::format::lemma_texel_size_is_power_of_two(format);
    } else {
        // The unmapped color types hold three channels: 3 or 6 bytes per
        // pixel, and no power of two is 3 or 6.
        assert forall|k: nat| spec_bytes_per_pixel(color_type)
            != vstd::arithmetic::power2::pow2(k) by {
            vstd::arithmetic::power2::lemma2_to64();
            if k >= 4 {
                vstd::arithmetic::power2::lemma_pow2_strictly_increases(3, k);
            }
        }
    }
}

} // verus!
