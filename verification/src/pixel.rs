//! The set of pixel types that can be loaded directly into a texture.

use vstd::prelude::*;

use crate::color::ColorType;
use crate::format::TextureFormat;
use crate::format::spec_bytes_per_texel;

verus! {

/// The two little-endian bytes of a 16-bit channel value.
pub open spec fn spec_u16_le_bytes(x: u16) -> Seq<u8> {
    seq![(x & 0xff) as u8, (x >> 8) as u8]
}

/// The two little-endian bytes of a signed 16-bit channel value.
pub open spec fn spec_i16_le_bytes(x: i16) -> Seq<u8> {
    spec_u16_le_bytes(x as u16)
}

/// Append the two little-endian bytes of a 16-bit channel value.
fn push_u16_le(x: u16, out: &mut Vec<u8>)
    ensures
        final(out)@ == old(out)@ + spec_u16_le_bytes(x),
{
    out.push(#[verifier::truncate] ((x & 0xff) as u8));
    out.push(#[verifier::truncate] ((x >> 8) as u8));
    proof {
        assert(out@ =~= old(out)@ + spec_u16_le_bytes(x));
    }
}

/// Append the two little-endian bytes of a signed 16-bit channel value.
fn push_i16_le(x: i16, out: &mut Vec<u8>)
    ensures
        final(out)@ == old(out)@ + spec_i16_le_bytes(x),
{
    push_u16_le(#[verifier::truncate] (x as u16), out);
}

/// Read back the two little-endian bytes of a 16-bit channel value.
fn read_u16_le(bytes: &Vec<u8>, offset: usize) -> (x: u16)
    requires
        offset + 2 <= bytes.len(),
    ensures
        spec_u16_le_bytes(x) == bytes@.subrange(offset as int, offset as int + 2),
{
    let lo = bytes[offset];
    let hi = bytes[offset + 1];
    let x: u16 = (lo as u16) | ((hi as u16) << 8);
    proof {
        assert(((x & 0xff) as u8) == lo && ((x >> 8) as u8) == hi) by (bit_vector)
            requires
                x == (lo as u16) | ((hi as u16) << 8),
        ;
        assert(spec_u16_le_bytes(x) =~= bytes@.subrange(offset as int, offset as int + 2));
    }
    x
}

/// Read back the two little-endian bytes of a signed 16-bit channel value.
fn read_i16_le(bytes: &Vec<u8>, offset: usize) -> (x: i16)
    requires
        offset + 2 <= bytes.len(),
    ensures
        spec_i16_le_bytes(x) == bytes@.subrange(offset as int, offset as int + 2),
{
    let u = read_u16_le(bytes, offset);
    let x: i16 = #[verifier::truncate] (u as i16);
    proof {
        assert(((u as i16) as u16) == u) by (bit_vector);
    }
    x
}

/// Read back the byte of a signed 8-bit channel value.
fn read_i8(bytes: &Vec<u8>, offset: usize) -> (x: i8)
    requires
        offset < bytes.len(),
    ensures
        x as u8 == bytes@[offset as int],
{
    let b = bytes[offset];
    let x: i8 = #[verifier::truncate] (b as i8);
    proof {
        assert(((b as i8) as u8) == b) by (bit_vector);
    }
    x
}

/// A pixel type that can be loaded directly into a texture.
///
/// The `Rgba8` and `Bgra8` pixel types are assumed to be non-linear sRGB.
///
/// Only pixel layouts whose size is a power of two bytes can implement this
/// trait, because every texture format's texel size is a power of two. This
/// is why, for example, no 24-bit RGB pixel type appears here.
pub trait Pixel: Sized + Copy {
    /// The texture format of the pixel type.
    spec fn spec_texture_format() -> TextureFormat;

    /// The color type of images made of this pixel type.
    spec fn spec_color_type() -> ColorType;

    /// The texel bytes of this pixel value, channels in declaration order,
    /// multi-byte channels little-endian.
    spec fn spec_bytes(&self) -> Seq<u8>;

    /// A pixel's bytes fill exactly one texel of the pixel type's format:
    /// this is what makes a buffer of such pixels loadable as-is.
    proof fn lemma_bytes_len(&self)
        ensures
            self.spec_bytes().len() == spec_bytes_per_texel(Self::spec_texture_format()),
    ;

    /// The texture format of the pixel type.
    fn texture_format() -> (format: TextureFormat)
        ensures
            format == Self::spec_texture_format(),
    ;

    /// The color type of images made of this pixel type.
    fn color_type() -> (color_type: ColorType)
        ensures
            color_type == Self::spec_color_type(),
    ;

    /// Append this pixel's texel bytes to `out`.
    fn push_bytes(&self, out: &mut Vec<u8>)
        ensures
            final(out)@ == old(out)@ + self.spec_bytes(),
    ;

    /// Read one pixel back from its texel bytes: the inverse of
    /// `push_bytes`.
    fn from_bytes(bytes: &Vec<u8>, offset: usize) -> (pixel: Self)
        requires
            offset + spec_bytes_per_texel(Self::spec_texture_format()) <= bytes.len(),
        ensures
            pixel.spec_bytes() == bytes@.subrange(
                offset as int,
                offset + spec_bytes_per_texel(Self::spec_texture_format()),
            ),
    ;
}

/// An 8-bit grayscale pixel.
#[derive(Clone, Copy, Debug, PartialEq, Eq, Structural)]
pub struct Luma8 {
    pub l: u8,
}

impl Pixel for Luma8 {
    open spec fn spec_texture_format() -> TextureFormat {
        TextureFormat::R8Unorm
    }

    open spec fn spec_color_type() -> ColorType {
        ColorType::L8
    }

    open spec fn spec_bytes(&self) -> Seq<u8> {
        seq![self.l]
    }

    proof fn lemma_bytes_len(&self) {
    }

    fn texture_format() -> TextureFormat {
        TextureFormat::R8Unorm
    }

    fn color_type() -> ColorType {
        ColorType::L8
    }

    fn push_bytes(&self, out: &mut Vec<u8>) {
        out.push(self.l);
        proof {
            assert(out@ =~= old(out)@ + self.spec_bytes());
        }
    }

    fn from_bytes(bytes: &Vec<u8>, offset: usize) -> (pixel: Self) {
        let pixel = Luma8 { l: bytes[offset] };
        proof {
            assert(pixel.spec_bytes() =~= bytes@.subrange(offset as int, offset as int + 1));
        }
        pixel
    }
}

/// A signed 8-bit grayscale pixel.
#[derive(Clone, Copy, Debug, PartialEq, Eq, Structural)]
pub struct LumaI8 {
    pub l: i8,
}

impl Pixel for LumaI8 {
    open spec fn spec_texture_format() -> TextureFormat {
        TextureFormat::R8Snorm
    }

    open spec fn spec_color_type() -> ColorType {
        ColorType::L8
    }

    open spec fn spec_bytes(&self) -> Seq<u8> {
        seq![self.l as u8]
    }

    proof fn lemma_bytes_len(&self) {
    }

    fn texture_format() -> TextureFormat {
        TextureFormat::R8Snorm
    }

    fn color_type() -> ColorType {
        ColorType::L8
    }

    fn push_bytes(&self, out: &mut Vec<u8>) {
        out.push(#[verifier::truncate] (self.l as u8));
        proof {
            assert(out@ =~= old(out)@ + self.spec_bytes());
        }
    }

    fn from_bytes(bytes: &Vec<u8>, offset: usize) -> (pixel: Self) {
        let l = read_i8(bytes, offset);
        let pixel = LumaI8 { l };
        proof {
            assert(pixel.spec_bytes() =~= bytes@.subrange(offset as int, offset as int + 1));
        }
        pixel
    }
}

/// A 16-bit grayscale pixel.
#[derive(Clone, Copy, Debug, PartialEq, Eq, Structural)]
pub struct Luma16 {
    pub l: u16,
}

impl Pixel for Luma16 {
    open spec fn spec_texture_format() -> TextureFormat {
        TextureFormat::R16Unorm
    }

    open spec fn spec_color_type() -> ColorType {
        ColorType::L16
    }

    open spec fn spec_bytes(&self) -> Seq<u8> {
        spec_u16_le_bytes(self.l)
    }

    proof fn lemma_bytes_len(&self) {
    }

    fn texture_format() -> TextureFormat {
        TextureFormat::R16Unorm
    }

    fn color_type() -> ColorType {
        ColorType::L16
    }

    fn push_bytes(&self, out: &mut Vec<u8>) {
        push_u16_le(self.l, out);
    }

    fn from_bytes(bytes: &Vec<u8>, offset: usize) -> (pixel: Self) {
        let l = read_u16_le(bytes, offset);
        Luma16 { l }
    }
}

/// A signed 16-bit grayscale pixel.
#[derive(Clone, Copy, Debug, PartialEq, Eq, Structural)]
pub struct LumaI16 {
    pub l: i16,
}

impl Pixel for LumaI16 {
    open spec fn spec_texture_format() -> TextureFormat {
        TextureFormat::R16Snorm
    }

    open spec fn spec_color_type() -> ColorType {
        ColorType::L16
    }

    open spec fn spec_bytes(&self) -> Seq<u8> {
        spec_i16_le_bytes(self.l)
    }

    proof fn lemma_bytes_len(&self) {
    }

    fn texture_format() -> TextureFormat {
        TextureFormat::R16Snorm
    }

    fn color_type() -> ColorType {
        ColorType::L16
    }

    fn push_bytes(&self, out: &mut Vec<u8>) {
        push_i16_le(self.l, out);
    }

    fn from_bytes(bytes: &Vec<u8>, offset: usize) -> (pixel: Self) {
        let l = read_i16_le(bytes, offset);
        LumaI16 { l }
    }
}

/// An 8-bit grayscale pixel with an 8-bit alpha channel.
#[derive(Clone, Copy, Debug, PartialEq, Eq, Structural)]
pub struct LumaA8 {
    pub l: u8,
    pub a: u8,
}

impl Pixel for LumaA8 {
    open spec fn spec_texture_format() -> TextureFormat {
        TextureFormat::Rg8Unorm
    }

    open spec fn spec_color_type() -> ColorType {
        ColorType::La8
    }

    open spec fn spec_bytes(&self) -> Seq<u8> {
        seq![self.l, self.a]
    }

    proof fn lemma_bytes_len(&self) {
    }

    fn texture_format() -> TextureFormat {
        TextureFormat::Rg8Unorm
    }

    fn color_type() -> ColorType {
        ColorType::La8
    }

    fn push_bytes(&self, out: &mut Vec<u8>) {
        out.push(self.l);
        out.push(self.a);
        proof {
            assert(out@ =~= old(out)@ + self.spec_bytes());
        }
    }

    fn from_bytes(bytes: &Vec<u8>, offset: usize) -> (pixel: Self) {
        let pixel = LumaA8 { l: bytes[offset], a: bytes[offset + 1] };
        proof {
            assert(pixel.spec_bytes() =~= bytes@.subrange(offset as int, offset as int + 2));
        }
        pixel
    }
}

/// A signed 8-bit grayscale pixel with a signed 8-bit alpha channel.
#[derive(Clone, Copy, Debug, PartialEq, Eq, Structural)]
pub struct LumaAI8 {
    pub l: i8,
    pub a: i8,
}

impl Pixel for LumaAI8 {
    open spec fn spec_texture_format() -> TextureFormat {
        TextureFormat::Rg8Snorm
    }

    open spec fn spec_color_type() -> ColorType {
        ColorType::La8
    }

    open spec fn spec_bytes(&self) -> Seq<u8> {
        seq![self.l as u8, self.a as u8]
    }

    proof fn lemma_bytes_len(&self) {
    }

    fn texture_format() -> TextureFormat {
        TextureFormat::Rg8Snorm
    }

    fn color_type() -> ColorType {
        ColorType::La8
    }

    fn push_bytes(&self, out: &mut Vec<u8>) {
        out.push(#[verifier::truncate] (self.l as u8));
        out.push(#[verifier::truncate] (self.a as u8));
        proof {
            assert(out@ =~= old(out)@ + self.spec_bytes());
        }
    }

    fn from_bytes(bytes: &Vec<u8>, offset: usize) -> (pixel: Self) {
        let l = read_i8(bytes, offset);
        let a = read_i8(bytes, offset + 1);
        let pixel = LumaAI8 { l, a };
        proof {
            assert(pixel.spec_bytes() =~= bytes@.subrange(offset as int, offset as int + 2));
        }
        pixel
    }
}

/// A 16-bit grayscale pixel with a 16-bit alpha channel.
#[derive(Clone, Copy, Debug, PartialEq, Eq, Structural)]
pub struct LumaA16 {
    pub l: u16,
    pub a: u16,
}

impl Pixel for LumaA16 {
    open spec fn spec_texture_format() -> TextureFormat {
        TextureFormat::Rg16Unorm
    }

    open spec fn spec_color_type() -> ColorType {
        ColorType::La16
    }

    open spec fn spec_bytes(&self) -> Seq<u8> {
        spec_u16_le_bytes(self.l) + spec_u16_le_bytes(self.a)
    }

    proof fn lemma_bytes_len(&self) {
    }

    fn texture_format() -> TextureFormat {
        TextureFormat::Rg16Unorm
    }

    fn color_type() -> ColorType {
        ColorType::La16
    }

    fn push_bytes(&self, out: &mut Vec<u8>) {
        push_u16_le(self.l, out);
        push_u16_le(self.a, out);
        proof {
            assert(out@ =~= old(out)@ + self.spec_bytes());
        }
    }

    fn from_bytes(bytes: &Vec<u8>, offset: usize) -> (pixel: Self) {
        let l = read_u16_le(bytes, offset);
        let a = read_u16_le(bytes, offset + 2);
        let pixel = LumaA16 { l, a };
        proof {
            assert(pixel.spec_bytes() =~= bytes@.subrange(offset as int, offset as int + 4));
        }
        pixel
    }
}

/// A signed 16-bit grayscale pixel with a signed 16-bit alpha channel.
#[derive(Clone, Copy, Debug, PartialEq, Eq, Structural)]
pub struct LumaAI16 {
    pub l: i16,
    pub a: i16,
}

impl Pixel for LumaAI16 {
    open spec fn spec_texture_format() -> TextureFormat {
        TextureFormat::Rg16Snorm
    }

    open spec fn spec_color_type() -> ColorType {
        ColorType::La16
    }

    open spec fn spec_bytes(&self) -> Seq<u8> {
        spec_i16_le_bytes(self.l) + spec_i16_le_bytes(self.a)
    }

    proof fn lemma_bytes_len(&self) {
    }

    fn texture_format() -> TextureFormat {
        TextureFormat::Rg16Snorm
    }

    fn color_type() -> ColorType {
        ColorType::La16
    }

    fn push_bytes(&self, out: &mut Vec<u8>) {
        push_i16_le(self.l, out);
        push_i16_le(self.a, out);
        proof {
            assert(out@ =~= old(out)@ + self.spec_bytes());
        }
    }

    fn from_bytes(bytes: &Vec<u8>, offset: usize) -> (pixel: Self) {
        let l = read_i16_le(bytes, offset);
        let a = read_i16_le(bytes, offset + 2);
        let pixel = LumaAI16 { l, a };
        proof {
            assert(pixel.spec_bytes() =~= bytes@.subrange(offset as int, offset as int + 4));
        }
        pixel
    }
}

/// An 8-bit red, green, blue, alpha pixel, non-linear sRGB.
#[derive(Clone, Copy, Debug, PartialEq, Eq, Structural)]
pub struct Rgba8 {
    pub r: u8,
    pub g: u8,
    pub b: u8,
    pub a: u8,
}

impl Pixel for Rgba8 {
    open spec fn spec_texture_format() -> TextureFormat {
        TextureFormat::Rgba8UnormSrgb
    }

    open spec fn spec_color_type() -> ColorType {
        ColorType::Rgba8
    }

    open spec fn spec_bytes(&self) -> Seq<u8> {
        seq![self.r, self.g, self.b, self.a]
    }

    proof fn lemma_bytes_len(&self) {
    }

    fn texture_format() -> TextureFormat {
        TextureFormat::Rgba8UnormSrgb
    }

    fn color_type() -> ColorType {
        ColorType::Rgba8
    }

    fn push_bytes(&self, out: &mut Vec<u8>) {
        out.push(self.r);
        out.push(self.g);
        out.push(self.b);
        out.push(self.a);
        proof {
            assert(out@ =~= old(out)@ + self.spec_bytes());
        }
    }

    fn from_bytes(bytes: &Vec<u8>, offset: usize) -> (pixel: Self) {
        let pixel = Rgba8 {
            r: bytes[offset],
            g: bytes[offset + 1],
            b: bytes[offset + 2],
            a: bytes[offset + 3],
        };
        proof {
            assert(pixel.spec_bytes() =~= bytes@.subrange(offset as int, offset as int + 4));
        }
        pixel
    }
}

/// A signed 8-bit red, green, blue, alpha pixel.
#[derive(Clone, Copy, Debug, PartialEq, Eq, Structural)]
pub struct RgbaI8 {
    pub r: i8,
    pub g: i8,
    pub b: i8,
    pub a: i8,
}

impl Pixel for RgbaI8 {
    open spec fn spec_texture_format() -> TextureFormat {
        TextureFormat::Rgba8Snorm
    }

    open spec fn spec_color_type() -> ColorType {
        ColorType::Rgba8
    }

    open spec fn spec_bytes(&self) -> Seq<u8> {
        seq![self.r as u8, self.g as u8, self.b as u8, self.a as u8]
    }

    proof fn lemma_bytes_len(&self) {
    }

    fn texture_format() -> TextureFormat {
        TextureFormat::Rgba8Snorm
    }

    fn color_type() -> ColorType {
        ColorType::Rgba8
    }

    fn push_bytes(&self, out: &mut Vec<u8>) {
        out.push(#[verifier::truncate] (self.r as u8));
        out.push(#[verifier::truncate] (self.g as u8));
        out.push(#[verifier::truncate] (self.b as u8));
        out.push(#[verifier::truncate] (self.a as u8));
        proof {
            assert(out@ =~= old(out)@ + self.spec_bytes());
        }
    }

    fn from_bytes(bytes: &Vec<u8>, offset: usize) -> (pixel: Self) {
        let r = read_i8(bytes, offset);
        let g = read_i8(bytes, offset + 1);
        let b = read_i8(bytes, offset + 2);
        let a = read_i8(bytes, offset + 3);
        let pixel = RgbaI8 { r, g, b, a };
        proof {
            assert(pixel.spec_bytes() =~= bytes@.subrange(offset as int, offset as int + 4));
        }
        pixel
    }
}

/// A 16-bit red, green, blue, alpha pixel.
#[derive(Clone, Copy, Debug, PartialEq, Eq, Structural)]
pub struct Rgba16 {
    pub r: u16,
    pub g: u16,
    pub b: u16,
    pub a: u16,
}

impl Pixel for Rgba16 {
    open spec fn spec_texture_format() -> TextureFormat {
        TextureFormat::Rgba16Unorm
    }

    open spec fn spec_color_type() -> ColorType {
        ColorType::Rgba16
    }

    open spec fn spec_bytes(&self) -> Seq<u8> {
        spec_u16_le_bytes(self.r) + spec_u16_le_bytes(self.g) + spec_u16_le_bytes(self.b)
            + spec_u16_le_bytes(self.a)
    }

    proof fn lemma_bytes_len(&self) {
    }

    fn texture_format() -> TextureFormat {
        TextureFormat::Rgba16Unorm
    }

    fn color_type() -> ColorType {
        ColorType::Rgba16
    }

    fn push_bytes(&self, out: &mut Vec<u8>) {
        push_u16_le(self.r, out);
        push_u16_le(self.g, out);
        push_u16_le(self.b, out);
        push_u16_le(self.a, out);
        proof {
            assert(out@ =~= old(out)@ + self.spec_bytes());
        }
    }

    fn from_bytes(bytes: &Vec<u8>, offset: usize) -> (pixel: Self) {
        let r = read_u16_le(bytes, offset);
        let g = read_u16_le(bytes, offset + 2);
        let b = read_u16_le(bytes, offset + 4);
        let a = read_u16_le(bytes, offset + 6);
        let pixel = Rgba16 { r, g, b, a };
        proof {
            assert(pixel.spec_bytes() =~= bytes@.subrange(offset as int, offset as int + 8));
        }
        pixel
    }
}

/// A signed 16-bit red, green, blue, alpha pixel.
#[derive(Clone, Copy, Debug, PartialEq, Eq, Structural)]
pub struct RgbaI16 {
    pub r: i16,
    pub g: i16,
    pub b: i16,
    pub a: i16,
}

impl Pixel for RgbaI16 {
    open spec fn spec_texture_format() -> TextureFormat {
        TextureFormat::Rgba16Snorm
    }

    open spec fn spec_color_type() -> ColorType {
        ColorType::Rgba16
    }

    open spec fn spec_bytes(&self) -> Seq<u8> {
        spec_i16_le_bytes(self.r) + spec_i16_le_bytes(self.g) + spec_i16_le_bytes(self.b)
            + spec_i16_le_bytes(self.a)
    }

    proof fn lemma_bytes_len(&self) {
    }

    fn texture_format() -> TextureFormat {
        TextureFormat::Rgba16Snorm
    }

    fn color_type() -> ColorType {
        ColorType::Rgba16
    }

    fn push_bytes(&self, out: &mut Vec<u8>) {
        push_i16_le(self.r, out);
        push_i16_le(self.g, out);
        push_i16_le(self.b, out);
        push_i16_le(self.a, out);
        proof {
            assert(out@ =~= old(out)@ + self.spec_bytes());
        }
    }

    fn from_bytes(bytes: &Vec<u8>, offset: usize) -> (pixel: Self) {
        let r = read_i16_le(bytes, offset);
        let g = read_i16_le(bytes, offset + 2);
        let b = read_i16_le(bytes, offset + 4);
        let a = read_i16_le(bytes, offset + 6);
        let pixel = RgbaI16 { r, g, b, a };
        proof {
            assert(pixel.spec_bytes() =~= bytes@.subrange(offset as int, offset as int + 8));
        }
        pixel
    }
}

/// An 8-bit blue, green, red, alpha pixel, non-linear sRGB.
#[derive(Clone, Copy, Debug, PartialEq, Eq, Structural)]
pub struct Bgra8 {
    pub b: u8,
    pub g: u8,
    pub r: u8,
    pub a: u8,
}

impl Pixel for Bgra8 {
    open spec fn spec_texture_format() -> TextureFormat {
        TextureFormat::Bgra8UnormSrgb
    }

    open spec fn spec_color_type() -> ColorType {
        ColorType::Bgra8
    }

    open spec fn spec_bytes(&self) -> Seq<u8> {
        seq![self.b, self.g, self.r, self.a]
    }

    proof fn lemma_bytes_len(&self) {
    }

    fn texture_format() -> TextureFormat {
        TextureFormat::Bgra8UnormSrgb
    }

    fn color_type() -> ColorType {
        ColorType::Bgra8
    }

    fn push_bytes(&self, out: &mut Vec<u8>) {
        out.push(self.b);
        out.push(self.g);
        out.push(self.r);
        out.push(self.a);
        proof {
            assert(out@ =~= old(out)@ + self.spec_bytes());
        }
    }

    fn from_bytes(bytes: &Vec<u8>, offset: usize) -> (pixel: Self) {
        let pixel = Bgra8 {
            b: bytes[offset],
            g: bytes[offset + 1],
            r: bytes[offset + 2],
            a: bytes[offset + 3],
        };
        proof {
            assert(pixel.spec_bytes() =~= bytes@.subrange(offset as int, offset as int + 4));
        }
        pixel
    }
}

} // verus!
