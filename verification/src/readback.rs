//! Reading texture contents back: a buffer-held image and its mapped view.

use vstd::prelude::*;

use crate::color::ColorType;
use crate::format::bytes_per_texel;
use crate::format::spec_bytes_per_texel;
use crate::gpu::BufferAsyncMapping;
use crate::gpu::BufferBytes;
use crate::image_buffer::ImageBuffer;
use crate::image_buffer::spec_pixels_bytes;
use crate::pixel::Pixel;

verus! {

/// A wrapper around a readback buffer that contains an image of a known size
/// and color type.
pub struct BufferImage {
    color_type: ColorType,
    width: u32,
    height: u32,
    buffer: BufferBytes,
}

/// An image read back from a texture: its bytes, mapped for host access.
///
/// An `ImageAsyncMapping` may only be produced by reading from a
/// `BufferImage` returned by a `Texture::to_image` call.
pub struct ImageAsyncMapping {
    color_type: ColorType,
    width: u32,
    height: u32,
    mapping: BufferAsyncMapping,
}

impl BufferImage {
    /// The color type of the image stored within the buffer.
    pub closed spec fn spec_color_type(&self) -> ColorType {
        self.color_type
    }

    /// The width of the image stored within the buffer.
    pub closed spec fn spec_width(&self) -> u32 {
        self.width
    }

    /// The height of the image stored within the buffer.
    pub closed spec fn spec_height(&self) -> u32 {
        self.height
    }

    /// The bytes of the image stored within the buffer.
    pub closed spec fn spec_buffer_bytes(&self) -> Seq<u8> {
        self.buffer.spec_bytes()
    }

    /// Wrap a readback buffer holding an image of the given size and color
    /// type.
    pub(crate) fn new(color_type: ColorType, size: [u32; 2], buffer: BufferBytes) -> (result:
        BufferImage)
        ensures
            result.spec_color_type() == color_type,
            result.spec_width() == size[0],
            result.spec_height() == size[1],
            result.spec_buffer_bytes() == buffer.spec_bytes(),
    {
        let width = size[0];
        let height = size[1];
        BufferImage { color_type, width, height, buffer }
    }

    /// The dimensions of the image stored within the buffer.
    pub fn size(&self) -> (result: [u32; 2])
        ensures
            result[0] == self.spec_width(),
            result[1] == self.spec_height(),
    {
        [self.width, self.height]
    }

    /// The color type of the image stored within the buffer.
    pub fn color_type(&self) -> (result: ColorType)
        ensures
            result == self.spec_color_type(),
    {
        self.color_type
    }

    /// Map the buffer's bytes for host access and present them as an image.
    ///
    /// On the GPU side the mapping completes only once the encoded copy
    /// commands have been submitted and the device polled; the bytes handed
    /// out are exactly the bytes the buffer holds.
    pub fn read(&self) -> (result: ImageAsyncMapping)
        ensures
            result.spec_color_type() == self.spec_color_type(),
            result.spec_width() == self.spec_width(),
            result.spec_height() == self.spec_height(),
            result.spec_data() == self.spec_buffer_bytes(),
    {
        let data = self.buffer.to_vec();
        ImageAsyncMapping {
            color_type: self.color_type,
            width: self.width,
            height: self.height,
            mapping: BufferAsyncMapping { data },
        }
    }
}

impl ImageAsyncMapping {
    /// The color type of the mapped image.
    pub closed spec fn spec_color_type(&self) -> ColorType {
        self.color_type
    }

    /// The width of the mapped image.
    pub closed spec fn spec_width(&self) -> u32 {
        self.width
    }

    /// The height of the mapped image.
    pub closed spec fn spec_height(&self) -> u32 {
        self.height
    }

    /// The raw bytes of the mapped image.
    pub closed spec fn spec_data(&self) -> Seq<u8> {
        self.mapping.data@
    }

    /// Produce the color type of the mapped image.
    pub fn color_type(&self) -> (result: ColorType)
        ensures
            result == self.spec_color_type(),
    {
        self.color_type
    }

    /// The dimensions of the image.
    pub fn size(&self) -> (result: [u32; 2])
        ensures
            result[0] == self.spec_width(),
            result[1] == self.spec_height(),
    {
        [self.width, self.height]
    }

    /// The raw image data, mapped for host access.
    pub fn mapping(&self) -> (result: &BufferAsyncMapping)
        ensures
            result.data@ == self.spec_data(),
    {
        &self.mapping
    }

    /// Attempt to cast this mapped image to an `ImageBuffer` of the
    /// specified pixel type: the inverse of flattening an image buffer to
    /// its texel bytes.
    ///
    /// Returns `None` exactly when the specified pixel type's color type
    /// does not match the mapping's, or when the mapped bytes hold less
    /// than one full image. Bytes beyond the first image — the further
    /// array layers of a read-back texture array — are ignored: the cast
    /// views the leading image.
    #[verifier::loop_isolation(false)]
    pub fn as_image_buffer<P: Pixel>(&self) -> (result: Option<ImageBuffer<P>>)
        ensures
            match result {
                Some(image) => {
                    &&& image.wf()
                    &&& image.spec_width() == self.spec_width()
                    &&& image.spec_height() == self.spec_height()
                    &&& P::spec_color_type() == self.spec_color_type()
                    &&& spec_pixels_bytes(image.spec_pixels()) == self.spec_data().take(
                        self.spec_width() * self.spec_height() * spec_bytes_per_texel(
                            P::spec_texture_format(),
                        ) as int,
                    )
                },
                None => P::spec_color_type() != self.spec_color_type() || self.spec_data().len()
                    < self.spec_width() * self.spec_height() * spec_bytes_per_texel(
                    P::spec_texture_format(),
                ),
            },
    {
        let color_type = P::color_type();
        if color_type != self.color_type {
            return None;
        }

        // The mapped bytes must hold at least one texel per coordinate.
        let texel = bytes_per_texel(P::texture_format());
        let width = self.width;
        let height = self.height;
        let width_wide: u128 = width as u128;
        let height_wide: u128 = height as u128;
        let texel_wide: u128 = texel as u128;
        proof {
            assert(width_wide * height_wide < 0x10000000000000000 && width_wide * height_wide
                * texel_wide < 0x1000000000000000000000000) by (nonlinear_arith)
                requires
                    width_wide < 0x100000000,
                    height_wide < 0x100000000,
                    texel_wide <= 8,
            ;
        }
        let expected_wide: u128 = width_wide * height_wide * texel_wide;
        if (self.mapping.data.len() as u128) < expected_wide {
            return None;
        }

        let pixels_wide: u128 = width_wide * height_wide;
        proof {
            assert(spec_bytes_per_texel(P::spec_texture_format()) >= 1);
            assert(width_wide * height_wide <= width_wide * height_wide * texel_wide)
                by (nonlinear_arith)
                requires
                    texel_wide >= 1,
            ;
        }
        let num_pixels: usize = pixels_wide as usize;

        // Decode the bytes back into pixels, one texel at a time.
        let mut pixels: Vec<P> = Vec::new();
        let mut offset: usize = 0;
        let mut i: usize = 0;
        while i < num_pixels
            invariant
                i <= num_pixels,
                pixels@.len() == i,
                offset == i * texel,
                spec_pixels_bytes(pixels@) == self.mapping.data@.take(offset as int),
            decreases num_pixels - i,
        {
            proof {
                assert(i * texel + texel == (i + 1) * texel) by (nonlinear_arith);
                assert((i + 1) * texel <= num_pixels * texel) by (nonlinear_arith)
                    requires
                        i + 1 <= num_pixels,
                        texel >= 0,
                ;
                assert(num_pixels * texel <= self.mapping.data@.len());
            }
            let pixel = P::from_bytes(&self.mapping.data, offset);
            let ghost pixels_prev = pixels@;
            pixels.push(pixel);
            proof {
                assert(pixels@.drop_last() =~= pixels_prev);
                assert(self.mapping.data@.take(offset + texel as int)
                    =~= self.mapping.data@.take(offset as int) + self.mapping.data@.subrange(
                    offset as int,
                    offset + texel as int,
                ));
            }
            offset = offset + texel;
            i = i + 1;
        }
        proof {
            assert(offset as int == self.spec_width() * self.spec_height() * spec_bytes_per_texel(
                P::spec_texture_format(),
            ));
        }

        match ImageBuffer::from_raw(width, height, pixels) {
            Some(image) => Some(image),
            None => {
                proof {
                    assert(false);
                }
                None
            },
        }
    }
}

} // verus!
