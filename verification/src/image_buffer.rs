//! Image buffers: rectangles of pixels held in CPU memory.

use vstd::prelude::*;

use crate::format::spec_bytes_per_texel;
use crate::pixel::Pixel;

verus! {

/// The texel bytes of a sequence of pixels, concatenated in order.
pub open spec fn spec_pixels_bytes<P: Pixel>(pixels: Seq<P>) -> Seq<u8>
    decreases pixels.len(),
{
    if pixels.len() == 0 {
        Seq::empty()
    } else {
        spec_pixels_bytes(pixels.drop_last()) + pixels.last().spec_bytes()
    }
}

/// A sequence of pixels flattens to one texel's worth of bytes per pixel.
pub proof fn lemma_pixels_bytes_len<P: Pixel>(pixels: Seq<P>)
    ensures
        spec_pixels_bytes(pixels).len() == pixels.len() * spec_bytes_per_texel(
            P::spec_texture_format(),
        ),
    decreases pixels.len(),
{
    let texel: nat = spec_bytes_per_texel(P::spec_texture_format());
    if pixels.len() == 0 {
    } else {
        lemma_pixels_bytes_len::<P>(pixels.drop_last());
        pixels.last().lemma_bytes_len();
        assert((pixels.len() - 1) * texel + texel == pixels.len() * texel) by (nonlinear_arith);
    }
}

/// The texel bytes of a sequence of image buffers, one buffer's bytes after
/// another's: the byte layout of a layered texture.
pub open spec fn spec_layers_bytes<P: Pixel>(buffers: Seq<ImageBuffer<P>>) -> Seq<u8>
    decreases buffers.len(),
{
    if buffers.len() == 0 {
        Seq::empty()
    } else {
        spec_layers_bytes(buffers.drop_last()) + spec_pixels_bytes(buffers.last().spec_pixels())
    }
}

/// Equally sized, well-formed image buffers flatten to one full image's worth
/// of bytes per buffer.
pub proof fn lemma_layers_bytes_len<P: Pixel>(buffers: Seq<ImageBuffer<P>>, width: u32, height: u32)
    requires
        forall|i: int| 0 <= i < buffers.len() ==> (#[trigger] buffers[i]).wf(),
        forall|i: int| 0 <= i < buffers.len() ==> (#[trigger] buffers[i]).spec_width() == width
            && buffers[i].spec_height() == height,
    ensures
        spec_layers_bytes(buffers).len() == buffers.len() * width * height * spec_bytes_per_texel(
            P::spec_texture_format(),
        ),
    decreases buffers.len(),
{
    let texel: nat = spec_bytes_per_texel(P::spec_texture_format());
    if buffers.len() == 0 {
        let w: int = width as int;
        let h: int = height as int;
        let t: int = texel as int;
        assert(0 * w * h * t == 0) by (nonlinear_arith);
    } else {
        lemma_layers_bytes_len::<P>(buffers.drop_last(), width, height);
        lemma_pixels_bytes_len::<P>(buffers.last().spec_pixels());
        assert(buffers[buffers.len() - 1].wf());
        assert(buffers[buffers.len() - 1].spec_width() == width);
        assert(buffers.last().spec_pixels().len() == width * height);
        assert(spec_layers_bytes(buffers).len() == spec_layers_bytes(buffers.drop_last()).len()
            + spec_pixels_bytes(buffers.last().spec_pixels()).len());
        let n: int = buffers.len() as int;
        let w: int = width as int;
        let h: int = height as int;
        let t: int = texel as int;
        assert(buffers.drop_last().len() == n - 1);
        assert(spec_layers_bytes(buffers.drop_last()).len() == (n - 1) * w * h * t);
        assert(spec_pixels_bytes(buffers.last().spec_pixels()).len() == (w * h) * t)
            by (nonlinear_arith)
            requires
                spec_pixels_bytes(buffers.last().spec_pixels()).len()
                    == buffers.last().spec_pixels().len() * t,
                buffers.last().spec_pixels().len() == w * h,
                t >= 0,
        ;
        assert((n - 1) * w * h * t + (w * h) * t == n * w * h * t) by (nonlinear_arith);
        assert(spec_layers_bytes(buffers).len() == n * w * h * t);
    }
}

/// A rectangle of pixels held in CPU memory, rows stored top to bottom.
pub struct ImageBuffer<P: Pixel> {
    width: u32,
    height: u32,
    data: Vec<P>,
}

impl<P: Pixel> ImageBuffer<P> {
    /// The pixels of the image, row-major.
    pub closed spec fn spec_pixels(&self) -> Seq<P> {
        self.data@
    }

    /// The width of the image in pixels.
    pub closed spec fn spec_width(&self) -> u32 {
        self.width
    }

    /// The height of the image in pixels.
    pub closed spec fn spec_height(&self) -> u32 {
        self.height
    }

    /// Well-formed: the image holds exactly one pixel per coordinate.
    pub open spec fn wf(&self) -> bool {
        self.spec_pixels().len() == self.spec_width() * self.spec_height()
    }

    /// Construct an image from its dimensions and its pixels, row-major.
    ///
    /// Returns `None` exactly when the number of pixels does not match the
    /// dimensions.
    pub fn from_raw(width: u32, height: u32, data: Vec<P>) -> (result: Option<ImageBuffer<P>>)
        ensures
            match result {
                Some(image) => image.wf() && image.spec_width() == width && image.spec_height()
                    == height && image.spec_pixels() == data@ && data@.len() == width * height,
                None => data@.len() != width * height,
            },
    {
        proof {
            assert((width as int) * (height as int) <= u64::MAX) by (nonlinear_arith)
                requires
                    width <= u32::MAX,
                    height <= u32::MAX,
            ;
        }
        let expected: u64 = (width as u64) * (height as u64);
        if (data.len() as u64) == expected {
            Some(ImageBuffer { width, height, data })
        } else {
            None
        }
    }

    /// The width and height of the image.
    pub fn dimensions(&self) -> (result: (u32, u32))
        ensures
            result.0 == self.spec_width(),
            result.1 == self.spec_height(),
    {
        (self.width, self.height)
    }

    /// The pixels of the image, row-major.
    pub fn pixels(&self) -> (result: &Vec<P>)
        ensures
            result@ == self.spec_pixels(),
    {
        &self.data
    }

    /// The number of pixels in the image.
    pub fn len_pixels(&self) -> (result: usize)
        ensures
            result == self.spec_pixels().len(),
    {
        self.data.len()
    }

    /// The texel bytes of the image: each pixel's bytes in order.
    pub fn raw_bytes(&self) -> (result: Vec<u8>)
        ensures
            result@ == spec_pixels_bytes(self.spec_pixels()),
    {
        let mut out: Vec<u8> = Vec::new();
        let mut i: usize = 0;
        while i < self.data.len()
            invariant
                i <= self.data@.len(),
                out@ == spec_pixels_bytes(self.data@.take(i as int)),
            decreases self.data@.len() - i,
        {
            let pixel = self.data[i];
            pixel.push_bytes(&mut out);
            proof {
                assert(self.data@.take(i + 1 as int).drop_last() =~= self.data@.take(i as int));
                assert(self.data@.take(i + 1 as int).last() == self.data@[i as int]);
            }
            i = i + 1;
        }
        proof {
            assert(self.data@.take(self.data@.len() as int) =~= self.data@);
        }
        out
    }
}

} // verus!
