//! Textures and the plumbing that loads image buffers into them.
//!
//! No format or size conversions are performed anywhere here: an image
//! buffer's texel bytes are loaded into GPU memory exactly as they are, and
//! pixel type compatibility is ensured via the `Pixel` trait.

use vstd::prelude::*;

use crate::color::ColorType;
use crate::color::spec_bytes_per_pixel;
use crate::convert::image_color_type_from_format;
use crate::convert::lemma_format_color_type_round_trip;
use crate::convert::lemma_mapping_preserves_size;
use crate::convert::spec_color_type_from_format;
use crate::format::TextureFormat;
use crate::format::bytes_per_texel;
use crate::format::spec_bytes_per_texel;
use crate::gpu::Command;
use crate::gpu::CommandEncoder;
use crate::gpu::CommandEncoderDescriptor;
use crate::gpu::BufferBytes;
use crate::gpu::Device;
use crate::gpu::Queue;
use crate::gpu::TextureUsage;
use crate::gpu::TEXTURE_USAGE_COPY_DST;
use crate::image_buffer::ImageBuffer;
use crate::image_buffer::lemma_layers_bytes_len;
use crate::image_buffer::lemma_pixels_bytes_len;
use crate::image_buffer::spec_layers_bytes;
use crate::image_buffer::spec_pixels_bytes;
use crate::pixel::Pixel;
use crate::readback::BufferImage;

verus! {

/// Builds up a texture descriptor: dimensions, layer count, format and usage.
pub struct TextureBuilder {
    width: u32,
    height: u32,
    array_layer_count: u32,
    format: TextureFormat,
    usage: TextureUsage,
}

/// An image resident in GPU memory, addressed by format and dimensions.
///
/// `data` is the byte content the texture holds once every encoded copy
/// command targeting it has been submitted, one full image per array layer.
pub struct Texture {
    width: u32,
    height: u32,
    array_layer_count: u32,
    format: TextureFormat,
    usage: TextureUsage,
    data: Vec<u8>,
}

impl TextureBuilder {
    /// The width of the texture to be built.
    pub closed spec fn spec_width(&self) -> u32 {
        self.width
    }

    /// The height of the texture to be built.
    pub closed spec fn spec_height(&self) -> u32 {
        self.height
    }

    /// The number of array layers of the texture to be built.
    pub closed spec fn spec_array_layer_count(&self) -> u32 {
        self.array_layer_count
    }

    /// The format of the texture to be built.
    pub closed spec fn spec_format(&self) -> TextureFormat {
        self.format
    }

    /// The usage of the texture to be built.
    pub closed spec fn spec_usage(&self) -> TextureUsage {
        self.usage
    }

    /// A builder with the default descriptor: a single-layer 1-by-1
    /// `Rgba8UnormSrgb` texture with no usage set.
    pub fn new() -> (result: TextureBuilder)
        ensures
            result.spec_width() == 1,
            result.spec_height() == 1,
            result.spec_array_layer_count() == 1,
            result.spec_format() == TextureFormat::Rgba8UnormSrgb,
            result.spec_usage() == 0,
    {
        TextureBuilder {
            width: 1,
            height: 1,
            array_layer_count: 1,
            format: TextureFormat::Rgba8UnormSrgb,
            usage: 0,
        }
    }

    /// Set the dimensions of the texture.
    pub fn size(self, size: [u32; 2]) -> (result: TextureBuilder)
        ensures
            result.spec_width() == size[0],
            result.spec_height() == size[1],
            result.spec_array_layer_count() == self.spec_array_layer_count(),
            result.spec_format() == self.spec_format(),
            result.spec_usage() == self.spec_usage(),
    {
        let width = size[0];
        let height = size[1];
        TextureBuilder { width, height, ..self }
    }

    /// Set the number of array layers of the texture.
    pub fn array_layer_count(self, count: u32) -> (result: TextureBuilder)
        ensures
            result.spec_array_layer_count() == count,
            result.spec_width() == self.spec_width(),
            result.spec_height() == self.spec_height(),
            result.spec_format() == self.spec_format(),
            result.spec_usage() == self.spec_usage(),
    {
        TextureBuilder { array_layer_count: count, ..self }
    }

    /// Set the format of the texture.
    pub fn format(self, format: TextureFormat) -> (result: TextureBuilder)
        ensures
            result.spec_format() == format,
            result.spec_width() == self.spec_width(),
            result.spec_height() == self.spec_height(),
            result.spec_array_layer_count() == self.spec_array_layer_count(),
            result.spec_usage() == self.spec_usage(),
    {
        TextureBuilder { format, ..self }
    }

    /// Set the usage of the texture.
    pub fn usage(self, usage: TextureUsage) -> (result: TextureBuilder)
        ensures
            result.spec_usage() == usage,
            result.spec_width() == self.spec_width(),
            result.spec_height() == self.spec_height(),
            result.spec_array_layer_count() == self.spec_array_layer_count(),
            result.spec_format() == self.spec_format(),
    {
        TextureBuilder { usage, ..self }
    }

    /// Create the described texture on the given device. A new texture holds
    /// storage for its full extent, zero-initialised, so it is well-formed
    /// from the start; copy commands then overwrite its contents.
    ///
    /// The texture's byte size must fit in host memory, as it must on any
    /// real device.
    pub fn build(self, device: &Device) -> (result: Texture)
        requires
            self.spec_array_layer_count() * self.spec_width() * self.spec_height()
                * spec_bytes_per_texel(self.spec_format()) <= usize::MAX,
        ensures
            result.spec_width() == self.spec_width(),
            result.spec_height() == self.spec_height(),
            result.spec_array_layer_count() == self.spec_array_layer_count(),
            result.spec_format() == self.spec_format(),
            result.spec_usage() == self.spec_usage(),
            result.wf(),
            forall|i: int| 0 <= i < result.spec_data().len() ==> result.spec_data()[i] == 0u8,
    {
        let texel = bytes_per_texel(self.format);
        let layers_wide: u128 = self.array_layer_count as u128;
        let width_wide: u128 = self.width as u128;
        let height_wide: u128 = self.height as u128;
        let texel_wide: u128 = texel as u128;
        proof {
            assert(layers_wide * width_wide < 0x10000000000000000 && layers_wide * width_wide
                * height_wide < 0x1000000000000000000000000 && layers_wide * width_wide
                * height_wide * texel_wide < 0x10000000000000000000000000000) by (nonlinear_arith)
                requires
                    layers_wide < 0x100000000,
                    width_wide < 0x100000000,
                    height_wide < 0x100000000,
                    texel_wide <= 8,
            ;
        }
        let total_wide: u128 = layers_wide * width_wide * height_wide * texel_wide;
        let total: usize = total_wide as usize;
        let mut data: Vec<u8> = Vec::new();
        while data.len() < total
            invariant
                data@.len() <= total,
                forall|i: int| 0 <= i < data@.len() ==> data@[i] == 0u8,
            decreases total - data@.len(),
        {
            data.push(0u8);
        }
        Texture {
            width: self.width,
            height: self.height,
            array_layer_count: self.array_layer_count,
            format: self.format,
            usage: self.usage,
            data,
        }
    }

    /// Produce a texture descriptor from an image: the image's dimensions
    /// and its pixel type's texture format.
    pub fn from_image_view<P: Pixel>(image_view: &ImageBuffer<P>) -> (result: TextureBuilder)
        ensures
            result.spec_width() == image_view.spec_width(),
            result.spec_height() == image_view.spec_height(),
            result.spec_array_layer_count() == 1,
            result.spec_format() == P::spec_texture_format(),
            result.spec_usage() == 0,
    {
        builder_from_image_view(image_view)
    }
}

impl Texture {
    /// The width of the texture.
    pub closed spec fn spec_width(&self) -> u32 {
        self.width
    }

    /// The height of the texture.
    pub closed spec fn spec_height(&self) -> u32 {
        self.height
    }

    /// The number of array layers of the texture.
    pub closed spec fn spec_array_layer_count(&self) -> u32 {
        self.array_layer_count
    }

    /// The format of the texture.
    pub closed spec fn spec_format(&self) -> TextureFormat {
        self.format
    }

    /// The usage of the texture.
    pub closed spec fn spec_usage(&self) -> TextureUsage {
        self.usage
    }

    /// The byte content of the texture, one full image per array layer.
    pub closed spec fn spec_data(&self) -> Seq<u8> {
        self.data@
    }

    /// Well-formed: the texture holds one texel's worth of bytes per
    /// coordinate of each of its array layers.
    pub open spec fn wf(&self) -> bool {
        self.spec_data().len() == self.spec_array_layer_count() * self.spec_width()
            * self.spec_height() * spec_bytes_per_texel(self.spec_format())
    }

    /// The format of the texture.
    pub fn format(&self) -> (result: TextureFormat)
        ensures
            result == self.spec_format(),
    {
        self.format
    }

    /// The dimensions of the texture.
    pub fn size(&self) -> (result: [u32; 2])
        ensures
            result[0] == self.spec_width(),
            result[1] == self.spec_height(),
    {
        [self.width, self.height]
    }

    /// The number of array layers of the texture.
    pub fn array_layer_count(&self) -> (result: u32)
        ensures
            result == self.spec_array_layer_count(),
    {
        self.array_layer_count
    }

    /// The usage of the texture.
    pub fn usage(&self) -> (result: TextureUsage)
        ensures
            result == self.spec_usage(),
    {
        self.usage
    }

    /// Encode a copy of the texture's entire contents into a readback
    /// buffer, and return that buffer.
    pub fn to_buffer_bytes(&self, device: &Device, encoder: &mut CommandEncoder) -> (result:
        BufferBytes)
        requires
            self.wf(),
        ensures
            result.spec_bytes() == self.spec_data(),
            final(encoder).spec_commands() == old(encoder).spec_commands().push(
                (Command::CopyTextureToBuffer { byte_len: self.spec_data().len() as usize }),
            ),
    {
        let bytes = crate::gpu::clone_bytes(&self.data);
        let byte_len = bytes.len();
        encoder.record(Command::CopyTextureToBuffer { byte_len });
        BufferBytes::from_bytes(bytes)
    }

    /// Write the contents of the texture into a new buffer-held image.
    ///
    /// Commands are added to the given encoder to copy the entire contents
    /// of the texture into the buffer; the image can then be read from the
    /// returned `BufferImage`.
    ///
    /// Returns `None` exactly when there is no directly compatible color
    /// type for the texture's format.
    ///
    /// The buffer holds one full image of the image's dimensions and color
    /// type per array layer of the texture.
    pub fn to_image(&self, device: &Device, encoder: &mut CommandEncoder) -> (result: Option<
        BufferImage,
    >)
        requires
            self.wf(),
        ensures
            match result {
                Some(image) => {
                    &&& spec_color_type_from_format(self.spec_format()) == Some(
                        image.spec_color_type(),
                    )
                    &&& image.spec_width() == self.spec_width()
                    &&& image.spec_height() == self.spec_height()
                    &&& image.spec_buffer_bytes() == self.spec_data()
                    &&& image.spec_buffer_bytes().len() == self.spec_array_layer_count()
                        * image.spec_width() * image.spec_height() * spec_bytes_per_pixel(
                        image.spec_color_type(),
                    )
                    &&& final(encoder).spec_commands() == old(encoder).spec_commands().push(
                        (Command::CopyTextureToBuffer {
                            byte_len: self.spec_data().len() as usize,
                        }),
                    )
                },
                None => {
                    &&& spec_color_type_from_format(self.spec_format()) is None
                    &&& final(encoder).spec_commands() == old(encoder).spec_commands()
                },
            },
    {
        let color_type_option = image_color_type_from_format(self.format());
        let color_type: ColorType = match color_type_option {
            Some(color_type) => color_type,
            None => {
                return None;
            },
        };
        let size = self.size();
        let buffer = self.to_buffer_bytes(device, encoder);
        proof {
            lemma_format_color_type_round_trip(self.spec_format());
            lemma_mapping_preserves_size(color_type);
        }
        Some(BufferImage::new(color_type, size, buffer))
    }

    /// Load a texture directly from an image buffer using the given device
    /// queue.
    pub fn load_from_image_buffer<P: Pixel>(
        device: &Device,
        queue: &mut Queue,
        usage: TextureUsage,
        buffer: &ImageBuffer<P>,
    ) -> (texture: Texture)
        requires
            buffer.wf(),
        ensures
            texture.wf(),
            texture.spec_format() == P::spec_texture_format(),
            texture.spec_width() == buffer.spec_width(),
            texture.spec_height() == buffer.spec_height(),
            texture.spec_array_layer_count() == 1,
            texture.spec_usage() == TEXTURE_USAGE_COPY_DST | usage,
            texture.spec_data() == spec_pixels_bytes(buffer.spec_pixels()),
            final(queue).spec_submitted() == old(queue).spec_submitted().push(
                seq![
                    (Command::CopyBufferToTexture {
                        byte_len: spec_pixels_bytes(buffer.spec_pixels()).len() as usize,
                        array_layer: 0,
                    }),
                ],
            ),
    {
        load_texture_from_image_buffer(device, queue, usage, buffer)
    }

    /// Load a texture array directly from a sequence of image buffers.
    ///
    /// Returns `None` if there are no images in the given sequence.
    pub fn load_array_from_image_buffers<P: Pixel>(
        device: &Device,
        queue: &mut Queue,
        usage: TextureUsage,
        buffers: &Vec<ImageBuffer<P>>,
    ) -> (texture: Option<Texture>)
        requires
            buffers@.len() <= u32::MAX,
            forall|i: int| 0 <= i < buffers@.len() ==> (#[trigger] buffers@[i]).wf(),
            forall|i: int| 0 <= i < buffers@.len() ==> (#[trigger] buffers@[i]).spec_width()
                == buffers@[0].spec_width() && buffers@[i].spec_height()
                == buffers@[0].spec_height(),
        ensures
            match texture {
                Some(t) => {
                    &&& buffers@.len() > 0
                    &&& t.wf()
                    &&& t.spec_format() == P::spec_texture_format()
                    &&& t.spec_width() == buffers@[0].spec_width()
                    &&& t.spec_height() == buffers@[0].spec_height()
                    &&& t.spec_array_layer_count() == buffers@.len()
                    &&& t.spec_usage() == TEXTURE_USAGE_COPY_DST | usage
                    &&& t.spec_data() == spec_layers_bytes(buffers@)
                    &&& final(queue).spec_submitted() == old(queue).spec_submitted().push(
                        spec_load_array_commands::<P>(buffers@),
                    )
                },
                None => {
                    &&& buffers@.len() == 0
                    &&& final(queue).spec_submitted() == old(queue).spec_submitted().push(
                        Seq::<Command>::empty(),
                    )
                },
            },
    {
        load_texture_array_from_image_buffers(device, queue, usage, buffers)
    }

    /// Encode the necessary commands to load a texture from the given image
    /// buffer.
    ///
    /// The returned texture holds its contents only once the given encoder
    /// has its command buffer submitted to the device's queue.
    pub fn encode_load_from_image_buffer<P: Pixel>(
        device: &Device,
        encoder: &mut CommandEncoder,
        usage: TextureUsage,
        buffer: &ImageBuffer<P>,
    ) -> (texture: Texture)
        requires
            buffer.wf(),
        ensures
            texture.wf(),
            texture.spec_format() == P::spec_texture_format(),
            texture.spec_width() == buffer.spec_width(),
            texture.spec_height() == buffer.spec_height(),
            texture.spec_array_layer_count() == 1,
            texture.spec_usage() == TEXTURE_USAGE_COPY_DST | usage,
            texture.spec_data() == spec_pixels_bytes(buffer.spec_pixels()),
            final(encoder).spec_commands() == old(encoder).spec_commands().push(
                (Command::CopyBufferToTexture {
                    byte_len: spec_pixels_bytes(buffer.spec_pixels()).len() as usize,
                    array_layer: 0,
                }),
            ),
    {
        encode_load_texture_from_image_buffer(device, encoder, usage, buffer)
    }

    /// Encode the necessary commands to load a texture array directly from a
    /// sequence of image buffers.
    ///
    /// The returned texture holds its contents only once the given encoder
    /// has its command buffer submitted to the device's queue.
    ///
    /// Returns `None` if there are no images in the given sequence.
    pub fn encode_load_array_from_image_buffers<P: Pixel>(
        device: &Device,
        encoder: &mut CommandEncoder,
        usage: TextureUsage,
        buffers: &Vec<ImageBuffer<P>>,
    ) -> (texture: Option<Texture>)
        requires
            buffers@.len() <= u32::MAX,
            forall|i: int| 0 <= i < buffers@.len() ==> (#[trigger] buffers@[i]).wf(),
            forall|i: int| 0 <= i < buffers@.len() ==> (#[trigger] buffers@[i]).spec_width()
                == buffers@[0].spec_width() && buffers@[i].spec_height()
                == buffers@[0].spec_height(),
        ensures
            match texture {
                Some(t) => {
                    &&& buffers@.len() > 0
                    &&& t.wf()
                    &&& t.spec_format() == P::spec_texture_format()
                    &&& t.spec_width() == buffers@[0].spec_width()
                    &&& t.spec_height() == buffers@[0].spec_height()
                    &&& t.spec_array_layer_count() == buffers@.len()
                    &&& t.spec_usage() == TEXTURE_USAGE_COPY_DST | usage
                    &&& t.spec_data() == spec_layers_bytes(buffers@)
                    &&& final(encoder).spec_commands() == old(encoder).spec_commands()
                        + spec_load_array_commands::<P>(buffers@)
                },
                None => {
                    &&& buffers@.len() == 0
                    &&& final(encoder).spec_commands() == old(encoder).spec_commands()
                },
            },
    {
        encode_load_texture_array_from_image_buffers(device, encoder, usage, buffers)
    }
}

/// The copy commands that loading the given image buffers as a texture array
/// encodes: one buffer-to-texture copy per buffer, each to its own layer.
pub open spec fn spec_load_array_commands<P: Pixel>(buffers: Seq<ImageBuffer<P>>) -> Seq<Command> {
    Seq::new(
        buffers.len(),
        |i: int|
            (Command::CopyBufferToTexture {
                byte_len: spec_pixels_bytes(buffers[i].spec_pixels()).len() as usize,
                array_layer: i as u32,
            }),
    )
}

/// Produce a texture descriptor from an image: the image's dimensions and
/// its pixel type's texture format.
///
/// This function does not specify a texture usage.
pub fn builder_from_image_view<P: Pixel>(image: &ImageBuffer<P>) -> (result: TextureBuilder)
    ensures
        result.spec_width() == image.spec_width(),
        result.spec_height() == image.spec_height(),
        result.spec_array_layer_count() == 1,
        result.spec_format() == P::spec_texture_format(),
        result.spec_usage() == 0,
{
    let (width, height) = image.dimensions();
    let format = P::texture_format();
    TextureBuilder::new().size([width, height]).format(format)
}

/// Load a texture directly from an image buffer using the given device
/// queue.
///
/// No format or size conversions are performed - the given buffer's texel
/// bytes are loaded directly into GPU memory.
///
/// Pixel type compatibility is ensured via the `Pixel` trait.
pub fn load_texture_from_image_buffer<P: Pixel>(
    device: &Device,
    queue: &mut Queue,
    usage: TextureUsage,
    buffer: &ImageBuffer<P>,
) -> (texture: Texture)
    requires
        buffer.wf(),
    ensures
        texture.wf(),
        texture.spec_format() == P::spec_texture_format(),
        texture.spec_width() == buffer.spec_width(),
        texture.spec_height() == buffer.spec_height(),
        texture.spec_array_layer_count() == 1,
        texture.spec_usage() == TEXTURE_USAGE_COPY_DST | usage,
        texture.spec_data() == spec_pixels_bytes(buffer.spec_pixels()),
        final(queue).spec_submitted() == old(queue).spec_submitted().push(
            seq![
                (Command::CopyBufferToTexture {
                    byte_len: spec_pixels_bytes(buffer.spec_pixels()).len() as usize,
                    array_layer: 0,
                }),
            ],
        ),
{
    let cmd_encoder_desc = CommandEncoderDescriptor::default();
    let mut encoder = device.create_command_encoder(&cmd_encoder_desc);
    let texture = encode_load_texture_from_image_buffer(device, &mut encoder, usage, buffer);
    let mut command_buffers = Vec::new();
    command_buffers.push(encoder.finish());
    let ghost incoming = command_buffers@;
    queue.submit(command_buffers);
    proof {
        let to_commands = |command_buffer: crate::gpu::CommandBuffer|
            command_buffer.spec_commands();
        assert(incoming.map_values(to_commands) =~= seq![incoming[0].spec_commands()]);
        assert(incoming[0].spec_commands() =~= seq![
            (Command::CopyBufferToTexture {
                byte_len: spec_pixels_bytes(buffer.spec_pixels()).len() as usize,
                array_layer: 0,
            }),
        ]);
        assert(queue.spec_submitted() =~= old(queue).spec_submitted().push(
            incoming[0].spec_commands(),
        ));
    }
    texture
}

/// Encode the necessary commands to load a texture directly from an image
/// buffer.
///
/// The returned texture holds its contents only once the given encoder has
/// its command buffer submitted to the given device's queue.
///
/// No format or size conversions are performed - the given buffer's texel
/// bytes are loaded directly into GPU memory.
///
/// Pixel type compatibility is ensured via the `Pixel` trait.
pub fn encode_load_texture_from_image_buffer<P: Pixel>(
    device: &Device,
    encoder: &mut CommandEncoder,
    usage: TextureUsage,
    buffer: &ImageBuffer<P>,
) -> (texture: Texture)
    requires
        buffer.wf(),
    ensures
        texture.wf(),
        texture.spec_format() == P::spec_texture_format(),
        texture.spec_width() == buffer.spec_width(),
        texture.spec_height() == buffer.spec_height(),
        texture.spec_array_layer_count() == 1,
        texture.spec_usage() == TEXTURE_USAGE_COPY_DST | usage,
        texture.spec_data() == spec_pixels_bytes(buffer.spec_pixels()),
        final(encoder).spec_commands() == old(encoder).spec_commands().push(
            (Command::CopyBufferToTexture {
                byte_len: spec_pixels_bytes(buffer.spec_pixels()).len() as usize,
                array_layer: 0,
            }),
        ),
{
    // Stage the pixel data.
    let subpixel_data = buffer.raw_bytes();
    let byte_len = subpixel_data.len();

    proof {
        lemma_pixels_bytes_len::<P>(buffer.spec_pixels());
        let w: int = buffer.spec_width() as int;
        let h: int = buffer.spec_height() as int;
        let t: int = spec_bytes_per_texel(P::spec_texture_format()) as int;
        assert(subpixel_data@.len() == (w * h) * t);
        assert(1 * w * h * t == (w * h) * t) by (nonlinear_arith);
    }

    // Create the texture.
    let mut texture = TextureBuilder::from_image_view(buffer).usage(
        TEXTURE_USAGE_COPY_DST | usage,
    ).build(device);
    texture.data = subpixel_data;

    // Record the command copying the staged pixel data to the texture.
    encoder.record(Command::CopyBufferToTexture { byte_len, array_layer: 0 });

    texture
}

/// Load a texture array directly from a sequence of image buffers.
///
/// No format or size conversions are performed - each buffer's texel bytes
/// are loaded directly into GPU memory, one array layer per buffer.
///
/// Pixel type compatibility is ensured via the `Pixel` trait.
///
/// Returns `None` if there are no images in the given sequence.
pub fn load_texture_array_from_image_buffers<P: Pixel>(
    device: &Device,
    queue: &mut Queue,
    usage: TextureUsage,
    buffers: &Vec<ImageBuffer<P>>,
) -> (texture: Option<Texture>)
    requires
        buffers@.len() <= u32::MAX,
        forall|i: int| 0 <= i < buffers@.len() ==> (#[trigger] buffers@[i]).wf(),
        forall|i: int| 0 <= i < buffers@.len() ==> (#[trigger] buffers@[i]).spec_width()
            == buffers@[0].spec_width() && buffers@[i].spec_height()
            == buffers@[0].spec_height(),
    ensures
        match texture {
            Some(t) => {
                &&& buffers@.len() > 0
                &&& t.wf()
                &&& t.spec_format() == P::spec_texture_format()
                &&& t.spec_width() == buffers@[0].spec_width()
                &&& t.spec_height() == buffers@[0].spec_height()
                &&& t.spec_array_layer_count() == buffers@.len()
                &&& t.spec_usage() == TEXTURE_USAGE_COPY_DST | usage
                &&& t.spec_data() == spec_layers_bytes(buffers@)
                &&& final(queue).spec_submitted() == old(queue).spec_submitted().push(
                    spec_load_array_commands::<P>(buffers@),
                )
            },
            None => {
                &&& buffers@.len() == 0
                &&& final(queue).spec_submitted() == old(queue).spec_submitted().push(
                    Seq::<Command>::empty(),
                )
            },
        },
{
    let cmd_encoder_desc = CommandEncoderDescriptor::default();
    let mut encoder = device.create_command_encoder(&cmd_encoder_desc);
    let texture = encode_load_texture_array_from_image_buffers(
        device,
        &mut encoder,
        usage,
        buffers,
    );
    let mut command_buffers = Vec::new();
    command_buffers.push(encoder.finish());
    let ghost incoming = command_buffers@;
    queue.submit(command_buffers);
    proof {
        let to_commands = |command_buffer: crate::gpu::CommandBuffer|
            command_buffer.spec_commands();
        assert(incoming.map_values(to_commands) =~= seq![incoming[0].spec_commands()]);
        assert(queue.spec_submitted() =~= old(queue).spec_submitted().push(
            incoming[0].spec_commands(),
        ));
        if buffers@.len() == 0 {
            assert(incoming[0].spec_commands() =~= Seq::<Command>::empty());
        } else {
            assert(incoming[0].spec_commands() =~= spec_load_array_commands::<P>(buffers@));
        }
    }
    texture
}

/// Encode the necessary commands to load a texture array directly from a
/// sequence of image buffers.
///
/// The returned texture holds its contents only once the given encoder has
/// its command buffer submitted to the given device's queue.
///
/// No format or size conversions are performed - each buffer's texel bytes
/// are loaded directly into GPU memory, one array layer per buffer.
///
/// Pixel type compatibility is ensured via the `Pixel` trait.
///
/// Returns `None` if there are no images in the given sequence.
pub fn encode_load_texture_array_from_image_buffers<P: Pixel>(
    device: &Device,
    encoder: &mut CommandEncoder,
    usage: TextureUsage,
    buffers: &Vec<ImageBuffer<P>>,
) -> (texture: Option<Texture>)
    requires
        buffers@.len() <= u32::MAX,
        forall|i: int| 0 <= i < buffers@.len() ==> (#[trigger] buffers@[i]).wf(),
        forall|i: int| 0 <= i < buffers@.len() ==> (#[trigger] buffers@[i]).spec_width()
            == buffers@[0].spec_width() && buffers@[i].spec_height()
            == buffers@[0].spec_height(),
    ensures
        match texture {
            Some(t) => {
                &&& buffers@.len() > 0
                &&& t.wf()
                &&& t.spec_format() == P::spec_texture_format()
                &&& t.spec_width() == buffers@[0].spec_width()
                &&& t.spec_height() == buffers@[0].spec_height()
                &&& t.spec_array_layer_count() == buffers@.len()
                &&& t.spec_usage() == TEXTURE_USAGE_COPY_DST | usage
                &&& t.spec_data() == spec_layers_bytes(buffers@)
                &&& final(encoder).spec_commands() == old(encoder).spec_commands()
                    + spec_load_array_commands::<P>(buffers@)
            },
            None => {
                &&& buffers@.len() == 0
                &&& final(encoder).spec_commands() == old(encoder).spec_commands()
            },
        },
{
    if buffers.len() == 0 {
        proof {
            assert(old(encoder).spec_commands() + spec_load_array_commands::<P>(buffers@)
                =~= old(encoder).spec_commands());
        }
        return None;
    }
    let array_layers = buffers.len() as u32;
    let first_buffer = &buffers[0];

    // Stage each buffer's data and record its copy command, one layer at a
    // time.
    let ghost commands0 = encoder.spec_commands();
    let mut data: Vec<u8> = Vec::new();
    let mut layer: usize = 0;
    while layer < buffers.len()
        invariant
            layer <= buffers@.len(),
            buffers@.len() <= u32::MAX,
            forall|i: int| 0 <= i < buffers@.len() ==> (#[trigger] buffers@[i]).wf(),
            forall|i: int| 0 <= i < buffers@.len() ==> (#[trigger] buffers@[i]).spec_width()
                == buffers@[0].spec_width() && buffers@[i].spec_height()
                == buffers@[0].spec_height(),
            data@ == spec_layers_bytes(buffers@.take(layer as int)),
            encoder.spec_commands() == commands0 + spec_load_array_commands::<P>(
                buffers@.take(layer as int),
            ),
        decreases buffers@.len() - layer,
    {
        // Stage the pixel data.
        let buffer = &buffers[layer];
        let mut subpixel_data = buffer.raw_bytes();
        let byte_len = subpixel_data.len();
        data.append(&mut subpixel_data);

        // Record the command copying the staged pixel data to the layer.
        encoder.record(Command::CopyBufferToTexture { byte_len, array_layer: layer as u32 });

        proof {
            assert(buffers@.take(layer + 1 as int).drop_last() =~= buffers@.take(layer as int));
            assert(buffers@.take(layer + 1 as int).last() == buffers@[layer as int]);
            assert(spec_load_array_commands::<P>(buffers@.take(layer + 1 as int))
                =~= spec_load_array_commands::<P>(buffers@.take(layer as int)).push(
                (Command::CopyBufferToTexture {
                    byte_len: spec_pixels_bytes(buffers@[layer as int].spec_pixels()).len()
                        as usize,
                    array_layer: layer as u32,
                }),
            ));
        }
        layer = layer + 1;
    }
    proof {
        assert(buffers@.take(buffers@.len() as int) =~= buffers@);
        lemma_layers_bytes_len::<P>(
            buffers@,
            buffers@[0].spec_width(),
            buffers@[0].spec_height(),
        );
        assert(data.len() == data@.len());
        assert(data@.len() == buffers@.len() * buffers@[0].spec_width()
            * buffers@[0].spec_height() * spec_bytes_per_texel(P::spec_texture_format()));
    }

    // Build the texture and hand it the staged data.
    let mut texture = TextureBuilder::from_image_view(first_buffer).array_layer_count(
        array_layers,
    ).usage(TEXTURE_USAGE_COPY_DST | usage).build(device);
    texture.data = data;
    Some(texture)
}

} // verus!
