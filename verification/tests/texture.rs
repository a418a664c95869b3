use texture_image::color::ColorType;
use texture_image::format::TextureFormat;
use texture_image::gpu::Command;
use texture_image::gpu::CommandEncoderDescriptor;
use texture_image::gpu::Device;
use texture_image::gpu::Queue;
use texture_image::gpu::TEXTURE_USAGE_COPY_DST;
use texture_image::gpu::TEXTURE_USAGE_SAMPLED;
use texture_image::image_buffer::ImageBuffer;
use texture_image::pixel::Luma16;
use texture_image::pixel::Luma8;
use texture_image::pixel::LumaA8;
use texture_image::pixel::LumaI8;
use texture_image::pixel::Pixel;
use texture_image::pixel::Rgba8;
use texture_image::texture::builder_from_image_view;
use texture_image::texture::encode_load_texture_array_from_image_buffers;
use texture_image::texture::encode_load_texture_from_image_buffer;
use texture_image::texture::load_texture_array_from_image_buffers;
use texture_image::texture::load_texture_from_image_buffer;
use texture_image::texture::Texture;
use texture_image::texture::TextureBuilder;

fn rgba_test_image() -> ImageBuffer<Rgba8> {
    let pixels = vec![
        Rgba8 { r: 10, g: 11, b: 12, a: 13 },
        Rgba8 { r: 20, g: 21, b: 22, a: 23 },
        Rgba8 { r: 30, g: 31, b: 32, a: 33 },
        Rgba8 { r: 40, g: 41, b: 42, a: 43 },
    ];
    ImageBuffer::from_raw(2, 2, pixels).unwrap()
}

#[test]
fn builder_defaults_describe_a_unit_texture() {
    let device = Device::new();
    let texture = TextureBuilder::new().build(&device);
    assert_eq!(texture.size(), [1, 1]);
    assert_eq!(texture.array_layer_count(), 1);
    assert_eq!(texture.format(), TextureFormat::Rgba8UnormSrgb);
    assert_eq!(texture.usage(), 0);
}

#[test]
fn builder_from_image_takes_dimensions_and_format() {
    let device = Device::new();
    let image = rgba_test_image();
    let texture = builder_from_image_view(&image).build(&device);
    assert_eq!(texture.size(), [2, 2]);
    assert_eq!(texture.format(), Rgba8::texture_format());
    assert_eq!(texture.format(), TextureFormat::Rgba8UnormSrgb);
}

#[test]
fn builder_methods_override_each_field() {
    let device = Device::new();
    let texture = TextureBuilder::new()
        .size([5, 3])
        .format(TextureFormat::Rg16Unorm)
        .usage(TEXTURE_USAGE_SAMPLED)
        .array_layer_count(7)
        .build(&device);
    assert_eq!(texture.size(), [5, 3]);
    assert_eq!(texture.format(), TextureFormat::Rg16Unorm);
    assert_eq!(texture.usage(), TEXTURE_USAGE_SAMPLED);
    assert_eq!(texture.array_layer_count(), 7);
}

#[test]
fn load_submits_one_copy_command() {
    let device = Device::new();
    let mut queue = Queue::new();
    let image = rgba_test_image();
    let texture =
        load_texture_from_image_buffer(&device, &mut queue, TEXTURE_USAGE_SAMPLED, &image);
    assert_eq!(texture.format(), TextureFormat::Rgba8UnormSrgb);
    assert_eq!(texture.size(), [2, 2]);
    assert_eq!(texture.array_layer_count(), 1);
    assert_eq!(
        texture.usage(),
        TEXTURE_USAGE_COPY_DST | TEXTURE_USAGE_SAMPLED
    );
    let submitted = queue.submitted();
    assert_eq!(submitted.len(), 1);
    assert_eq!(
        submitted[0].commands(),
        &vec![Command::CopyBufferToTexture {
            byte_len: 16,
            array_layer: 0,
        }]
    );
}

#[test]
fn load_method_matches_free_function() {
    let device = Device::new();
    let mut queue = Queue::new();
    let image = rgba_test_image();
    let texture = Texture::load_from_image_buffer(&device, &mut queue, 0, &image);
    assert_eq!(texture.usage(), TEXTURE_USAGE_COPY_DST);
    assert_eq!(queue.submitted().len(), 1);
}

#[test]
fn encode_load_records_one_copy_command() {
    let device = Device::new();
    let descriptor = CommandEncoderDescriptor::default();
    let mut encoder = device.create_command_encoder(&descriptor);
    let image = rgba_test_image();
    let texture = encode_load_texture_from_image_buffer(&device, &mut encoder, 0, &image);
    assert_eq!(texture.usage(), TEXTURE_USAGE_COPY_DST);
    assert_eq!(
        encoder.commands(),
        &vec![Command::CopyBufferToTexture {
            byte_len: 16,
            array_layer: 0,
        }]
    );
    let command_buffer = encoder.finish();
    assert_eq!(command_buffer.commands().len(), 1);
}

#[test]
fn encode_load_array_records_one_command_per_layer() {
    let device = Device::new();
    let descriptor = CommandEncoderDescriptor::default();
    let mut encoder = device.create_command_encoder(&descriptor);
    let layers = vec![
        ImageBuffer::from_raw(2, 1, vec![LumaA8 { l: 1, a: 2 }, LumaA8 { l: 3, a: 4 }]).unwrap(),
        ImageBuffer::from_raw(2, 1, vec![LumaA8 { l: 5, a: 6 }, LumaA8 { l: 7, a: 8 }]).unwrap(),
    ];
    let texture =
        encode_load_texture_array_from_image_buffers(&device, &mut encoder, 0, &layers).unwrap();
    assert_eq!(texture.format(), TextureFormat::Rg8Unorm);
    assert_eq!(texture.size(), [2, 1]);
    assert_eq!(texture.array_layer_count(), 2);
    assert_eq!(
        encoder.commands(),
        &vec![
            Command::CopyBufferToTexture {
                byte_len: 4,
                array_layer: 0,
            },
            Command::CopyBufferToTexture {
                byte_len: 4,
                array_layer: 1,
            },
        ]
    );
}

#[test]
fn load_array_of_nothing_is_none() {
    let device = Device::new();
    let mut queue = Queue::new();
    let layers: Vec<ImageBuffer<Luma8>> = vec![];
    let texture = load_texture_array_from_image_buffers(&device, &mut queue, 0, &layers);
    assert!(texture.is_none());
    let submitted = queue.submitted();
    assert_eq!(submitted.len(), 1);
    assert!(submitted[0].commands().is_empty());
}

#[test]
fn encode_load_array_of_nothing_is_none() {
    let device = Device::new();
    let descriptor = CommandEncoderDescriptor::default();
    let mut encoder = device.create_command_encoder(&descriptor);
    let layers: Vec<ImageBuffer<Luma8>> = vec![];
    let texture = encode_load_texture_array_from_image_buffers(&device, &mut encoder, 0, &layers);
    assert!(texture.is_none());
    assert!(encoder.commands().is_empty());
}

#[test]
fn array_method_matches_free_function() {
    let device = Device::new();
    let mut queue = Queue::new();
    let layers = vec![
        ImageBuffer::from_raw(1, 1, vec![Luma8 { l: 9 }]).unwrap(),
        ImageBuffer::from_raw(1, 1, vec![Luma8 { l: 8 }]).unwrap(),
        ImageBuffer::from_raw(1, 1, vec![Luma8 { l: 7 }]).unwrap(),
    ];
    let texture =
        Texture::load_array_from_image_buffers(&device, &mut queue, 0, &layers).unwrap();
    assert_eq!(texture.array_layer_count(), 3);
    assert_eq!(texture.format(), TextureFormat::R8Unorm);
    assert_eq!(queue.submitted().len(), 1);
    assert_eq!(queue.submitted()[0].commands().len(), 3);
}

#[test]
fn builder_from_image_view_method_matches_free_function() {
    let device = Device::new();
    let image = rgba_test_image();
    let texture = TextureBuilder::from_image_view(&image).build(&device);
    assert_eq!(texture.size(), [2, 2]);
    assert_eq!(texture.format(), TextureFormat::Rgba8UnormSrgb);
}

#[test]
fn encode_load_methods_match_free_functions() {
    let device = Device::new();
    let descriptor = CommandEncoderDescriptor::default();
    let mut encoder = device.create_command_encoder(&descriptor);
    let image = rgba_test_image();
    let texture = Texture::encode_load_from_image_buffer(&device, &mut encoder, 0, &image);
    assert_eq!(texture.array_layer_count(), 1);
    assert_eq!(encoder.commands().len(), 1);

    let mut array_encoder = device.create_command_encoder(&descriptor);
    let layers = vec![
        ImageBuffer::from_raw(1, 1, vec![Luma8 { l: 1 }]).unwrap(),
        ImageBuffer::from_raw(1, 1, vec![Luma8 { l: 2 }]).unwrap(),
    ];
    let array_texture =
        Texture::encode_load_array_from_image_buffers(&device, &mut array_encoder, 0, &layers)
            .unwrap();
    assert_eq!(array_texture.array_layer_count(), 2);
    assert_eq!(array_encoder.commands().len(), 2);
}

#[test]
fn texture_contents_round_trip_through_readback() {
    let device = Device::new();
    let mut queue = Queue::new();
    let image = rgba_test_image();
    let expected_bytes = image.raw_bytes();
    let texture = load_texture_from_image_buffer(&device, &mut queue, 0, &image);

    let descriptor = CommandEncoderDescriptor::default();
    let mut encoder = device.create_command_encoder(&descriptor);
    let buffer_image = texture.to_image(&device, &mut encoder).unwrap();
    assert_eq!(buffer_image.color_type(), ColorType::Rgba8);
    assert_eq!(buffer_image.size(), [2, 2]);
    assert_eq!(
        encoder.commands(),
        &vec![Command::CopyTextureToBuffer { byte_len: 16 }]
    );

    let mapping = buffer_image.read();
    assert_eq!(mapping.color_type(), ColorType::Rgba8);
    assert_eq!(mapping.size(), [2, 2]);
    assert_eq!(mapping.mapping().data, expected_bytes);
}

#[test]
fn layered_texture_reads_back_concatenated_layers() {
    let device = Device::new();
    let mut queue = Queue::new();
    let layers = vec![
        ImageBuffer::from_raw(2, 1, vec![LumaA8 { l: 1, a: 2 }, LumaA8 { l: 3, a: 4 }]).unwrap(),
        ImageBuffer::from_raw(2, 1, vec![LumaA8 { l: 5, a: 6 }, LumaA8 { l: 7, a: 8 }]).unwrap(),
    ];
    let texture =
        load_texture_array_from_image_buffers(&device, &mut queue, 0, &layers).unwrap();

    let descriptor = CommandEncoderDescriptor::default();
    let mut encoder = device.create_command_encoder(&descriptor);
    let buffer_image = texture.to_image(&device, &mut encoder).unwrap();
    assert_eq!(buffer_image.color_type(), ColorType::La8);
    let mapping = buffer_image.read();
    assert_eq!(mapping.mapping().data, vec![1, 2, 3, 4, 5, 6, 7, 8]);
}

#[test]
fn to_image_is_none_for_formats_without_color_type() {
    let device = Device::new();
    let texture = TextureBuilder::new()
        .format(TextureFormat::Rgba8Snorm)
        .build(&device);
    let descriptor = CommandEncoderDescriptor::default();
    let mut encoder = device.create_command_encoder(&descriptor);
    assert!(texture.to_image(&device, &mut encoder).is_none());
    assert!(encoder.commands().is_empty());
}

#[test]
fn built_textures_hold_zeroed_storage_for_their_extent() {
    let device = Device::new();
    let texture = TextureBuilder::new().size([2, 1]).build(&device);
    let descriptor = CommandEncoderDescriptor::default();
    let mut encoder = device.create_command_encoder(&descriptor);
    let buffer_image = texture.to_image(&device, &mut encoder).unwrap();
    assert_eq!(buffer_image.size(), [2, 1]);
    let mapping = buffer_image.read();
    assert_eq!(mapping.mapping().data, vec![0u8; 8]);
    assert_eq!(
        encoder.commands(),
        &vec![Command::CopyTextureToBuffer { byte_len: 8 }]
    );
}

#[test]
fn readback_casts_back_to_an_image_buffer() {
    let device = Device::new();
    let mut queue = Queue::new();
    let image = rgba_test_image();
    let expected_bytes = image.raw_bytes();
    let texture = load_texture_from_image_buffer(&device, &mut queue, 0, &image);
    let descriptor = CommandEncoderDescriptor::default();
    let mut encoder = device.create_command_encoder(&descriptor);
    let mapping = texture.to_image(&device, &mut encoder).unwrap().read();
    let recovered = mapping.as_image_buffer::<Rgba8>().unwrap();
    assert_eq!(recovered.dimensions(), (2, 2));
    assert_eq!(recovered.raw_bytes(), expected_bytes);
}

#[test]
fn readback_cast_rejects_mismatched_pixel_types() {
    let device = Device::new();
    let mut queue = Queue::new();
    let image = rgba_test_image();
    let texture = load_texture_from_image_buffer(&device, &mut queue, 0, &image);
    let descriptor = CommandEncoderDescriptor::default();
    let mut encoder = device.create_command_encoder(&descriptor);
    let mapping = texture.to_image(&device, &mut encoder).unwrap().read();
    assert!(mapping.as_image_buffer::<Luma8>().is_none());
}

#[test]
fn readback_cast_views_the_leading_layer() {
    let device = Device::new();
    let mut queue = Queue::new();
    let layers = vec![
        ImageBuffer::from_raw(2, 1, vec![LumaA8 { l: 1, a: 2 }, LumaA8 { l: 3, a: 4 }]).unwrap(),
        ImageBuffer::from_raw(2, 1, vec![LumaA8 { l: 5, a: 6 }, LumaA8 { l: 7, a: 8 }]).unwrap(),
    ];
    let texture = load_texture_array_from_image_buffers(&device, &mut queue, 0, &layers).unwrap();
    let descriptor = CommandEncoderDescriptor::default();
    let mut encoder = device.create_command_encoder(&descriptor);
    let mapping = texture.to_image(&device, &mut encoder).unwrap().read();
    // Two layers of bytes with dimensions for one: the cast views the first.
    let leading = mapping.as_image_buffer::<LumaA8>().unwrap();
    assert_eq!(leading.dimensions(), (2, 1));
    assert_eq!(
        leading.pixels(),
        &vec![LumaA8 { l: 1, a: 2 }, LumaA8 { l: 3, a: 4 }]
    );
}

#[test]
fn readback_cast_views_the_leading_grayscale_layer() {
    let device = Device::new();
    let mut queue = Queue::new();
    let layers = vec![
        ImageBuffer::from_raw(1, 1, vec![Luma8 { l: 9 }]).unwrap(),
        ImageBuffer::from_raw(1, 1, vec![Luma8 { l: 7 }]).unwrap(),
    ];
    let texture = load_texture_array_from_image_buffers(&device, &mut queue, 0, &layers).unwrap();
    let descriptor = CommandEncoderDescriptor::default();
    let mut encoder = device.create_command_encoder(&descriptor);
    let mapping = texture.to_image(&device, &mut encoder).unwrap().read();
    let leading = mapping.as_image_buffer::<Luma8>().unwrap();
    assert_eq!(leading.dimensions(), (1, 1));
    assert_eq!(leading.pixels(), &vec![Luma8 { l: 9 }]);
}

#[test]
fn readback_cast_rejects_short_data() {
    let device = Device::new();
    // A texture with no array layers holds no bytes at all, so its readback
    // cannot fill even one 1-by-1 image.
    let texture = TextureBuilder::new()
        .size([1, 1])
        .array_layer_count(0)
        .build(&device);
    let descriptor = CommandEncoderDescriptor::default();
    let mut encoder = device.create_command_encoder(&descriptor);
    let mapping = texture.to_image(&device, &mut encoder).unwrap().read();
    assert!(mapping.mapping().data.is_empty());
    assert!(mapping.as_image_buffer::<Rgba8>().is_none());
}

#[test]
fn readback_cast_decodes_16_bit_pixels() {
    let device = Device::new();
    let mut queue = Queue::new();
    let image =
        ImageBuffer::from_raw(2, 1, vec![Luma16 { l: 0x0102 }, Luma16 { l: 0xfffe }]).unwrap();
    let texture = load_texture_from_image_buffer(&device, &mut queue, 0, &image);
    let descriptor = CommandEncoderDescriptor::default();
    let mut encoder = device.create_command_encoder(&descriptor);
    let mapping = texture.to_image(&device, &mut encoder).unwrap().read();
    let recovered = mapping.as_image_buffer::<Luma16>().unwrap();
    assert_eq!(
        recovered.pixels(),
        &vec![Luma16 { l: 0x0102 }, Luma16 { l: 0xfffe }]
    );
}

#[test]
fn readback_cast_decodes_signed_pixels() {
    let device = Device::new();
    let mut queue = Queue::new();
    // A signed pixel type shares its color type with the unsigned one, so
    // grayscale bytes read back from the texture may be viewed as either.
    let image = ImageBuffer::from_raw(2, 1, vec![Luma8 { l: 255 }, Luma8 { l: 128 }]).unwrap();
    let texture = load_texture_from_image_buffer(&device, &mut queue, 0, &image);
    let descriptor = CommandEncoderDescriptor::default();
    let mut encoder = device.create_command_encoder(&descriptor);
    let mapping = texture.to_image(&device, &mut encoder).unwrap().read();
    let recovered = mapping.as_image_buffer::<LumaI8>().unwrap();
    assert_eq!(
        recovered.pixels(),
        &vec![LumaI8 { l: -1 }, LumaI8 { l: -128 }]
    );
}

#[test]
fn to_buffer_bytes_copies_the_whole_texture() {
    let device = Device::new();
    let mut queue = Queue::new();
    let image = ImageBuffer::from_raw(2, 1, vec![Luma8 { l: 40 }, Luma8 { l: 41 }]).unwrap();
    let texture = load_texture_from_image_buffer(&device, &mut queue, 0, &image);
    let descriptor = CommandEncoderDescriptor::default();
    let mut encoder = device.create_command_encoder(&descriptor);
    let buffer = texture.to_buffer_bytes(&device, &mut encoder);
    assert_eq!(buffer.len(), 2);
    assert_eq!(
        encoder.commands(),
        &vec![Command::CopyTextureToBuffer { byte_len: 2 }]
    );
}
