use texture_image::image_buffer::ImageBuffer;
use texture_image::pixel::Bgra8;
use texture_image::pixel::Luma16;
use texture_image::pixel::Luma8;
use texture_image::pixel::LumaA8;
use texture_image::pixel::LumaI8;
use texture_image::pixel::Rgba8;
use texture_image::pixel::RgbaI16;

#[test]
fn luma8_bytes_are_the_channel() {
    let image = ImageBuffer::from_raw(2, 1, vec![Luma8 { l: 7 }, Luma8 { l: 250 }]).unwrap();
    assert_eq!(image.raw_bytes(), vec![7, 250]);
}

#[test]
fn luma16_bytes_are_little_endian() {
    let image = ImageBuffer::from_raw(1, 1, vec![Luma16 { l: 0x0102 }]).unwrap();
    assert_eq!(image.raw_bytes(), vec![0x02, 0x01]);
}

#[test]
fn signed_bytes_are_twos_complement() {
    let image = ImageBuffer::from_raw(2, 1, vec![LumaI8 { l: -1 }, LumaI8 { l: -128 }]).unwrap();
    assert_eq!(image.raw_bytes(), vec![255, 128]);
}

#[test]
fn signed_16_bit_bytes_are_little_endian() {
    let image = ImageBuffer::from_raw(
        1,
        1,
        vec![RgbaI16 {
            r: -2,
            g: 1,
            b: 0,
            a: -1,
        }],
    )
    .unwrap();
    assert_eq!(
        image.raw_bytes(),
        vec![0xfe, 0xff, 0x01, 0x00, 0x00, 0x00, 0xff, 0xff]
    );
}

#[test]
fn rgba8_bytes_follow_channel_order() {
    let image = ImageBuffer::from_raw(
        1,
        1,
        vec![Rgba8 {
            r: 1,
            g: 2,
            b: 3,
            a: 4,
        }],
    )
    .unwrap();
    assert_eq!(image.raw_bytes(), vec![1, 2, 3, 4]);
}

#[test]
fn bgra8_bytes_follow_channel_order() {
    let image = ImageBuffer::from_raw(
        1,
        1,
        vec![Bgra8 {
            b: 1,
            g: 2,
            r: 3,
            a: 4,
        }],
    )
    .unwrap();
    assert_eq!(image.raw_bytes(), vec![1, 2, 3, 4]);
}

#[test]
fn from_raw_rejects_mismatched_pixel_counts() {
    let pixels = vec![LumaA8 { l: 0, a: 0 }, LumaA8 { l: 1, a: 1 }, LumaA8 { l: 2, a: 2 }];
    assert!(ImageBuffer::from_raw(2, 2, pixels).is_none());
}

#[test]
fn from_raw_accepts_matching_pixel_counts() {
    let pixels = vec![
        LumaA8 { l: 0, a: 0 },
        LumaA8 { l: 1, a: 1 },
        LumaA8 { l: 2, a: 2 },
        LumaA8 { l: 3, a: 3 },
    ];
    let image = ImageBuffer::from_raw(2, 2, pixels).unwrap();
    assert_eq!(image.dimensions(), (2, 2));
    assert_eq!(image.len_pixels(), 4);
    assert_eq!(image.raw_bytes(), vec![0, 0, 1, 1, 2, 2, 3, 3]);
}

#[test]
fn from_raw_accepts_empty_images() {
    let image = ImageBuffer::<Luma8>::from_raw(0, 5, vec![]).unwrap();
    assert_eq!(image.dimensions(), (0, 5));
    assert_eq!(image.raw_bytes(), Vec::<u8>::new());
}
