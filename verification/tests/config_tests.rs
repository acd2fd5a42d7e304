use apng::config::{create_config, create_config_with_num_frames};
use apng::encoder::{BlendOp, DisposeOp, Encoder, Frame};
use apng::errors::APNGError;
use apng::filter::FilterType;
use apng::png::{BitDepth, ColorType, PNGImage};

fn gray_image(width: u32, height: u32, depth: BitDepth, data: Vec<u8>) -> PNGImage {
    PNGImage {
        width,
        height,
        color_type: ColorType::Grayscale,
        bit_depth: depth,
        data,
    }
}

#[test]
fn empty_image_list_rejected() {
    let r = create_config(&[], None);
    assert_eq!(r, Err(APNGError::ImagesNotFound));
}

#[test]
fn config_reads_first_image() {
    let imgs = vec![
        gray_image(7, 5, BitDepth::Eight, vec![0; 35]),
        gray_image(7, 5, BitDepth::Eight, vec![1; 35]),
    ];
    let c = create_config(&imgs, Some(4)).unwrap();
    assert_eq!(c.width, 7);
    assert_eq!(c.height, 5);
    assert_eq!(c.num_frames, 2);
    assert_eq!(c.num_plays, 4);
    assert_eq!(c.color, ColorType::Grayscale);
    assert_eq!(c.depth, BitDepth::Eight);
    assert_eq!(c.filter, FilterType::NoFilter);
}

#[test]
fn config_defaults_to_infinite_loop() {
    let img = gray_image(1, 1, BitDepth::Eight, vec![0]);
    let c = create_config_with_num_frames(&img, 9, None).unwrap();
    assert_eq!(c.num_frames, 9);
    assert_eq!(c.num_plays, 0);
}

#[test]
fn bytes_per_pixel_clamps_sub_byte_depths() {
    let img = gray_image(16, 1, BitDepth::One, vec![0, 0]);
    let c = create_config_with_num_frames(&img, 1, None).unwrap();
    assert_eq!(c.bytes_per_pixel(), 1);

    let rgba = PNGImage {
        width: 1,
        height: 1,
        color_type: ColorType::RGBA,
        bit_depth: BitDepth::Sixteen,
        data: vec![0; 8],
    };
    let c = create_config_with_num_frames(&rgba, 1, None).unwrap();
    assert_eq!(c.bytes_per_pixel(), 8);
}

#[test]
fn raw_row_length_rounds_bits_up() {
    // 10 one-bit grayscale pixels: two data bytes plus the filter byte.
    let img = gray_image(10, 1, BitDepth::One, vec![0, 0]);
    let c = create_config_with_num_frames(&img, 1, None).unwrap();
    assert!(c.is_valid());
    assert_eq!(c.raw_row_length(), 3);

    let rgb = PNGImage {
        width: 3,
        height: 1,
        color_type: ColorType::RGB,
        bit_depth: BitDepth::Eight,
        data: vec![0; 9],
    };
    let c = create_config_with_num_frames(&rgb, 1, None).unwrap();
    assert!(c.is_valid());
    assert_eq!(c.raw_row_length(), 10);
}

#[test]
fn frame_defaults_are_all_unset() {
    let f = Frame::default();
    assert_eq!(f.width, None);
    assert_eq!(f.height, None);
    assert_eq!(f.offset_x, None);
    assert_eq!(f.offset_y, None);
    assert_eq!(f.delay_num, None);
    assert_eq!(f.delay_den, None);
    assert_eq!(f.dispose_op, None);
    assert_eq!(f.blend_op, None);
}

#[test]
fn dispose_and_blend_codes() {
    assert_eq!(DisposeOp::ApngDisposeOpNone.code(), 0);
    assert_eq!(DisposeOp::ApngDisposeOpBackground.code(), 1);
    assert_eq!(DisposeOp::ApngDisposeOpPrevious.code(), 2);
    assert_eq!(BlendOp::ApngBlendOpSource.code(), 0);
    assert_eq!(BlendOp::ApngBlendOpOver.code(), 1);
}

#[test]
fn frame_overrides_reach_fctl() {
    let img = gray_image(4, 2, BitDepth::Eight, vec![0; 8]);
    let config = create_config_with_num_frames(&img, 1, None).unwrap();
    let mut encoder = Encoder::new(config).unwrap();
    let frame = Frame {
        width: Some(3),
        height: Some(1),
        offset_x: Some(1),
        offset_y: Some(1),
        delay_num: Some(2),
        delay_den: Some(100),
        dispose_op: Some(DisposeOp::ApngDisposeOpBackground),
        blend_op: Some(BlendOp::ApngBlendOpOver),
    };
    encoder.write_frame(&img, frame).unwrap();
    let stream = &encoder.out;
    let pos = stream.windows(4).position(|w| w == &b"fcTL"[..]).unwrap();
    let data = &stream[pos + 4..pos + 4 + 26];
    assert_eq!(&data[0..4], &0u32.to_be_bytes());
    assert_eq!(&data[4..8], &3u32.to_be_bytes());
    assert_eq!(&data[8..12], &1u32.to_be_bytes());
    assert_eq!(&data[12..16], &1u32.to_be_bytes());
    assert_eq!(&data[16..20], &1u32.to_be_bytes());
    assert_eq!(&data[20..22], &2u16.to_be_bytes());
    assert_eq!(&data[22..24], &100u16.to_be_bytes());
    assert_eq!(data[24], 1);
    assert_eq!(data[25], 1);
}
