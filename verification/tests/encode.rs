use apng::config::create_config_with_num_frames;
use apng::encoder::{Encoder, Frame};
use apng::errors::APNGError;
use apng::filter::FilterType;
use apng::png::{BitDepth, ColorType, PNGImage};

use std::io::Write;

const SIGNATURE: [u8; 8] = [0x89, 0x50, 0x4E, 0x47, 0x0D, 0x0A, 0x1A, 0x0A];

fn rgba_image(width: u32, height: u32, data: Vec<u8>) -> PNGImage {
    PNGImage {
        width,
        height,
        color_type: ColorType::RGBA,
        bit_depth: BitDepth::Eight,
        data,
    }
}

fn rgb_image(width: u32, height: u32, data: Vec<u8>) -> PNGImage {
    PNGImage {
        width,
        height,
        color_type: ColorType::RGB,
        bit_depth: BitDepth::Eight,
        data,
    }
}

fn parse_chunks(stream: &[u8]) -> Vec<([u8; 4], Vec<u8>, [u8; 4])> {
    assert_eq!(&stream[..8], &SIGNATURE);
    let mut chunks = Vec::new();
    let mut i = 8;
    while i < stream.len() {
        let len = u32::from_be_bytes([stream[i], stream[i + 1], stream[i + 2], stream[i + 3]])
            as usize;
        let ty = [stream[i + 4], stream[i + 5], stream[i + 6], stream[i + 7]];
        let data = stream[i + 8..i + 8 + len].to_vec();
        let crc = [
            stream[i + 8 + len],
            stream[i + 9 + len],
            stream[i + 10 + len],
            stream[i + 11 + len],
        ];
        chunks.push((ty, data, crc));
        i += 12 + len;
    }
    assert_eq!(i, stream.len());
    chunks
}

fn png_crc(ty: &[u8], data: &[u8]) -> [u8; 4] {
    let mut crc = flate2::Crc::new();
    crc.update(ty);
    crc.update(data);
    crc.sum().to_be_bytes()
}

fn zlib_best(data: &[u8]) -> Vec<u8> {
    let mut z = flate2::write::ZlibEncoder::new(Vec::new(), flate2::Compression::best());
    z.write_all(data).unwrap();
    z.finish().unwrap()
}

#[test]
fn single_rgba_frame_stream() {
    // One 1x1 RGBA frame with delay 1/2: the whole chunk sequence, with the
    // IDAT holding the deflated filtered row.
    let img = rgba_image(1, 1, vec![0xFF, 0x00, 0x00, 0xFF]);
    let config = create_config_with_num_frames(&img, 1, None).unwrap();
    let mut encoder = Encoder::new(config).unwrap();
    let frame = Frame {
        delay_num: Some(1),
        delay_den: Some(2),
        ..Default::default()
    };
    encoder.write_frame(&img, frame).unwrap();
    encoder.finish_encode().unwrap();

    let chunks = parse_chunks(&encoder.out);
    assert_eq!(chunks.len(), 5);

    let (ty, data, _) = &chunks[0];
    assert_eq!(ty, b"IHDR");
    assert_eq!(data.len(), 13);
    assert_eq!(&data[0..4], &1u32.to_be_bytes());
    assert_eq!(&data[4..8], &1u32.to_be_bytes());
    assert_eq!(&data[8..], &[8, 6, 0, 0, 0]);

    let (ty, data, _) = &chunks[1];
    assert_eq!(ty, b"acTL");
    assert_eq!(&data[0..4], &1u32.to_be_bytes());
    assert_eq!(&data[4..8], &0u32.to_be_bytes());

    let (ty, data, _) = &chunks[2];
    assert_eq!(ty, b"fcTL");
    assert_eq!(data.len(), 26);
    assert_eq!(&data[0..4], &0u32.to_be_bytes()); // seq 0
    assert_eq!(&data[4..8], &1u32.to_be_bytes()); // width
    assert_eq!(&data[8..12], &1u32.to_be_bytes()); // height
    assert_eq!(&data[12..16], &0u32.to_be_bytes()); // x offset
    assert_eq!(&data[16..20], &0u32.to_be_bytes()); // y offset
    assert_eq!(&data[20..22], &1u16.to_be_bytes()); // delay numerator
    assert_eq!(&data[22..24], &2u16.to_be_bytes()); // delay denominator
    assert_eq!(&data[24..], &[0, 0]); // dispose, blend

    let (ty, data, _) = &chunks[3];
    assert_eq!(ty, b"IDAT");
    assert_eq!(data, &zlib_best(&[0x00, 0xFF, 0x00, 0x00, 0xFF]));

    let (ty, data, _) = &chunks[4];
    assert_eq!(ty, b"IEND");
    assert!(data.is_empty());
}

#[test]
fn every_chunk_crc_and_length_valid() {
    // In every emitted chunk the trailing four bytes are the CRC-32 of type
    // and data, and the length field is the data's length.
    let img1 = rgb_image(2, 1, vec![10, 20, 30, 40, 50, 60]);
    let img2 = rgb_image(2, 1, vec![11, 21, 31, 41, 51, 61]);
    let mut config = create_config_with_num_frames(&img1, 2, Some(7)).unwrap();
    config.filter = FilterType::Sub;
    let mut encoder = Encoder::new(config).unwrap();
    encoder.write_frame(&img1, Frame::default()).unwrap();
    encoder.write_frame(&img2, Frame::default()).unwrap();
    encoder.finish_encode().unwrap();

    let stream = &encoder.out;
    let chunks = parse_chunks(stream);
    assert!(chunks.len() >= 6);
    let mut i = 8;
    for (ty, data, crc) in &chunks {
        let len = u32::from_be_bytes([stream[i], stream[i + 1], stream[i + 2], stream[i + 3]]);
        assert_eq!(len as usize, data.len());
        assert_eq!(*crc, png_crc(ty, data));
        i += 12 + data.len();
    }
}

#[test]
fn second_frame_uses_fdat_with_sequence_two() {
    // Two 2x1 RGB frames with filter Sub: the second frame is fcTL(seq=1)
    // followed by fdAT whose data starts with the big-endian sequence 2.
    let img1 = rgb_image(2, 1, vec![1, 2, 3, 4, 5, 6]);
    let img2 = rgb_image(2, 1, vec![6, 5, 4, 3, 2, 1]);
    let mut config = create_config_with_num_frames(&img1, 2, None).unwrap();
    config.filter = FilterType::Sub;
    let mut encoder = Encoder::new(config).unwrap();
    encoder.write_frame(&img1, Frame::default()).unwrap();
    encoder.write_frame(&img2, Frame::default()).unwrap();
    encoder.finish_encode().unwrap();

    let chunks = parse_chunks(&encoder.out);
    // IHDR, acTL, fcTL, IDAT, fcTL, fdAT, IEND
    assert_eq!(chunks.len(), 7);
    let (ty, data, _) = &chunks[4];
    assert_eq!(ty, b"fcTL");
    assert_eq!(&data[0..4], &1u32.to_be_bytes());
    let (ty, data, _) = &chunks[5];
    assert_eq!(ty, b"fdAT");
    assert_eq!(&data[0..4], &[0x00, 0x00, 0x00, 0x02]);
}

#[test]
fn sequence_counter_law_three_frames() {
    // After k frames the counter stands at 2k - 1 and the last
    // sequence-bearing chunk carries 2k - 2.
    let imgs: Vec<PNGImage> = (0..3u8)
        .map(|n| rgba_image(1, 1, vec![n, n, n, 255]))
        .collect();
    let config = create_config_with_num_frames(&imgs[0], 3, None).unwrap();
    let mut encoder = Encoder::new(config).unwrap();
    for (k, img) in imgs.iter().enumerate() {
        encoder.write_frame(img, Frame::default()).unwrap();
        assert_eq!(encoder.seq_num, 2 * (k as u32 + 1) - 1);
    }
    encoder.finish_encode().unwrap();

    let chunks = parse_chunks(&encoder.out);
    let last_fdat = chunks.iter().rev().find(|(ty, _, _)| ty == b"fdAT").unwrap();
    assert_eq!(&last_fdat.1[0..4], &4u32.to_be_bytes()); // 2k - 2 for k = 3
}

#[test]
fn wrong_data_size_rejected_after_header() {
    // A 2x2 RGBA config expects 16 bytes; 15 are rejected before any frame
    // chunk, the header chunks already emitted.
    let img = rgba_image(2, 2, vec![0xAB; 15]);
    let config = create_config_with_num_frames(&img, 1, None).unwrap();
    let mut encoder = Encoder::new(config).unwrap();
    let before = encoder.out.clone();
    let r = encoder.write_frame(&img, Frame::default());
    assert_eq!(r, Err(APNGError::WrongDataSize(16, 15)));
    assert_eq!(encoder.out, before);
    let chunks = parse_chunks(&encoder.out);
    assert_eq!(chunks.len(), 2);
    assert_eq!(&chunks[0].0, b"IHDR");
    assert_eq!(&chunks[1].0, b"acTL");
}

#[test]
fn wrong_frame_nums_rejected_without_iend() {
    // Three frames declared, two written: finishing fails and no IEND is
    // emitted.
    let img = rgba_image(1, 1, vec![9, 9, 9, 9]);
    let config = create_config_with_num_frames(&img, 3, None).unwrap();
    let mut encoder = Encoder::new(config).unwrap();
    encoder.write_frame(&img, Frame::default()).unwrap();
    encoder.write_frame(&img, Frame::default()).unwrap();
    let before = encoder.out.clone();
    let r = encoder.finish_encode();
    assert_eq!(r, Err(APNGError::WrongFrameNums(3, 2)));
    assert_eq!(encoder.out, before);
    let chunks = parse_chunks(&encoder.out);
    assert!(chunks.iter().all(|(ty, _, _)| ty != b"IEND"));
}

#[test]
fn stream_starts_with_header_and_ends_with_iend() {
    // Shape of the whole stream: signature first, IHDR immediately, acTL
    // before any frame data, IEND last.
    let imgs: Vec<PNGImage> = (0..4u8)
        .map(|n| rgba_image(2, 2, vec![n; 16]))
        .collect();
    let config = create_config_with_num_frames(&imgs[0], 4, None).unwrap();
    let mut encoder = Encoder::new(config).unwrap();
    encoder.encode_all(imgs, None).unwrap();

    let stream = &encoder.out;
    assert_eq!(&stream[..8], &SIGNATURE);
    let chunks = parse_chunks(stream);
    assert_eq!(&chunks[0].0, b"IHDR");
    assert_eq!(&chunks[1].0, b"acTL");
    assert_eq!(&chunks.last().unwrap().0, b"IEND");
    let first_data = chunks
        .iter()
        .position(|(ty, _, _)| ty == b"IDAT" || ty == b"fdAT")
        .unwrap();
    let actl = chunks.iter().position(|(ty, _, _)| ty == b"acTL").unwrap();
    assert!(actl < first_data);
}

#[test]
fn encode_all_matches_frame_by_frame() {
    // Encoding all frames at once and feeding them one at a time produce
    // the same byte stream.
    let imgs: Vec<PNGImage> = (0..3u8)
        .map(|n| rgb_image(2, 2, vec![n.wrapping_mul(17); 12]))
        .collect();
    let mut config = create_config_with_num_frames(&imgs[0], 3, None).unwrap();
    config.filter = FilterType::Paeth;

    let mut all = Encoder::new(config.clone()).unwrap();
    all.encode_all(imgs.clone(), Some(&Frame::default())).unwrap();

    let mut stepwise = Encoder::new(config).unwrap();
    for img in &imgs {
        stepwise.write_frame(img, Frame::default()).unwrap();
    }
    stepwise.finish_encode().unwrap();

    assert_eq!(all.out, stepwise.out);
}
