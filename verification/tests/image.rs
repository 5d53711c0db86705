use unbroken_qa_capture::image::{decode_png_rgba, encode_png, frame_into_rgba, rgb_to_rgba};

#[test]
fn test_encode_png_roundtrip() {
    // 2×2 red image (RGBA).
    let rgba = vec![
        255, 0, 0, 255, // red
        0, 255, 0, 255, // green
        0, 0, 255, 255, // blue
        255, 255, 0, 255, // yellow
    ];
    let png_bytes = encode_png(&rgba, 2, 2).expect("encode should succeed");

    // Verify it's a valid PNG by checking the magic bytes.
    assert!(png_bytes.len() > 8);
    assert_eq!(&png_bytes[..8], &[137, 80, 78, 71, 13, 10, 26, 10]);

    // Decode it back and verify pixel data.
    let decoder = png::Decoder::new(std::io::Cursor::new(&png_bytes));
    let mut reader = decoder.read_info().expect("PNG decode");
    let mut decoded = vec![0u8; reader.output_buffer_size()];
    let info = reader.next_frame(&mut decoded).expect("read frame");
    let decoded = &decoded[..info.buffer_size()];

    assert_eq!(info.width, 2);
    assert_eq!(info.height, 2);
    assert_eq!(decoded, &rgba);
}

#[test]
fn test_encode_png_empty_image_returns_error() {
    // 0×0 image — the png crate rejects zero-dimension images.
    let result = encode_png(&[], 0, 0);
    assert!(result.is_err());
}

#[test]
fn test_encode_png_large_image() {
    // 100×100 solid colour — verify it doesn't panic and produces output.
    let rgba = vec![128u8; 4 * 100 * 100];
    let png_bytes = encode_png(&rgba, 100, 100).expect("encode should succeed");
    assert!(!png_bytes.is_empty());
}

#[test]
fn encode_png_refuses_wrong_buffer_length() {
    let result = encode_png(&[1, 2, 3], 1, 1);
    assert_eq!(result, Err("PNG data error: wrong data size, expected 4 got 3".to_string()));
    assert_eq!(
        encode_png(&[], 0, 5),
        Err("PNG header error: Zero width not allowed".to_string())
    );
    assert_eq!(
        encode_png(&[], 5, 0),
        Err("PNG header error: Zero height not allowed".to_string())
    );
}

#[test]
fn decode_png_rgba_reads_back_encoded_image() {
    let rgba: Vec<u8> = (0..32 * 32 * 4).map(|i| (i % 251) as u8).collect();
    let png_bytes = encode_png(&rgba, 32, 32).unwrap();
    let (pixels, w, h) = decode_png_rgba(&png_bytes).unwrap();
    assert_eq!(w, 32);
    assert_eq!(h, 32);
    assert_eq!(pixels.len(), 32 * 32 * 4);
    assert_eq!(pixels, rgba);
}

#[test]
fn decode_png_rgba_widens_rgb_images() {
    let mut bytes = Vec::new();
    {
        let mut encoder = png::Encoder::new(&mut bytes, 2, 1);
        encoder.set_color(png::ColorType::Rgb);
        encoder.set_depth(png::BitDepth::Eight);
        let mut writer = encoder.write_header().unwrap();
        writer.write_image_data(&[1, 2, 3, 4, 5, 6]).unwrap();
    }
    let (pixels, w, h) = decode_png_rgba(&bytes).unwrap();
    assert_eq!((w, h), (2, 1));
    assert_eq!(pixels, vec![1, 2, 3, 255, 4, 5, 6, 255]);
}

#[test]
fn decode_png_rgba_refuses_grayscale_and_garbage() {
    let mut bytes = Vec::new();
    {
        let mut encoder = png::Encoder::new(&mut bytes, 1, 1);
        encoder.set_color(png::ColorType::Grayscale);
        encoder.set_depth(png::BitDepth::Eight);
        let mut writer = encoder.write_header().unwrap();
        writer.write_image_data(&[7]).unwrap();
    }
    assert_eq!(
        decode_png_rgba(&bytes),
        Err("Unsupported PNG color type: Grayscale".to_string())
    );
    let garbage = decode_png_rgba(&[1, 2, 3, 4]);
    assert!(garbage.unwrap_err().starts_with("PNG decode error: "));
}

#[test]
fn rgb_to_rgba_appends_alpha_per_group() {
    assert_eq!(rgb_to_rgba(&[]), Vec::<u8>::new());
    assert_eq!(rgb_to_rgba(&[9, 8, 7]), vec![9, 8, 7, 255]);
    assert_eq!(rgb_to_rgba(&[1, 2, 3, 4, 5]), vec![1, 2, 3, 255, 4, 5, 255]);
}

#[test]
fn frame_into_rgba_keeps_rgba_and_names_other_types() {
    assert_eq!(frame_into_rgba(6, "Rgba", vec![1, 2, 3, 4], 1, 1), Ok((vec![1, 2, 3, 4], 1, 1)));
    assert_eq!(
        frame_into_rgba(4, "GrayscaleAlpha", vec![1, 2], 1, 1),
        Err("Unsupported PNG color type: GrayscaleAlpha".to_string())
    );
    assert_eq!(
        frame_into_rgba(3, "Indexed", vec![0], 1, 1),
        Err("Unsupported PNG color type: Indexed".to_string())
    );
}
