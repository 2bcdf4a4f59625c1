use mirrox::viewer::{classify_decoded, decode_png_frame, decode_received_chunk, is_complete_rgb_frame, rgb_pitch, PngFrame};

fn tiny_png() -> Vec<u8> {
    let img = image::RgbImage::from_raw(2, 1, vec![10, 20, 30, 40, 50, 60]).unwrap();
    let mut out = std::io::Cursor::new(Vec::new());
    image::DynamicImage::ImageRgb8(img).write_to(&mut out, image::ImageOutputFormat::Png).unwrap();
    out.into_inner()
}

#[test]
fn png_frame_is_decoded_to_rgb() {
    let png = tiny_png();
    match decode_png_frame(&png) {
        PngFrame::Decoded(rgb) => assert_eq!(rgb, vec![10, 20, 30, 40, 50, 60]),
        _ => panic!("expected pixels"),
    }
}

#[test]
fn other_frames_are_ignored() {
    assert!(matches!(decode_png_frame(&[1, 2, 3, 4, 5]), PngFrame::NotPng));
}

#[test]
fn broken_png_fails_to_decode() {
    assert!(matches!(decode_png_frame(&[137, 80, 78, 71, 0, 0, 0]), PngFrame::DecodeFailed));
}

#[test]
fn chunk_is_decoded_up_to_bytes_read() {
    let png = tiny_png();
    let n = png.len();
    let mut buffer = png.clone();
    buffer.resize(64 * 1024, 0xEE);
    match decode_received_chunk(&buffer, n) {
        PngFrame::Decoded(rgb) => assert_eq!(rgb, vec![10, 20, 30, 40, 50, 60]),
        _ => panic!("expected pixels"),
    }
    assert!(matches!(decode_received_chunk(&buffer, 8), PngFrame::DecodeFailed));
    assert!(matches!(decode_received_chunk(&[0u8; 16], 16), PngFrame::NotPng));
}

#[test]
fn classify() {
    assert!(matches!(classify_decoded(None), PngFrame::DecodeFailed));
    match classify_decoded(Some(vec![1, 2, 3])) {
        PngFrame::Decoded(p) => assert_eq!(p, vec![1, 2, 3]),
        _ => panic!(),
    }
}

#[test]
fn frame_sizes() {
    assert_eq!(rgb_pitch(1080), 3240);
    assert!(is_complete_rgb_frame(1080 * 2400 * 3, 1080, 2400));
    assert!(!is_complete_rgb_frame(1080 * 2400 * 3 - 1, 1080, 2400));
    assert!(is_complete_rgb_frame(0, 0, 2400));
}
