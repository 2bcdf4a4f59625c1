use mirrox::framebuffer::{create_bitmap_from_framebuffer, has_png_magic, process_raw_framebuffer};

#[test]
fn short_capture_is_refused() {
    let raw = vec![1u8; 11];
    let r = process_raw_framebuffer(&raw, 1080, 2400);
    assert_eq!(r, Err("Invalid raw data - too small".to_string()));
    assert_eq!(process_raw_framebuffer(&[], 0, 0), Err("Invalid raw data - too small".to_string()));
}

#[test]
fn png_capture_passes_through() {
    let mut raw = vec![137u8, 80, 78, 71, 13, 10, 26, 10];
    raw.extend_from_slice(&[0u8; 8]);
    assert_eq!(process_raw_framebuffer(&raw, 1, 1), Ok(raw.clone()));
}

#[test]
fn short_png_is_still_refused() {
    let raw = vec![137u8, 80, 78, 71, 0, 0];
    assert!(process_raw_framebuffer(&raw, 1, 1).is_err());
}

#[test]
fn raw_capture_becomes_mirr_frame() {
    let mut raw = Vec::new();
    raw.extend_from_slice(&1080u32.to_le_bytes());
    raw.extend_from_slice(&2400u32.to_le_bytes());
    raw.extend_from_slice(&1u32.to_le_bytes());
    raw.extend_from_slice(&[9, 8, 7, 6, 5]);
    let out = process_raw_framebuffer(&raw, 0, 0).unwrap();
    let mut expected = b"MIRR".to_vec();
    expected.extend_from_slice(&raw);
    assert_eq!(out, expected);
    assert_eq!(u32::from_le_bytes([out[4], out[5], out[6], out[7]]), 1080);
    assert_eq!(u32::from_le_bytes([out[8], out[9], out[10], out[11]]), 2400);
    assert_eq!(u32::from_le_bytes([out[12], out[13], out[14], out[15]]), 1);
}

#[test]
fn header_only_capture_has_no_pixels() {
    let raw = vec![0xffu8; 12];
    let out = process_raw_framebuffer(&raw, 0, 0).unwrap();
    assert_eq!(out.len(), 16);
    assert_eq!(&out[..4], b"MIRR");
    assert_eq!(&out[4..], &raw[..]);
}

#[test]
fn bitmap_layout_is_exact() {
    let out = create_bitmap_from_framebuffer(&[1, 2, 3], 0x01020304, 7, 0xffffffff).unwrap();
    assert_eq!(
        out,
        vec![77, 73, 82, 82, 4, 3, 2, 1, 7, 0, 0, 0, 255, 255, 255, 255, 1, 2, 3]
    );
    assert_eq!(create_bitmap_from_framebuffer(&[], 0, 0, 0).unwrap().len(), 16);
}

#[test]
fn png_magic_detection() {
    assert!(has_png_magic(&[137, 80, 78, 71]));
    assert!(!has_png_magic(&[137, 80, 78]));
    assert!(!has_png_magic(&[137, 80, 78, 72, 1]));
}
