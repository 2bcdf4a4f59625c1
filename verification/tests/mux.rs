use mirrox::mux::{device_name_length, read_packet_status, ReadOutcome, AVERROR_EOF, AVERROR_UNKNOWN};

#[test]
fn read_statuses() {
    assert_eq!(read_packet_status(ReadOutcome::Read(0), 4096), AVERROR_EOF);
    assert_eq!(read_packet_status(ReadOutcome::Read(17), 4096), 17);
    assert_eq!(read_packet_status(ReadOutcome::Read(4096), 4096), 4096);
    assert_eq!(read_packet_status(ReadOutcome::Failed, 4096), AVERROR_UNKNOWN);
}

#[test]
fn error_codes_are_ffmpeg_tags() {
    let tag = |a: u8, b: u8, c: u8, d: u8| -((a as i32) | (b as i32) << 8 | (c as i32) << 16 | (d as i32) << 24);
    assert_eq!(AVERROR_EOF, tag(b'E', b'O', b'F', b' '));
    assert_eq!(AVERROR_UNKNOWN, tag(b'U', b'N', b'K', b'N'));
}

#[test]
fn header_gives_name_length() {
    assert_eq!(device_name_length(&[0, 12]), 12);
    assert_eq!(device_name_length(&[255, 0]), 0);
}
