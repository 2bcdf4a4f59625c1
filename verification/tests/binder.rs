use mirrox::binder::{create_projection_message, parse_media_projection, ProjectionReadError};
use mirrox::binder_transaction::{
    create_projection_parcel, create_projection_transaction, parse_binder_reply, ReplyError,
};

fn le(x: u32) -> [u8; 4] {
    x.to_le_bytes()
}

#[test]
fn parcel_layout() {
    let p = create_projection_parcel(2000);
    assert_eq!(p.len(), 280);
    assert_eq!(&p[0..4], &le(0x01000000));
    assert_eq!(&p[4..8], &le(49));
    assert_eq!(&p[8..56], b"android.media.projection.IMediaProjectionManager");
    assert!(p[56..136].iter().all(|&b| b == 0));
    assert_eq!(&p[136..140], &le(2000));
    assert_eq!(&p[140..144], &le(18));
    assert_eq!(&p[144..161], b"com.mirrox.server");
    assert!(p[161..272].iter().all(|&b| b == 0));
    assert_eq!(&p[272..280], &[0u8; 8]);
}

#[test]
fn transaction_layout() {
    let t = create_projection_transaction(3, 280, 0x1122334455667788);
    assert_eq!(t.len(), 68);
    assert_eq!(&t[0..4], &le(0x40046301));
    assert_eq!(&t[4..12], &3u64.to_le_bytes());
    assert_eq!(&t[12..20], &[0u8; 8]);
    assert_eq!(&t[20..24], &le(1));
    assert_eq!(&t[24..36], &[0u8; 12]);
    assert_eq!(&t[36..44], &280u64.to_le_bytes());
    assert_eq!(&t[44..52], &[0u8; 8]);
    assert_eq!(&t[52..60], &0x1122334455667788u64.to_le_bytes());
    assert_eq!(&t[60..68], &[0u8; 8]);
}

fn reply_buffer(cmd: u32, pointer: u64) -> Vec<u8> {
    let mut buf = vec![0u8; 4096];
    buf[0..4].copy_from_slice(&le(cmd));
    buf[4 + 48..4 + 56].copy_from_slice(&pointer.to_le_bytes());
    buf
}

#[test]
fn reply_gives_low_word_of_pointer() {
    let buf = reply_buffer(3, 0xdead_beef_1234_5678);
    assert_eq!(parse_binder_reply(&buf, 68), Ok(0x1234_5678));
    assert_eq!(parse_binder_reply(&buf, 4096), Ok(0x1234_5678));
}

#[test]
fn reply_errors() {
    let buf = reply_buffer(3, 7);
    assert_eq!(parse_binder_reply(&buf, 67), Err(ReplyError::IncompleteTransaction));
    assert_eq!(parse_binder_reply(&buf, 3), Err(ReplyError::NoReply));
    assert_eq!(parse_binder_reply(&buf, 0), Err(ReplyError::NoReply));
    let other = reply_buffer(0x0e, 7);
    assert_eq!(parse_binder_reply(&other, 4096), Err(ReplyError::NoReply));
    assert_eq!(ReplyError::NoReply.message(), "No valid BR_REPLY received");
    assert_eq!(ReplyError::IncompleteTransaction.message(), "Incomplete binder_transaction_data");
}

#[test]
fn one_way_message_layout() {
    let m = create_projection_message(3, 1000);
    assert_eq!(m.len(), 340);
    assert_eq!(&m[0..4], &le(5));
    assert_eq!(&m[4..12], &3u64.to_le_bytes());
    assert_eq!(&m[20..24], &le(1));
    assert_eq!(&m[24..28], &le(1));
    assert_eq!(&m[36..44], &280u64.to_le_bytes());
    assert_eq!(&m[60..], &create_projection_parcel(1000)[..]);
}

fn push(buf: &mut Vec<u8>, x: u32) {
    buf.extend_from_slice(&le(x));
}

#[test]
fn projection_handle_after_first_transaction() {
    let mut buf = Vec::new();
    push(&mut buf, 0x0C);
    buf.extend_from_slice(&[0u8; 56]);
    push(&mut buf, 42);
    let n = buf.len();
    buf.resize(1024, 0);
    assert_eq!(parse_media_projection(&buf, n), Ok(42));
}

#[test]
fn projection_skips_other_commands() {
    let mut buf = Vec::new();
    push(&mut buf, 0x01);
    buf.extend_from_slice(&[0xAAu8; 56]);
    push(&mut buf, 0x0C);
    buf.extend_from_slice(&[0u8; 56]);
    push(&mut buf, 0x99);
    let n = buf.len();
    assert_eq!(parse_media_projection(&buf, n), Ok(0x99));
}

#[test]
fn projection_errors() {
    let mut buf = Vec::new();
    push(&mut buf, 0x0C);
    buf.extend_from_slice(&[0u8; 56]);
    assert_eq!(parse_media_projection(&buf, 3), Err(ProjectionReadError::NotEnoughBytes));
    assert_eq!(parse_media_projection(&buf, 30), Err(ProjectionReadError::IncompleteTransaction));
    assert_eq!(parse_media_projection(&buf, 60), Err(ProjectionReadError::NoHandle));
    let mut other = Vec::new();
    push(&mut other, 0x02);
    other.extend_from_slice(&[0u8; 60]);
    assert_eq!(parse_media_projection(&other, other.len()), Err(ProjectionReadError::NotFound));
    assert_eq!(parse_media_projection(&other, 4), Err(ProjectionReadError::NotFound));
    assert_eq!(ProjectionReadError::NotFound.message(), "No BR_TRANSACTION found!");
    assert_eq!(ProjectionReadError::NoHandle.message(), "No binder handle found");
}

#[test]
fn reply_laid_out_like_a_transaction_reads_its_pointer() {
    let mut t = create_projection_transaction(3, 280, 0xAABB_CCDD_0102_0304);
    t[0..4].copy_from_slice(&le(3));
    t.extend_from_slice(&[0xFF; 10]);
    let n = t.len();
    assert_eq!(parse_binder_reply(&t, n), Ok(0x0102_0304));
}
