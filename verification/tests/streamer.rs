use mirrox::streamer::{screen_dimensions, StreamAction, StreamEvent, Streamer};

fn raw_frame() -> Vec<u8> {
    let mut raw = Vec::new();
    raw.extend_from_slice(&2u32.to_le_bytes());
    raw.extend_from_slice(&1u32.to_le_bytes());
    raw.extend_from_slice(&0u32.to_le_bytes());
    raw.extend_from_slice(&[1, 2, 3, 4, 5, 6]);
    raw
}

#[test]
fn screen_size_defaults() {
    assert_eq!(screen_dimensions(None), (1080, 2400));
    assert_eq!(screen_dimensions(Some((720, 1280))), (720, 1280));
}

#[test]
fn raw_capture_is_published() {
    let mut s = Streamer::new(1080, 2400);
    let raw = raw_frame();
    match s.step(StreamEvent::RawCaptured(raw.clone())) {
        StreamAction::Publish(f) => {
            let mut expected = b"MIRR".to_vec();
            expected.extend_from_slice(&raw);
            assert_eq!(f, expected);
        }
        _ => panic!("expected a frame"),
    }
}

#[test]
fn short_capture_falls_back_to_png() {
    let mut s = Streamer::new(1080, 2400);
    assert!(matches!(s.step(StreamEvent::RawCaptured(vec![1, 2, 3])), StreamAction::CapturePng));
    match s.step(StreamEvent::PngCaptured(vec![137, 80, 78, 71])) {
        StreamAction::Publish(f) => assert_eq!(f, vec![137, 80, 78, 71]),
        _ => panic!("expected the PNG"),
    }
}

#[test]
fn shutdown_stops() {
    let mut s = Streamer::new(1, 1);
    assert!(matches!(s.step(StreamEvent::ShutdownRequested), StreamAction::Stop));
}

#[test]
fn ten_failures_stop_the_stream() {
    let mut s = Streamer::new(1, 1);
    for i in 0..9 {
        let a = if i % 2 == 0 { s.step(StreamEvent::CaptureFailed) } else { s.step(StreamEvent::PngCaptureFailed) };
        assert!(!matches!(a, StreamAction::Stop), "stopped after {} failures", i + 1);
    }
    assert_eq!(s.consecutive_errors, 9);
    assert!(matches!(s.step(StreamEvent::CaptureFailed), StreamAction::Stop));
}

#[test]
fn failures_pause_or_pace() {
    let mut s = Streamer::new(1, 1);
    assert!(matches!(s.step(StreamEvent::CaptureFailed), StreamAction::BackOff));
    assert!(matches!(s.step(StreamEvent::PngCaptureFailed), StreamAction::Continue));
}

#[test]
fn raw_capture_clears_failures() {
    let mut s = Streamer::new(1, 1);
    for _ in 0..9 {
        s.step(StreamEvent::CaptureFailed);
    }
    s.step(StreamEvent::RawCaptured(raw_frame()));
    assert_eq!(s.consecutive_errors, 0);
    for _ in 0..9 {
        assert!(!matches!(s.step(StreamEvent::CaptureFailed), StreamAction::Stop));
    }
}
