use mirrox::tcp_stream::{after_failed_attempt, server_address, ConnectStep, ConnectionError, CONNECTION_RETRIES};
use std::io::{Error, ErrorKind};

#[test]
fn address_of_default_port() {
    assert_eq!(server_address(27183), "127.0.0.1:27183");
    assert_eq!(server_address(0), "127.0.0.1:0");
    assert_eq!(server_address(65535), "127.0.0.1:65535");
}

#[test]
fn retries_until_last_attempt() {
    for attempt in 0..CONNECTION_RETRIES - 1 {
        let step = after_failed_attempt(attempt, server_address(1), Error::new(ErrorKind::Other, "x"));
        match step {
            ConnectStep::Retry { next_attempt } => assert_eq!(next_attempt, attempt + 1),
            ConnectStep::GiveUp(_) => panic!("gave up too early"),
        }
    }
}

#[test]
fn gives_up_after_five_attempts() {
    let mut attempt = 0;
    let mut made = 0;
    let err = loop {
        made += 1;
        match after_failed_attempt(attempt, server_address(27183), Error::new(ErrorKind::ConnectionRefused, "refused")) {
            ConnectStep::Retry { next_attempt } => attempt = next_attempt,
            ConnectStep::GiveUp(e) => break e,
        }
    };
    assert_eq!(made, 5);
    let ConnectionError::ConnectionFailed { address, retries, source } = err;
    assert_eq!(address, "127.0.0.1:27183");
    assert_eq!(retries, 5);
    assert_eq!(source.kind(), ErrorKind::ConnectionRefused);
}
