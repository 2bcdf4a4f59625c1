//! Connecting to the scrcpy server through the forwarded local port, with
//! a fixed number of attempts.

use vstd::prelude::*;
use crate::decimal::{decimal, push_decimal};

verus! {

/// The host the forwarded port listens on.
pub const CONNECTION_HOST: &'static str = "127.0.0.1";

/// How many times a connection is attempted before giving up.
pub const CONNECTION_RETRIES: u32 = 5;

/// The pause between two attempts, in milliseconds.
pub const RETRY_DELAY_MS: u64 = 500;

/// Why connecting to the server failed.
pub enum ConnectionError {
    /// Every attempt failed; `source` is the error of the last one.
    ConnectionFailed { address: String, retries: u32, source: std::io::Error },
}

/// What to do after an attempt failed.
pub enum ConnectStep {
    /// Wait `RETRY_DELAY_MS`, then make attempt `next_attempt` (counted from 0).
    Retry { next_attempt: u32 },
    /// Stop and report the error.
    GiveUp(ConnectionError),
}

/// The address `host:port` that is connected to.
pub open spec fn server_address_spec(port: u16) -> Seq<char> {
    "127.0.0.1:"@ + decimal(port as nat)
}

/// The address of the server behind local port `port`.
pub fn server_address(port: u16) -> (r: String)
    ensures
        r@ == server_address_spec(port),
{
    let mut address = String::from_str(CONNECTION_HOST);
    address.append(":");
    proof {
        reveal_strlit("127.0.0.1");
        reveal_strlit(":");
        reveal_strlit("127.0.0.1:");
    }
    push_decimal(&mut address, port as u32);
    address
}

/// The attempt that follows failed attempt `attempt`, or `None` when that
/// was the last one allowed.
pub open spec fn next_attempt_spec(attempt: u32) -> Option<u32> {
    if attempt + 1 >= CONNECTION_RETRIES {
        None
    } else {
        Some((attempt + 1) as u32)
    }
}

/// Decides what follows a failed attempt (counted from 0) to connect to
/// `address`: another attempt, or, after the last one, the error that
/// names the address, the number of attempts and the last failure.
pub fn after_failed_attempt(attempt: u32, address: String, error: std::io::Error) -> (r: ConnectStep)
    requires
        attempt < CONNECTION_RETRIES,
    ensures
        match next_attempt_spec(attempt) {
            Some(n) => r == (ConnectStep::Retry { next_attempt: n }),
            None => r == ConnectStep::GiveUp(
                ConnectionError::ConnectionFailed { address, retries: CONNECTION_RETRIES, source: error },
            ),
        },
{
    if attempt == CONNECTION_RETRIES - 1 {
        ConnectStep::GiveUp(
            ConnectionError::ConnectionFailed { address, retries: CONNECTION_RETRIES, source: error },
        )
    } else {
        ConnectStep::Retry { next_attempt: attempt + 1 }
    }
}

/// After a failed attempt below the last, the next attempt is the one after
/// it; after the last of the `CONNECTION_RETRIES` attempts there is none.
pub proof fn lemma_next_attempt(attempt: u32)
    requires
        attempt < CONNECTION_RETRIES,
    ensures
        attempt + 1 < CONNECTION_RETRIES ==> next_attempt_spec(attempt) == Some((attempt + 1) as u32),
        attempt + 1 == CONNECTION_RETRIES ==> next_attempt_spec(attempt) is None,
{
}

/// How many attempts are made, from attempt `from` on, when every one fails.
pub open spec fn attempts_when_all_fail(from: u32) -> nat
    decreases CONNECTION_RETRIES - from,
{
    match next_attempt_spec(from) {
        Some(n) => 1 + attempts_when_all_fail(n),
        None => 1,
    }
}

/// When the server never answers, every attempt from `from` up to the limit
/// is made before the connection gives up: from the first attempt on,
/// exactly `CONNECTION_RETRIES` of them.
pub proof fn lemma_all_attempts_made(from: u32)
    requires
        from < CONNECTION_RETRIES,
    ensures
        attempts_when_all_fail(from) == CONNECTION_RETRIES - from,
    decreases CONNECTION_RETRIES - from,
{
    if from + 1 < CONNECTION_RETRIES {
        lemma_all_attempts_made((from + 1) as u32);
    }

}

/// A server that never answers is tried five times in all.
pub proof fn lemma_five_attempts()
    ensures
        attempts_when_all_fail(0) == 5,
{
    lemma_all_attempts_made(0);
}

} // verus!
