//! The decisions of the screen streamer: what each capture becomes, when to
//! fall back to a PNG capture, and when too many failures end the stream.
//! Capturing, publishing and pacing are done by the caller.

use vstd::prelude::*;
use crate::framebuffer::{process_raw_framebuffer, processed_capture};

verus! {

/// How many failures in a row end the stream.
pub const MAX_CONSECUTIVE_ERRORS: u32 = 10;

/// The screen size assumed when the device does not report one.
pub const DEFAULT_SCREEN_WIDTH: u32 = 1080;

/// See `DEFAULT_SCREEN_WIDTH`.
pub const DEFAULT_SCREEN_HEIGHT: u32 = 2400;

/// Pause after a failed capture, in milliseconds.
pub const BACK_OFF_MS: u64 = 100;

/// Target time of one frame, in milliseconds (about 30 frames a second).
pub const TARGET_FRAME_MS: u64 = 33;

/// What the caller reports back.
pub enum StreamEvent {
    /// The stream was asked to shut down.
    ShutdownRequested,
    /// A raw screen capture arrived.
    RawCaptured(Vec<u8>),
    /// The raw capture failed.
    CaptureFailed,
    /// The fallback PNG capture arrived.
    PngCaptured(Vec<u8>),
    /// The fallback PNG capture failed.
    PngCaptureFailed,
}

/// What the caller does next.
pub enum StreamAction {
    /// End the stream.
    Stop,
    /// Send this frame to the viewers, then keep the frame rate.
    Publish(Vec<u8>),
    /// Capture the screen as a PNG image instead.
    CapturePng,
    /// Wait `BACK_OFF_MS`, then capture again.
    BackOff,
    /// Keep the frame rate, then capture again.
    Continue,
}

/// The kind of an event, without its data.
pub enum EventKind {
    Shutdown,
    Raw,
    Failed,
    Png,
    PngFailed,
}

/// The kind of `event`.
pub open spec fn kind(event: StreamEvent) -> EventKind {
    match event {
        StreamEvent::ShutdownRequested => EventKind::Shutdown,
        StreamEvent::RawCaptured(_) => EventKind::Raw,
        StreamEvent::CaptureFailed => EventKind::Failed,
        StreamEvent::PngCaptured(_) => EventKind::Png,
        StreamEvent::PngCaptureFailed => EventKind::PngFailed,
    }
}

/// Whether an event of this kind is a failure.
pub open spec fn is_failure(k: EventKind) -> bool {
    k is Failed || k is PngFailed
}

/// The failure count after an event: a raw capture clears it, a failure
/// adds one, anything else keeps it.
pub open spec fn errors_after(errors: nat, k: EventKind) -> nat {
    if k is Raw {
        0
    } else if is_failure(k) {
        errors + 1
    } else {
        errors
    }
}

/// Whether the stream ends at an event: on shutdown, or on the failure that
/// makes the count reach the limit.
pub open spec fn stops_at(errors: nat, k: EventKind) -> bool {
    k is Shutdown || (is_failure(k) && errors + 1 >= MAX_CONSECUTIVE_ERRORS)
}

/// The streamer's state between events.
pub struct Streamer {
    /// Screen width as the device reported it.
    pub screen_width: u32,
    /// Screen height as the device reported it.
    pub screen_height: u32,
    /// Failures since the last good raw capture.
    pub consecutive_errors: u32,
}

/// The screen size to stream at: the device's, or the default.
pub fn screen_dimensions(info: Option<(u32, u32)>) -> (r: (u32, u32))
    ensures
        match info {
            Some(d) => r == d,
            None => r == (DEFAULT_SCREEN_WIDTH, DEFAULT_SCREEN_HEIGHT),
        },
{
    match info {
        Some(d) => d,
        None => (DEFAULT_SCREEN_WIDTH, DEFAULT_SCREEN_HEIGHT),
    }
}

impl Streamer {
    /// Whether the state is one the stream can be in: fewer failures in a
    /// row than the limit.
    pub open spec fn wf(&self) -> bool {
        self.consecutive_errors < MAX_CONSECUTIVE_ERRORS
    }

    /// A streamer for a screen of the given size, with no failures yet.
    pub fn new(screen_width: u32, screen_height: u32) -> (r: Streamer)
        ensures
            r.wf(),
            r.screen_width == screen_width,
            r.screen_height == screen_height,
            r.consecutive_errors == 0,
    {
        Streamer { screen_width, screen_height, consecutive_errors: 0 }
    }

    /// Decides what follows `event`. A shutdown ends the stream. A raw
    /// capture clears the failure count and is published as a processed
    /// frame, or, when it cannot be processed, calls for a PNG capture,
    /// which is published as it is. A failed capture counts as a failure; the
    /// failure that reaches the limit ends the stream, any other is followed
    /// by a pause (after a raw capture) or by the frame pacing (after a PNG
    /// capture).
    pub fn step(&mut self, event: StreamEvent) -> (r: StreamAction)
        requires
            old(self).wf(),
        ensures
            final(self).screen_width == old(self).screen_width,
            final(self).screen_height == old(self).screen_height,
            final(self).consecutive_errors == errors_after(
                old(self).consecutive_errors as nat,
                kind(event),
            ),
            r is Stop <==> stops_at(old(self).consecutive_errors as nat, kind(event)),
            !(r is Stop) ==> final(self).wf(),
            match event {
                StreamEvent::RawCaptured(raw) => match processed_capture(raw@) {
                    Some(f) => r matches StreamAction::Publish(p) && p@ == f,
                    None => r is CapturePng,
                },
                StreamEvent::PngCaptured(png) => r matches StreamAction::Publish(p) && p@ == png@,
                StreamEvent::CaptureFailed => !(r is Stop) ==> r is BackOff,
                StreamEvent::PngCaptureFailed => !(r is Stop) ==> r is Continue,
                StreamEvent::ShutdownRequested => r is Stop,
            },
    {
        match event {
            StreamEvent::ShutdownRequested => StreamAction::Stop,
            StreamEvent::RawCaptured(raw) => {
                self.consecutive_errors = 0;
                match process_raw_framebuffer(raw.as_slice(), self.screen_width, self.screen_height) {
                    Ok(frame) => StreamAction::Publish(frame),
                    Err(_) => StreamAction::CapturePng,
                }
            },
            StreamEvent::PngCaptured(png) => StreamAction::Publish(png),
            StreamEvent::CaptureFailed => {
                self.consecutive_errors = self.consecutive_errors + 1;
                if self.consecutive_errors >= MAX_CONSECUTIVE_ERRORS {
                    StreamAction::Stop
                } else {
                    StreamAction::BackOff
                }
            },
            StreamEvent::PngCaptureFailed => {
                self.consecutive_errors = self.consecutive_errors + 1;
                if self.consecutive_errors >= MAX_CONSECUTIVE_ERRORS {
                    StreamAction::Stop
                } else {
                    StreamAction::Continue
                }
            },
        }
    }
}

/// Where a run of event kinds ends the stream: the position of the event
/// that stops it, or `None` when the stream is still going after all of them.
pub open spec fn stop_index(errors: nat, kinds: Seq<EventKind>) -> Option<nat>
    decreases kinds.len(),
{
    if kinds.len() == 0 {
        None
    } else if stops_at(errors, kinds[0]) {
        Some(0)
    } else {
        match stop_index(errors_after(errors, kinds[0]), kinds.drop_first()) {
            Some(i) => Some(i + 1),
            None => None,
        }
    }
}

/// With `errors` failures already counted, an uninterrupted run of failures
/// ends the stream at exactly the failure that brings the count to the
/// limit, and not before.
pub proof fn lemma_failures_stop_stream(errors: nat, kinds: Seq<EventKind>)
    requires
        errors < MAX_CONSECUTIVE_ERRORS,
        kinds.len() >= MAX_CONSECUTIVE_ERRORS - errors,
        forall|i: int| 0 <= i < kinds.len() ==> is_failure(#[trigger] kinds[i]),
    ensures
        stop_index(errors, kinds) == Some((MAX_CONSECUTIVE_ERRORS - errors - 1) as nat),
    decreases kinds.len(),
{
    assert(is_failure(kinds[0]));
    if errors + 1 < MAX_CONSECUTIVE_ERRORS {
        let rest = kinds.drop_first();
        assert forall|i: int| 0 <= i < rest.len() implies is_failure(#[trigger] rest[i]) by {
            assert(rest[i] == kinds[i + 1]);
        }
        lemma_failures_stop_stream(errors + 1, rest);
    }
}

/// When the stream ends: a shutdown always ends it, whatever failures were
/// counted, and leaves the count alone; a failure adds one to the count and
/// ends the stream exactly when the count reaches ten; a capture that
/// arrives never ends it, and a PNG capture keeps the count.
pub proof fn lemma_stop_rules(errors: nat)
    ensures
        stops_at(errors, EventKind::Shutdown),
        errors_after(errors, EventKind::Shutdown) == errors,
        errors_after(errors, EventKind::Failed) == errors + 1,
        errors_after(errors, EventKind::PngFailed) == errors + 1,
        stops_at(errors, EventKind::Failed) <==> errors + 1 >= 10,
        stops_at(errors, EventKind::PngFailed) <==> errors + 1 >= 10,
        !stops_at(errors, EventKind::Raw),
        !stops_at(errors, EventKind::Png),
        errors_after(errors, EventKind::Png) == errors,
{
}

/// A raw capture always clears the failure count, so the stream never ends
/// on failures unless the limit is reached without a raw capture between.
pub proof fn lemma_raw_capture_resets(errors: nat)
    ensures
        errors_after(errors, EventKind::Raw) == 0,
        !stops_at(errors, EventKind::Raw),
{
}

} // verus!
