//! The bridge from the server's TCP stream to the demuxer: the stream's
//! leading header, and the status codes handed to the demuxer's reads.

use vstd::prelude::*;

verus! {

/// The demuxer's end-of-file code, `-MKTAG('E','O','F',' ')`.
pub const AVERROR_EOF: i32 = -541478725;

/// The demuxer's unknown-error code, `-MKTAG('U','N','K','N')`.
pub const AVERROR_UNKNOWN: i32 = -1313558101;

/// Size of the buffer the demuxer reads into.
pub const IO_BUFFER_SIZE: i32 = 4096;

/// Size of the header in front of the video stream.
pub const STREAM_HEADER_LEN: usize = 2;

/// How a read from the stream went.
pub enum ReadOutcome {
    /// This many bytes were read; none means the stream ended.
    Read(usize),
    /// The read failed.
    Failed,
}

/// The status a read reports to the demuxer: the number of bytes read, the
/// end-of-file code when the stream ended, the unknown-error code when the
/// read failed.
pub fn read_packet_status(outcome: ReadOutcome, buf_size: i32) -> (r: i32)
    requires
        outcome matches ReadOutcome::Read(n) ==> n <= buf_size,
    ensures
        match outcome {
            ReadOutcome::Read(n) => if n == 0 {
                r == AVERROR_EOF
            } else {
                r == n
            },
            ReadOutcome::Failed => r == AVERROR_UNKNOWN,
        },
{
    match outcome {
        ReadOutcome::Read(n) => {
            if n == 0 {
                AVERROR_EOF
            } else {
                n as i32
            }
        },
        ReadOutcome::Failed => AVERROR_UNKNOWN,
    }
}

/// The length of the device name that follows the stream header, which
/// its second byte holds.
pub fn device_name_length(header: &[u8]) -> (r: usize)
    requires
        header@.len() == STREAM_HEADER_LEN,
    ensures
        r == header@[1],
{
    header[1] as usize
}

} // verus!
