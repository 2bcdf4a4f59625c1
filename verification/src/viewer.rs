//! What the viewers do with a received frame: PNG images are decoded to RGB
//! pixels, raw RGB frames are checked against the screen's size.

use vstd::prelude::*;
use crate::framebuffer::{has_png_magic, starts_with_png_magic};

verus! {

/// Width of the device screen in portrait orientation.
pub const PORTRAIT_WIDTH: u32 = 1080;

/// Height of the device screen in portrait orientation.
pub const PORTRAIT_HEIGHT: u32 = 2400;

/// The RGB pixels (three bytes each, row after row) of the image that
/// `encoded` holds, as the `image` crate decodes it after guessing its
/// format from its first bytes; `None` when it cannot be decoded.
pub uninterp spec fn decoded_rgb8(encoded: Seq<u8>) -> Option<Seq<u8>>;

/// `image::io::Reader::new(Cursor::new(..)).with_guessed_format()`, then
/// `decode()` and `into_rgb8().into_raw()`. Claimed: the result is the
/// crate's decoding of the bytes, a function of the bytes alone; a failed
/// decode is `None`. Guessing the format of in-memory bytes cannot fail,
/// as the reader only seeks and reads the cursor.
#[verifier::external_body]
fn decode_rgb8(encoded: &[u8]) -> (r: Option<Vec<u8>>)
    ensures
        match r {
            Some(v) => decoded_rgb8(encoded@) == Some(v@),
            None => decoded_rgb8(encoded@) is None,
        },
{
    match image::io::Reader::new(std::io::Cursor::new(encoded)).with_guessed_format() {
        Ok(reader) => match reader.decode() {
            Ok(img) => Some(img.into_rgb8().into_raw()),
            Err(_) => None,
        },
        Err(_) => None,
    }
}

/// What became of a received frame.
pub enum PngFrame {
    /// The frame is not a PNG image and is ignored.
    NotPng,
    /// The PNG image, decoded to RGB pixels.
    Decoded(Vec<u8>),
    /// The PNG image could not be decoded.
    DecodeFailed,
}

/// The frame a PNG image's decoding gives: its pixels, or the failure.
pub fn classify_decoded(decoded: Option<Vec<u8>>) -> (r: PngFrame)
    ensures
        match decoded {
            Some(v) => r matches PngFrame::Decoded(p) && p@ == v@,
            None => r is DecodeFailed,
        },
{
    match decoded {
        Some(v) => PngFrame::Decoded(v),
        None => PngFrame::DecodeFailed,
    }
}

/// What a frame received from the streamer gives: a frame that starts with
/// the PNG signature is decoded, any other is ignored.
pub fn decode_png_frame(frame: &[u8]) -> (r: PngFrame)
    requires
        frame@.len() >= 4,
    ensures
        !starts_with_png_magic(frame@) ==> r is NotPng,
        starts_with_png_magic(frame@) ==> match decoded_rgb8(frame@) {
            Some(v) => r matches PngFrame::Decoded(p) && p@ == v,
            None => r is DecodeFailed,
        },
{
    if !has_png_magic(frame) {
        return PngFrame::NotPng;
    }
    classify_decoded(decode_rgb8(frame))
}

/// What a chunk read from a socket into `buffer` gives: when the buffer
/// starts with the PNG signature, the first `bytes_read` bytes are decoded.
pub fn decode_received_chunk(buffer: &[u8], bytes_read: usize) -> (r: PngFrame)
    requires
        bytes_read <= buffer@.len(),
    ensures
        !starts_with_png_magic(buffer@) ==> r is NotPng,
        starts_with_png_magic(buffer@) ==> match decoded_rgb8(buffer@.subrange(0, bytes_read as int)) {
            Some(v) => r matches PngFrame::Decoded(p) && p@ == v,
            None => r is DecodeFailed,
        },
{
    if !has_png_magic(buffer) {
        return PngFrame::NotPng;
    }
    let chunk = vstd::slice::slice_subrange(buffer, 0, bytes_read);
    classify_decoded(decode_rgb8(chunk))
}

/// The number of bytes in a row of an RGB frame `width` pixels wide.
pub fn rgb_pitch(width: u32) -> (r: usize)
    requires
        width * 3 <= u32::MAX,
    ensures
        r == width * 3,
{
    (width * 3) as usize
}

/// Whether a raw frame of `len` bytes holds exactly a `width` by `height`
/// RGB image.
pub fn is_complete_rgb_frame(len: usize, width: u32, height: u32) -> (r: bool)
    requires
        width * height * 3 <= u32::MAX,
    ensures
        r == (len == width * height * 3),
{
    proof {
        assert(0 <= width * height) by (nonlinear_arith);
    }
    let expected: u32 = width * height * 3;
    len == expected as usize
}

} // verus!
