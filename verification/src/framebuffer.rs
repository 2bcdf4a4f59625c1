//! Raw framebuffer frames captured from the device, and the `MIRR` frame
//! format the streamer publishes to its viewers.

use vstd::prelude::*;
use crate::wire::{le32, le32_at, lemma_le32_decode_encode, lemma_le32_encode_decode, push_le32, read_le32};

verus! {

/// The first four bytes of every PNG file.
pub open spec fn png_magic() -> Seq<u8> {
    seq![137u8, 80u8, 78u8, 71u8]
}

/// Whether `data` begins with the PNG signature.
pub open spec fn starts_with_png_magic(data: Seq<u8>) -> bool {
    data.len() >= 4 && data.subrange(0, 4) == png_magic()
}

/// The magic number that opens a processed frame.
pub open spec fn mirr_magic() -> Seq<u8> {
    seq![77u8, 73u8, 82u8, 82u8]
}

/// Size of the header (width, height, format) in front of raw pixel data.
pub const RAW_HEADER_LEN: usize = 12;

/// The message of the error for a capture shorter than its header.
pub open spec fn too_small_message() -> Seq<char> {
    "Invalid raw data - too small"@
}

/// A processed frame: the magic, the three header words, the pixels.
pub open spec fn mirr_frame(pixels: Seq<u8>, width: u32, height: u32, format: u32) -> Seq<u8> {
    mirr_magic() + le32(width) + le32(height) + le32(format) + pixels
}

/// What processing a raw capture yields: `None` for a capture shorter
/// than the header, the capture itself for a PNG image, and otherwise the
/// processed frame built from its header words and the pixels after them.
pub open spec fn processed_capture(raw: Seq<u8>) -> Option<Seq<u8>> {
    if raw.len() < RAW_HEADER_LEN {
        None
    } else if starts_with_png_magic(raw) {
        Some(raw)
    } else {
        Some(
            mirr_frame(
                raw.subrange(12, raw.len() as int),
                le32_at(raw, 0),
                le32_at(raw, 4),
                le32_at(raw, 8),
            ),
        )
    }
}

/// Whether `data` begins with the PNG signature.
pub fn has_png_magic(data: &[u8]) -> (r: bool)
    ensures
        r == starts_with_png_magic(data@),
{
    if data.len() < 4 {
        return false;
    }
    let r = data[0] == 137 && data[1] == 80 && data[2] == 78 && data[3] == 71;
    assert(r == (data@.subrange(0, 4) =~= png_magic()));
    r
}

/// Wraps raw pixel data in a processed frame: `MIRR`, then width, height
/// and format as little-endian words, then the pixels unchanged.
pub fn create_bitmap_from_framebuffer(pixel_data: &[u8], width: u32, height: u32, format: u32) -> (r:
    Result<Vec<u8>, String>)
    ensures
        r matches Ok(v) && v@ == mirr_frame(pixel_data@, width, height, format),
{
    let mut result: Vec<u8> = Vec::new();
    result.push(77u8);
    result.push(73u8);
    result.push(82u8);
    result.push(82u8);
    assert(result@ =~= mirr_magic());
    push_le32(&mut result, width);
    push_le32(&mut result, height);
    push_le32(&mut result, format);
    let ghost before = result@;
    let mut i: usize = 0;
    while i < pixel_data.len()
        invariant
            0 <= i <= pixel_data@.len(),
            result@ == before + pixel_data@.subrange(0, i as int),
        decreases pixel_data@.len() - i,
    {
        result.push(pixel_data[i]);
        i = i + 1;
        assert(result@ =~= before + pixel_data@.subrange(0, i as int));
    }
    assert(pixel_data@.subrange(0, pixel_data@.len() as int) =~= pixel_data@);
    Ok(result)
}

/// Turns a raw screen capture into a frame for the viewers. A capture
/// shorter than its 12-byte header is refused; a PNG image is passed on as
/// it is; otherwise the header's width, height and format words and the
/// pixels after them become a processed frame. `width` and `height` (the
/// screen's size as the device reported it) are not consulted: the frame
/// carries the capture's own header.
pub fn process_raw_framebuffer(raw_data: &[u8], width: u32, height: u32) -> (r: Result<
    Vec<u8>,
    String,
>)
    ensures
        r is Err <==> processed_capture(raw_data@) is None,
        r matches Ok(v) ==> processed_capture(raw_data@) == Some(v@),
        r matches Err(e) ==> e@ == too_small_message(),
{
    if raw_data.len() < RAW_HEADER_LEN {
        return Err(String::from_str("Invalid raw data - too small"));
    }
    if has_png_magic(raw_data) {
        return Ok(vstd::slice::slice_to_vec(raw_data));
    }
    let fb_width: u32 = read_le32(raw_data, 0);
    let fb_height: u32 = read_le32(raw_data, 4);
    let fb_format: u32 = read_le32(raw_data, 8);
    let pixel_data = vstd::slice::slice_subrange(raw_data, 12, raw_data.len());
    create_bitmap_from_framebuffer(pixel_data, fb_width, fb_height, fb_format)
}

/// Which captures are refused and which pass through: one shorter than 12
/// bytes is refused; one of 12 bytes or more that starts with the PNG
/// signature 137 80 78 71 is passed on unchanged; any other comes out
/// behind the magic `MIRR` (77 73 82 82), 16 bytes longer than its pixels.
pub proof fn lemma_capture_cases(raw: Seq<u8>)
    ensures
        raw.len() < 12 ==> processed_capture(raw) is None,
        raw.len() >= 12 ==> processed_capture(raw) is Some,
        raw.len() >= 12 && raw[0] == 137 && raw[1] == 80 && raw[2] == 78 && raw[3] == 71
            ==> processed_capture(raw) == Some(raw),
        raw.len() >= 12 && !(raw[0] == 137 && raw[1] == 80 && raw[2] == 78 && raw[3] == 71) ==> ({
            let f = processed_capture(raw)->0;
            &&& f.len() == raw.len() + 4
            &&& f.subrange(0, 4) == seq![77u8, 73u8, 82u8, 82u8]
            &&& f.subrange(4, f.len() as int) == raw
        }),
{
    if raw.len() >= 12 {
        let m = raw[0] == 137 && raw[1] == 80 && raw[2] == 78 && raw[3] == 71;
        if m {
            assert(raw.subrange(0, 4) =~= png_magic());
        } else {
            assert(!starts_with_png_magic(raw)) by {
                if raw.subrange(0, 4) == png_magic() {
                    assert(raw[0] == raw.subrange(0, 4)[0]);
                    assert(raw[1] == raw.subrange(0, 4)[1]);
                    assert(raw[2] == raw.subrange(0, 4)[2]);
                    assert(raw[3] == raw.subrange(0, 4)[3]);
                }
            }
            lemma_processed_capture_prefixes_magic(raw);
            let f = mirr_magic() + raw;
            assert(f.subrange(0, 4) =~= seq![77u8, 73u8, 82u8, 82u8]);
            assert(f.subrange(4, f.len() as int) =~= raw);
        }
    }
}

/// A non-PNG capture with a full header comes out as `MIRR` followed by
/// the whole capture, header included, byte for byte: the header words
/// are decoded and encoded again without change.
pub proof fn lemma_processed_capture_prefixes_magic(raw: Seq<u8>)
    requires
        raw.len() >= RAW_HEADER_LEN,
        !starts_with_png_magic(raw),
    ensures
        processed_capture(raw) == Some(mirr_magic() + raw),
{
    lemma_le32_encode_decode(raw, 0);
    lemma_le32_encode_decode(raw, 4);
    lemma_le32_encode_decode(raw, 8);
    assert(mirr_frame(raw.subrange(12, raw.len() as int), le32_at(raw, 0), le32_at(raw, 4), le32_at(raw, 8))
        =~= mirr_magic() + raw);
}

/// A processed frame's header holds the width, height and format it was
/// built from, at offsets 4, 8 and 12, and its pixels follow at 16.
pub proof fn lemma_mirr_frame_header(pixels: Seq<u8>, width: u32, height: u32, format: u32)
    ensures
        ({
            let f = mirr_frame(pixels, width, height, format);
            &&& f.len() == 16 + pixels.len()
            &&& f.subrange(0, 4) == mirr_magic()
            &&& le32_at(f, 4) == width
            &&& le32_at(f, 8) == height
            &&& le32_at(f, 12) == format
            &&& f.subrange(16, f.len() as int) == pixels
        }),
{
    let f = mirr_frame(pixels, width, height, format);
    lemma_le32_decode_encode(width);
    lemma_le32_decode_encode(height);
    lemma_le32_decode_encode(format);
    assert(f.subrange(0, 4) =~= mirr_magic());
    assert(f.subrange(16, f.len() as int) =~= pixels);
    assert(le32_at(f, 4) == le32_at(le32(width), 0));
    assert(le32_at(f, 8) == le32_at(le32(height), 0));
    assert(le32_at(f, 12) == le32_at(le32(format), 0));
}

} // verus!
