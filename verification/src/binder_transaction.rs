//! The `createProjection` call to the media projection manager, made as a
//! binder transaction, and the reading of the driver's reply.
//!
//! Words are laid out as the driver reads them on the little-endian targets
//! Android runs on.

use vstd::prelude::*;
use vstd::string::StringSliceAdditionalSpecFns;
use crate::wire::{le32, le32_at, le64, lemma_le32_decode_encode, push_le32, push_le64, read_le32};

verus! {

/// Command word that starts a transaction in the driver's write buffer.
pub const BC_TRANSACTION: u32 = 0x40046301;

/// Return word that announces a reply in the driver's read buffer.
pub const BR_REPLY: u32 = 0x3;

/// Transaction code of `createProjection`.
pub const TRANSACTION_CREATE_PROJECTION: u32 = 1;

/// The strict-mode policy word that opens the parcel.
pub const STRICT_MODE_POLICY: u32 = 0x01000000;

/// Size of each of the parcel's two fixed string fields.
pub const STRING_FIELD_LEN: usize = 128;

/// Size of the driver's transaction record.
pub const TRANSACTION_DATA_LEN: usize = 64;

/// Offset of the data-buffer pointer within a transaction record.
pub const BUFFER_FIELD_OFFSET: usize = 48;

/// `n` zero bytes.
pub open spec fn zeros(n: nat) -> Seq<u8> {
    Seq::new(n, |i: int| 0u8)
}

/// The NUL-terminated bytes of `s`.
pub open spec fn c_string(s: Seq<u8>) -> Seq<u8> {
    s.push(0u8)
}

/// A fixed string field: the NUL-terminated bytes, padded with zeros to
/// `STRING_FIELD_LEN` bytes.
pub open spec fn string_field(s: Seq<u8>) -> Seq<u8> {
    c_string(s) + zeros((STRING_FIELD_LEN - c_string(s).len()) as nat)
}

/// The interface descriptor of the media projection manager.
pub open spec fn interface_descriptor() -> Seq<u8> {
    "android.media.projection.IMediaProjectionManager".spec_bytes()
}

/// The package the projection is requested for.
pub open spec fn package_name() -> Seq<u8> {
    "com.mirrox.server".spec_bytes()
}

/// The parcel of a `createProjection` call made by user `euid`: the policy
/// word, the descriptor's length (NUL included) and its field, the user id,
/// the package name's length (NUL included) and its field, then two zero
/// words.
pub open spec fn create_projection_parcel_spec(euid: u32) -> Seq<u8> {
    le32(STRICT_MODE_POLICY) + le32(c_string(interface_descriptor()).len() as u32) + string_field(
        interface_descriptor(),
    ) + le32(euid) + le32(c_string(package_name()).len() as u32) + string_field(package_name())
        + le32(0) + le32(0)
}

/// The driver's transaction record: target handle, cookie, code, flags,
/// sender pid and euid, data size, offsets size, data-buffer pointer and
/// offsets pointer.
pub open spec fn transaction_data_spec(
    target: u64,
    code: u32,
    flags: u32,
    data_size: u64,
    buffer: u64,
) -> Seq<u8> {
    le64(target) + le64(0) + le32(code) + le32(flags) + le32(0) + le32(0) + le64(data_size) + le64(
        0,
    ) + le64(buffer) + le64(0)
}

/// The write buffer of a `createProjection` transaction to `manager_handle`
/// whose parcel of `parcel_len` bytes sits at address `parcel_addr`: the
/// command word, then the transaction record, sent as a two-way call.
pub open spec fn create_projection_transaction_spec(
    manager_handle: u32,
    parcel_len: u64,
    parcel_addr: u64,
) -> Seq<u8> {
    le32(BC_TRANSACTION) + transaction_data_spec(
        manager_handle as u64,
        TRANSACTION_CREATE_PROJECTION,
        0,
        parcel_len,
        parcel_addr,
    )
}

/// Why a read buffer holds no usable reply.
#[derive(PartialEq, Eq, Structural, Debug, Clone, Copy)]
pub enum ReplyError {
    /// The reply was announced but its transaction record is cut short.
    IncompleteTransaction,
    /// The buffer does not start with a reply.
    NoReply,
}

/// What the first `bytes_read` bytes of a read buffer say: the reply must
/// be the first return word, and its transaction record must follow in
/// full; the result is the low 32 bits of the record's data-buffer pointer.
pub open spec fn binder_reply_spec(buf: Seq<u8>, bytes_read: int) -> Result<u32, ReplyError> {
    if bytes_read < 4 {
        Err(ReplyError::NoReply)
    } else if le32_at(buf, 0) != BR_REPLY {
        Err(ReplyError::NoReply)
    } else if 4 + TRANSACTION_DATA_LEN > bytes_read {
        Err(ReplyError::IncompleteTransaction)
    } else {
        Ok(le32_at(buf, 4 + BUFFER_FIELD_OFFSET))
    }
}

/// The bytes of a string known to be ASCII, with its length.
fn ascii_bytes(s: &str) -> (r: &[u8])
    requires
        vstd::string::is_ascii(s),
    ensures
        r@ == s.spec_bytes(),
        r@.len() == s@.len(),
{
    proof {
        vstd::string::is_ascii_spec_bytes(s);
    }
    s.as_bytes()
}

/// The descriptor's bytes; 48 of them.
fn descriptor_bytes() -> (r: &'static [u8])
    ensures
        r@ == interface_descriptor(),
        r@.len() == 48,
{
    let s = "android.media.projection.IMediaProjectionManager";
    proof {
        reveal_strlit("android.media.projection.IMediaProjectionManager");
    }
    ascii_bytes(s)
}

/// The package name's bytes; 17 of them.
fn package_bytes() -> (r: &'static [u8])
    ensures
        r@ == package_name(),
        r@.len() == 17,
{
    let s = "com.mirrox.server";
    proof {
        reveal_strlit("com.mirrox.server");
    }
    ascii_bytes(s)
}

/// Appends `s` as a fixed string field.
fn push_string_field(out: &mut Vec<u8>, s: &[u8])
    requires
        s@.len() < STRING_FIELD_LEN,
    ensures
        final(out)@ == old(out)@ + string_field(s@),
{
    let ghost start = out@;
    let mut i: usize = 0;
    while i < s.len()
        invariant
            0 <= i <= s@.len(),
            out@ == start + s@.subrange(0, i as int),
        decreases s@.len() - i,
    {
        out.push(s[i]);
        i = i + 1;
        assert(out@ =~= start + s@.subrange(0, i as int));
    }
    assert(s@.subrange(0, s@.len() as int) =~= s@);
    let mut j: usize = s.len();
    while j < STRING_FIELD_LEN
        invariant
            s@.len() <= j <= STRING_FIELD_LEN,
            out@ == start + s@ + zeros((j - s@.len()) as nat),
        decreases STRING_FIELD_LEN - j,
    {
        out.push(0u8);
        j = j + 1;
        assert(out@ =~= start + s@ + zeros((j - s@.len()) as nat));
    }
    assert(string_field(s@) =~= s@ + zeros((STRING_FIELD_LEN - s@.len()) as nat));
}

/// The parcel of a `createProjection` call made by user `euid`.
pub fn create_projection_parcel(euid: u32) -> (r: Vec<u8>)
    ensures
        r@ == create_projection_parcel_spec(euid),
{
    let iface = descriptor_bytes();
    let pkg = package_bytes();
    let mut parcel: Vec<u8> = Vec::new();
    push_le32(&mut parcel, STRICT_MODE_POLICY);
    push_le32(&mut parcel, (iface.len() + 1) as u32);
    push_string_field(&mut parcel, iface);
    push_le32(&mut parcel, euid);
    push_le32(&mut parcel, (pkg.len() + 1) as u32);
    push_string_field(&mut parcel, pkg);
    push_le32(&mut parcel, 0);
    push_le32(&mut parcel, 0);
    parcel
}

/// The write buffer that hands the driver a `createProjection` transaction
/// for `manager_handle`, whose parcel of `parcel_len` bytes sits at address
/// `parcel_addr`.
pub fn create_projection_transaction(manager_handle: u32, parcel_len: u64, parcel_addr: u64) -> (r:
    Vec<u8>)
    ensures
        r@ == create_projection_transaction_spec(manager_handle, parcel_len, parcel_addr),
{
    let mut buf: Vec<u8> = Vec::new();
    push_le32(&mut buf, BC_TRANSACTION);
    push_le64(&mut buf, manager_handle as u64);
    push_le64(&mut buf, 0);
    push_le32(&mut buf, TRANSACTION_CREATE_PROJECTION);
    push_le32(&mut buf, 0);
    push_le32(&mut buf, 0);
    push_le32(&mut buf, 0);
    push_le64(&mut buf, parcel_len);
    push_le64(&mut buf, 0);
    push_le64(&mut buf, parcel_addr);
    push_le64(&mut buf, 0);
    assert(buf@ =~= create_projection_transaction_spec(manager_handle, parcel_len, parcel_addr));
    buf
}

/// Reads the projection token out of the first `bytes_read` bytes the
/// driver returned in `read_buf`.
pub fn parse_binder_reply(read_buf: &[u8], bytes_read: usize) -> (r: Result<u32, ReplyError>)
    requires
        bytes_read <= read_buf@.len(),
    ensures
        r == binder_reply_spec(read_buf@, bytes_read as int),
{
    if bytes_read < 4 {
        return Err(ReplyError::NoReply);
    }
    let cmd: u32 = read_le32(read_buf, 0);
    if cmd != BR_REPLY {
        return Err(ReplyError::NoReply);
    }
    if bytes_read - 4 < TRANSACTION_DATA_LEN {
        return Err(ReplyError::IncompleteTransaction);
    }
    Ok(read_le32(read_buf, 4 + BUFFER_FIELD_OFFSET))
}

impl ReplyError {
    /// The message the error is reported with.
    pub fn message(&self) -> (r: String)
        ensures
            *self == ReplyError::IncompleteTransaction ==> r@ == "Incomplete binder_transaction_data"@,
            *self == ReplyError::NoReply ==> r@ == "No valid BR_REPLY received"@,
    {
        match self {
            ReplyError::IncompleteTransaction => String::from_str("Incomplete binder_transaction_data"),
            ReplyError::NoReply => String::from_str("No valid BR_REPLY received"),
        }
    }
}

/// The parcel is 280 bytes: two 128-byte string fields and six words. The
/// user id sits at offset 136 and the descriptor's length (49, its NUL
/// included) at offset 4.
pub proof fn lemma_parcel_layout(euid: u32)
    ensures
        create_projection_parcel_spec(euid).len() == 280,
        le32_at(create_projection_parcel_spec(euid), 0) == STRICT_MODE_POLICY,
        le32_at(create_projection_parcel_spec(euid), 4) == 49,
        le32_at(create_projection_parcel_spec(euid), 136) == euid,
        le32_at(create_projection_parcel_spec(euid), 140) == 18,
{
    lemma_string_lengths();
    let p = create_projection_parcel_spec(euid);
    lemma_le32_decode_encode(STRICT_MODE_POLICY);
    lemma_le32_decode_encode(49);
    lemma_le32_decode_encode(euid);
    lemma_le32_decode_encode(18);
    assert(le32_at(p, 0) == le32_at(le32(STRICT_MODE_POLICY), 0));
    assert(le32_at(p, 4) == le32_at(le32(49), 0));
    assert(le32_at(p, 136) == le32_at(le32(euid), 0));
    assert(le32_at(p, 140) == le32_at(le32(18), 0));
}

/// The parcel's string fields: the descriptor's 48 bytes from offset 8,
/// then zeros (its NUL and padding) up to offset 136; the package name's
/// 17 bytes from offset 144, then zeros up to offset 272; and two zero
/// words to end it.
pub proof fn lemma_parcel_fields(euid: u32)
    ensures
        ({
            let p = create_projection_parcel_spec(euid);
            &&& p.subrange(8, 56) == interface_descriptor()
            &&& p.subrange(56, 136) == zeros(80)
            &&& p.subrange(144, 161) == package_name()
            &&& p.subrange(161, 272) == zeros(111)
            &&& p.subrange(272, 280) == zeros(8)
        }),
{
    lemma_string_lengths();
    let p = create_projection_parcel_spec(euid);
    assert(p.subrange(8, 56) =~= interface_descriptor());
    assert(p.subrange(56, 136) =~= zeros(80));
    assert(p.subrange(144, 161) =~= package_name());
    assert(p.subrange(161, 272) =~= zeros(111));
    assert(p.subrange(272, 280) =~= zeros(8));
}

/// The two-way transaction, field by field: the command word, the target
/// handle, a zero cookie, the `createProjection` code, zero flags (a call
/// that waits for its reply), zero sender pid and euid, the parcel's size,
/// zero offsets size, the parcel's address and a zero offsets pointer.
pub proof fn lemma_transaction_layout(manager_handle: u32, parcel_len: u64, parcel_addr: u64)
    ensures
        ({
            let t = create_projection_transaction_spec(manager_handle, parcel_len, parcel_addr);
            &&& t.len() == 68
            &&& t.subrange(0, 4) == le32(BC_TRANSACTION)
            &&& t.subrange(4, 12) == le64(manager_handle as u64)
            &&& t.subrange(12, 20) == zeros(8)
            &&& t.subrange(20, 24) == le32(TRANSACTION_CREATE_PROJECTION)
            &&& t.subrange(24, 36) == zeros(12)
            &&& t.subrange(36, 44) == le64(parcel_len)
            &&& t.subrange(44, 52) == zeros(8)
            &&& t.subrange(52, 60) == le64(parcel_addr)
            &&& t.subrange(60, 68) == zeros(8)
        }),
{
    let t = create_projection_transaction_spec(manager_handle, parcel_len, parcel_addr);
    assert(t.subrange(0, 4) =~= le32(BC_TRANSACTION));
    assert(t.subrange(4, 12) =~= le64(manager_handle as u64));
    assert(t.subrange(12, 20) =~= zeros(8));
    assert(t.subrange(20, 24) =~= le32(TRANSACTION_CREATE_PROJECTION));
    assert(t.subrange(24, 36) =~= zeros(12));
    assert(t.subrange(36, 44) =~= le64(parcel_len));
    assert(t.subrange(44, 52) =~= zeros(8));
    assert(t.subrange(52, 60) =~= le64(parcel_addr));
    assert(t.subrange(60, 68) =~= zeros(8));
}

/// Only a reply is read as one: a buffer whose first word is any other
/// command gives no token, whatever follows and however much was read.
pub proof fn lemma_only_reply_is_read(command: u32, rest: Seq<u8>, bytes_read: int)
    requires
        command != BR_REPLY,
        4 <= bytes_read <= 4 + rest.len(),
    ensures
        binder_reply_spec(le32(command) + rest, bytes_read) == Err::<u32, ReplyError>(
            ReplyError::NoReply,
        ),
{
    let b = le32(command) + rest;
    lemma_le32_decode_encode(command);
    assert(b[0] == le32(command)[0] && b[1] == le32(command)[1] && b[2] == le32(command)[2]
        && b[3] == le32(command)[3]);
    assert(le32_at(b, 0) == command);
}

/// A reply whose record is cut short gives no token, and fewer than four
/// bytes hold no reply at all.
pub proof fn lemma_short_reply(buf: Seq<u8>, rest: Seq<u8>, bytes_read: int)
    ensures
        bytes_read < 4 ==> binder_reply_spec(buf, bytes_read) == Err::<u32, ReplyError>(
            ReplyError::NoReply,
        ),
        4 <= bytes_read < 4 + TRANSACTION_DATA_LEN ==> binder_reply_spec(le32(BR_REPLY) + rest, bytes_read)
            == Err::<u32, ReplyError>(ReplyError::IncompleteTransaction),
{
    let b = le32(BR_REPLY) + rest;
    lemma_le32_decode_encode(BR_REPLY);
    assert(b[0] == le32(BR_REPLY)[0] && b[1] == le32(BR_REPLY)[1] && b[2] == le32(BR_REPLY)[2]
        && b[3] == le32(BR_REPLY)[3]);
    assert(le32_at(b, 0) == BR_REPLY);
}

/// A reply laid out as the driver writes it, the reply word followed by a
/// transaction record, reads back as the low 32 bits of the record's
/// data-buffer pointer, whatever else the buffer holds after it.
pub proof fn lemma_reply_reads_buffer_pointer(
    target: u64,
    code: u32,
    flags: u32,
    data_size: u64,
    buffer: u64,
    rest: Seq<u8>,
)
    ensures
        ({
            let b = le32(BR_REPLY) + transaction_data_spec(target, code, flags, data_size, buffer)
                + rest;
            binder_reply_spec(b, b.len() as int) == Ok::<u32, ReplyError>((buffer % 4294967296) as u32)
        }),
{
    let t = transaction_data_spec(target, code, flags, data_size, buffer);
    let b = le32(BR_REPLY) + t + rest;
    lemma_le32_decode_encode(BR_REPLY);
    lemma_le32_decode_encode((buffer % 4294967296) as u32);
    assert(le32_at(b, 0) == le32_at(le32(BR_REPLY), 0));
    assert(le32_at(b, 52) == le32_at(le32((buffer % 4294967296) as u32), 0));
}

/// The lengths of the two strings of the parcel.
proof fn lemma_string_lengths()
    ensures
        interface_descriptor().len() == 48,
        package_name().len() == 17,
{
    let s = "android.media.projection.IMediaProjectionManager";
    let t = "com.mirrox.server";
    reveal_strlit("android.media.projection.IMediaProjectionManager");
    reveal_strlit("com.mirrox.server");
    vstd::string::is_ascii_spec_bytes(s);
    vstd::string::is_ascii_spec_bytes(t);
}

} // verus!
