//! The one-way variant of the `createProjection` call, whose parcel follows
//! the command in the same write, and the scan of a read buffer for the
//! media projection handle that an incoming transaction carries.
//!
//! Words are laid out as the driver reads them on the little-endian targets
//! Android runs on.

use vstd::prelude::*;
use crate::wire::{le32, le32_at, le64, lemma_le32_decode_encode, push_le32, push_le64, read_le32};
use crate::binder_transaction::{create_projection_parcel, create_projection_parcel_spec, zeros};

verus! {

/// Return word that announces an incoming transaction.
pub const BR_TRANSACTION: u32 = 0x0C;

/// Command word that starts a transaction.
pub const BC_TRANSACTION: u32 = 0x5;

/// Flag of a call that expects no reply.
pub const TF_ONE_WAY: u32 = 0x01;

/// Size of this variant's transaction record.
pub const TRANSACTION_RECORD_LEN: usize = 56;

/// Size of the parcel that follows the record.
pub const PARCEL_LEN: u64 = 280;

/// The record of a one-way `createProjection` call to `manager_handle` with a
/// parcel of `data_size` bytes: target, cookie, code, flags, data-buffer
/// pointer, data size, offsets pointer and offsets size.
pub open spec fn transaction_record_spec(manager_handle: u32, data_size: u64) -> Seq<u8> {
    le64(manager_handle as u64) + le64(0) + le32(1) + le32(TF_ONE_WAY) + le64(0) + le64(data_size)
        + le64(0) + le64(0)
}

/// The whole write: the command word, the record, then the parcel of user `uid`.
pub open spec fn create_projection_message_spec(manager_handle: u32, uid: u32) -> Seq<u8> {
    le32(BC_TRANSACTION) + transaction_record_spec(manager_handle, PARCEL_LEN)
        + create_projection_parcel_spec(uid)
}

/// Why no projection handle could be read.
#[derive(PartialEq, Eq, Structural, Debug, Clone, Copy)]
pub enum ProjectionReadError {
    /// Fewer than four bytes were read.
    NotEnoughBytes,
    /// A transaction was announced but its record is cut short.
    IncompleteTransaction,
    /// The record is complete but no handle follows it.
    NoHandle,
    /// No transaction was announced.
    NotFound,
}

/// The scan of the first `n` bytes from position `pos`: each return word is
/// followed by a record; the first incoming transaction's record is followed
/// by the handle, while other records are skipped.
pub open spec fn scan_for_transaction(buf: Seq<u8>, n: int, pos: int) -> Result<u32, ProjectionReadError>
    decreases n - pos,
{
    if pos < 0 || pos + 4 > n {
        Err(ProjectionReadError::NotFound)
    } else if le32_at(buf, pos) == BR_TRANSACTION {
        let record: int = pos + 4;
        if record + TRANSACTION_RECORD_LEN > n {
            Err(ProjectionReadError::IncompleteTransaction)
        } else if record + TRANSACTION_RECORD_LEN + 4 > n {
            Err(ProjectionReadError::NoHandle)
        } else {
            Ok(le32_at(buf, record + TRANSACTION_RECORD_LEN))
        }
    } else if pos + 4 + TRANSACTION_RECORD_LEN + 4 > n {
        Err(ProjectionReadError::NotFound)
    } else {
        scan_for_transaction(buf, n, pos + 4 + TRANSACTION_RECORD_LEN)
    }
}

/// What the first `n` bytes of a read buffer say about the projection handle.
pub open spec fn media_projection_spec(buf: Seq<u8>, n: int) -> Result<u32, ProjectionReadError> {
    if n < 4 {
        Err(ProjectionReadError::NotEnoughBytes)
    } else {
        scan_for_transaction(buf, n, 0)
    }
}

/// The write that asks the driver for a projection, one-way, for user `uid`.
pub fn create_projection_message(manager_handle: u32, uid: u32) -> (r: Vec<u8>)
    ensures
        r@ == create_projection_message_spec(manager_handle, uid),
        r@.len() == 340,
{
    let mut buf: Vec<u8> = Vec::new();
    push_le32(&mut buf, BC_TRANSACTION);
    push_le64(&mut buf, manager_handle as u64);
    push_le64(&mut buf, 0);
    push_le32(&mut buf, 1);
    push_le32(&mut buf, TF_ONE_WAY);
    push_le64(&mut buf, 0);
    push_le64(&mut buf, PARCEL_LEN);
    push_le64(&mut buf, 0);
    push_le64(&mut buf, 0);
    let mut parcel = create_projection_parcel(uid);
    buf.append(&mut parcel);
    proof {
        crate::binder_transaction::lemma_parcel_layout(uid);
    }
    assert(buf@ =~= create_projection_message_spec(manager_handle, uid));
    buf
}

/// Reads the media projection handle out of the first `bytes_read` bytes of
/// `buffer`.
pub fn parse_media_projection(buffer: &[u8], bytes_read: usize) -> (r: Result<u32, ProjectionReadError>)
    requires
        bytes_read <= buffer@.len(),
    ensures
        r == media_projection_spec(buffer@, bytes_read as int),
{
    if bytes_read < 4 {
        return Err(ProjectionReadError::NotEnoughBytes);
    }
    let mut pos: usize = 0;
    while bytes_read - pos >= 4
        invariant
            bytes_read <= buffer@.len(),
            pos <= bytes_read,
            scan_for_transaction(buffer@, bytes_read as int, 0) == scan_for_transaction(
                buffer@,
                bytes_read as int,
                pos as int,
            ),
        decreases bytes_read - pos,
    {
        let cmd: u32 = read_le32(buffer, pos);
        let record: usize = pos + 4;
        if cmd == BR_TRANSACTION {
            if bytes_read - record < TRANSACTION_RECORD_LEN {
                return Err(ProjectionReadError::IncompleteTransaction);
            }
            let data_start: usize = record + TRANSACTION_RECORD_LEN;
            if bytes_read - data_start < 4 {
                return Err(ProjectionReadError::NoHandle);
            }
            return Ok(read_le32(buffer, data_start));
        }
        if bytes_read - record < TRANSACTION_RECORD_LEN + 4 {
            return Err(ProjectionReadError::NotFound);
        }
        pos = record + TRANSACTION_RECORD_LEN;
    }
    Err(ProjectionReadError::NotFound)
}

impl ProjectionReadError {
    /// The message the error is reported with.
    pub fn message(&self) -> (r: String)
        ensures
            *self == ProjectionReadError::NotEnoughBytes ==> r@ == "Not enough bytes for command"@,
            *self == ProjectionReadError::IncompleteTransaction ==> r@
                == "Incomplete BinderTransactionData"@,
            *self == ProjectionReadError::NoHandle ==> r@ == "No binder handle found"@,
            *self == ProjectionReadError::NotFound ==> r@ == "No BR_TRANSACTION found!"@,
    {
        match self {
            ProjectionReadError::NotEnoughBytes => String::from_str("Not enough bytes for command"),
            ProjectionReadError::IncompleteTransaction => String::from_str(
                "Incomplete BinderTransactionData",
            ),
            ProjectionReadError::NoHandle => String::from_str("No binder handle found"),
            ProjectionReadError::NotFound => String::from_str("No BR_TRANSACTION found!"),
        }
    }
}

/// An incoming transaction laid out as the driver writes it, its return
/// word, a full record and the handle, reads back as that handle, whatever
/// follows it.
pub proof fn lemma_incoming_transaction_gives_handle(record: Seq<u8>, handle: u32, rest: Seq<u8>)
    requires
        record.len() == TRANSACTION_RECORD_LEN,
    ensures
        ({
            let b = le32(BR_TRANSACTION) + record + le32(handle) + rest;
            media_projection_spec(b, b.len() as int) == Ok::<u32, ProjectionReadError>(handle)
        }),
{
    let b = le32(BR_TRANSACTION) + record + le32(handle) + rest;
    lemma_le32_decode_encode(BR_TRANSACTION);
    lemma_le32_decode_encode(handle);
    assert(le32_at(b, 0) == le32_at(le32(BR_TRANSACTION), 0));
    assert(le32_at(b, 60) == le32_at(le32(handle), 0));
}

/// Scanning a buffer that is `prefix` followed by `r`, from a position
/// inside `r`, reads exactly what scanning `r` alone reads from there.
proof fn lemma_scan_shift(prefix: Seq<u8>, r: Seq<u8>, k: int)
    requires
        0 <= k,
    ensures
        scan_for_transaction(prefix + r, (prefix.len() + r.len()) as int, prefix.len() + k)
            == scan_for_transaction(r, r.len() as int, k),
    decreases r.len() - k,
{
    let b = prefix + r;
    let m = prefix.len() as int;
    if k + 4 <= r.len() {
        assert(b[m + k] == r[k] && b[m + k + 1] == r[k + 1] && b[m + k + 2] == r[k + 2] && b[m + k
            + 3] == r[k + 3]);
        assert(le32_at(b, m + k) == le32_at(r, k));
        if le32_at(r, k) == BR_TRANSACTION {
            let h = k + 4 + TRANSACTION_RECORD_LEN;
            if h + 4 <= r.len() {
                assert(b[m + h] == r[h] && b[m + h + 1] == r[h + 1] && b[m + h + 2] == r[h + 2]
                    && b[m + h + 3] == r[h + 3]);
                assert(le32_at(b, m + h) == le32_at(r, h));
            }
        } else if k + 4 + TRANSACTION_RECORD_LEN + 4 <= r.len() {
            lemma_scan_shift(prefix, r, k + 4 + TRANSACTION_RECORD_LEN);
        }
    }
}

/// Any return word other than an incoming transaction is skipped together
/// with its whole record: what follows the record is read as if it came
/// first, whatever the skipped record holds.
pub proof fn lemma_other_command_is_skipped(command: u32, record: Seq<u8>, rest: Seq<u8>)
    requires
        command != BR_TRANSACTION,
        record.len() == TRANSACTION_RECORD_LEN,
        rest.len() >= 4,
    ensures
        ({
            let b = le32(command) + record + rest;
            media_projection_spec(b, b.len() as int) == media_projection_spec(rest, rest.len() as int)
        }),
{
    let p = le32(command) + record;
    let b = p + rest;
    assert(b =~= le32(command) + record + rest);
    lemma_le32_decode_encode(command);
    assert(b[0] == p[0] && b[1] == p[1] && b[2] == p[2] && b[3] == p[3]);
    assert(le32_at(b, 0) == le32_at(le32(command), 0));
    lemma_scan_shift(p, rest, 0);
    assert(b.len() == p.len() + rest.len());
}

/// An incoming transaction behind another command and its record is found,
/// and the handle after its own record is read, whatever the records hold.
pub proof fn lemma_transaction_after_other_command(
    command: u32,
    skipped: Seq<u8>,
    record: Seq<u8>,
    handle: u32,
    tail: Seq<u8>,
)
    requires
        command != BR_TRANSACTION,
        skipped.len() == TRANSACTION_RECORD_LEN,
        record.len() == TRANSACTION_RECORD_LEN,
    ensures
        ({
            let b = le32(command) + skipped + le32(BR_TRANSACTION) + record + le32(handle) + tail;
            media_projection_spec(b, b.len() as int) == Ok::<u32, ProjectionReadError>(handle)
        }),
{
    let rest = le32(BR_TRANSACTION) + record + le32(handle) + tail;
    lemma_other_command_is_skipped(command, skipped, rest);
    lemma_incoming_transaction_gives_handle(record, handle, tail);
    assert(le32(command) + skipped + le32(BR_TRANSACTION) + record + le32(handle) + tail
        =~= le32(command) + skipped + rest);
}

/// Fewer than four bytes hold no command; an incoming transaction whose
/// record is cut short is incomplete; one with a full record but fewer
/// than four bytes after it has no handle.
pub proof fn lemma_short_reads(buf: Seq<u8>, record: Seq<u8>, after: Seq<u8>, n: int)
    requires
        0 <= n,
    ensures
        n < 4 ==> media_projection_spec(buf, n) == Err::<u32, ProjectionReadError>(
            ProjectionReadError::NotEnoughBytes,
        ),
        record.len() < TRANSACTION_RECORD_LEN ==> ({
            let b = le32(BR_TRANSACTION) + record;
            media_projection_spec(b, b.len() as int) == Err::<u32, ProjectionReadError>(
                ProjectionReadError::IncompleteTransaction,
            )
        }),
        record.len() == TRANSACTION_RECORD_LEN && after.len() < 4 ==> ({
            let b = le32(BR_TRANSACTION) + record + after;
            media_projection_spec(b, b.len() as int) == Err::<u32, ProjectionReadError>(
                ProjectionReadError::NoHandle,
            )
        }),
{
    lemma_le32_decode_encode(BR_TRANSACTION);
    let b1 = le32(BR_TRANSACTION) + record;
    assert(b1[0] == le32(BR_TRANSACTION)[0] && b1[1] == le32(BR_TRANSACTION)[1] && b1[2] == le32(
        BR_TRANSACTION,
    )[2] && b1[3] == le32(BR_TRANSACTION)[3]);
    assert(le32_at(b1, 0) == BR_TRANSACTION);
    let b2 = le32(BR_TRANSACTION) + record + after;
    assert(b2[0] == le32(BR_TRANSACTION)[0] && b2[1] == le32(BR_TRANSACTION)[1] && b2[2] == le32(
        BR_TRANSACTION,
    )[2] && b2[3] == le32(BR_TRANSACTION)[3]);
    assert(le32_at(b2, 0) == BR_TRANSACTION);
}

/// A buffer holding one command that is not an incoming transaction, with
/// too little after it for another command and its record, holds no
/// transaction.
pub proof fn lemma_no_transaction(command: u32, rest: Seq<u8>)
    requires
        command != BR_TRANSACTION,
        rest.len() < TRANSACTION_RECORD_LEN + 4,
    ensures
        ({
            let b = le32(command) + rest;
            media_projection_spec(b, b.len() as int) == Err::<u32, ProjectionReadError>(
                ProjectionReadError::NotFound,
            )
        }),
{
    let b = le32(command) + rest;
    lemma_le32_decode_encode(command);
    assert(b[0] == le32(command)[0] && b[1] == le32(command)[1] && b[2] == le32(command)[2]
        && b[3] == le32(command)[3]);
    assert(le32_at(b, 0) == command);
}

/// The one-way message, field by field: the command word 5, the target
/// handle, a zero cookie, code 1, the one-way flag, a zero data-buffer
/// pointer, the parcel's size 280, zero offsets pointer and offsets size,
/// then the parcel.
pub proof fn lemma_message_layout(manager_handle: u32, uid: u32)
    ensures
        ({
            let m = create_projection_message_spec(manager_handle, uid);
            &&& m.len() == 340
            &&& m.subrange(0, 4) == le32(5)
            &&& m.subrange(4, 12) == le64(manager_handle as u64)
            &&& m.subrange(12, 20) == zeros(8)
            &&& m.subrange(20, 24) == le32(1)
            &&& m.subrange(24, 28) == le32(1)
            &&& m.subrange(28, 36) == zeros(8)
            &&& m.subrange(36, 44) == le64(280)
            &&& m.subrange(44, 60) == zeros(16)
            &&& m.subrange(60, 340) == create_projection_parcel_spec(uid)
        }),
{
    let m = create_projection_message_spec(manager_handle, uid);
    crate::binder_transaction::lemma_parcel_layout(uid);
    assert(m.subrange(0, 4) =~= le32(5));
    assert(m.subrange(4, 12) =~= le64(manager_handle as u64));
    assert(m.subrange(12, 20) =~= zeros(8));
    assert(m.subrange(20, 24) =~= le32(1));
    assert(m.subrange(24, 28) =~= le32(1));
    assert(m.subrange(28, 36) =~= zeros(8));
    assert(m.subrange(36, 44) =~= le64(280));
    assert(m.subrange(44, 60) =~= zeros(16));
    assert(m.subrange(60, 340) =~= create_projection_parcel_spec(uid));
}

/// The parcel that ends the one-way write is the same parcel that the
/// two-way call hands the driver by address, for the same user.
pub proof fn lemma_message_carries_parcel(manager_handle: u32, uid: u32)
    ensures
        create_projection_message_spec(manager_handle, uid).subrange(60, 340)
            == create_projection_parcel_spec(uid),
{
    crate::binder_transaction::lemma_parcel_layout(uid);
    assert(create_projection_message_spec(manager_handle, uid).subrange(60, 340)
        =~= create_projection_parcel_spec(uid));
}

} // verus!
