//! The 32-byte channel header: offsets, status words and little-endian fields.
//!
//! | Offset | Field        | Description                     |
//! |--------|--------------|---------------------------------|
//! | 0x00   | STATUS_WORD  | 0=IDLE, 1=CONSUMER_REQ, ...     |
//! | 0x04   | CAS_LOCK     | Atomic compare-and-swap mutex   |
//! | 0x08   | PAYLOAD_SIZE | Bytes written in payload        |
//! | 0x0C   | MAX_CAPACITY | Maximum payload size            |
//! | 0x10   | ERROR_CODE   | Error metadata on ERROR status  |
//! | 0x14   | RESERVED     | 12 bytes padding                |
//! | 0x20   | PAYLOAD      | Raw byte data                   |
use vstd::prelude::*;

verus! {

/// Size of the control header that precedes the payload.
pub const HEADER_SIZE: usize = 32;

/// Offset of the status word.
pub const OFFSET_STATUS: usize = 0;

/// Offset of the compare-and-swap lock word.
pub const OFFSET_CAS_LOCK: usize = 4;

/// Offset of the payload size: the number of payload bytes in use.
pub const OFFSET_PAYLOAD_SIZE: usize = 8;

/// Offset of the payload area's capacity.
pub const OFFSET_MAX_CAPACITY: usize = 12;

/// Offset of the error code, set with the ERROR status.
pub const OFFSET_ERROR_CODE: usize = 16;

/// Offset where the payload begins.
pub const OFFSET_PAYLOAD: usize = 32;

/// The channel is free.
pub const STATUS_IDLE: u32 = 0;

/// A consumer has written a request and waits.
pub const STATUS_CONSUMER_REQ: u32 = 1;

/// The provider is working on the request.
pub const STATUS_PROVIDER_ACK: u32 = 2;

/// The provider has written its response.
pub const STATUS_PROVIDER_RES: u32 = 3;

/// Something failed; the error code says what.
pub const STATUS_ERROR: u32 = 4;

/// Default payload capacity of a new channel.
pub const DEFAULT_CAPACITY: usize = 4096;

/// The size of a channel's shared-memory file: the header and the payload area.
pub fn channel_file_size(capacity: usize) -> (size: usize)
    requires
        HEADER_SIZE + capacity <= usize::MAX,
    ensures
        size == HEADER_SIZE + capacity,
{
    HEADER_SIZE + capacity
}

/// The number that four bytes spell in little-endian order.
pub open spec fn le_u32(b0: u8, b1: u8, b2: u8, b3: u8) -> int {
    b0 + 256 * b1 + 65536 * b2 + 16777216 * b3
}

/// The u32 stored little-endian in `s` at `offset`.
pub open spec fn u32_at(s: Seq<u8>, offset: int) -> int {
    le_u32(s[offset], s[offset + 1], s[offset + 2], s[offset + 3])
}

/// The four little-endian bytes of `value`.
pub open spec fn le_bytes(value: u32) -> Seq<u8> {
    seq![
        (value % 256) as u8,
        ((value / 256) % 256) as u8,
        ((value / 65536) % 256) as u8,
        ((value / 16777216) % 256) as u8,
    ]
}

/// `s` with `bytes` written over it from `offset` on.
pub open spec fn overwrite(s: Seq<u8>, offset: int, bytes: Seq<u8>) -> Seq<u8> {
    Seq::new(
        s.len(),
        |i: int|
            if offset <= i < offset + bytes.len() {
                bytes[i - offset]
            } else {
                s[i]
            },
    )
}

/// `s` with `value` stored little-endian at `offset`.
pub open spec fn with_u32_at(s: Seq<u8>, offset: int, value: u32) -> Seq<u8> {
    overwrite(s, offset, le_bytes(value))
}

/// The status word of a buffer.
pub open spec fn status_of(s: Seq<u8>) -> int {
    u32_at(s, OFFSET_STATUS as int)
}

/// The payload size field of a buffer.
pub open spec fn payload_size_of(s: Seq<u8>) -> int {
    u32_at(s, OFFSET_PAYLOAD_SIZE as int)
}

/// The error code field of a buffer.
pub open spec fn error_code_of(s: Seq<u8>) -> int {
    u32_at(s, OFFSET_ERROR_CODE as int)
}

/// Encoding a u32 and decoding the bytes gives the value back.
pub proof fn lemma_le_bytes_decode(value: u32)
    ensures
        le_bytes(value).len() == 4,
        le_u32(le_bytes(value)[0], le_bytes(value)[1], le_bytes(value)[2], le_bytes(value)[3])
            == value,
{
    let v = value as int;
    assert(v == v % 256 + 256 * ((v / 256) % 256) + 65536 * ((v / 65536) % 256) + 16777216 * ((v
        / 16777216) % 256)) by (nonlinear_arith)
        requires
            0 <= v < 0x1_0000_0000,
    ;
}

/// Read a little-endian u32 from a byte buffer at the given offset.
pub fn read_u32(buf: &[u8], offset: usize) -> (value: u32)
    requires
        offset + 4 <= buf@.len(),
    ensures
        value == u32_at(buf@, offset as int),
{
    let b0 = buf[offset] as u32;
    let b1 = buf[offset + 1] as u32;
    let b2 = buf[offset + 2] as u32;
    let b3 = buf[offset + 3] as u32;
    b0 + 256 * b1 + 65536 * b2 + 16777216 * b3
}

/// Write a little-endian u32 to a byte buffer at the given offset.
pub fn write_u32(buf: &mut [u8], offset: usize, value: u32)
    requires
        offset + 4 <= old(buf)@.len(),
    ensures
        final(buf)@ == with_u32_at(old(buf)@, offset as int, value),
{
    let b0 = (value % 256) as u8;
    let b1 = ((value / 256) % 256) as u8;
    let b2 = ((value / 65536) % 256) as u8;
    let b3 = ((value / 16777216) % 256) as u8;
    buf[offset] = b0;
    buf[offset + 1] = b1;
    buf[offset + 2] = b2;
    buf[offset + 3] = b3;
    assert(buf@ =~= with_u32_at(old(buf)@, offset as int, value));
}

/// Read the status word from a channel buffer.
pub fn read_status(buf: &[u8]) -> (status: u32)
    requires
        OFFSET_STATUS + 4 <= buf@.len(),
    ensures
        status == status_of(buf@),
{
    read_u32(buf, OFFSET_STATUS)
}

/// Write the status word to a channel buffer.
pub fn write_status(buf: &mut [u8], status: u32)
    requires
        OFFSET_STATUS + 4 <= old(buf)@.len(),
    ensures
        final(buf)@ == with_u32_at(old(buf)@, OFFSET_STATUS as int, status),
{
    write_u32(buf, OFFSET_STATUS, status)
}

/// Read the payload size from the channel header.
pub fn read_payload_size(buf: &[u8]) -> (size: u32)
    requires
        OFFSET_PAYLOAD_SIZE + 4 <= buf@.len(),
    ensures
        size == payload_size_of(buf@),
{
    read_u32(buf, OFFSET_PAYLOAD_SIZE)
}

/// Write the payload size to the channel header.
pub fn write_payload_size(buf: &mut [u8], size: u32)
    requires
        OFFSET_PAYLOAD_SIZE + 4 <= old(buf)@.len(),
    ensures
        final(buf)@ == with_u32_at(old(buf)@, OFFSET_PAYLOAD_SIZE as int, size),
{
    write_u32(buf, OFFSET_PAYLOAD_SIZE, size)
}

/// Read the error code from the channel header.
pub fn read_error_code(buf: &[u8]) -> (code: u32)
    requires
        OFFSET_ERROR_CODE + 4 <= buf@.len(),
    ensures
        code == error_code_of(buf@),
{
    read_u32(buf, OFFSET_ERROR_CODE)
}

/// The capacity a new channel records in MAX_CAPACITY: its payload size,
/// where that fits in the field.
pub open spec fn recorded_capacity(capacity: int) -> u32 {
    if capacity <= u32::MAX {
        capacity as u32
    } else {
        u32::MAX
    }
}

/// The header of a new channel: zero everywhere but MAX_CAPACITY, which holds
/// the channel's payload capacity (where it fits in the field).
pub fn channel_header(capacity: usize) -> (h: Vec<u8>)
    ensures
        h@ == with_u32_at(
            Seq::new(HEADER_SIZE as nat, |i: int| 0u8),
            OFFSET_MAX_CAPACITY as int,
            recorded_capacity(capacity as int),
        ),
{
    let mut h: Vec<u8> = Vec::new();
    let mut i: usize = 0;
    while i < HEADER_SIZE
        invariant
            i <= HEADER_SIZE,
            h@ == Seq::new(i as nat, |k: int| 0u8),
        decreases HEADER_SIZE - i,
    {
        h.push(0u8);
        i = i + 1;
        assert(h@ =~= Seq::new(i as nat, |k: int| 0u8));
    }
    let recorded: u32 = if capacity <= 0xffff_ffff {
        capacity as u32
    } else {
        0xffff_ffff
    };
    write_u32(h.as_mut_slice(), OFFSET_MAX_CAPACITY, recorded);
    h
}

/// A field written with `write_u32` reads back as the written value.
pub proof fn law_read_after_write(s: Seq<u8>, offset: int, value: u32)
    requires
        0 <= offset,
        offset + 4 <= s.len(),
    ensures
        u32_at(with_u32_at(s, offset, value), offset) == value,
        with_u32_at(s, offset, value).len() == s.len(),
{
    lemma_le_bytes_decode(value);
}

/// Writing one field leaves every field that does not overlap it unchanged.
pub proof fn law_write_keeps_other_fields(s: Seq<u8>, offset: int, value: u32, other: int)
    requires
        0 <= offset,
        offset + 4 <= s.len(),
        0 <= other,
        other + 4 <= s.len(),
        other + 4 <= offset || offset + 4 <= other,
    ensures
        u32_at(with_u32_at(s, offset, value), other) == u32_at(s, other),
{
}

/// Writing a field with the value it already holds changes nothing.
pub proof fn law_write_of_read_is_identity(s: Seq<u8>, offset: int)
    requires
        0 <= offset,
        offset + 4 <= s.len(),
    ensures
        with_u32_at(s, offset, u32_at(s, offset) as u32) == s,
{
    let v = u32_at(s, offset);
    let b0 = s[offset] as int;
    let b1 = s[offset + 1] as int;
    let b2 = s[offset + 2] as int;
    let b3 = s[offset + 3] as int;
    assert(0 <= v < 0x1_0000_0000);
    assert(v % 256 == b0 && (v / 256) % 256 == b1 && (v / 65536) % 256 == b2 && (v / 16777216)
        % 256 == b3) by (nonlinear_arith)
        requires
            v == b0 + 256 * b1 + 65536 * b2 + 16777216 * b3,
            0 <= b0 < 256,
            0 <= b1 < 256,
            0 <= b2 < 256,
            0 <= b3 < 256,
    ;
    assert(with_u32_at(s, offset, v as u32) =~= s);
}

} // verus!
