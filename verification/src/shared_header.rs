//! The fixed header of a shared region: magic, version and payload length,
//! each a little-endian `u64`.

use crate::error::{MemioError, MemioResult};
use vstd::bytes::{
    lemma_auto_spec_u64_to_from_le_bytes, spec_u64_from_le_bytes, spec_u64_to_le_bytes,
    spec_u64_to_le_bytes_to_open, u64_from_le_bytes,
};
use vstd::prelude::*;
use vstd::slice::slice_subrange;

verus! {

/// The sentinel in the first eight bytes of every region.
pub const SHARED_STATE_MAGIC: u64 = 0x5455_5242_4F53_4852;

/// Bytes taken by the header; the payload starts here.
pub const SHARED_STATE_HEADER_SIZE: usize = 64;

pub const SHARED_STATE_MAGIC_OFFSET: usize = 0;

pub const SHARED_STATE_VERSION_OFFSET: usize = 8;

pub const SHARED_STATE_LENGTH_OFFSET: usize = 16;

/// Byte order of the header's fields.
pub const SHARED_STATE_ENDIANNESS: &'static str = "little";

/// The `u64` stored little-endian in the eight bytes of `buf` from `offset`.
pub open spec fn spec_read_u64_le(buf: Seq<u8>, offset: int) -> u64 {
    spec_u64_from_le_bytes(buf.subrange(offset, offset + 8))
}

/// `buf` with the eight bytes from `offset` replaced by `value`,
/// little-endian.
pub open spec fn spec_write_u64_le(buf: Seq<u8>, offset: int, value: u64) -> Seq<u8> {
    Seq::new(
        buf.len(),
        |i: int|
            if offset <= i < offset + 8 {
                spec_u64_to_le_bytes(value)[i - offset]
            } else {
                buf[i]
            },
    )
}

/// `buf` after a header with `version` and `length` was stamped on it.
pub open spec fn spec_write_header(buf: Seq<u8>, version: u64, length: usize) -> Seq<u8> {
    spec_write_u64_le(
        spec_write_u64_le(
            spec_write_u64_le(buf, SHARED_STATE_MAGIC_OFFSET as int, SHARED_STATE_MAGIC),
            SHARED_STATE_VERSION_OFFSET as int,
            version,
        ),
        SHARED_STATE_LENGTH_OFFSET as int,
        length as u64,
    )
}

/// `buf` is long enough for a header and starts with the magic.
pub open spec fn spec_valid_magic(buf: Seq<u8>) -> bool {
    buf.len() >= SHARED_STATE_HEADER_SIZE && spec_read_u64_le(
        buf,
        SHARED_STATE_MAGIC_OFFSET as int,
    ) == SHARED_STATE_MAGIC
}

/// The version field of `buf`.
pub open spec fn spec_version(buf: Seq<u8>) -> u64 {
    spec_read_u64_le(buf, SHARED_STATE_VERSION_OFFSET as int)
}

/// The length field of `buf`, as stored.
pub open spec fn spec_length(buf: Seq<u8>) -> u64 {
    spec_read_u64_le(buf, SHARED_STATE_LENGTH_OFFSET as int)
}

/// Version and length of a valid header whose length is within `capacity`.
pub open spec fn spec_read_header(buf: Seq<u8>, capacity: usize) -> Option<(u64, usize)> {
    if spec_valid_magic(buf) && spec_length(buf) <= capacity {
        Some((spec_version(buf), spec_length(buf) as usize))
    } else {
        None
    }
}

/// Stores `value` little-endian in the eight bytes of `buf` from `offset`.
#[inline]
pub fn write_u64_le(buf: &mut [u8], offset: usize, value: u64)
    requires
        offset + 8 <= old(buf).len(),
    ensures
        final(buf)@ == spec_write_u64_le(old(buf)@, offset as int, value),
{
    proof {
        spec_u64_to_le_bytes_to_open(value);
        assert({
            &&& value & 0xff < 256
            &&& (value >> 8) & 0xff < 256
            &&& (value >> 16) & 0xff < 256
            &&& (value >> 24) & 0xff < 256
            &&& (value >> 32) & 0xff < 256
            &&& (value >> 40) & 0xff < 256
            &&& (value >> 48) & 0xff < 256
            &&& (value >> 56) & 0xff < 256
        }) by (bit_vector);
    }
    buf[offset] = (value & 0xff) as u8;
    buf[offset + 1] = ((value >> 8) & 0xff) as u8;
    buf[offset + 2] = ((value >> 16) & 0xff) as u8;
    buf[offset + 3] = ((value >> 24) & 0xff) as u8;
    buf[offset + 4] = ((value >> 32) & 0xff) as u8;
    buf[offset + 5] = ((value >> 40) & 0xff) as u8;
    buf[offset + 6] = ((value >> 48) & 0xff) as u8;
    buf[offset + 7] = ((value >> 56) & 0xff) as u8;
}

/// Loads the little-endian `u64` in the eight bytes of `buf` from `offset`.
#[inline]
pub fn read_u64_le(buf: &[u8], offset: usize) -> (value: u64)
    requires
        offset + 8 <= buf.len(),
    ensures
        value == spec_read_u64_le(buf@, offset as int),
{
    u64_from_le_bytes(slice_subrange(buf, offset, offset + 8))
}

/// A field that was written is read back, and a write leaves the fields
/// beside it alone.
pub proof fn lemma_read_after_write(buf: Seq<u8>, offset: int, value: u64, other: int)
    requires
        0 <= offset,
        offset + 8 <= buf.len(),
    ensures
        spec_write_u64_le(buf, offset, value).len() == buf.len(),
        spec_read_u64_le(spec_write_u64_le(buf, offset, value), offset) == value,
        0 <= other && other + 8 <= buf.len() && (other + 8 <= offset || offset + 8 <= other)
            ==> spec_read_u64_le(spec_write_u64_le(buf, offset, value), other)
            == spec_read_u64_le(buf, other),
{
    lemma_auto_spec_u64_to_from_le_bytes();
    let written = spec_write_u64_le(buf, offset, value);
    assert(written.subrange(offset, offset + 8) =~= spec_u64_to_le_bytes(value));
    if 0 <= other && other + 8 <= buf.len() && (other + 8 <= offset || offset + 8 <= other) {
        assert(written.subrange(other, other + 8) =~= buf.subrange(other, other + 8));
    }
}

/// Reading a header that was just written gives back the version and the
/// length, whenever the length is within the reader's capacity. The bytes
/// behind the three fields are as they were.
pub proof fn lemma_header_roundtrip(buf: Seq<u8>, version: u64, length: usize, capacity: usize)
    requires
        buf.len() >= SHARED_STATE_HEADER_SIZE,
    ensures
        spec_write_header(buf, version, length).len() == buf.len(),
        spec_valid_magic(spec_write_header(buf, version, length)),
        spec_version(spec_write_header(buf, version, length)) == version,
        spec_length(spec_write_header(buf, version, length)) == length,
        length <= capacity ==> spec_read_header(spec_write_header(buf, version, length), capacity)
            == Some((version, length)),
        length > capacity ==> spec_read_header(spec_write_header(buf, version, length), capacity)
            is None,
        forall|i: int|
            24 <= i < buf.len() ==> #[trigger] spec_write_header(buf, version, length)[i] == buf[i],
{
    let b1 = spec_write_u64_le(buf, 0, SHARED_STATE_MAGIC);
    let b2 = spec_write_u64_le(b1, 8, version);
    lemma_read_after_write(buf, 0, SHARED_STATE_MAGIC, 0);
    lemma_read_after_write(b1, 8, version, 0);
    lemma_read_after_write(b2, 16, length as u64, 0);
    lemma_read_after_write(b2, 16, length as u64, 8);
}

/// The magic is exactly what the first eight bytes must spell.
pub proof fn lemma_valid_magic_bytes(buf: Seq<u8>)
    ensures
        spec_valid_magic(buf) <==> buf.len() >= SHARED_STATE_HEADER_SIZE && buf.subrange(0, 8)
            == spec_u64_to_le_bytes(SHARED_STATE_MAGIC),
        spec_u64_to_le_bytes(SHARED_STATE_MAGIC) == seq![
            0x52u8,
            0x48u8,
            0x53u8,
            0x4Fu8,
            0x42u8,
            0x52u8,
            0x55u8,
            0x54u8,
        ],
{
    lemma_auto_spec_u64_to_from_le_bytes();
    spec_u64_to_le_bytes_to_open(SHARED_STATE_MAGIC);
    let m: u64 = 0x5455_5242_4F53_4852;
    assert({
        &&& (m & 0xff) == 0x52
        &&& ((m >> 8) & 0xff) == 0x48
        &&& ((m >> 16) & 0xff) == 0x53
        &&& ((m >> 24) & 0xff) == 0x4F
        &&& ((m >> 32) & 0xff) == 0x42
        &&& ((m >> 40) & 0xff) == 0x52
        &&& ((m >> 48) & 0xff) == 0x55
        &&& ((m >> 56) & 0xff) == 0x54
    }) by (bit_vector)
        requires
            m == 0x5455_5242_4F53_4852u64,
    ;
}

/// Bytes that start with a zero are no header: a region that was never
/// initialized is not taken for one.
pub proof fn lemma_zero_is_no_magic(buf: Seq<u8>)
    requires
        buf.len() > 0,
        buf[0] == 0,
    ensures
        !spec_valid_magic(buf),
{
    lemma_valid_magic_bytes(buf);
}

/// Whether `buf` holds a header that starts with the magic.
pub fn validate_magic(buf: &[u8]) -> (valid: bool)
    ensures
        valid == spec_valid_magic(buf@),
{
    if buf.len() < SHARED_STATE_HEADER_SIZE {
        return false;
    }
    read_u64_le(buf, SHARED_STATE_MAGIC_OFFSET) == SHARED_STATE_MAGIC
}

/// As [`validate_magic`], with the reason where it fails.
pub fn validate_magic_result(buf: &[u8]) -> (r: MemioResult<()>)
    ensures
        spec_valid_magic(buf@) <==> r is Ok,
        buf@.len() < SHARED_STATE_HEADER_SIZE ==> (r matches Err(MemioError::Internal(m)) && m@
            == "Shared state header too small."@),
        buf@.len() >= SHARED_STATE_HEADER_SIZE && !spec_valid_magic(buf@) ==> (r matches Err(
            MemioError::Internal(m),
        ) && m@ == "Invalid shared state magic."@),
{
    if buf.len() < SHARED_STATE_HEADER_SIZE {
        return Err(MemioError::Internal("Shared state header too small.".to_owned()));
    }
    let magic = read_u64_le(buf, SHARED_STATE_MAGIC_OFFSET);
    if magic != SHARED_STATE_MAGIC {
        return Err(MemioError::Internal("Invalid shared state magic.".to_owned()));
    }
    Ok(())
}

/// Stamps magic, `version` and `length` on `buf`. A buffer too short for a
/// header is refused and left as it was.
pub fn write_header(buf: &mut [u8], version: u64, length: usize) -> (r: MemioResult<()>)
    ensures
        old(buf)@.len() >= SHARED_STATE_HEADER_SIZE ==> r is Ok && final(buf)@
            == spec_write_header(old(buf)@, version, length),
        old(buf)@.len() < SHARED_STATE_HEADER_SIZE ==> final(buf)@ == old(buf)@ && (r matches Err(
            MemioError::Internal(m),
        ) && m@ == "Shared state header too small."@),
{
    if buf.len() < SHARED_STATE_HEADER_SIZE {
        return Err(MemioError::Internal("Shared state header too small.".to_owned()));
    }
    write_u64_le(buf, SHARED_STATE_MAGIC_OFFSET, SHARED_STATE_MAGIC);
    write_u64_le(buf, SHARED_STATE_VERSION_OFFSET, version);
    write_u64_le(buf, SHARED_STATE_LENGTH_OFFSET, length as u64);
    Ok(())
}

/// As [`write_header`], reporting success as a flag.
pub fn write_header_unchecked(buf: &mut [u8], version: u64, length: usize) -> (written: bool)
    ensures
        written == (old(buf)@.len() >= SHARED_STATE_HEADER_SIZE),
        written ==> final(buf)@ == spec_write_header(old(buf)@, version, length),
        !written ==> final(buf)@ == old(buf)@,
{
    if buf.len() < SHARED_STATE_HEADER_SIZE {
        return false;
    }
    write_u64_le(buf, SHARED_STATE_MAGIC_OFFSET, SHARED_STATE_MAGIC);
    write_u64_le(buf, SHARED_STATE_VERSION_OFFSET, version);
    write_u64_le(buf, SHARED_STATE_LENGTH_OFFSET, length as u64);
    true
}

/// Version and length of the header in `buf`; `None` where the buffer is too
/// short, the magic does not match, or the length exceeds `capacity`.
pub fn read_header(buf: &[u8], capacity: usize) -> (r: Option<(u64, usize)>)
    ensures
        r == spec_read_header(buf@, capacity),
{
    if buf.len() < SHARED_STATE_HEADER_SIZE {
        return None;
    }
    if read_u64_le(buf, SHARED_STATE_MAGIC_OFFSET) != SHARED_STATE_MAGIC {
        return None;
    }
    let version = read_u64_le(buf, SHARED_STATE_VERSION_OFFSET);
    let length = read_u64_le(buf, SHARED_STATE_LENGTH_OFFSET);
    if length > capacity as u64 {
        return None;
    }
    Some((version, length as usize))
}

/// The version field, whatever the magic; `None` for a buffer too short.
pub fn read_version(buf: &[u8]) -> (r: Option<u64>)
    ensures
        r == if buf@.len() >= SHARED_STATE_HEADER_SIZE {
            Some(spec_version(buf@))
        } else {
            None
        },
{
    if buf.len() < SHARED_STATE_HEADER_SIZE {
        return None;
    }
    Some(read_u64_le(buf, SHARED_STATE_VERSION_OFFSET))
}

/// The length field, whatever the magic, cut to the width of `usize`;
/// `None` for a buffer too short.
pub fn read_length(buf: &[u8]) -> (r: Option<usize>)
    ensures
        r == if buf@.len() >= SHARED_STATE_HEADER_SIZE {
            Some(spec_length(buf@) as usize)
        } else {
            None
        },
{
    if buf.len() < SHARED_STATE_HEADER_SIZE {
        return None;
    }
    Some(#[verifier::truncate] (read_u64_le(buf, SHARED_STATE_LENGTH_OFFSET) as usize))
}

} // verus!
