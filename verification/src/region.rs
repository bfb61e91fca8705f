//! The contract that every region and every factory of regions meets, and the
//! write and read protocol on the bytes of a mapped region.

use crate::error::MemioError;
use crate::shared_header::{
    lemma_header_roundtrip, read_header, spec_read_header, spec_valid_magic, spec_write_header,
    write_header_unchecked, SHARED_STATE_HEADER_SIZE,
};
use vstd::prelude::*;
use vstd::slice::{slice_subrange, slice_to_vec};

verus! {

/// What a region reports of itself.
#[derive(Debug, Clone, PartialEq, Eq)]
pub struct SharedStateInfo {
    /// The logical name the region was created under.
    pub name: String,
    /// Where the backing file lies, for a file-backed region.
    pub path: Option<String>,
    /// The descriptor that other runtimes can map, where there is one.
    pub fd: Option<i32>,
    pub version: u64,
    /// Bytes of the payload that are meaningful.
    pub length: usize,
    /// Bytes that the payload area can hold.
    pub capacity: usize,
}

impl Default for SharedStateInfo {
    fn default() -> (info: SharedStateInfo)
        ensures
            info.name@ == Seq::<char>::empty(),
            info.path is None,
            info.fd is None,
            info.version == 0,
            info.length == 0,
            info.capacity == 0,
    {
        SharedStateInfo {
            name: String::new(),
            path: None,
            fd: None,
            version: 0,
            length: 0,
            capacity: 0,
        }
    }
}

/// Whether a handle is the one that releases the region's backing.
#[derive(Debug, Clone, Copy, PartialEq, Eq, Structural)]
pub enum HandleKind {
    /// The handle that created the region: it unmaps and releases.
    Owning,
    /// A further handle on a region that exists: it only lets go of its
    /// own view.
    Secondary,
}

/// A named byte range with a header and a payload area.
///
/// What a method returns is the implementation's business: callers here are
/// verified for every outcome.
pub trait SharedMemoryRegion {
    /// Bytes that the payload area can hold.
    fn capacity(&self) -> usize;

    /// Name, backing and the header's current version and length.
    fn info(&self) -> Result<SharedStateInfo, MemioError>;

    /// Publishes `data` as the payload of `version`.
    fn write(&mut self, version: u64, data: &[u8]) -> Result<SharedStateInfo, MemioError>;

    /// A copy of the current payload.
    fn read(&self) -> Result<Vec<u8>, MemioError>;

    /// The payload area as it lies in memory, all of it.
    fn data(&self) -> &[u8];
}

/// Creates regions and finds them again by name.
pub trait SharedMemoryFactory {
    type Region: SharedMemoryRegion;

    /// A new region of `capacity` payload bytes under `name`.
    fn create(&self, name: &str, capacity: usize) -> Result<Self::Region, MemioError>;

    /// A further handle on the region that was created under `name`.
    fn open(&self, name: &str) -> Result<Self::Region, MemioError>;

    /// The names of the regions that exist.
    fn list(&self) -> Vec<String>;

    /// Whether a region was created under `name` and is still there.
    fn contains(&self, name: &str) -> bool;

    /// Forgets the region and releases its backing.
    fn remove(&self, name: &str) -> Result<(), MemioError>;
}

/// `<[T]>::copy_from_slice` makes the target equal to the source; it panics
/// where their lengths differ.
pub assume_specification<Elem: Copy>[ <[Elem]>::copy_from_slice ](
    target: &mut [Elem],
    source: &[Elem],
)
    requires
        old(target)@.len() == source@.len(),
    ensures
        final(target)@ == source@,
;

/// `std::sync::atomic::fence` with release ordering: the stores before it
/// stay ahead of the stores after it, for any thread or process that reads
/// the later ones with an acquire load. Nothing is claimed of it.
#[verifier::external_body]
fn release_fence() {
    std::sync::atomic::fence(std::sync::atomic::Ordering::Release);
}

/// The bytes a mapped region of `capacity` payload bytes must have.
pub open spec fn spec_region_len(capacity: usize) -> int {
    SHARED_STATE_HEADER_SIZE + capacity
}

/// `buf` with `data` placed at the start of the payload area.
pub open spec fn spec_store_payload(buf: Seq<u8>, data: Seq<u8>) -> Seq<u8> {
    Seq::new(
        buf.len(),
        |i: int|
            if SHARED_STATE_HEADER_SIZE <= i < SHARED_STATE_HEADER_SIZE + data.len() {
                data[i - SHARED_STATE_HEADER_SIZE]
            } else {
                buf[i]
            },
    )
}

/// The bytes of a region after `data` was published as `version`.
pub open spec fn spec_region_written(buf: Seq<u8>, version: u64, data: Seq<u8>) -> Seq<u8> {
    spec_write_header(spec_store_payload(buf, data), version, data.len() as usize)
}

/// The first `length` bytes of the payload area.
pub open spec fn spec_payload(buf: Seq<u8>, length: usize) -> Seq<u8> {
    buf.subrange(SHARED_STATE_HEADER_SIZE as int, SHARED_STATE_HEADER_SIZE + length)
}

/// The bytes of a fresh region: a zeroed header with the magic stamped on
/// it, in front of the payload area as it was.
pub open spec fn spec_region_formatted(buf: Seq<u8>) -> Seq<u8> {
    spec_write_header(
        Seq::new(
            buf.len(),
            |i: int|
                if i < SHARED_STATE_HEADER_SIZE {
                    0u8
                } else {
                    buf[i]
                },
        ),
        0,
        0,
    )
}

/// Makes `buf` a region that nothing was written to yet.
pub fn format_region(buf: &mut [u8])
    requires
        old(buf).len() >= SHARED_STATE_HEADER_SIZE,
    ensures
        final(buf)@ == spec_region_formatted(old(buf)@),
{
    let mut i: usize = 0;
    while i < SHARED_STATE_HEADER_SIZE
        invariant
            i <= SHARED_STATE_HEADER_SIZE,
            buf.len() == old(buf).len(),
            buf.len() >= SHARED_STATE_HEADER_SIZE,
            forall|k: int| 0 <= k < i ==> buf@[k] == 0u8,
            forall|k: int| i <= k < buf.len() ==> buf@[k] == old(buf)@[k],
        decreases SHARED_STATE_HEADER_SIZE - i,
    {
        buf[i] = 0;
        i += 1;
    }
    write_header_unchecked(buf, 0, 0);
}

/// Publishes `data` as the payload of `version`: the payload first, then a
/// release fence, then the header. Data larger than `capacity` is refused
/// and nothing is written.
pub fn write_region(buf: &mut [u8], capacity: usize, version: u64, data: &[u8]) -> (r: Result<
    (),
    MemioError,
>)
    requires
        old(buf).len() >= spec_region_len(capacity),
    ensures
        data.len() <= capacity ==> r is Ok && final(buf)@ == spec_region_written(
            old(buf)@,
            version,
            data@,
        ),
        data.len() > capacity ==> final(buf)@ == old(buf)@ && r == Err::<(), MemioError>(
            MemioError::DataTooLarge { data_len: data.len(), capacity },
        ),
{
    if data.len() > capacity {
        return Err(MemioError::DataTooLarge { data_len: data.len(), capacity });
    }
    let (header, rest) = buf.split_at_mut(SHARED_STATE_HEADER_SIZE);
    let (payload, tail) = rest.split_at_mut(data.len());
    payload.copy_from_slice(data);
    release_fence();
    write_header_unchecked(buf, version, data.len());
    Ok(())
}

/// Version and length of the region in `buf`.
pub fn region_info(buf: &[u8], capacity: usize) -> (r: Result<(u64, usize), MemioError>)
    ensures
        match spec_read_header(buf@, capacity) {
            Some(header) => r == Ok::<(u64, usize), MemioError>(header),
            None => r == Err::<(u64, usize), MemioError>(MemioError::InvalidHeader),
        },
{
    match read_header(buf, capacity) {
        Some(header) => Ok(header),
        None => Err(MemioError::InvalidHeader),
    }
}

/// A copy of the payload of the region in `buf`: the header is read first,
/// then as many bytes as it gives.
pub fn read_region(buf: &[u8], capacity: usize) -> (r: Result<Vec<u8>, MemioError>)
    requires
        buf.len() >= spec_region_len(capacity),
    ensures
        match spec_read_header(buf@, capacity) {
            Some((_, length)) => r matches Ok(data) && data@ == spec_payload(buf@, length),
            None => r == Err::<Vec<u8>, MemioError>(MemioError::InvalidHeader),
        },
{
    match read_header(buf, capacity) {
        Some((_, length)) => Ok(
            slice_to_vec(
                slice_subrange(buf, SHARED_STATE_HEADER_SIZE, SHARED_STATE_HEADER_SIZE + length),
            ),
        ),
        None => Err(MemioError::InvalidHeader),
    }
}

/// What was written is what is read: after `data` was published as
/// `version`, any reader whose capacity admits the length finds the magic,
/// that version, that length and exactly those bytes.
pub proof fn lemma_write_then_read(
    buf: Seq<u8>,
    version: u64,
    data: Seq<u8>,
    reader_capacity: usize,
)
    requires
        buf.len() >= SHARED_STATE_HEADER_SIZE + data.len(),
        data.len() <= reader_capacity,
    ensures
        spec_region_written(buf, version, data).len() == buf.len(),
        spec_valid_magic(spec_region_written(buf, version, data)),
        spec_read_header(spec_region_written(buf, version, data), reader_capacity) == Some(
            (version, data.len() as usize),
        ),
        spec_payload(spec_region_written(buf, version, data), data.len() as usize) == data,
{
    let stored = spec_store_payload(buf, data);
    let length = data.len() as usize;
    lemma_header_roundtrip(stored, version, length, reader_capacity);
}

/// A fresh region reads as version zero with an empty payload.
pub proof fn lemma_formatted_is_empty(buf: Seq<u8>, capacity: usize)
    requires
        buf.len() >= SHARED_STATE_HEADER_SIZE,
    ensures
        spec_region_formatted(buf).len() == buf.len(),
        spec_read_header(spec_region_formatted(buf), capacity) == Some((0u64, 0usize)),
        forall|i: int|
            24 <= i < SHARED_STATE_HEADER_SIZE ==> #[trigger] spec_region_formatted(buf)[i] == 0u8,
        forall|i: int|
            SHARED_STATE_HEADER_SIZE <= i < buf.len() ==> #[trigger] spec_region_formatted(buf)[i]
                == buf[i],
{
    let zeroed = Seq::new(
        buf.len(),
        |i: int|
            if i < SHARED_STATE_HEADER_SIZE {
                0u8
            } else {
                buf[i]
            },
    );
    lemma_header_roundtrip(zeroed, 0, 0, capacity);
}

} // verus!
