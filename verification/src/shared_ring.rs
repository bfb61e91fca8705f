//! A ring of bytes for one writer and one reader: where a transfer of bytes
//! lies in the ring, and where head and tail stand after it. Head and tail
//! count all bytes ever written and read, modulo 2^64.

use crate::text::{push_decimal, spec_decimal};
use vstd::prelude::*;
use vstd::string::*;

verus! {

/// The sentinel in the first eight bytes of a ring's file.
pub const RING_MAGIC: u64 = 0x5455_5242_4F52_494E;

/// Bytes taken by the ring's header: magic, capacity, head and tail.
pub const RING_HEADER_SIZE: usize = 32;

/// Where the ring's bytes begin in its file.
pub const RING_DATA_OFFSET: usize = 64;

/// One transfer into or out of the ring.
#[derive(Debug, Clone, Copy, PartialEq, Eq, Structural)]
pub struct RingTransfer {
    /// Bytes that are transferred.
    pub count: usize,
    /// Where in the ring the transfer begins.
    pub position: usize,
    /// Bytes transferred from `position` on.
    pub first: usize,
    /// Bytes transferred from the ring's start on, after it wrapped.
    pub second: usize,
    /// Where head, for a write, or tail, for a read, stands afterwards.
    pub next: u64,
}

/// The bytes in the ring that were written and not yet read.
pub open spec fn spec_used(head: u64, tail: u64) -> nat {
    if head >= tail {
        (head - tail) as nat
    } else {
        (head + 0x1_0000_0000_0000_0000 - tail) as nat
    }
}

/// `counter` advanced by `count`, modulo 2^64.
pub open spec fn spec_advance(counter: u64, count: usize) -> u64 {
    if counter + count > u64::MAX {
        (counter + count - 0x1_0000_0000_0000_0000) as u64
    } else {
        (counter + count) as u64
    }
}

/// How many of `len` bytes a write transfers: as many as are free.
pub open spec fn spec_write_count(head: u64, tail: u64, capacity: usize, len: usize) -> nat {
    if spec_used(head, tail) >= capacity {
        0
    } else if len <= capacity - spec_used(head, tail) {
        len as nat
    } else {
        (capacity - spec_used(head, tail)) as nat
    }
}

/// How many bytes a read into `len` bytes transfers: as many as are there.
pub open spec fn spec_read_count(head: u64, tail: u64, len: usize) -> nat {
    if len <= spec_used(head, tail) {
        len as nat
    } else {
        spec_used(head, tail)
    }
}

/// The transfer of `count` bytes that begins where `counter` stands.
pub open spec fn spec_transfer(counter: u64, capacity: usize, count: usize) -> RingTransfer {
    let position = (counter % (capacity as u64)) as usize;
    let first = if count <= capacity - position {
        count
    } else {
        (capacity - position) as usize
    };
    RingTransfer {
        count,
        position,
        first,
        second: (count - first) as usize,
        next: spec_advance(counter, count),
    }
}

/// The name of the file of ring number `nonce` of process `pid`.
pub fn ring_file_name(pid: u32, nonce: u64) -> (file: String)
    ensures
        file@ == "memio_ring_"@ + spec_decimal(pid as nat) + "_"@ + spec_decimal(nonce as nat)
            + ".bin"@,
{
    let mut file = "memio_ring_".to_owned();
    push_decimal(&mut file, pid as u64);
    file.append("_");
    push_decimal(&mut file, nonce);
    file.append(".bin");
    file
}

/// The bytes in the ring that were written and not yet read.
pub fn used(head: u64, tail: u64) -> (n: u64)
    ensures
        n == spec_used(head, tail),
{
    head.wrapping_sub(tail)
}

/// The transfer of `count` bytes that begins where `counter` stands. The
/// first part ends at the ring's end at the latest, and the two parts make
/// up the whole.
fn transfer(counter: u64, capacity: usize, count: usize) -> (t: RingTransfer)
    requires
        capacity > 0,
    ensures
        t == spec_transfer(counter, capacity, count),
        t.position < capacity,
        t.position + t.first <= capacity,
        t.first + t.second == count,
{
    let position = (counter % (capacity as u64)) as usize;
    let room = capacity - position;
    let first = if count <= room {
        count
    } else {
        room
    };
    RingTransfer {
        count,
        position,
        first,
        second: count - first,
        next: counter.wrapping_add(count as u64),
    }
}

/// Where a write of `len` bytes goes: behind head, as far as the ring is
/// free. Nothing that is still to be read is written over.
pub fn plan_write(head: u64, tail: u64, capacity: usize, len: usize) -> (t: RingTransfer)
    requires
        capacity > 0,
    ensures
        t.count == spec_write_count(head, tail, capacity, len),
        t == spec_transfer(head, capacity, t.count),
        t.count <= len,
        t.count + spec_used(head, tail) <= capacity || t.count == 0,
        t.position < capacity,
        t.position + t.first <= capacity,
        t.first + t.second == t.count,
{
    let used = used(head, tail);
    let count = if used >= capacity as u64 {
        0
    } else {
        let free = capacity - used as usize;
        if len <= free {
            len
        } else {
            free
        }
    };
    transfer(head, capacity, count)
}

/// Where a read into `len` bytes comes from: behind tail, as far as bytes
/// are there.
pub fn plan_read(head: u64, tail: u64, capacity: usize, len: usize) -> (t: RingTransfer)
    requires
        capacity > 0,
    ensures
        t.count == spec_read_count(head, tail, len),
        t == spec_transfer(tail, capacity, t.count),
        t.count <= len,
        t.count <= spec_used(head, tail),
        t.position < capacity,
        t.position + t.first <= capacity,
        t.first + t.second == t.count,
{
    let available = used(head, tail);
    let count = if len as u64 <= available {
        len
    } else {
        available as usize
    };
    transfer(tail, capacity, count)
}

/// What is written and then read is gone from the ring: after a transfer of
/// `count` bytes at both ends, as many bytes are in the ring as before.
pub proof fn lemma_advance_both(head: u64, tail: u64, count: usize)
    ensures
        spec_used(spec_advance(head, count), spec_advance(tail, count)) == spec_used(head, tail),
{
}

/// A write adds what it transfers to the ring, and a read takes it away.
pub proof fn lemma_used_after(head: u64, tail: u64, capacity: usize, len: usize)
    requires
        spec_used(head, tail) <= capacity,
    ensures
        spec_used(
            spec_advance(head, spec_write_count(head, tail, capacity, len) as usize),
            tail,
        ) == spec_used(head, tail) + spec_write_count(head, tail, capacity, len),
        spec_used(head, spec_advance(tail, spec_read_count(head, tail, len) as usize))
            == spec_used(head, tail) - spec_read_count(head, tail, len),
{
}

} // verus!
