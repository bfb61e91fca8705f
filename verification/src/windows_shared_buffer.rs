//! Buffers that a web view shares with its page, by name: which exist, how
//! large each is, and whether a read or a write lies inside one.
//!
//! The bytes of a buffer stay with the caller, who passes them to each
//! operation that reads or writes them.

use crate::table::NameTable;
use crate::text::{push_decimal, spec_decimal};
use vstd::prelude::*;
use vstd::string::*;

verus! {

/// The sizes of the buffers, by name.
pub struct SharedBufferTable {
    sizes: NameTable<u64>,
}

/// The words for a buffer that is not there.
pub open spec fn spec_not_found(name: Seq<char>) -> Seq<char> {
    "Buffer '"@ + name + "' not found"@
}

/// The words for an access of `length` bytes at `offset` that leaves a
/// buffer of `size` bytes; `what` is `Read` or `Write`.
pub open spec fn spec_out_of_bounds(
    what: Seq<char>,
    offset: usize,
    length: usize,
    size: u64,
) -> Seq<char> {
    what + " out of bounds: offset "@ + spec_decimal(offset as nat) + " + length "@ + spec_decimal(
        length as nat,
    ) + " > size "@ + spec_decimal(size as nat)
}

fn not_found(name: &str) -> (words: String)
    ensures
        words@ == spec_not_found(name@),
{
    let mut words = "Buffer '".to_owned();
    words.append(name);
    words.append("' not found");
    words
}

fn out_of_bounds(what: &str, offset: usize, length: usize, size: u64) -> (words: String)
    ensures
        words@ == spec_out_of_bounds(what@, offset, length, size),
{
    let mut words = what.to_owned();
    words.append(" out of bounds: offset ");
    push_decimal(&mut words, offset as u64);
    words.append(" + length ");
    push_decimal(&mut words, length as u64);
    words.append(" > size ");
    push_decimal(&mut words, size);
    words
}

/// Whether `length` bytes at `offset` lie inside `size` bytes.
fn inside(offset: usize, length: usize, size: u64) -> (fits: bool)
    ensures
        fits == (offset + length <= size),
{
    match (offset as u64).checked_add(length as u64) {
        Some(end) => end <= size,
        None => false,
    }
}

impl SharedBufferTable {
    /// The names of the buffers, in the order they were first created.
    pub closed spec fn names(&self) -> Seq<Seq<char>> {
        self.sizes.names()
    }

    /// The size of each buffer, at the index of its name.
    pub closed spec fn sizes(&self) -> Seq<u64> {
        self.sizes.values()
    }

    /// No name occurs twice.
    pub closed spec fn wf(&self) -> bool {
        self.sizes.wf()
    }

    /// Whether a buffer exists under `name`.
    pub open spec fn has(&self, name: Seq<char>) -> bool {
        self.names().contains(name)
    }

    /// The size of the buffer `name`.
    pub open spec fn size_of(&self, name: Seq<char>) -> u64 {
        self.sizes()[self.names().index_of(name)]
    }

    /// An empty table.
    pub fn new() -> (table: Self)
        ensures
            table.wf(),
            table.names().len() == 0,
    {
        SharedBufferTable { sizes: NameTable::new() }
    }

    /// Takes note of a buffer of `size` bytes that was created under
    /// `name`, in place of one that was there under that name.
    pub fn create_shared_buffer(&mut self, name: &str, size: u64) -> (registered: u64)
        requires
            old(self).wf(),
        ensures
            final(self).wf(),
            registered == size,
            final(self).has(name@),
            final(self).size_of(name@) == size,
            old(self).has(name@) ==> {
                &&& final(self).names() == old(self).names()
                &&& final(self).sizes() == old(self).sizes().update(
                    old(self).names().index_of(name@),
                    size,
                )
            },
            !old(self).has(name@) ==> {
                &&& final(self).names() == old(self).names().push(name@)
                &&& final(self).sizes() == old(self).sizes().push(size)
            },
    {
        self.sizes.insert(name.to_owned(), size);
        size
    }

    /// A copy of `length` bytes at `offset` of the buffer `name`, whose
    /// bytes are `buffer`.
    pub fn read_from_buffer(&self, name: &str, offset: usize, length: usize, buffer: &[u8]) -> (r:
        Result<Vec<u8>, String>)
        requires
            self.wf(),
            self.has(name@) ==> buffer.len() == self.size_of(name@),
        ensures
            !self.has(name@) ==> (r matches Err(words) && words@ == spec_not_found(name@)),
            self.has(name@) && offset + length > self.size_of(name@) ==> (r matches Err(words)
                && words@ == spec_out_of_bounds("Read"@, offset, length, self.size_of(name@))),
            self.has(name@) && offset + length <= self.size_of(name@) ==> (r matches Ok(data)
                && data@ == buffer@.subrange(offset as int, offset + length)),
    {
        match self.sizes.get(name) {
            Some(size) => {
                if !inside(offset, length, *size) {
                    return Err(out_of_bounds("Read", offset, length, *size));
                }
                Ok(
                    vstd::slice::slice_to_vec(
                        vstd::slice::slice_subrange(buffer, offset, offset + length),
                    ),
                )
            },
            None => Err(not_found(name)),
        }
    }

    /// Copies `data` to `offset` of the buffer `name`, whose bytes are
    /// `buffer`.
    pub fn write_to_buffer(&self, name: &str, offset: usize, data: &[u8], buffer: &mut [u8]) -> (r:
        Result<(), String>)
        requires
            self.wf(),
            self.has(name@) ==> old(buffer).len() == self.size_of(name@),
        ensures
            !self.has(name@) ==> {
                &&& final(buffer)@ == old(buffer)@
                &&& r matches Err(words) && words@ == spec_not_found(name@)
            },
            self.has(name@) && offset + data.len() > self.size_of(name@) ==> {
                &&& final(buffer)@ == old(buffer)@
                &&& r matches Err(words) && words@ == spec_out_of_bounds(
                    "Write"@,
                    offset,
                    data.len(),
                    self.size_of(name@),
                )
            },
            self.has(name@) && offset + data.len() <= self.size_of(name@) ==> {
                &&& r is Ok
                &&& final(buffer)@ == old(buffer)@.subrange(0, offset as int) + data@
                    + old(buffer)@.subrange(offset + data.len(), old(buffer)@.len() as int)
            },
    {
        match self.sizes.get(name) {
            Some(size) => {
                if !inside(offset, data.len(), *size) {
                    return Err(out_of_bounds("Write", offset, data.len(), *size));
                }
                let (head, rest) = buffer.split_at_mut(offset);
                let (target, tail) = rest.split_at_mut(data.len());
                target.copy_from_slice(data);
                Ok(())
            },
            None => Err(not_found(name)),
        }
    }

    /// The size of the buffer `name`, which a caller pairs with the
    /// buffer's address.
    pub fn get_buffer_ptr(&self, name: &str) -> (r: Result<u64, String>)
        requires
            self.wf(),
        ensures
            self.has(name@) ==> r == Ok::<u64, String>(self.size_of(name@)),
            !self.has(name@) ==> (r matches Err(words) && words@ == spec_not_found(name@)),
    {
        match self.sizes.get(name) {
            Some(size) => Ok(*size),
            None => Err(not_found(name)),
        }
    }

    /// Forgets the buffer `name`, which the caller then closes.
    pub fn close_buffer(&mut self, name: &str) -> (r: Result<(), String>)
        requires
            old(self).wf(),
        ensures
            final(self).wf(),
            !final(self).has(name@),
            old(self).has(name@) ==> {
                &&& r is Ok
                &&& final(self).names() == old(self).names().remove(
                    old(self).names().index_of(name@),
                )
                &&& final(self).sizes() == old(self).sizes().remove(
                    old(self).names().index_of(name@),
                )
            },
            !old(self).has(name@) ==> {
                &&& r matches Err(words) && words@ == spec_not_found(name@)
                &&& final(self).names() == old(self).names()
                &&& final(self).sizes() == old(self).sizes()
            },
    {
        match self.sizes.remove(name) {
            Some(_) => Ok(()),
            None => Err(not_found(name)),
        }
    }

    /// The names of the buffers.
    pub fn list_buffers(&self) -> (names: Vec<String>)
        ensures
            names@.len() == self.names().len(),
            forall|i: int| 0 <= i < names@.len() ==> (#[trigger] names@[i])@ == self.names()[i],
    {
        self.sizes.keys()
    }

    /// Whether a buffer exists under `name`.
    pub fn has_buffer(&self, name: &str) -> (found: bool)
        requires
            self.wf(),
        ensures
            found == self.has(name@),
    {
        self.sizes.contains_key(name)
    }
}

} // verus!
