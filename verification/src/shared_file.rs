//! A copy of a file in shared memory that is made anew only when the file
//! has changed.

use crate::error::MemioResult;
use crate::text::{push_decimal, spec_decimal};
use vstd::prelude::*;
use vstd::string::*;

verus! {

/// Where the copy lies, and size and modification time of the file when it
/// was last copied.
pub struct SharedFileCache {
    dest_path: String,
    last_size: u64,
    last_mtime: u128,
}

/// The path of copy number `id` of process `pid`.
pub open spec fn spec_dest_path(pid: u32, id: u64) -> Seq<char> {
    "/dev/shm/memio_shared_"@ + spec_decimal(pid as nat) + "_"@ + spec_decimal(id as nat)
        + ".bin"@
}

impl SharedFileCache {
    /// The path of the copy.
    pub closed spec fn spec_path(&self) -> Seq<char> {
        self.dest_path@
    }

    /// Size and modification time of the file when it was last copied; both
    /// zero before the first copy.
    pub closed spec fn spec_last(&self) -> (u64, u128) {
        (self.last_size, self.last_mtime)
    }

    /// Whether a file of `size` bytes, modified at `mtime`, is to be copied.
    pub open spec fn spec_changed(&self, size: u64, mtime: u128) -> bool {
        self.spec_last() != (size, mtime)
    }

    /// A cache for copy number `id` of process `pid`, with nothing copied
    /// yet.
    pub fn new(pid: u32, id: u64) -> (r: MemioResult<Self>)
        ensures
            r matches Ok(cache) && cache.spec_path() == spec_dest_path(pid, id)
                && cache.spec_last() == (0u64, 0u128),
    {
        let mut path = "/dev/shm/memio_shared_".to_owned();
        push_decimal(&mut path, pid as u64);
        path.append("_");
        push_decimal(&mut path, id);
        path.append(".bin");
        Ok(SharedFileCache { dest_path: path, last_size: 0, last_mtime: 0 })
    }

    /// Whether the source is to be copied: it is where its size or its
    /// modification time differs from that of the last copy.
    pub fn needs_copy(&self, size: u64, mtime: u128) -> (changed: bool)
        ensures
            changed == self.spec_changed(size, mtime),
    {
        size != self.last_size || mtime != self.last_mtime
    }

    /// Takes note of what a copy returned: where the source had changed and
    /// the copy succeeded, its size and time are remembered. Returns the
    /// path of the copy, or the error of the copy.
    pub fn copy_if_changed(&mut self, size: u64, mtime: u128, copied: MemioResult<()>) -> (r:
        MemioResult<String>)
        ensures
            final(self).spec_path() == old(self).spec_path(),
            !old(self).spec_changed(size, mtime) ==> {
                &&& final(self).spec_last() == old(self).spec_last()
                &&& r matches Ok(path) && path@ == old(self).spec_path()
            },
            old(self).spec_changed(size, mtime) ==> match copied {
                Ok(_) => final(self).spec_last() == (size, mtime) && (r matches Ok(path) && path@
                    == old(self).spec_path()),
                Err(e) => final(self).spec_last() == old(self).spec_last() && r == Err::<
                    String,
                    crate::error::MemioError,
                >(e),
            },
    {
        if self.needs_copy(size, mtime) {
            match copied {
                Ok(_) => {
                    self.last_size = size;
                    self.last_mtime = mtime;
                },
                Err(e) => {
                    return Err(e);
                },
            }
        }
        Ok(self.dest_path.clone())
    }

    /// The path of the copy.
    pub fn dest_path(&self) -> (path: &str)
        ensures
            path@ == self.spec_path(),
    {
        self.dest_path.as_str()
    }
}

} // verus!
