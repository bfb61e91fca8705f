//! Regions in anonymous shared memory, found again through a table of this
//! process alone: the descriptor has no path. The table holds the owning
//! handle of every region; what `create` and `open` hand out are secondary
//! handles, which carry no descriptor and close none.
//!
//! The mapped bytes themselves stay with the caller, who passes them to each
//! operation that reads or writes them.

use crate::error::MemioError;
use crate::region::{
    format_region, read_region, region_info, spec_payload, spec_region_formatted,
    spec_region_len, spec_region_written, write_region,
    HandleKind, SharedStateInfo,
};
use crate::shared_header::{
    spec_read_header, SHARED_STATE_HEADER_SIZE,
};
use crate::table::NameTable;
use crate::text::{chars_of, push_decimal, spec_decimal};
use vstd::prelude::*;
use vstd::string::*;

verus! {

/// The descriptor that a secondary handle carries.
pub const NO_FD: i32 = -1;

/// The name that the system knows the region `name` of process `pid` by.
pub open spec fn spec_region_name(name: Seq<char>, pid: u32, counter: u64) -> Seq<char> {
    "memio_"@ + name + "_"@ + spec_decimal(pid as nat) + "_"@ + spec_decimal(counter as nat)
}

/// Whether `name` holds the character NUL, which no name of the system can.
pub open spec fn spec_has_nul(name: Seq<char>) -> bool {
    exists|i: int| 0 <= i < name.len() && name[i] == '\0'
}

/// The name that the system knows the region `name` of process `pid` by;
/// `counter` tells apart the regions that one process creates under one
/// name.
pub fn region_name(name: &str, pid: u32, counter: u64) -> (system_name: String)
    ensures
        system_name@ == spec_region_name(name@, pid, counter),
{
    let mut system_name = "memio_".to_owned();
    system_name.append(name);
    system_name.append("_");
    push_decimal(&mut system_name, pid as u64);
    system_name.append("_");
    push_decimal(&mut system_name, counter);
    system_name
}

/// Whether `name` holds the character NUL.
pub fn has_nul(name: &str) -> (found: bool)
    ensures
        found == spec_has_nul(name@),
{
    let chars = chars_of(name);
    let mut i: usize = 0;
    while i < chars.len()
        invariant
            i <= chars.len(),
            chars@ == name@,
            forall|k: int| 0 <= k < i ==> chars@[k] != '\0',
        decreases chars.len() - i,
    {
        if chars[i] == '\0' {
            return true;
        }
        i += 1;
    }
    false
}

/// A handle on a region in anonymous shared memory.
#[derive(Debug)]
pub struct AndroidSharedMemoryRegion {
    name: String,
    fd: i32,
    size: usize,
    capacity: usize,
}

impl AndroidSharedMemoryRegion {
    /// The logical name.
    pub closed spec fn spec_name(&self) -> Seq<char> {
        self.name@
    }

    /// The descriptor, or -1 for a secondary handle.
    pub closed spec fn spec_fd(&self) -> i32 {
        self.fd
    }

    /// Bytes of the whole mapping.
    pub closed spec fn spec_total_size(&self) -> usize {
        self.size
    }

    /// Bytes that the payload area holds.
    pub closed spec fn spec_capacity(&self) -> usize {
        self.capacity
    }

    /// The mapping holds the header and the payload area.
    pub open spec fn wf(&self) -> bool {
        self.spec_total_size() == spec_region_len(self.spec_capacity())
    }

    /// Whether a handle with descriptor `fd` owns the region.
    pub open spec fn spec_kind(&self) -> HandleKind {
        if self.spec_fd() >= 0 {
            HandleKind::Owning
        } else {
            HandleKind::Secondary
        }
    }

    /// What `info` reports where the header is valid.
    pub open spec fn describes(&self, info: SharedStateInfo, version: u64, length: usize) -> bool {
        &&& info.name@ == self.spec_name()
        &&& info.path is None
        &&& info.fd == Some(self.spec_fd())
        &&& info.version == version
        &&& info.length == length
        &&& info.capacity == self.spec_capacity()
    }

    /// The descriptor to hand to other runtimes; -1 on a secondary handle.
    pub fn fd(&self) -> (fd: i32)
        ensures
            fd == self.spec_fd(),
    {
        self.fd
    }

    /// The logical name.
    pub fn name(&self) -> (name: &str)
        ensures
            name@ == self.spec_name(),
    {
        self.name.as_str()
    }

    /// Bytes of the whole mapping, header included.
    pub fn total_size(&self) -> (size: usize)
        ensures
            size == self.spec_total_size(),
    {
        self.size
    }

    /// Bytes that the payload area holds.
    pub fn capacity(&self) -> (capacity: usize)
        ensures
            capacity == self.spec_capacity(),
    {
        self.capacity
    }

    /// Whether this handle owns the region: it does where it carries the
    /// descriptor.
    pub fn kind(&self) -> (kind: HandleKind)
        ensures
            kind == self.spec_kind(),
    {
        if self.fd >= 0 {
            HandleKind::Owning
        } else {
            HandleKind::Secondary
        }
    }

    /// Whether dropping this handle unmaps the region and closes the
    /// descriptor: only the owning handle does.
    pub fn releases_on_drop(&self) -> (release: bool)
        ensures
            release == (self.spec_kind() == HandleKind::Owning),
    {
        self.fd >= 0
    }

    /// A secondary handle on the same region.
    pub fn secondary(&self) -> (handle: Self)
        ensures
            handle.spec_name() == self.spec_name(),
            handle.spec_fd() == NO_FD,
            handle.spec_total_size() == self.spec_total_size(),
            handle.spec_capacity() == self.spec_capacity(),
            handle.spec_kind() == HandleKind::Secondary,
    {
        AndroidSharedMemoryRegion {
            name: self.name.clone(),
            fd: NO_FD,
            size: self.size,
            capacity: self.capacity,
        }
    }

    /// What the handle reports of the region whose mapping is `mapped`.
    fn describe(&self, version: u64, length: usize) -> (info: SharedStateInfo)
        ensures
            self.describes(info, version, length),
    {
        SharedStateInfo {
            name: self.name.clone(),
            path: None,
            fd: Some(self.fd),
            version,
            length,
            capacity: self.capacity,
        }
    }

    /// Name, descriptor and the header's version and length.
    pub fn info(&self, mapped: &[u8]) -> (r: Result<SharedStateInfo, MemioError>)
        ensures
            match spec_read_header(mapped@, self.spec_capacity()) {
                Some((version, length)) => r matches Ok(info) && self.describes(
                    info,
                    version,
                    length,
                ),
                None => r == Err::<SharedStateInfo, MemioError>(MemioError::InvalidHeader),
            },
    {
        match region_info(mapped, self.capacity) {
            Ok((version, length)) => Ok(self.describe(version, length)),
            Err(e) => Err(e),
        }
    }

    /// Publishes `data` as `version` in the region whose mapping is
    /// `mapped`.
    pub fn write(&self, mapped: &mut [u8], version: u64, data: &[u8]) -> (r: Result<
        SharedStateInfo,
        MemioError,
    >)
        requires
            self.wf(),
            old(mapped).len() == self.spec_total_size(),
        ensures
            data.len() > self.spec_capacity() ==> final(mapped)@ == old(mapped)@ && r == Err::<
                SharedStateInfo,
                MemioError,
            >(MemioError::DataTooLarge { data_len: data.len(), capacity: self.spec_capacity() }),
            data.len() <= self.spec_capacity() ==> final(mapped)@ == spec_region_written(
                old(mapped)@,
                version,
                data@,
            ) && (r matches Ok(info) && self.describes(info, version, data.len())),
    {
        match write_region(mapped, self.capacity, version, data) {
            Ok(_) => Ok(self.describe(version, data.len())),
            Err(e) => Err(e),
        }
    }

    /// A copy of the payload of the region whose mapping is `mapped`.
    pub fn read(&self, mapped: &[u8]) -> (r: Result<Vec<u8>, MemioError>)
        requires
            self.wf(),
            mapped.len() == self.spec_total_size(),
        ensures
            match spec_read_header(mapped@, self.spec_capacity()) {
                Some((_, length)) => r matches Ok(data) && data@ == spec_payload(mapped@, length),
                None => r == Err::<Vec<u8>, MemioError>(MemioError::InvalidHeader),
            },
    {
        read_region(mapped, self.capacity)
    }
}

/// The table of this process's regions, by logical name.
pub struct AndroidSharedMemoryFactory {
    regions: NameTable<AndroidSharedMemoryRegion>,
    counter: u64,
}

impl AndroidSharedMemoryFactory {
    /// The logical names, in the order the regions were first created.
    pub closed spec fn names(&self) -> Seq<Seq<char>> {
        self.regions.names()
    }

    /// The owning handles, each at the index of its name.
    pub closed spec fn handles(&self) -> Seq<AndroidSharedMemoryRegion> {
        self.regions.values()
    }

    /// The number that the next system name carries.
    pub closed spec fn spec_counter(&self) -> u64 {
        self.counter
    }

    /// No name occurs twice, and every handle in the table is well-formed
    /// and owns its region.
    pub closed spec fn wf(&self) -> bool {
        &&& self.regions.wf()
        &&& forall|i: int|
            0 <= i < self.regions.values().len() ==> (#[trigger] self.regions.values()[i]).wf()
                && self.regions.values()[i].spec_kind() == HandleKind::Owning
    }

    /// The table holds the owning handle of every region, and no other.
    pub proof fn lemma_owning(&self, name: Seq<char>)
        requires
            self.wf(),
            self.has(name),
        ensures
            self.handle_of(name).wf(),
            self.handle_of(name).spec_kind() == HandleKind::Owning,
    {
    }

    /// Whether a region exists under `name`.
    pub open spec fn has(&self, name: Seq<char>) -> bool {
        self.names().contains(name)
    }

    /// The owning handle of the region `name`.
    pub open spec fn handle_of(&self, name: Seq<char>) -> AndroidSharedMemoryRegion {
        self.handles()[self.names().index_of(name)]
    }

    /// The counter after one more name was made.
    pub open spec fn spec_next(counter: u64) -> u64 {
        if counter == u64::MAX {
            0
        } else {
            (counter + 1) as u64
        }
    }

    /// An empty table.
    pub fn new() -> (factory: Self)
        ensures
            factory.wf(),
            factory.names().len() == 0,
            factory.spec_counter() == 0,
    {
        AndroidSharedMemoryFactory { regions: NameTable::new(), counter: 0 }
    }

    /// The first step of creating the region `name`: the name to give the
    /// system and the bytes to ask for. A capacity of zero, or one that
    /// leaves no room for the header, is refused; so is a name with a NUL
    /// in it, after a number was spent on it.
    pub fn begin_create(&mut self, name: &str, capacity: usize, pid: u32) -> (r: Result<
        (String, usize),
        MemioError,
    >)
        ensures
            final(self).names() == old(self).names(),
            final(self).handles() == old(self).handles(),
            final(self).wf() == old(self).wf(),
            capacity == 0 || capacity + SHARED_STATE_HEADER_SIZE > usize::MAX ==> {
                &&& r == Err::<(String, usize), MemioError>(MemioError::InvalidCapacity)
                &&& final(self).spec_counter() == old(self).spec_counter()
            },
            !(capacity == 0 || capacity + SHARED_STATE_HEADER_SIZE > usize::MAX) ==> {
                &&& final(self).spec_counter() == Self::spec_next(old(self).spec_counter())
                &&& spec_has_nul(name@) ==> (r matches Err(MemioError::CreateFailed(m)) && m@
                    == "Invalid name"@)
                &&& !spec_has_nul(name@) ==> (r matches Ok((system_name, total_size))
                    && system_name@ == spec_region_name(name@, pid, old(self).spec_counter())
                    && total_size == spec_region_len(capacity))
            },
    {
        if capacity == 0 || capacity > usize::MAX - SHARED_STATE_HEADER_SIZE {
            return Err(MemioError::InvalidCapacity);
        }
        let counter = self.counter;
        self.counter = self.counter.wrapping_add(1);
        if has_nul(name) {
            return Err(MemioError::CreateFailed("Invalid name".to_owned()));
        }
        Ok((region_name(name, pid, counter), SHARED_STATE_HEADER_SIZE + capacity))
    }

    /// The last step of creating the region `name`: `fd` is the descriptor
    /// of the shared memory and `mapped` its mapping. The header is zeroed
    /// and the magic stamped on it, the owning handle goes into the table,
    /// in place of one that was there under that name, and a secondary
    /// handle is returned.
    pub fn finish_create(
        &mut self,
        name: &str,
        capacity: usize,
        fd: i32,
        mapped: &mut [u8],
    ) -> (handle: AndroidSharedMemoryRegion)
        requires
            old(self).wf(),
            old(mapped).len() == spec_region_len(capacity),
            fd >= 0,
        ensures
            final(self).wf(),
            final(self).spec_counter() == old(self).spec_counter(),
            final(mapped)@ == spec_region_formatted(old(mapped)@),
            handle.wf(),
            handle.spec_name() == name@,
            handle.spec_fd() == NO_FD,
            handle.spec_kind() == HandleKind::Secondary,
            handle.spec_capacity() == capacity,
            final(self).has(name@),
            final(self).handle_of(name@).spec_name() == name@,
            final(self).handle_of(name@).spec_fd() == fd,
            final(self).handle_of(name@).spec_capacity() == capacity,
            final(self).handle_of(name@).wf(),
            old(self).has(name@) ==> {
                &&& final(self).names() == old(self).names()
                &&& final(self).handles() == old(self).handles().update(
                    old(self).names().index_of(name@),
                    final(self).handle_of(name@),
                )
            },
            !old(self).has(name@) ==> {
                &&& final(self).names() == old(self).names().push(name@)
                &&& final(self).handles() == old(self).handles().push(
                    final(self).handle_of(name@),
                )
            },
    {
        format_region(mapped);
        let owning = AndroidSharedMemoryRegion {
            name: name.to_owned(),
            fd,
            size: SHARED_STATE_HEADER_SIZE + capacity,
            capacity,
        };
        let handle = owning.secondary();
        self.regions.insert(name.to_owned(), owning);
        handle
    }

    /// A secondary handle on the region `name`.
    pub fn open(&self, name: &str) -> (r: Result<AndroidSharedMemoryRegion, MemioError>)
        requires
            self.wf(),
        ensures
            self.has(name@) ==> (r matches Ok(handle) && {
                &&& handle.wf()
                &&& handle.spec_kind() == HandleKind::Secondary
                &&& handle.spec_name() == self.handle_of(name@).spec_name()
                &&& handle.spec_fd() == NO_FD
                &&& handle.spec_total_size() == self.handle_of(name@).spec_total_size()
                &&& handle.spec_capacity() == self.handle_of(name@).spec_capacity()
            }),
            !self.has(name@) ==> (r matches Err(MemioError::NotFound(m)) && m@ == name@),
    {
        match self.regions.get(name) {
            Some(owning) => Ok(owning.secondary()),
            None => Err(MemioError::NotFound(name.to_owned())),
        }
    }

    /// The names of the regions that exist.
    pub fn list(&self) -> (names: Vec<String>)
        ensures
            names@.len() == self.names().len(),
            forall|i: int| 0 <= i < names@.len() ==> (#[trigger] names@[i])@ == self.names()[i],
    {
        self.regions.keys()
    }

    /// Whether a region exists under `name`.
    pub fn contains(&self, name: &str) -> (found: bool)
        requires
            self.wf(),
        ensures
            found == self.has(name@),
    {
        self.regions.contains_key(name)
    }

    /// Takes the region `name` out of the table and returns its owning
    /// handle, with which the caller unmaps the region and closes the
    /// descriptor.
    pub fn remove(&mut self, name: &str) -> (r: Result<AndroidSharedMemoryRegion, MemioError>)
        requires
            old(self).wf(),
        ensures
            final(self).wf(),
            final(self).spec_counter() == old(self).spec_counter(),
            !final(self).has(name@),
            old(self).has(name@) ==> {
                &&& r matches Ok(handle) && handle == old(self).handle_of(name@)
                    && handle.spec_kind() == HandleKind::Owning
                &&& final(self).names() == old(self).names().remove(
                    old(self).names().index_of(name@),
                )
                &&& final(self).handles() == old(self).handles().remove(
                    old(self).names().index_of(name@),
                )
            },
            !old(self).has(name@) ==> {
                &&& r matches Err(MemioError::NotFound(m)) && m@ == name@
                &&& final(self).names() == old(self).names()
                &&& final(self).handles() == old(self).handles()
            },
    {
        match self.regions.remove(name) {
            Some(handle) => Ok(handle),
            None => Err(MemioError::NotFound(name.to_owned())),
        }
    }

    /// The owning handle of the region `name`.
    pub fn owning(&self, name: &str) -> (r: Result<&AndroidSharedMemoryRegion, MemioError>)
        requires
            self.wf(),
        ensures
            self.has(name@) ==> (r matches Ok(handle) && *handle == self.handle_of(name@)
                && handle.wf() && handle.spec_kind() == HandleKind::Owning),
            !self.has(name@) ==> (r matches Err(MemioError::NotFound(m)) && m@ == name@),
    {
        match self.regions.get(name) {
            Some(handle) => Ok(handle),
            None => Err(MemioError::NotFound(name.to_owned())),
        }
    }
}

/// Publishes `data` as `version` in the region `name`, whose mapping is
/// `mapped`.
pub fn write_to_shared(
    factory: &AndroidSharedMemoryFactory,
    name: &str,
    version: u64,
    data: &[u8],
    mapped: &mut [u8],
) -> (r: Result<(), MemioError>)
    requires
        factory.wf(),
        factory.has(name@) ==> old(mapped).len() == factory.handle_of(name@).spec_total_size(),
    ensures
        !factory.has(name@) ==> final(mapped)@ == old(mapped)@ && (r matches Err(
            MemioError::NotFound(m),
        ) && m@ == name@),
        factory.has(name@) && data.len() > factory.handle_of(name@).spec_capacity() ==> {
            &&& final(mapped)@ == old(mapped)@
            &&& r == Err::<(), MemioError>(
                MemioError::DataTooLarge {
                    data_len: data.len(),
                    capacity: factory.handle_of(name@).spec_capacity(),
                },
            )
        },
        factory.has(name@) && data.len() <= factory.handle_of(name@).spec_capacity() ==> r is Ok
            && final(mapped)@ == spec_region_written(old(mapped)@, version, data@),
{
    match factory.owning(name) {
        Ok(region) => match region.write(mapped, version, data) {
            Ok(_) => Ok(()),
            Err(e) => Err(e),
        },
        Err(e) => Err(e),
    }
}

/// The version and the payload of the region `name`, whose mapping is
/// `mapped`.
pub fn read_from_shared(factory: &AndroidSharedMemoryFactory, name: &str, mapped: &[u8]) -> (r:
    Result<(u64, Vec<u8>), MemioError>)
    requires
        factory.wf(),
        factory.has(name@) ==> mapped.len() == factory.handle_of(name@).spec_total_size(),
    ensures
        !factory.has(name@) ==> (r matches Err(MemioError::NotFound(m)) && m@ == name@),
        factory.has(name@) ==> match spec_read_header(
            mapped@,
            factory.handle_of(name@).spec_capacity(),
        ) {
            Some((version, length)) => r matches Ok((v, data)) && v == version && data@
                == spec_payload(mapped@, length),
            None => r == Err::<(u64, Vec<u8>), MemioError>(MemioError::InvalidHeader),
        },
{
    match factory.owning(name) {
        Ok(region) => match region.info(mapped) {
            Ok(info) => match region.read(mapped) {
                Ok(data) => Ok((info.version, data)),
                Err(e) => Err(e),
            },
            Err(e) => Err(e),
        },
        Err(e) => Err(e),
    }
}

/// The descriptor of the region `name`.
pub fn get_shared_fd(factory: &AndroidSharedMemoryFactory, name: &str) -> (r: Result<
    i32,
    MemioError,
>)
    requires
        factory.wf(),
    ensures
        factory.has(name@) ==> r == Ok::<i32, MemioError>(factory.handle_of(name@).spec_fd()),
        !factory.has(name@) ==> (r matches Err(MemioError::NotFound(m)) && m@ == name@),
{
    match factory.owning(name) {
        Ok(region) => Ok(region.fd()),
        Err(e) => Err(e),
    }
}

/// The size of the whole mapping of the region `name`, which a caller
/// pairs with the mapping's address.
pub fn get_shared_ptr(factory: &AndroidSharedMemoryFactory, name: &str) -> (r: Result<
    usize,
    MemioError,
>)
    requires
        factory.wf(),
    ensures
        factory.has(name@) ==> r == Ok::<usize, MemioError>(
            factory.handle_of(name@).spec_total_size(),
        ),
        !factory.has(name@) ==> (r matches Err(MemioError::NotFound(m)) && m@ == name@),
{
    match factory.owning(name) {
        Ok(region) => Ok(region.total_size()),
        Err(e) => Err(e),
    }
}

/// The names of the regions that exist.
pub fn list_shared_regions(factory: &AndroidSharedMemoryFactory) -> (names: Vec<String>)
    ensures
        names@.len() == factory.names().len(),
        forall|i: int| 0 <= i < names@.len() ==> (#[trigger] names@[i])@ == factory.names()[i],
{
    factory.list()
}

/// Whether a region exists under `name`.
pub fn has_shared_region(factory: &AndroidSharedMemoryFactory, name: &str) -> (found: bool)
    requires
        factory.wf(),
    ensures
        found == factory.has(name@),
{
    factory.contains(name)
}

} // verus!
