//! Regions in named file mappings. A table of this process gives each
//! logical name its mapping name and capacity; a second table holds the
//! regions that are kept alive from call to call, which lets a buffer
//! outlive the command that created it.
//!
//! The mapped bytes themselves stay with the caller, who passes them to each
//! operation that reads or writes them.

use crate::error::MemioError;
use crate::region::{
    format_region, read_region, region_info, spec_payload, spec_region_formatted,
    spec_region_len, spec_region_written, write_region,
    HandleKind, SharedStateInfo,
};
use crate::shared_header::{
    spec_read_header, spec_valid_magic, validate_magic, SHARED_STATE_HEADER_SIZE,
};
use crate::table::NameTable;
use crate::text::{push_decimal, spec_decimal};
use vstd::prelude::*;
use vstd::string::*;

verus! {

/// How the name of every mapping begins.
pub const MAPPING_PREFIX: &'static str = "Local\\MemioTauri_";

/// The name of the mapping of the region `name` of process `pid`.
pub open spec fn spec_mapping_name(name: Seq<char>, pid: u32, counter: u64) -> Seq<char> {
    "Local\\MemioTauri_"@ + name + "_"@ + spec_decimal(pid as nat) + "_"@ + spec_decimal(
        counter as nat,
    )
}

/// The name of the mapping of the region `name` of process `pid`; `counter`
/// tells apart the mappings that one process creates under one name.
pub fn mapping_name(name: &str, pid: u32, counter: u64) -> (mapping: String)
    ensures
        mapping@ == spec_mapping_name(name@, pid, counter),
{
    let mut mapping = MAPPING_PREFIX.to_owned();
    mapping.append(name);
    mapping.append("_");
    push_decimal(&mut mapping, pid as u64);
    mapping.append("_");
    push_decimal(&mut mapping, counter);
    mapping
}

/// The size of a mapping as the system takes it: the upper and the lower
/// 32 bits.
pub fn size_words(total_size: usize) -> (words: (u32, u32))
    ensures
        words.0 as int * 0x1_0000_0000 + words.1 as int == total_size as int,
{
    let size = total_size as u64;
    let high = size >> 32;
    let low = size & 0xffff_ffff;
    assert(high <= 0xffff_ffff && low <= 0xffff_ffff && high * 0x1_0000_0000 + low == size)
        by (bit_vector)
        requires
            high == size >> 32,
            low == size & 0xffff_ffff,
    ;
    (high as u32, low as u32)
}

/// A handle on a region in a named file mapping.
#[derive(Debug)]
pub struct WindowsSharedMemoryRegion {
    name: String,
    mapping_name: String,
    total_size: usize,
    capacity: usize,
    owns_handle: bool,
}

impl WindowsSharedMemoryRegion {
    /// The logical name.
    pub closed spec fn spec_name(&self) -> Seq<char> {
        self.name@
    }

    /// The name of the mapping.
    pub closed spec fn spec_mapping_name(&self) -> Seq<char> {
        self.mapping_name@
    }

    /// Bytes of the whole mapping.
    pub closed spec fn spec_total_size(&self) -> usize {
        self.total_size
    }

    /// Bytes that the payload area holds.
    pub closed spec fn spec_capacity(&self) -> usize {
        self.capacity
    }

    /// Whether the handle created the mapping.
    pub closed spec fn spec_owns_handle(&self) -> bool {
        self.owns_handle
    }

    /// The mapping holds the header and the payload area.
    pub open spec fn wf(&self) -> bool {
        self.spec_total_size() == spec_region_len(self.spec_capacity())
    }

    /// What `info` reports where the header is valid.
    pub open spec fn describes(&self, info: SharedStateInfo, version: u64, length: usize) -> bool {
        &&& info.name@ == self.spec_name()
        &&& info.path is None
        &&& info.fd is None
        &&& info.version == version
        &&& info.length == length
        &&& info.capacity == self.spec_capacity()
    }

    /// The logical name.
    pub fn name(&self) -> (name: &str)
        ensures
            name@ == self.spec_name(),
    {
        self.name.as_str()
    }

    /// The name of the mapping.
    pub fn mapping_name(&self) -> (name: &str)
        ensures
            name@ == self.spec_mapping_name(),
    {
        self.mapping_name.as_str()
    }

    /// Bytes of the whole mapping, header included.
    pub fn total_size(&self) -> (size: usize)
        ensures
            size == self.spec_total_size(),
    {
        self.total_size
    }

    /// Bytes that the payload area holds.
    pub fn capacity(&self) -> (capacity: usize)
        ensures
            capacity == self.spec_capacity(),
    {
        self.capacity
    }

    /// Whether the handle created the mapping or opened it.
    pub fn kind(&self) -> (kind: HandleKind)
        ensures
            kind == if self.spec_owns_handle() {
                HandleKind::Owning
            } else {
                HandleKind::Secondary
            },
    {
        if self.owns_handle {
            HandleKind::Owning
        } else {
            HandleKind::Secondary
        }
    }

    /// Whether dropping this handle takes the region out of the tables:
    /// every handle closes its own view, only the owning one unregisters.
    pub fn unregisters_on_drop(&self) -> (unregister: bool)
        ensures
            unregister == self.spec_owns_handle(),
    {
        self.owns_handle
    }

    fn describe(&self, version: u64, length: usize) -> (info: SharedStateInfo)
        ensures
            self.describes(info, version, length),
    {
        SharedStateInfo {
            name: self.name.clone(),
            path: None,
            fd: None,
            version,
            length,
            capacity: self.capacity,
        }
    }

    /// Name and the header's version and length.
    pub fn info(&self, mapped: &[u8]) -> (r: Result<SharedStateInfo, MemioError>)
        ensures
            match spec_read_header(mapped@, self.spec_capacity()) {
                Some((version, length)) => r matches Ok(info) && self.describes(
                    info,
                    version,
                    length,
                ),
                None => r == Err::<SharedStateInfo, MemioError>(MemioError::InvalidHeader),
            },
    {
        match region_info(mapped, self.capacity) {
            Ok((version, length)) => Ok(self.describe(version, length)),
            Err(e) => Err(e),
        }
    }

    /// Publishes `data` as `version` in the region whose view is `mapped`.
    pub fn write(&self, mapped: &mut [u8], version: u64, data: &[u8]) -> (r: Result<
        SharedStateInfo,
        MemioError,
    >)
        requires
            self.wf(),
            old(mapped).len() == self.spec_total_size(),
        ensures
            data.len() > self.spec_capacity() ==> final(mapped)@ == old(mapped)@ && r == Err::<
                SharedStateInfo,
                MemioError,
            >(MemioError::DataTooLarge { data_len: data.len(), capacity: self.spec_capacity() }),
            data.len() <= self.spec_capacity() ==> final(mapped)@ == spec_region_written(
                old(mapped)@,
                version,
                data@,
            ) && (r matches Ok(info) && self.describes(info, version, data.len())),
    {
        match write_region(mapped, self.capacity, version, data) {
            Ok(_) => Ok(self.describe(version, data.len())),
            Err(e) => Err(e),
        }
    }

    /// A copy of the payload of the region whose view is `mapped`.
    pub fn read(&self, mapped: &[u8]) -> (r: Result<Vec<u8>, MemioError>)
        requires
            self.wf(),
            mapped.len() == self.spec_total_size(),
        ensures
            match spec_read_header(mapped@, self.spec_capacity()) {
                Some((_, length)) => r matches Ok(data) && data@ == spec_payload(mapped@, length),
                None => r == Err::<Vec<u8>, MemioError>(MemioError::InvalidHeader),
            },
    {
        read_region(mapped, self.capacity)
    }
}

/// The tables of this process's regions, by logical name.
pub struct WindowsSharedMemoryFactory {
    registry: NameTable<(String, usize)>,
    active: NameTable<usize>,
    counter: u64,
}

impl WindowsSharedMemoryFactory {
    /// The logical names of the regions, in the order they were first
    /// registered.
    pub closed spec fn names(&self) -> Seq<Seq<char>> {
        self.registry.names()
    }

    /// The mapping name of each region, at the index of its logical name.
    pub closed spec fn mappings(&self) -> Seq<Seq<char>> {
        Seq::new(self.registry.values().len(), |i: int| self.registry.values()[i].0@)
    }

    /// The capacity of each region, at the index of its logical name.
    pub closed spec fn capacities(&self) -> Seq<usize> {
        Seq::new(self.registry.values().len(), |i: int| self.registry.values()[i].1)
    }

    /// The logical names of the regions that are kept alive.
    pub closed spec fn active_names(&self) -> Seq<Seq<char>> {
        self.active.names()
    }

    /// The capacity of each region that is kept alive, at the index of its
    /// name.
    pub closed spec fn active_capacities(&self) -> Seq<usize> {
        self.active.values()
    }

    /// The number that the next mapping name carries.
    pub closed spec fn spec_counter(&self) -> u64 {
        self.counter
    }

    /// No name occurs twice in either table, and every capacity leaves
    /// room for the header.
    pub closed spec fn wf(&self) -> bool {
        &&& self.registry.wf()
        &&& self.active.wf()
        &&& forall|i: int|
            0 <= i < self.registry.values().len() ==> (#[trigger] self.registry.values()[i]).1
                + SHARED_STATE_HEADER_SIZE <= usize::MAX
        &&& forall|i: int|
            0 <= i < self.active.values().len() ==> (#[trigger] self.active.values()[i])
                + SHARED_STATE_HEADER_SIZE <= usize::MAX
    }

    /// Whether a region is registered under `name`.
    pub open spec fn has(&self, name: Seq<char>) -> bool {
        self.names().contains(name)
    }

    /// Whether the region `name` is kept alive.
    pub open spec fn is_active(&self, name: Seq<char>) -> bool {
        self.active_names().contains(name)
    }

    /// The mapping name registered for `name`.
    pub open spec fn mapping_of(&self, name: Seq<char>) -> Seq<char> {
        self.mappings()[self.names().index_of(name)]
    }

    /// The capacity registered for `name`.
    pub open spec fn capacity_of(&self, name: Seq<char>) -> usize {
        self.capacities()[self.names().index_of(name)]
    }

    /// The capacity of the region `name` that is kept alive.
    pub open spec fn active_capacity_of(&self, name: Seq<char>) -> usize {
        self.active_capacities()[self.active_names().index_of(name)]
    }

    /// The capacity that reads and writes by name go by: that of the region
    /// kept alive, else the registered one.
    pub open spec fn known_capacity(&self, name: Seq<char>) -> Option<usize> {
        if self.is_active(name) {
            Some(self.active_capacity_of(name))
        } else if self.has(name) {
            Some(self.capacity_of(name))
        } else {
            None
        }
    }

    /// The capacities leave room for the header.
    pub proof fn lemma_capacity(&self, name: Seq<char>)
        requires
            self.wf(),
        ensures
            self.known_capacity(name) matches Some(capacity) ==> capacity
                + SHARED_STATE_HEADER_SIZE <= usize::MAX,
    {
        if self.is_active(name) {
            assert(self.active.values()[self.active_names().index_of(name)]
                + SHARED_STATE_HEADER_SIZE <= usize::MAX);
        } else if self.has(name) {
            assert(self.registry.values()[self.names().index_of(name)].1
                + SHARED_STATE_HEADER_SIZE <= usize::MAX);
        }
    }

    /// Empty tables.
    pub fn new() -> (factory: Self)
        ensures
            factory.wf(),
            factory.names().len() == 0,
            factory.mappings().len() == 0,
            factory.capacities().len() == 0,
            factory.active_names().len() == 0,
            factory.active_capacities().len() == 0,
            factory.spec_counter() == 0,
    {
        WindowsSharedMemoryFactory {
            registry: NameTable::new(),
            active: NameTable::new(),
            counter: 0,
        }
    }

    /// The first step of creating the region `name`: the name of the
    /// mapping to create and its size. A capacity of zero, or one that
    /// leaves no room for the header, is refused.
    pub fn begin_create(&mut self, name: &str, capacity: usize, pid: u32) -> (r: Result<
        (String, usize),
        MemioError,
    >)
        ensures
            final(self).names() == old(self).names(),
            final(self).mappings() == old(self).mappings(),
            final(self).capacities() == old(self).capacities(),
            final(self).active_names() == old(self).active_names(),
            final(self).active_capacities() == old(self).active_capacities(),
            final(self).wf() == old(self).wf(),
            capacity == 0 || capacity + SHARED_STATE_HEADER_SIZE > usize::MAX ==> {
                &&& r == Err::<(String, usize), MemioError>(MemioError::InvalidCapacity)
                &&& final(self).spec_counter() == old(self).spec_counter()
            },
            !(capacity == 0 || capacity + SHARED_STATE_HEADER_SIZE > usize::MAX) ==> {
                &&& final(self).spec_counter() == if old(self).spec_counter() == u64::MAX {
                    0
                } else {
                    (old(self).spec_counter() + 1) as u64
                }
                &&& r matches Ok((mapping, total_size)) && mapping@ == spec_mapping_name(
                    name@,
                    pid,
                    old(self).spec_counter(),
                ) && total_size == spec_region_len(capacity)
            },
    {
        if capacity == 0 || capacity > usize::MAX - SHARED_STATE_HEADER_SIZE {
            return Err(MemioError::InvalidCapacity);
        }
        let counter = self.counter;
        self.counter = self.counter.wrapping_add(1);
        Ok((mapping_name(name, pid, counter), SHARED_STATE_HEADER_SIZE + capacity))
    }

    /// The last step of creating the region `name`: `mapped` is the view of
    /// the mapping `mapping`. The header is zeroed and the magic stamped on
    /// it, the region is registered, and its owning handle returned.
    pub fn finish_create(
        &mut self,
        name: &str,
        mapping: String,
        capacity: usize,
        mapped: &mut [u8],
    ) -> (handle: WindowsSharedMemoryRegion)
        requires
            old(self).wf(),
            old(mapped).len() == spec_region_len(capacity),
        ensures
            final(self).wf(),
            final(self).spec_counter() == old(self).spec_counter(),
            final(self).active_names() == old(self).active_names(),
            final(self).active_capacities() == old(self).active_capacities(),
            final(mapped)@ == spec_region_formatted(old(mapped)@),
            handle.wf(),
            handle.spec_name() == name@,
            handle.spec_mapping_name() == mapping@,
            handle.spec_capacity() == capacity,
            handle.spec_owns_handle(),
            final(self).has(name@),
            final(self).mapping_of(name@) == mapping@,
            final(self).capacity_of(name@) == capacity,
            old(self).has(name@) ==> {
                &&& final(self).names() == old(self).names()
                &&& final(self).mappings() == old(self).mappings().update(
                    old(self).names().index_of(name@),
                    mapping@,
                )
                &&& final(self).capacities() == old(self).capacities().update(
                    old(self).names().index_of(name@),
                    capacity,
                )
            },
            !old(self).has(name@) ==> {
                &&& final(self).names() == old(self).names().push(name@)
                &&& final(self).mappings() == old(self).mappings().push(mapping@)
                &&& final(self).capacities() == old(self).capacities().push(capacity)
            },
    {
        format_region(mapped);
        let handle = WindowsSharedMemoryRegion {
            name: name.to_owned(),
            mapping_name: mapping.clone(),
            total_size: SHARED_STATE_HEADER_SIZE + capacity,
            capacity,
            owns_handle: true,
        };
        self.registry.insert(name.to_owned(), (mapping, capacity));
        handle
    }

    /// The first step of opening the region `name`: the name of the mapping
    /// to open and the size of the view to map.
    pub fn begin_open(&self, name: &str) -> (r: Result<(String, usize), MemioError>)
        requires
            self.wf(),
        ensures
            self.has(name@) ==> (r matches Ok((mapping, total_size)) && mapping@ == self.mapping_of(
                name@,
            ) && total_size == spec_region_len(self.capacity_of(name@))),
            !self.has(name@) ==> (r matches Err(MemioError::NotFound(m)) && m@ == name@),
    {
        match self.registry.get(name) {
            Some(entry) => {
                assert(self.registry.values()[self.registry.index_of(name@)].1
                    + SHARED_STATE_HEADER_SIZE <= usize::MAX);
                Ok((entry.0.clone(), SHARED_STATE_HEADER_SIZE + entry.1))
            },
            None => Err(MemioError::NotFound(name.to_owned())),
        }
    }

    /// The last step of opening a region: `mapped` is the view of the
    /// mapping `mapping`, which holds `capacity` bytes behind the header. A
    /// view that does not start with the magic is refused; otherwise a
    /// secondary handle is returned.
    pub fn finish_open(name: &str, mapping: String, capacity: usize, mapped: &[u8]) -> (r: Result<
        WindowsSharedMemoryRegion,
        MemioError,
    >)
        requires
            mapped.len() == spec_region_len(capacity),
        ensures
            spec_valid_magic(mapped@) ==> (r matches Ok(handle) && {
                &&& handle.wf()
                &&& handle.spec_name() == name@
                &&& handle.spec_mapping_name() == mapping@
                &&& handle.spec_capacity() == capacity
                &&& !handle.spec_owns_handle()
            }),
            !spec_valid_magic(mapped@) ==> (r matches Err(MemioError::InvalidHeader)),
    {
        if !validate_magic(mapped) {
            return Err(MemioError::InvalidHeader);
        }
        Ok(
            WindowsSharedMemoryRegion {
                name: name.to_owned(),
                mapping_name: mapping,
                total_size: SHARED_STATE_HEADER_SIZE + capacity,
                capacity,
                owns_handle: false,
            },
        )
    }

    /// The names of the regions that are registered.
    pub fn list(&self) -> (names: Vec<String>)
        ensures
            names@.len() == self.names().len(),
            forall|i: int| 0 <= i < names@.len() ==> (#[trigger] names@[i])@ == self.names()[i],
    {
        self.registry.keys()
    }

    /// Whether a region is registered under `name`.
    pub fn contains(&self, name: &str) -> (found: bool)
        requires
            self.wf(),
        ensures
            found == self.has(name@),
    {
        self.registry.contains_key(name)
    }

    /// Takes `name` out of both tables. A name that is in neither is
    /// reported as not found.
    pub fn remove(&mut self, name: &str) -> (r: Result<(), MemioError>)
        requires
            old(self).wf(),
        ensures
            final(self).wf(),
            final(self).spec_counter() == old(self).spec_counter(),
            !final(self).has(name@),
            !final(self).is_active(name@),
            old(self).has(name@) || old(self).is_active(name@) ==> r is Ok,
            !old(self).has(name@) && !old(self).is_active(name@) ==> {
                &&& r matches Err(MemioError::NotFound(m)) && m@ == name@
                &&& final(self).names() == old(self).names()
                &&& final(self).mappings() == old(self).mappings()
                &&& final(self).capacities() == old(self).capacities()
                &&& final(self).active_names() == old(self).active_names()
                &&& final(self).active_capacities() == old(self).active_capacities()
            },
            forall|other: Seq<char>|
                other != name@ ==> (#[trigger] final(self).has(other)) == old(self).has(other),
            forall|other: Seq<char>|
                other != name@ ==> (#[trigger] final(self).is_active(other))
                    == old(self).is_active(other),
    {
        let registered = self.registry.remove(name);
        let kept = self.active.remove(name);
        proof {
            assert forall|other: Seq<char>| other != name@ implies (#[trigger] self.has(other))
                == old(self).has(other) by {
                lemma_remove_keeps(old(self).names(), self.names(), name@, other);
            }
            assert forall|other: Seq<char>| other != name@ implies (#[trigger] self.is_active(
                other,
            )) == old(self).is_active(other) by {
                lemma_remove_keeps(old(self).active_names(), self.active_names(), name@, other);
            }
        }
        if registered.is_none() && kept.is_none() {
            Err(MemioError::NotFound(name.to_owned()))
        } else {
            Ok(())
        }
    }

    /// What dropping `handle` does to the tables: the owning handle takes
    /// its region out of both, a secondary handle leaves them alone.
    pub fn release(&mut self, handle: &WindowsSharedMemoryRegion)
        requires
            old(self).wf(),
        ensures
            final(self).wf(),
            final(self).spec_counter() == old(self).spec_counter(),
            handle.spec_owns_handle() ==> {
                &&& !final(self).has(handle.spec_name())
                &&& !final(self).is_active(handle.spec_name())
                &&& forall|other: Seq<char>|
                    other != handle.spec_name() ==> (#[trigger] final(self).has(other))
                        == old(self).has(other)
                &&& forall|other: Seq<char>|
                    other != handle.spec_name() ==> (#[trigger] final(self).is_active(other))
                        == old(self).is_active(other)
            },
            !handle.spec_owns_handle() ==> {
                &&& final(self).names() == old(self).names()
                &&& final(self).mappings() == old(self).mappings()
                &&& final(self).capacities() == old(self).capacities()
                &&& final(self).active_names() == old(self).active_names()
                &&& final(self).active_capacities() == old(self).active_capacities()
            },
    {
        if handle.owns_handle {
            let _ = self.remove(handle.name.as_str());
        }
    }

    /// Keeps the region of `handle` alive under its name until it is
    /// removed.
    pub fn keep_alive(&mut self, handle: &WindowsSharedMemoryRegion)
        requires
            old(self).wf(),
            handle.wf(),
        ensures
            final(self).wf(),
            final(self).spec_counter() == old(self).spec_counter(),
            final(self).names() == old(self).names(),
            final(self).mappings() == old(self).mappings(),
            final(self).capacities() == old(self).capacities(),
            final(self).is_active(handle.spec_name()),
            final(self).active_capacity_of(handle.spec_name()) == handle.spec_capacity(),
            old(self).is_active(handle.spec_name()) ==> {
                &&& final(self).active_names() == old(self).active_names()
                &&& final(self).active_capacities() == old(self).active_capacities().update(
                    old(self).active_names().index_of(handle.spec_name()),
                    handle.spec_capacity(),
                )
            },
            !old(self).is_active(handle.spec_name()) ==> {
                &&& final(self).active_names() == old(self).active_names().push(
                    handle.spec_name(),
                )
                &&& final(self).active_capacities() == old(self).active_capacities().push(
                    handle.spec_capacity(),
                )
            },
    {
        self.active.insert(handle.name.clone(), handle.capacity);
    }

    /// The capacity that reads and writes by name go by.
    pub fn capacity_by_name(&self, name: &str) -> (r: Option<usize>)
        requires
            self.wf(),
        ensures
            r == self.known_capacity(name@),
    {
        match self.active.get(name) {
            Some(capacity) => Some(*capacity),
            None => match self.registry.get(name) {
                Some(entry) => Some(entry.1),
                None => None,
            },
        }
    }
}

/// Taking one name out of a list without repetition leaves every other
/// name where it was found or missed.
pub proof fn lemma_remove_keeps(
    before: Seq<Seq<char>>,
    after: Seq<Seq<char>>,
    name: Seq<char>,
    other: Seq<char>,
)
    requires
        other != name,
        after == before || (before.contains(name) && after == before.remove(
            before.index_of(name),
        )),
    ensures
        after.contains(other) == before.contains(other),
{
    if after != before {
        let i = before.index_of(name);
        if before.contains(other) {
            let k = before.index_of(other);
            if k < i {
                assert(after[k] == other);
            } else {
                assert(after[k - 1] == other);
            }
        }
        if after.contains(other) {
            let k = after.index_of(other);
            if k < i {
                assert(before[k] == other);
            } else {
                assert(before[k + 1] == other);
            }
        }
    }
}

/// The names of the regions that are registered.
pub fn list_shared_regions(factory: &WindowsSharedMemoryFactory) -> (names: Vec<String>)
    ensures
        names@.len() == factory.names().len(),
        forall|i: int| 0 <= i < names@.len() ==> (#[trigger] names@[i])@ == factory.names()[i],
{
    factory.list()
}

/// Keeps a region that was just created alive, or reports in words why it
/// could not be created.
pub fn create_shared_region(
    factory: &mut WindowsSharedMemoryFactory,
    created: Result<WindowsSharedMemoryRegion, MemioError>,
) -> (r: Result<(), String>)
    requires
        old(factory).wf(),
        created matches Ok(handle) ==> handle.wf(),
    ensures
        final(factory).wf(),
        final(factory).names() == old(factory).names(),
        match created {
            Ok(handle) => {
                &&& r is Ok
                &&& final(factory).is_active(handle.spec_name())
                &&& final(factory).active_capacity_of(handle.spec_name()) == handle.spec_capacity()
            },
            Err(e) => {
                &&& r matches Err(words) && words@ == e.spec_message()
                &&& final(factory).active_names() == old(factory).active_names()
            },
        },
{
    match created {
        Ok(handle) => {
            factory.keep_alive(&handle);
            Ok(())
        },
        Err(e) => Err(e.to_string()),
    }
}

/// Whether a region is registered under `name`.
pub fn has_shared_region(factory: &WindowsSharedMemoryFactory, name: &str) -> (found: bool)
    requires
        factory.wf(),
    ensures
        found == factory.has(name@),
{
    factory.contains(name)
}

/// The capacity of the region `name`: that of the region kept alive, else
/// the registered one.
pub fn get_shared_size(factory: &WindowsSharedMemoryFactory, name: &str) -> (r: Result<
    usize,
    String,
>)
    requires
        factory.wf(),
    ensures
        match factory.known_capacity(name@) {
            Some(capacity) => r == Ok::<usize, String>(capacity),
            None => r matches Err(words) && words@ == "Region '"@ + name@ + "' not found"@,
        },
{
    match factory.capacity_by_name(name) {
        Some(capacity) => Ok(capacity),
        None => {
            let mut words = "Region '".to_owned();
            words.append(name);
            words.append("' not found");
            Err(words)
        },
    }
}

/// Where the payload area of the region `name` begins in its view, for a
/// region that is kept alive.
pub fn get_shared_pointer(factory: &WindowsSharedMemoryFactory, name: &str) -> (r: Result<
    usize,
    String,
>)
    requires
        factory.wf(),
    ensures
        factory.is_active(name@) ==> r == Ok::<usize, String>(SHARED_STATE_HEADER_SIZE),
        !factory.is_active(name@) ==> (r matches Err(words) && words@ == "Region '"@ + name@
            + "' not found in active regions"@),
{
    if factory.active.contains_key(name) {
        Ok(SHARED_STATE_HEADER_SIZE)
    } else {
        let mut words = "Region '".to_owned();
        words.append(name);
        words.append("' not found in active regions");
        Err(words)
    }
}

/// The version and the payload of the region `name`, whose view is
/// `mapped`.
pub fn read_from_shared(factory: &WindowsSharedMemoryFactory, name: &str, mapped: &[u8]) -> (r:
    Result<(u64, Vec<u8>), String>)
    requires
        factory.wf(),
        factory.known_capacity(name@) matches Some(capacity) ==> mapped.len() == spec_region_len(
            capacity,
        ),
    ensures
        match factory.known_capacity(name@) {
            Some(capacity) => match spec_read_header(mapped@, capacity) {
                Some((version, length)) => r matches Ok((v, data)) && v == version && data@
                    == spec_payload(mapped@, length),
                None => r matches Err(words) && words@ == "Invalid header"@,
            },
            None => r matches Err(words) && words@ == "Region not found: "@ + name@,
        },
{
    match factory.capacity_by_name(name) {
        Some(capacity) => match region_info(mapped, capacity) {
            Ok((version, _)) => match read_region(mapped, capacity) {
                Ok(data) => Ok((version, data)),
                Err(e) => Err(e.to_string()),
            },
            Err(e) => Err(e.to_string()),
        },
        None => Err(MemioError::NotFound(name.to_owned()).to_string()),
    }
}

/// The words with which a write to the region `name` is refused for its
/// size: a region that is kept alive has its own.
pub open spec fn spec_too_large(active: bool, len: usize, capacity: usize) -> Seq<char> {
    if active {
        "Data too large: "@ + spec_decimal(len as nat) + " > "@ + spec_decimal(capacity as nat)
    } else {
        (MemioError::DataTooLarge { data_len: len, capacity }).spec_message()
    }
}

/// Publishes `data` as `version` in the region `name`, whose view is
/// `mapped`.
pub fn write_to_shared(
    factory: &WindowsSharedMemoryFactory,
    name: &str,
    version: u64,
    data: &[u8],
    mapped: &mut [u8],
) -> (r: Result<(), String>)
    requires
        factory.wf(),
        factory.known_capacity(name@) matches Some(capacity) ==> old(mapped).len()
            == spec_region_len(capacity),
    ensures
        match factory.known_capacity(name@) {
            Some(capacity) => if data.len() <= capacity {
                r is Ok && final(mapped)@ == spec_region_written(old(mapped)@, version, data@)
            } else {
                final(mapped)@ == old(mapped)@ && (r matches Err(words) && words@ == spec_too_large(
                    factory.is_active(name@),
                    data.len(),
                    capacity,
                ))
            },
            None => final(mapped)@ == old(mapped)@ && (r matches Err(words) && words@
                == "Region not found: "@ + name@),
        },
{
    let active = factory.active.contains_key(name);
    match factory.capacity_by_name(name) {
        Some(capacity) => {
            if active && data.len() > capacity {
                let mut words = "Data too large: ".to_owned();
                push_decimal(&mut words, data.len() as u64);
                words.append(" > ");
                push_decimal(&mut words, capacity as u64);
                return Err(words);
            }
            match write_region(mapped, capacity, version, data) {
                Ok(_) => Ok(()),
                Err(e) => Err(e.to_string()),
            }
        },
        None => Err(MemioError::NotFound(name.to_owned()).to_string()),
    }
}

/// The version of the region `name`, whose view is `mapped`.
pub fn get_version(factory: &WindowsSharedMemoryFactory, name: &str, mapped: &[u8]) -> (r: Result<
    u64,
    String,
>)
    requires
        factory.wf(),
    ensures
        match factory.known_capacity(name@) {
            Some(capacity) => match spec_read_header(mapped@, capacity) {
                Some((version, _)) => r == Ok::<u64, String>(version),
                None => r matches Err(words) && words@ == "Invalid header"@,
            },
            None => r matches Err(words) && words@ == "Region not found: "@ + name@,
        },
{
    match factory.capacity_by_name(name) {
        Some(capacity) => match region_info(mapped, capacity) {
            Ok((version, _)) => Ok(version),
            Err(e) => Err(e.to_string()),
        },
        None => Err(MemioError::NotFound(name.to_owned()).to_string()),
    }
}

} // verus!
