//! Regions backed by memory-mapped files: how the files are named and found
//! again, which of them a dead process left behind, and the region over a
//! mapping.

use crate::error::MemioError;
use crate::region::{
    format_region, lemma_write_then_read, read_region, region_info, spec_payload,
    spec_region_formatted, spec_region_len, spec_region_written, write_region, HandleKind,
    SharedMemoryRegion, SharedStateInfo,
};
use crate::shared_header::{
    spec_read_header, spec_valid_magic, validate_magic, SHARED_STATE_HEADER_SIZE,
};
use crate::table::NameTable;
use crate::text::{
    chars_of, ends_with, lemma_decimal_has_no, lemma_parse_decimal, lemma_split_has_separator,
    lemma_split_last, parse_u32, push_decimal, spec_decimal, spec_ends_with, spec_parse_u32,
    spec_split, spec_starts_with, split, starts_with,
};
use vstd::prelude::*;
use vstd::string::*;

verus! {

/// A writable memory map of `memmap2`.
#[verifier::external_type_specification]
#[verifier::external_body]
pub struct ExMmapMut(memmap2::MmapMut);

/// The error of an operation of the operating system.
#[verifier::external_type_specification]
#[verifier::external_body]
pub struct ExIoError(std::io::Error);

/// The number of bytes that a map spans.
pub uninterp spec fn mapped_len(map: memmap2::MmapMut) -> nat;

/// The bytes that the last write through a map left in its range. What the
/// range holds at another time is no function of the map: other handles, in
/// this process or another, write to the same file.
pub uninterp spec fn mapped_bytes(map: memmap2::MmapMut) -> Seq<u8>;

/// `MmapMut::deref`: the mapped range as a slice, from its first byte to
/// its last. What the bytes are is for the reader to find out.
#[verifier::external_body]
fn mapped(map: &memmap2::MmapMut) -> (bytes: &[u8])
    ensures
        bytes@.len() == mapped_len(*map),
{
    &map[..]
}

/// `MmapMut::deref_mut`: the mapped range as a slice to write through. The
/// range keeps its length, and what the slice holds when it is given back
/// is what the write left.
#[verifier::external_body]
fn mapped_mut(map: &mut memmap2::MmapMut) -> (bytes: &mut [u8])
    ensures
        bytes@.len() == mapped_len(*old(map)),
        final(bytes)@.len() == mapped_len(*final(map)),
        mapped_len(*final(map)) == mapped_len(*old(map)),
        mapped_bytes(*final(map)) == final(bytes)@,
{
    &mut map[..]
}

/// `MmapMut::flush` asks the system to carry the changes of the map over to
/// the file; whether it succeeds is the system's to say.
pub assume_specification[ memmap2::MmapMut::flush ](
    map: &memmap2::MmapMut,
) -> std::io::Result<()>;

/// The directory that region files lie in unless another is given.
pub const SHM_BASE_PATH: &'static str = "/dev/shm";

/// How the name of every file of this library begins.
pub const FILE_PREFIX: &'static str = "memio_";

/// The name of the file that backs the region `name` of process `pid`.
pub open spec fn spec_region_file_name(name: Seq<char>, pid: u32, nonce: u64) -> Seq<char> {
    "memio_"@ + name + "_"@ + spec_decimal(pid as nat) + "_"@ + spec_decimal(nonce as nat)
        + "_0.bin"@
}

/// `file` inside the directory `base`.
pub open spec fn spec_join(base: Seq<char>, file: Seq<char>) -> Seq<char> {
    if base.len() == 0 {
        file
    } else if base.last() == '/' {
        base + file
    } else {
        base + "/"@ + file
    }
}

/// The name of the manifest of process `pid`.
pub open spec fn spec_manifest_file_name(pid: u32) -> Seq<char> {
    "memio_shared_registry_"@ + spec_decimal(pid as nat) + ".txt"@
}

/// The process that the file name says it belongs to: the number between
/// prefix and extension of a manifest, or the third field from the end of a
/// region file's name.
pub open spec fn spec_extract_pid(filename: Seq<char>) -> Option<u32> {
    if spec_starts_with(filename, "memio_shared_registry_"@) && spec_ends_with(
        filename,
        ".txt"@,
    ) {
        spec_parse_u32(filename.subrange(22, filename.len() - 4))
    } else if spec_ends_with(filename, ".bin"@) {
        let parts = spec_split(filename, '_');
        if parts.len() >= 5 {
            spec_parse_u32(parts[parts.len() - 3])
        } else {
            None
        }
    } else {
        None
    }
}

/// The process whose death makes the file an orphan: files that are not of
/// this library have none.
pub open spec fn spec_candidate_pid(filename: Seq<char>) -> Option<u32> {
    if spec_starts_with(filename, "memio_"@) {
        spec_extract_pid(filename)
    } else {
        None
    }
}

/// The sweep finds in the name of a region's file the process that the
/// factory wrote into it, whatever the region is called.
pub proof fn lemma_region_file_names_its_process(name: Seq<char>, pid: u32, nonce: u64)
    ensures
        spec_extract_pid(spec_region_file_name(name, pid, nonce)) == Some(pid),
        spec_candidate_pid(spec_region_file_name(name, pid, nonce)) == Some(pid),
{
    reveal_strlit("memio_");
    reveal_strlit("_");
    reveal_strlit("_0.bin");
    reveal_strlit(".bin");
    reveal_strlit(".txt");
    let file = spec_region_file_name(name, pid, nonce);
    let stem = "memio_"@ + name;
    let pid_text = spec_decimal(pid as nat);
    let nonce_text = spec_decimal(nonce as nat);
    let last = seq!['0', '.', 'b', 'i', 'n'];
    let upto_pid = stem.push('_') + pid_text;
    let upto_nonce = upto_pid.push('_') + nonce_text;
    assert(file =~= upto_nonce.push('_') + last);
    assert(!last.contains('_'));
    lemma_decimal_has_no(pid as nat, '_');
    lemma_decimal_has_no(nonce as nat, '_');
    lemma_split_last(upto_nonce, '_', last);
    lemma_split_last(upto_pid, '_', nonce_text);
    lemma_split_last(stem, '_', pid_text);
    assert(spec_split(stem, '_').len() >= 2) by {
        lemma_split_has_separator(stem, '_', 5);
    }
    lemma_parse_decimal(pid);
    assert(spec_ends_with(file, ".bin"@)) by {
        assert(file.subrange(file.len() - 4, file.len() as int) =~= ".bin"@);
    }
    assert(!spec_ends_with(file, ".txt"@)) by {
        if spec_ends_with(file, ".txt"@) {
            assert(file.subrange(file.len() - 4, file.len() as int)[3] == 't');
        }
    }
    assert(spec_starts_with(file, "memio_"@)) by {
        assert(file.subrange(0, 6) =~= "memio_"@);
    }
}

/// The sweep finds in the name of a manifest the process that wrote it.
pub proof fn lemma_manifest_names_its_process(pid: u32)
    ensures
        spec_extract_pid(spec_manifest_file_name(pid)) == Some(pid),
        spec_candidate_pid(spec_manifest_file_name(pid)) == Some(pid),
{
    reveal_strlit("memio_");
    reveal_strlit(".txt");
    reveal_strlit("memio_shared_registry_");
    let file = spec_manifest_file_name(pid);
    let pid_text = spec_decimal(pid as nat);
    assert(file.subrange(0, 22) =~= "memio_shared_registry_"@);
    assert(file.subrange(file.len() - 4, file.len() as int) =~= ".txt"@);
    assert(file.subrange(22, file.len() - 4) =~= pid_text);
    assert(file.subrange(0, 6) =~= "memio_"@);
    lemma_parse_decimal(pid);
}

/// The name of the file that backs the region `name` of process `pid`;
/// `nonce` tells apart the regions that one process creates under one name.
pub fn region_file_name(name: &str, pid: u32, nonce: u64) -> (file: String)
    ensures
        file@ == spec_region_file_name(name@, pid, nonce),
{
    let mut file = FILE_PREFIX.to_owned();
    file.append(name);
    file.append("_");
    push_decimal(&mut file, pid as u64);
    file.append("_");
    push_decimal(&mut file, nonce);
    file.append("_0.bin");
    file
}

/// The name of the manifest of process `pid`.
pub fn manifest_file_name(pid: u32) -> (file: String)
    ensures
        file@ == spec_manifest_file_name(pid),
{
    let mut file = "memio_shared_registry_".to_owned();
    push_decimal(&mut file, pid as u64);
    file.append(".txt");
    file
}

/// The path of `file` inside the directory `base`.
pub fn join_path(base: &str, file: &str) -> (path: String)
    ensures
        path@ == spec_join(base@, file@),
{
    let base_chars = chars_of(base);
    let mut path = base.to_owned();
    if base_chars.len() > 0 && base_chars[base_chars.len() - 1] != '/' {
        path.append("/");
    }
    path.append(file);
    path
}

/// The directory that the system shows for a running process `pid`.
pub fn process_dir(pid: u32) -> (path: String)
    ensures
        path@ == "/proc/"@ + spec_decimal(pid as nat),
{
    let mut path = "/proc/".to_owned();
    push_decimal(&mut path, pid as u64);
    path
}

/// The process that `filename` says it belongs to.
pub fn extract_pid_from_filename(filename: &str) -> (r: Option<u32>)
    ensures
        r == spec_extract_pid(filename@),
{
    let chars = chars_of(filename);
    let prefix = chars_of("memio_shared_registry_");
    let txt = chars_of(".txt");
    let bin = chars_of(".bin");
    proof {
        reveal_strlit("memio_shared_registry_");
        reveal_strlit(".txt");
    }
    if starts_with(chars.as_slice(), prefix.as_slice()) && ends_with(
        chars.as_slice(),
        txt.as_slice(),
    ) {
        proof {
            if chars@.len() < 26 {
                let k = chars@.len() - 4;
                assert(chars@.subrange(0, 22)[k] == prefix@[k]);
                assert(chars@.subrange(chars@.len() - 4, chars@.len() as int)[0] == '.');
            }
        }
        return parse_u32(vstd::slice::slice_subrange(chars.as_slice(), 22, chars.len() - 4));
    }
    if ends_with(chars.as_slice(), bin.as_slice()) {
        let parts = split(chars.as_slice(), '_');
        if parts.len() >= 5 {
            return parse_u32(parts[parts.len() - 3].as_slice());
        }
    }
    None
}

/// The process whose death makes `filename` an orphan, for the files of
/// this library.
pub fn candidate_pid(filename: &str) -> (r: Option<u32>)
    ensures
        r == spec_candidate_pid(filename@),
{
    let chars = chars_of(filename);
    let prefix = chars_of(FILE_PREFIX);
    if starts_with(chars.as_slice(), prefix.as_slice()) {
        extract_pid_from_filename(filename)
    } else {
        None
    }
}

/// Whether a file is to be removed, given what `running` said of its
/// process: a file that names a process is removed when that process is
/// gone, and no other file is.
pub open spec fn spec_orphan<F: Fn(u32) -> bool>(
    filename: Seq<char>,
    running: F,
    remove: bool,
) -> bool {
    match spec_candidate_pid(filename) {
        Some(pid) => call_ensures(running, (pid,), !remove),
        None => !remove,
    }
}

/// Picks the files that dead processes left behind. The result tells for
/// each of `filenames`, in order, whether it is to be removed; `running`
/// is asked once for every file that names a process.
pub fn cleanup_orphaned_files<F: Fn(u32) -> bool>(filenames: &Vec<String>, running: F) -> (remove:
    Vec<bool>)
    requires
        forall|pid: u32| call_requires(running, (pid,)),
    ensures
        remove@.len() == filenames@.len(),
        forall|i: int|
            0 <= i < filenames@.len() ==> spec_orphan(
                (#[trigger] filenames@[i])@,
                running,
                remove@[i],
            ),
{
    let mut remove: Vec<bool> = Vec::new();
    let mut i: usize = 0;
    while i < filenames.len()
        invariant
            i <= filenames@.len(),
            remove@.len() == i,
            forall|pid: u32| call_requires(running, (pid,)),
            forall|m: int|
                0 <= m < i ==> spec_orphan((#[trigger] filenames@[m])@, running, remove@[m]),
        decreases filenames@.len() - i,
    {
        let orphan = match candidate_pid(filenames[i].as_str()) {
            Some(pid) => !running(pid),
            None => false,
        };
        remove.push(orphan);
        i += 1;
    }
    remove
}

/// A region over a memory-mapped file.
pub struct LinuxSharedMemoryRegion {
    name: String,
    path: String,
    mmap: memmap2::MmapMut,
    capacity: usize,
    kind: HandleKind,
}

impl LinuxSharedMemoryRegion {
    /// The number of bytes of the mapping: header and payload area.
    pub closed spec fn spec_len(&self) -> nat {
        mapped_len(self.mmap)
    }

    /// The bytes that the last write through this handle left in the
    /// mapping. What a read finds later may differ: the file is shared.
    pub closed spec fn last_written(&self) -> Seq<u8> {
        mapped_bytes(self.mmap)
    }

    /// Bytes that the payload area holds.
    pub closed spec fn spec_capacity(&self) -> usize {
        self.capacity
    }

    /// The logical name.
    pub closed spec fn spec_name(&self) -> Seq<char> {
        self.name@
    }

    /// The path of the backing file.
    pub closed spec fn spec_path(&self) -> Seq<char> {
        self.path@
    }

    /// Whether the handle created the region or opened it.
    pub closed spec fn spec_kind(&self) -> HandleKind {
        self.kind
    }

    /// The mapping spans the header and the payload area, no more and no
    /// less. Every handle that `create` or `open` returns is so.
    pub open spec fn wf(&self) -> bool {
        self.spec_len() == spec_region_len(self.spec_capacity())
    }

    /// What `info` reports where the header is valid.
    pub open spec fn describes(&self, info: SharedStateInfo, version: u64, length: usize) -> bool {
        &&& info.name@ == self.spec_name()
        &&& info.path matches Some(path) && path@ == self.spec_path()
        &&& info.fd is None
        &&& info.version == version
        &&& info.length == length
        &&& info.capacity == self.spec_capacity()
    }

    /// What `info` returns when the mapping holds `seen`.
    pub open spec fn reports(&self, seen: Seq<u8>, r: Result<SharedStateInfo, MemioError>) -> bool {
        match spec_read_header(seen, self.spec_capacity()) {
            Some((version, length)) => r matches Ok(info) && self.describes(info, version, length),
            None => r == Err::<SharedStateInfo, MemioError>(MemioError::InvalidHeader),
        }
    }

    /// What `read` returns when the mapping holds `seen`.
    pub open spec fn yields(&self, seen: Seq<u8>, r: Result<Vec<u8>, MemioError>) -> bool {
        match spec_read_header(seen, self.spec_capacity()) {
            Some((_, length)) => r matches Ok(data) && data@ == spec_payload(seen, length),
            None => r == Err::<Vec<u8>, MemioError>(MemioError::InvalidHeader),
        }
    }

    /// What a handle is made of.
    pub open spec fn is_handle(
        &self,
        name: Seq<char>,
        path: Seq<char>,
        capacity: int,
        kind: HandleKind,
    ) -> bool {
        &&& self.wf()
        &&& self.spec_name() == name
        &&& self.spec_path() == path
        &&& self.spec_capacity() == capacity
        &&& self.spec_kind() == kind
    }

    /// The owning handle on a region that was just created: `mmap` maps its
    /// file of `capacity` bytes behind the header. The header is zeroed and
    /// the magic stamped on it. A mapping of another size is refused.
    pub fn create(name: &str, path: &str, capacity: usize, mmap: memmap2::MmapMut) -> (r: Result<
        Self,
        MemioError,
    >)
        ensures
            mapped_len(mmap) == spec_region_len(capacity) ==> (r matches Ok(region)
                && region.is_handle(name@, path@, capacity as int, HandleKind::Owning)
                && exists|before: Seq<u8>|
                before.len() == mapped_len(mmap) && region.last_written()
                    == #[trigger] spec_region_formatted(before)),
            mapped_len(mmap) != spec_region_len(capacity) ==> r == Err::<Self, MemioError>(
                MemioError::MmapFailed,
            ),
    {
        let mut mmap = mmap;
        let len = mapped(&mmap).len();
        if len < SHARED_STATE_HEADER_SIZE || len - SHARED_STATE_HEADER_SIZE != capacity {
            return Err(MemioError::MmapFailed);
        }
        let bytes = mapped_mut(&mut mmap);
        format_region(bytes);
        Ok(
            LinuxSharedMemoryRegion {
                name: name.to_owned(),
                path: path.to_owned(),
                mmap,
                capacity,
                kind: HandleKind::Owning,
            },
        )
    }

    /// A secondary handle on a region that exists: `mmap` maps its whole
    /// file. The capacity is what the file holds behind the header. A file
    /// that is found too short for a header, or not to start with the
    /// magic, is refused.
    pub fn open(name: &str, path: &str, mmap: memmap2::MmapMut) -> (r: Result<Self, MemioError>)
        ensures
            exists|seen: Seq<u8>|
                seen.len() == mapped_len(mmap) && (#[trigger] spec_valid_magic(seen)) == (r is Ok),
            r matches Ok(region) ==> region.is_handle(
                name@,
                path@,
                mapped_len(mmap) - SHARED_STATE_HEADER_SIZE,
                HandleKind::Secondary,
            ),
            r matches Err(e) ==> e == MemioError::InvalidHeader,
    {
        let bytes = mapped(&mmap);
        let valid = validate_magic(bytes);
        if !valid {
            return Err(MemioError::InvalidHeader);
        }
        let capacity = bytes.len() - SHARED_STATE_HEADER_SIZE;
        Ok(
            LinuxSharedMemoryRegion {
                name: name.to_owned(),
                path: path.to_owned(),
                mmap,
                capacity,
                kind: HandleKind::Secondary,
            },
        )
    }

    /// The path of the backing file.
    pub fn path(&self) -> (path: &str)
        ensures
            path@ == self.spec_path(),
    {
        self.path.as_str()
    }

    /// The logical name.
    pub fn name(&self) -> (name: &str)
        ensures
            name@ == self.spec_name(),
    {
        self.name.as_str()
    }

    /// Whether the handle created the region or opened it.
    pub fn kind(&self) -> (kind: HandleKind)
        ensures
            kind == self.spec_kind(),
    {
        self.kind
    }

    /// Whether the backing file is to be unlinked when this handle goes:
    /// only the owning handle does that.
    pub fn unlinks_on_drop(&self) -> (unlink: bool)
        ensures
            unlink == (self.spec_kind() == HandleKind::Owning),
    {
        self.kind == HandleKind::Owning
    }

    /// Whether the mapping spans the header and the payload area.
    fn spans_region(&self) -> (spans: bool)
        ensures
            spans == self.wf(),
    {
        let len = mapped(&self.mmap).len();
        len >= SHARED_STATE_HEADER_SIZE && len - SHARED_STATE_HEADER_SIZE == self.capacity
    }

    /// What a write returns once the bytes are in the mapping, given what
    /// the flush returned.
    fn written(&self, version: u64, length: usize, flushed: Result<(), std::io::Error>) -> (r:
        Result<SharedStateInfo, MemioError>)
        ensures
            flushed is Ok ==> (r matches Ok(info) && self.describes(info, version, length)),
            flushed is Err ==> r matches Err(MemioError::Io(_)),
    {
        match flushed {
            Ok(_) => Ok(
                SharedStateInfo {
                    name: self.name.clone(),
                    path: Some(self.path.clone()),
                    fd: None,
                    version,
                    length,
                    capacity: self.capacity,
                },
            ),
            Err(e) => Err(MemioError::Io(e.to_string())),
        }
    }
}

impl SharedMemoryRegion for LinuxSharedMemoryRegion {
    fn capacity(&self) -> (capacity: usize)
        ensures
            capacity == self.spec_capacity(),
    {
        self.capacity
    }

    /// Reads the header as it is found: a valid one gives version and
    /// length, another the error for an invalid header.
    fn info(&self) -> (r: Result<SharedStateInfo, MemioError>)
        ensures
            exists|seen: Seq<u8>| seen.len() == self.spec_len() && #[trigger] self.reports(seen, r),
    {
        let bytes = mapped(&self.mmap);
        let r = match region_info(bytes, self.capacity) {
            Ok((version, length)) => Ok(
                SharedStateInfo {
                    name: self.name.clone(),
                    path: Some(self.path.clone()),
                    fd: None,
                    version,
                    length,
                    capacity: self.capacity,
                },
            ),
            Err(e) => Err(e),
        };
        assert(self.reports(bytes@, r));
        r
    }

    /// Publishes `data` as `version` and flushes the mapping. Data larger
    /// than the capacity is refused with nothing written; otherwise the
    /// bytes are in the mapping whatever the flush then says.
    fn write(&mut self, version: u64, data: &[u8]) -> (r: Result<SharedStateInfo, MemioError>)
        ensures
            final(self).wf() == old(self).wf(),
            final(self).spec_capacity() == old(self).spec_capacity(),
            final(self).spec_name() == old(self).spec_name(),
            final(self).spec_path() == old(self).spec_path(),
            final(self).spec_kind() == old(self).spec_kind(),
            data.len() > old(self).spec_capacity() ==> {
                &&& final(self).last_written() == old(self).last_written()
                &&& r == Err::<SharedStateInfo, MemioError>(
                    MemioError::DataTooLarge {
                        data_len: data.len(),
                        capacity: old(self).spec_capacity(),
                    },
                )
            },
            data.len() <= old(self).spec_capacity() && old(self).wf() ==> {
                &&& exists|before: Seq<u8>|
                    before.len() == old(self).spec_len() && final(self).last_written()
                        == #[trigger] spec_region_written(before, version, data@)
                &&& r matches Ok(info) ==> final(self).describes(info, version, data.len())
                &&& r matches Err(e) ==> e matches MemioError::Io(_)
            },
            data.len() <= old(self).spec_capacity() && !old(self).wf() ==> {
                &&& final(self).last_written() == old(self).last_written()
                &&& r == Err::<SharedStateInfo, MemioError>(MemioError::InvalidHeader)
            },
    {
        if data.len() > self.capacity {
            return Err(MemioError::DataTooLarge { data_len: data.len(), capacity: self.capacity });
        }
        if !self.spans_region() {
            return Err(MemioError::InvalidHeader);
        }
        let _ = write_region(mapped_mut(&mut self.mmap), self.capacity, version, data);
        let flushed = self.mmap.flush();
        self.written(version, data.len(), flushed)
    }

    /// A copy of the payload as it is found: as many bytes behind the
    /// header as the header gives.
    fn read(&self) -> (r: Result<Vec<u8>, MemioError>)
        ensures
            self.wf() ==> exists|seen: Seq<u8>|
                seen.len() == self.spec_len() && #[trigger] self.yields(seen, r),
            !self.wf() ==> r == Err::<Vec<u8>, MemioError>(MemioError::InvalidHeader),
    {
        if !self.spans_region() {
            return Err(MemioError::InvalidHeader);
        }
        let bytes = mapped(&self.mmap);
        let r = read_region(bytes, self.capacity);
        assert(self.yields(bytes@, r));
        r
    }

    /// The payload area as it is found: what the mapping holds behind the
    /// header.
    fn data(&self) -> (payload: &[u8])
        ensures
            self.wf() ==> payload@.len() == self.spec_capacity(),
            payload@.len() + SHARED_STATE_HEADER_SIZE == self.spec_len() || payload@.len() == 0,
    {
        let bytes = mapped(&self.mmap);
        if bytes.len() < SHARED_STATE_HEADER_SIZE {
            vstd::slice::slice_subrange(bytes, 0, 0)
        } else {
            vstd::slice::slice_subrange(bytes, SHARED_STATE_HEADER_SIZE, bytes.len())
        }
    }
}

/// What one handle wrote, every handle on the region reads: a handle that
/// finds the mapping as the writer left it reports the version and the
/// length that were written and reads exactly the bytes, whenever its
/// capacity admits them. The writer itself is such a handle as long as
/// nothing else has written since.
pub proof fn lemma_handles_agree(
    writer: &LinuxSharedMemoryRegion,
    reader: &LinuxSharedMemoryRegion,
    before: Seq<u8>,
    version: u64,
    data: Seq<u8>,
    info: Result<SharedStateInfo, MemioError>,
    read: Result<Vec<u8>, MemioError>,
)
    requires
        writer.wf(),
        before.len() == writer.spec_len(),
        data.len() <= writer.spec_capacity(),
        writer.last_written() == spec_region_written(before, version, data),
        data.len() <= reader.spec_capacity(),
        reader.reports(writer.last_written(), info),
        reader.yields(writer.last_written(), read),
    ensures
        info matches Ok(found) && found.version == version && found.length == data.len(),
        read matches Ok(found) && found@ == data,
{
    lemma_write_then_read(before, version, data, reader.spec_capacity());
}

/// What went wrong while the backing file was opened, sized or mapped.
#[derive(Debug, Clone)]
pub enum BackingError {
    /// The file could not be opened or created; the system's words.
    Open(String),
    /// The file could not be given its length; the system's words.
    Resize(String),
    /// The file could not be mapped.
    Mapping,
}

/// The error that a failure of the backing is reported as: while creating,
/// a failed creation for the file and its length; while opening, a failed
/// open; a failed mapping either way.
pub fn backing_error(creating: bool, failure: BackingError) -> (e: MemioError)
    ensures
        match failure {
            BackingError::Open(words) => if creating {
                e matches MemioError::CreateFailed(m) && m@ == words@
            } else {
                e matches MemioError::OpenFailed(m) && m@ == words@
            },
            BackingError::Resize(words) => e matches MemioError::CreateFailed(m) && m@ == words@,
            BackingError::Mapping => e == MemioError::MmapFailed,
        },
{
    match failure {
        BackingError::Open(words) => if creating {
            MemioError::CreateFailed(words)
        } else {
            MemioError::OpenFailed(words)
        },
        BackingError::Resize(words) => MemioError::CreateFailed(words),
        BackingError::Mapping => MemioError::MmapFailed,
    }
}

/// The capacity of the region in a file of `file_len` bytes: what the file
/// holds behind the header. A file too short for a header is no region.
pub fn file_capacity(file_len: u64) -> (r: Result<usize, MemioError>)
    ensures
        file_len < SHARED_STATE_HEADER_SIZE ==> r == Err::<usize, MemioError>(
            MemioError::InvalidHeader,
        ),
        file_len >= SHARED_STATE_HEADER_SIZE ==> r == Ok::<usize, MemioError>(
            (file_len - SHARED_STATE_HEADER_SIZE) as usize,
        ),
{
    if file_len < SHARED_STATE_HEADER_SIZE as u64 {
        return Err(MemioError::InvalidHeader);
    }
    Ok(#[verifier::truncate] ((file_len - SHARED_STATE_HEADER_SIZE as u64) as usize))
}

/// How removing a region ends, given what unlinking its file returned.
pub fn unlink_outcome(unlinked: Result<(), String>) -> (r: Result<(), MemioError>)
    ensures
        match unlinked {
            Ok(_) => r is Ok,
            Err(words) => r matches Err(MemioError::Io(m)) && m@ == words@,
        },
{
    match unlinked {
        Ok(_) => Ok(()),
        Err(words) => Err(MemioError::Io(words)),
    }
}

/// Names the files of new regions and remembers where the regions of this
/// process lie. Opening, sizing, mapping and unlinking the files is the
/// caller's part: each operation here is the step before or after it.
pub struct LinuxSharedMemoryFactory {
    base_path: String,
    paths: NameTable<String>,
    nonce: u64,
}

impl LinuxSharedMemoryFactory {
    /// The directory that the files lie in.
    pub closed spec fn spec_base_path(&self) -> Seq<char> {
        self.base_path@
    }

    /// The number that the next file name carries.
    pub closed spec fn spec_nonce(&self) -> u64 {
        self.nonce
    }

    /// The logical names of the regions, in the order they were first
    /// registered.
    pub closed spec fn names(&self) -> Seq<Seq<char>> {
        self.paths.names()
    }

    /// The paths of the regions' files, each at the index of its name.
    pub closed spec fn paths(&self) -> Seq<Seq<char>> {
        Seq::new(self.paths.values().len(), |i: int| self.paths.values()[i]@)
    }

    /// No name occurs twice.
    pub closed spec fn wf(&self) -> bool {
        self.paths.wf()
    }

    /// Whether a region is registered under `name`.
    pub open spec fn has(&self, name: Seq<char>) -> bool {
        self.names().contains(name)
    }

    /// The path of the file of the region `name`.
    pub open spec fn path_of(&self, name: Seq<char>) -> Seq<char> {
        self.paths()[self.names().index_of(name)]
    }

    /// The table after `path` was registered under `name`.
    pub open spec fn registered(&self, after: &Self, name: Seq<char>, path: Seq<char>) -> bool {
        &&& after.wf()
        &&& after.spec_base_path() == self.spec_base_path()
        &&& after.spec_nonce() == self.spec_nonce()
        &&& after.has(name)
        &&& after.path_of(name) == path
        &&& self.has(name) ==> after.names() == self.names() && after.paths()
            == self.paths().update(self.names().index_of(name), path)
        &&& !self.has(name) ==> after.names() == self.names().push(name) && after.paths()
            == self.paths().push(path)
    }

    /// Nothing but the nonce differs.
    pub open spec fn same_table(&self, after: &Self) -> bool {
        &&& after.wf() == self.wf()
        &&& after.spec_base_path() == self.spec_base_path()
        &&& after.names() == self.names()
        &&& after.paths() == self.paths()
    }

    /// A factory for the default directory.
    pub fn new() -> (factory: Self)
        ensures
            factory.wf(),
            factory.spec_base_path() == "/dev/shm"@,
            factory.spec_nonce() == 0,
            factory.names().len() == 0,
    {
        LinuxSharedMemoryFactory {
            base_path: SHM_BASE_PATH.to_owned(),
            paths: NameTable::new(),
            nonce: 0,
        }
    }

    /// A factory for the directory `base_path`.
    pub fn with_base_path(base_path: &str) -> (factory: Self)
        ensures
            factory.wf(),
            factory.spec_base_path() == base_path@,
            factory.spec_nonce() == 0,
            factory.names().len() == 0,
    {
        LinuxSharedMemoryFactory {
            base_path: base_path.to_owned(),
            paths: NameTable::new(),
            nonce: 0,
        }
    }

    /// The path for a new region `name` of process `pid`; no two calls
    /// give the same, short of 2^64 of them.
    pub fn generate_path(&mut self, name: &str, pid: u32) -> (path: String)
        ensures
            old(self).same_table(final(self)),
            final(self).spec_nonce() == if old(self).spec_nonce() == u64::MAX {
                0
            } else {
                (old(self).spec_nonce() + 1) as u64
            },
            path@ == spec_join(
                old(self).spec_base_path(),
                spec_region_file_name(name@, pid, old(self).spec_nonce()),
            ),
    {
        let nonce = self.nonce;
        self.nonce = self.nonce.wrapping_add(1);
        let file = region_file_name(name, pid, nonce);
        join_path(self.base_path.as_str(), file.as_str())
    }

    /// The first step of creating the region `name`: the path of the file to
    /// create and the length to give it. A capacity of zero, or one that
    /// leaves no room for the header, is refused.
    pub fn begin_create(&mut self, name: &str, capacity: usize, pid: u32) -> (r: Result<
        (String, usize),
        MemioError,
    >)
        ensures
            old(self).same_table(final(self)),
            capacity == 0 || capacity + SHARED_STATE_HEADER_SIZE > usize::MAX ==> r == Err::<
                (String, usize),
                MemioError,
            >(MemioError::InvalidCapacity) && final(self).spec_nonce() == old(self).spec_nonce(),
            !(capacity == 0 || capacity + SHARED_STATE_HEADER_SIZE > usize::MAX) ==> (
            r matches Ok((path, file_len)) && {
                &&& file_len == spec_region_len(capacity)
                &&& path@ == spec_join(
                    old(self).spec_base_path(),
                    spec_region_file_name(name@, pid, old(self).spec_nonce()),
                )
            }),
    {
        if capacity == 0 || capacity > usize::MAX - SHARED_STATE_HEADER_SIZE {
            return Err(MemioError::InvalidCapacity);
        }
        let path = self.generate_path(name, pid);
        Ok((path, SHARED_STATE_HEADER_SIZE + capacity))
    }

    /// The last step of creating the region `name`: `mmap` maps the file
    /// that was created at `path` for `capacity` bytes. The header is
    /// initialized, the path is registered, and the owning handle returned.
    pub fn finish_create(
        &mut self,
        name: &str,
        path: &str,
        capacity: usize,
        mmap: memmap2::MmapMut,
    ) -> (r: Result<LinuxSharedMemoryRegion, MemioError>)
        requires
            old(self).wf(),
        ensures
            mapped_len(mmap) == spec_region_len(capacity) ==> (r matches Ok(region)
                && region.is_handle(name@, path@, capacity as int, HandleKind::Owning)
                && exists|before: Seq<u8>|
                before.len() == mapped_len(mmap) && region.last_written()
                    == #[trigger] spec_region_formatted(before)) && old(self).registered(
                final(self),
                name@,
                path@,
            ),
            mapped_len(mmap) != spec_region_len(capacity) ==> {
                &&& r == Err::<LinuxSharedMemoryRegion, MemioError>(MemioError::MmapFailed)
                &&& old(self).same_table(final(self))
                &&& final(self).spec_nonce() == old(self).spec_nonce()
            },
    {
        match LinuxSharedMemoryRegion::create(name, path, capacity, mmap) {
            Ok(region) => {
                self.register_path(name, path);
                Ok(region)
            },
            Err(e) => Err(e),
        }
    }

    /// The first step of opening the region `name`: the path of its file.
    pub fn begin_open(&self, name: &str) -> (r: Result<String, MemioError>)
        requires
            self.wf(),
        ensures
            self.has(name@) ==> (r matches Ok(path) && path@ == self.path_of(name@)),
            !self.has(name@) ==> (r matches Err(MemioError::NotFound(m)) && m@ == name@),
    {
        match self.paths.get(name) {
            Some(path) => Ok(path.clone()),
            None => Err(MemioError::NotFound(name.to_owned())),
        }
    }

    /// The last step of opening the region `name`: `mmap` maps the whole
    /// file at `path`. A file that is not found to hold a valid header is
    /// refused; otherwise the path is registered and a secondary handle
    /// returned.
    pub fn finish_open(&mut self, name: &str, path: &str, mmap: memmap2::MmapMut) -> (r: Result<
        LinuxSharedMemoryRegion,
        MemioError,
    >)
        requires
            old(self).wf(),
        ensures
            exists|seen: Seq<u8>|
                seen.len() == mapped_len(mmap) && (#[trigger] spec_valid_magic(seen)) == (r is Ok),
            r matches Ok(region) ==> region.is_handle(
                name@,
                path@,
                mapped_len(mmap) - SHARED_STATE_HEADER_SIZE,
                HandleKind::Secondary,
            ) && old(self).registered(final(self), name@, path@),
            r matches Err(e) ==> e == MemioError::InvalidHeader && old(self).same_table(
                final(self),
            ) && final(self).spec_nonce() == old(self).spec_nonce(),
    {
        match LinuxSharedMemoryRegion::open(name, path, mmap) {
            Ok(region) => {
                self.register_path(name, path);
                Ok(region)
            },
            Err(e) => Err(e),
        }
    }

    /// Registers `path` as the file of the region `name`.
    fn register_path(&mut self, name: &str, path: &str)
        requires
            old(self).wf(),
        ensures
            old(self).registered(final(self), name@, path@),
    {
        let path = path.to_owned();
        self.paths.insert(name.to_owned(), path);
        proof {
            if old(self).has(name@) {
                assert(self.paths() =~= old(self).paths().update(
                    old(self).names().index_of(name@),
                    path@,
                ));
            } else {
                assert(self.paths() =~= old(self).paths().push(path@));
            }
        }
    }

    /// The names of the regions that are registered.
    pub fn list(&self) -> (names: Vec<String>)
        ensures
            names@.len() == self.names().len(),
            forall|i: int| 0 <= i < names@.len() ==> (#[trigger] names@[i])@ == self.names()[i],
    {
        self.paths.keys()
    }

    /// The file of the region `name`, where one is registered. The region
    /// exists where that file does.
    pub fn registered_path(&self, name: &str) -> (r: Option<String>)
        requires
            self.wf(),
        ensures
            self.has(name@) ==> (r matches Some(path) && path@ == self.path_of(name@)),
            !self.has(name@) ==> r is None,
    {
        match self.paths.get(name) {
            Some(path) => Some(path.clone()),
            None => None,
        }
    }

    /// Forgets the region `name` and returns the path of the file to
    /// unlink.
    pub fn remove(&mut self, name: &str) -> (r: Result<String, MemioError>)
        requires
            old(self).wf(),
        ensures
            final(self).wf(),
            final(self).spec_base_path() == old(self).spec_base_path(),
            final(self).spec_nonce() == old(self).spec_nonce(),
            !final(self).has(name@),
            old(self).has(name@) ==> {
                &&& r matches Ok(path) && path@ == old(self).path_of(name@)
                &&& final(self).names() == old(self).names().remove(
                    old(self).names().index_of(name@),
                )
                &&& final(self).paths() == old(self).paths().remove(
                    old(self).names().index_of(name@),
                )
            },
            !old(self).has(name@) ==> {
                &&& r matches Err(MemioError::NotFound(m)) && m@ == name@
                &&& final(self).names() == old(self).names()
                &&& final(self).paths() == old(self).paths()
            },
    {
        match self.paths.remove(name) {
            Some(path) => Ok(path),
            None => Err(MemioError::NotFound(name.to_owned())),
        }
    }
}

} // verus!
