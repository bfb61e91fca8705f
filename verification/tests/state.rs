use memio::linux::LinuxSharedMemoryRegion;
use memio::{
    Arena, MemioError, MemioField, MemioFieldType, MemioScalarType, MemioSchema, MemioState,
    NoOpRegion, SharedMemoryRegion,
};
use memmap2::MmapMut;

fn le(value: &u64) -> Result<Vec<u8>, MemioError> {
    Ok(value.to_le_bytes().to_vec())
}

fn archived(value: &(u32, u32)) -> Result<Vec<u8>, MemioError> {
    rkyv::to_bytes::<rkyv::rancor::Error>(value)
        .map(|bytes| bytes.to_vec())
        .map_err(|e| MemioError::Serialization(e.to_string()))
}

fn failing(_: &u64) -> Result<Vec<u8>, MemioError> {
    Err(MemioError::Serialization("refused".to_string()))
}

fn region(capacity: usize) -> LinuxSharedMemoryRegion {
    let mmap = MmapMut::map_anon(64 + capacity).unwrap();
    LinuxSharedMemoryRegion::create("state", "/anon/state", capacity, mmap).unwrap()
}

#[test]
fn a_new_state_is_at_version_zero() {
    let state = MemioState::new(5u64);
    assert_eq!(state.version(), 0);
    assert!(state.shared_info().is_none());
    assert_eq!(state.read(|v| *v + 1), Ok(6));
    assert_eq!(state.to_bytes(le), Ok(vec![5, 0, 0, 0, 0, 0, 0, 0]));
}

#[test]
fn every_write_counts_one_version() {
    let mut state = MemioState::new(0u64);
    for expected in 1..=5u64 {
        let before = state.version();
        let out = state.write(|v| { *v += 10; *v }, le).unwrap();
        assert_eq!(out, expected * 10);
        assert_eq!(state.version(), before + 1);
    }
    assert_eq!(state.read(|v| *v), Ok(50));
}

#[test]
fn cached_bytes_are_the_same_until_a_write() {
    let mut state = MemioState::new(7u64);
    let mut calls = 0;
    let first = state.to_bytes_cached(|v| { calls += 1; le(v) }).unwrap();
    let second = state.to_bytes_cached(|v| { calls += 1; le(v) }).unwrap();
    assert_eq!(first, (0, vec![7, 0, 0, 0, 0, 0, 0, 0]));
    assert_eq!(first, second);
    assert_eq!(calls, 1);
    state.write(|v| *v = 8, le).unwrap();
    let third = state.to_bytes_cached(|v| { calls += 1; le(v) }).unwrap();
    assert_eq!(third, (1, vec![8, 0, 0, 0, 0, 0, 0, 0]));
    assert_eq!(calls, 2);
}

#[test]
fn a_failing_serializer_caches_nothing() {
    let mut state = MemioState::new(7u64);
    assert_eq!(
        state.to_bytes_cached(failing),
        Err(MemioError::Serialization("refused".to_string()))
    );
    assert_eq!(state.to_bytes_cached(le), Ok((0, vec![7, 0, 0, 0, 0, 0, 0, 0])));
}

#[test]
fn a_bound_state_publishes_every_write() {
    let mut state = MemioState::new(1u64).with_shared_memory(region(64));
    assert_eq!(state.shared_info().map(|i| (i.version, i.length)), Some((0, 0)));
    let out = state.write(|v| { *v = 0x0102; "done" }, le).unwrap();
    assert_eq!(out, "done");
    assert_eq!(state.version(), 1);
    let info = state.shared_info().unwrap();
    assert_eq!((info.version, info.length, info.capacity), (1, 8, 64));
    let mut calls = 0;
    let cached = state.to_bytes_cached(|v| { calls += 1; le(v) }).unwrap();
    assert_eq!(cached, (1, vec![2, 1, 0, 0, 0, 0, 0, 0]));
    assert_eq!(calls, 0);
}

#[test]
fn a_failed_publication_keeps_the_mutation() {
    let mut state = MemioState::new_with_region(1u64, region(4));
    let r = state.write(|v| *v = 9, le);
    assert_eq!(r, Err(MemioError::DataTooLarge { data_len: 8, capacity: 4 }));
    assert_eq!(state.version(), 1);
    assert_eq!(state.read(|v| *v), Ok(9));
    assert_eq!(state.shared_info().map(|i| i.version), Some(0));

    let mut state = MemioState::new_with_region(1u64, region(64));
    let r = state.write(|v| *v = 9, failing);
    assert_eq!(r, Err(MemioError::Serialization("refused".to_string())));
    assert_eq!(state.version(), 1);
    assert_eq!(state.read(|v| *v), Ok(9));
}

#[test]
fn an_archive_goes_through_unchanged() {
    let mut state = MemioState::new_with_region((1u32, 2u32), region(64));
    state.write(|v| v.1 = 0x0A0B0C0D, archived).unwrap();
    let (version, bytes) = state.to_bytes_cached(archived).unwrap();
    assert_eq!(version, 1);
    assert_eq!(bytes, vec![1, 0, 0, 0, 0x0D, 0x0C, 0x0B, 0x0A]);
    assert_eq!(state.to_bytes(archived), Ok(bytes));
}

#[test]
fn serializing_into_an_arena() {
    let state = MemioState::new(0x1122u64);
    let mut arena = Arena::new(24);
    assert_eq!(arena.allocate(3, 1), Some(0));
    assert_eq!(state.serialize_into(&mut arena, le), Ok((8, 8)));
    assert_eq!(&arena.as_slice()[8..16], &[0x22, 0x11, 0, 0, 0, 0, 0, 0]);
    assert_eq!(arena.used(), 16);
    assert_eq!(state.serialize_into(&mut arena, le), Ok((16, 8)));
    assert_eq!(
        state.serialize_into(&mut arena, le),
        Err(MemioError::ArenaFull { requested: 8, available: 0 })
    );
    assert_eq!(arena.used(), 24);
    assert_eq!(
        state.serialize_into(&mut arena, failing),
        Err(MemioError::Serialization("refused".to_string()))
    );
}

#[test]
fn the_placeholder_region_holds_nothing() {
    let mut region = NoOpRegion::default();
    assert_eq!(region.capacity(), 0);
    assert_eq!(region.read(), Ok(Vec::new()));
    assert!(region.data().is_empty());
    let info = region.write(9, b"ignored").unwrap();
    assert_eq!((info.version, info.length, info.capacity), (0, 0, 0));
    assert_eq!((info.name.as_str(), info.path.as_deref(), info.fd), ("", None, None));
    assert_eq!(region.info().unwrap(), info);
}

struct Pair;

static PAIR_FIELDS: [MemioField; 2] = [
    MemioField { name: "a", offset: 0, ty: MemioFieldType::Scalar(MemioScalarType::U32) },
    MemioField { name: "b", offset: 4, ty: MemioFieldType::Scalar(MemioScalarType::U32) },
];

impl MemioSchema for Pair {
    fn schema() -> &'static [MemioField] {
        &PAIR_FIELDS
    }
}

#[test]
fn a_state_describes_its_value() {
    let state = MemioState::new(Pair);
    assert_eq!(
        state.schema_json(),
        "{\"fields\":[{\"name\":\"a\",\"offset\":0,\"type\":\"u32\"},{\"name\":\"b\",\"offset\":4,\"type\":\"u32\"}]}"
    );
}
