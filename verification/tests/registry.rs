use memio::linux::LinuxSharedMemoryRegion;
use memio::memio_shared::create_outcome;
use memio::registry::entry_path;
use memio::table::NameTable;
use memio::{
    MemioError, MemioShared, SharedMemoryFactory, SharedMemoryRegion, SharedRegistry,
    SharedStateInfo,
};
use memmap2::MmapMut;

struct AnonFactory;

impl SharedMemoryFactory for AnonFactory {
    type Region = LinuxSharedMemoryRegion;

    fn create(&self, name: &str, capacity: usize) -> Result<Self::Region, MemioError> {
        if capacity == 0 {
            return Err(MemioError::InvalidCapacity);
        }
        let mmap = MmapMut::map_anon(64 + capacity).map_err(|_| MemioError::MmapFailed)?;
        let path = format!("/dev/shm/memio_{}.bin", name);
        LinuxSharedMemoryRegion::create(name, &path, capacity, mmap)
    }

    fn open(&self, name: &str) -> Result<Self::Region, MemioError> {
        Err(MemioError::NotFound(name.to_string()))
    }

    fn list(&self) -> Vec<String> {
        Vec::new()
    }

    fn contains(&self, _name: &str) -> bool {
        false
    }

    fn remove(&self, name: &str) -> Result<(), MemioError> {
        Err(MemioError::NotFound(name.to_string()))
    }
}

fn registry() -> SharedRegistry<AnonFactory> {
    SharedRegistry::new(AnonFactory, "/dev/shm/memio_shared_registry_1.txt".to_string())
        .ok()
        .unwrap()
}

#[test]
fn the_manifest_lists_every_region() {
    let mut registry = registry();
    assert_eq!(registry.manifest_text(), "");
    assert_eq!(registry.path(), "/dev/shm/memio_shared_registry_1.txt");
    registry.create_buffer("alpha", 16).unwrap();
    registry.create_buffer("beta", 8).unwrap();
    assert_eq!(
        registry.manifest_text(),
        "alpha=/dev/shm/memio_alpha.bin\nbeta=/dev/shm/memio_beta.bin\n"
    );
    assert_eq!(registry.list_names(), vec!["alpha".to_string(), "beta".to_string()]);
    assert_eq!(registry.register("gamma", "/tmp/gamma"), Ok(()));
    assert_eq!(registry.list_names().len(), 2);
    assert!(registry.factory().create("direct", 1).is_ok());
}

#[test]
fn regions_are_found_by_name() {
    let mut registry = registry();
    registry.create_buffer("alpha", 16).unwrap();
    assert!(registry.get("beta").is_none());
    assert!(registry.get_mut("beta").is_none());
    assert_eq!(registry.get("alpha").unwrap().capacity(), 16);
    registry.get_mut("alpha").unwrap().write(4, b"abcd").unwrap();
    assert_eq!(registry.get("alpha").unwrap().read().unwrap(), b"abcd");
    assert_eq!(registry.get("alpha").unwrap().info().unwrap().version, 4);
}

#[test]
fn a_refused_creation_registers_nothing() {
    let mut registry = registry();
    assert_eq!(registry.create_buffer("zero", 0), Err(MemioError::InvalidCapacity));
    assert!(registry.get("zero").is_none());
    assert_eq!(registry.manifest_text(), "");
}

#[test]
fn a_region_given_from_outside_is_registered_with_its_path() {
    let mut registry = registry();
    let region = AnonFactory.create("given", 4).unwrap();
    registry.register_region("given", region, "/elsewhere".to_string());
    let again = AnonFactory.create("given", 8).unwrap();
    registry.register_region("given", again, "/moved".to_string());
    assert_eq!(registry.manifest_text(), "given=/moved\n");
    assert_eq!(registry.get("given").unwrap().capacity(), 8);
}

#[test]
fn the_listed_path_is_the_reported_one_or_empty() {
    let info = |path: Option<&str>| SharedStateInfo {
        name: "n".to_string(),
        path: path.map(|p| p.to_string()),
        fd: None,
        version: 0,
        length: 0,
        capacity: 0,
    };
    assert_eq!(entry_path(Ok(info(Some("/a/b")))), "/a/b");
    assert_eq!(entry_path(Ok(info(None))), "");
    assert_eq!(entry_path(Err(MemioError::InvalidHeader)), "");
}

#[test]
fn shared_buffers() {
    let mut shared = MemioShared::new(registry());
    assert_eq!(shared.registry_path(), "/dev/shm/memio_shared_registry_1.txt");
    assert_eq!(shared.create_buffer("my_buffer", 4096), Ok(()));
    shared.get_buffer("my_buffer").ok().unwrap().write(1, b"hello world").unwrap();
    assert_eq!(shared.get_buffer("my_buffer").ok().unwrap().read().unwrap(), b"hello world");
    assert_eq!(
        shared.get_buffer("other").err(),
        Some(MemioError::Internal("Buffer not found: other".to_string()))
    );
    assert_eq!(
        shared.create_buffer("zero", 0),
        Err(MemioError::Internal("Invalid capacity".to_string()))
    );
    assert_eq!(shared.register("x", "/tmp/x"), Ok(()));
    assert_eq!(create_outcome(Ok(())), Ok(()));
    assert_eq!(
        create_outcome(Err(MemioError::CreateFailed("denied".to_string()))),
        Err(MemioError::Internal("Create failed: denied".to_string()))
    );
}

#[test]
fn a_table_keeps_names_unique_and_in_order() {
    let mut table: NameTable<u32> = NameTable::new();
    assert_eq!(table.insert("a".to_string(), 1), None);
    assert_eq!(table.insert("b".to_string(), 2), None);
    assert_eq!(table.insert("c".to_string(), 3), None);
    assert_eq!(table.insert("b".to_string(), 20), Some(2));
    assert_eq!(table.keys(), vec!["a".to_string(), "b".to_string(), "c".to_string()]);
    assert_eq!(table.len(), 3);
    assert_eq!(table.position("c"), Some(2));
    assert_eq!(table.position("d"), None);
    assert_eq!(table.get("b"), Some(&20));
    assert_eq!(table.get(""), None);
    *table.value_at_mut(0) += 5;
    assert_eq!((table.name_at(0).as_str(), *table.value_at(0)), ("a", 6));
    assert_eq!(table.remove("a"), Some(6));
    assert_eq!(table.remove("a"), None);
    assert!(!table.contains_key("a"));
    assert!(table.contains_key("c"));
    assert_eq!(table.keys(), vec!["b".to_string(), "c".to_string()]);
}
