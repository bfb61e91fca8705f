use memio::linux::{
    backing_error, candidate_pid, cleanup_orphaned_files, extract_pid_from_filename,
    file_capacity, join_path,
    manifest_file_name, process_dir, region_file_name, unlink_outcome, BackingError,
    LinuxSharedMemoryFactory, LinuxSharedMemoryRegion,
};
use memio::{HandleKind, MemioError, SharedMemoryRegion};
use memmap2::MmapMut;

fn created(
    factory: &mut LinuxSharedMemoryFactory,
    name: &str,
    capacity: usize,
) -> LinuxSharedMemoryRegion {
    let (path, file_len) = factory.begin_create(name, capacity, 4242).unwrap();
    let mmap = MmapMut::map_anon(file_len).unwrap();
    factory.finish_create(name, &path, capacity, mmap).unwrap()
}

#[test]
fn linux_test_create_and_write() {
    let mut factory = LinuxSharedMemoryFactory::with_base_path("/tmp/memio_test");
    let mut region = created(&mut factory, "test1", 1024);

    let info = region.write(1, b"hello world").unwrap();
    assert_eq!(info.version, 1);
    assert_eq!(info.length, 11);
    assert_eq!(info.capacity, 1024);

    let data = region.read().unwrap();
    assert_eq!(data, b"hello world");

    factory.remove("test1").unwrap();
}

#[test]
fn test_capacity_exceeded() {
    let mut factory = LinuxSharedMemoryFactory::with_base_path("/tmp/memio_test");
    let mut region = created(&mut factory, "test2", 10);

    let result = region.write(1, b"this is too long");
    assert!(matches!(result, Err(MemioError::DataTooLarge { .. })));
    assert_eq!(result.unwrap_err(), MemioError::DataTooLarge { data_len: 16, capacity: 10 });

    factory.remove("test2").unwrap();
}

#[test]
fn test_list_and_exists() {
    let mut factory = LinuxSharedMemoryFactory::with_base_path("/tmp/memio_test");
    let _region = created(&mut factory, "list_test", 100);

    assert!(factory.registered_path("list_test").is_some());
    assert!(factory.registered_path("nonexistent").is_none());

    let list = factory.list();
    assert!(list.contains(&"list_test".to_string()));

    factory.remove("list_test").unwrap();
    assert!(factory.list().is_empty());
}

#[test]
fn region_reports_itself() {
    let mut factory = LinuxSharedMemoryFactory::new();
    let mut region = created(&mut factory, "r1", 1024);
    assert_eq!(region.name(), "r1");
    assert_eq!(region.path(), "/dev/shm/memio_r1_4242_0_0.bin");
    assert_eq!(region.capacity(), 1024);
    assert_eq!(region.kind(), HandleKind::Owning);
    assert!(region.unlinks_on_drop());
    let info = region.info().unwrap();
    assert_eq!((info.version, info.length, info.capacity), (0, 0, 1024));
    assert_eq!(region.read().unwrap(), Vec::<u8>::new());
    let info = region.write(1, b"hello world").unwrap();
    assert_eq!(info.name, "r1");
    assert_eq!(info.path.as_deref(), Some("/dev/shm/memio_r1_4242_0_0.bin"));
    assert_eq!(info.fd, None);
    assert_eq!(&region.data()[..11], b"hello world");
    assert_eq!(region.data().len(), 1024);
    assert_eq!(region.info().unwrap(), info);
}

#[test]
fn write_at_capacity_and_one_over() {
    let mut factory = LinuxSharedMemoryFactory::new();
    let mut region = created(&mut factory, "edge", 4);
    assert!(region.write(1, &[1, 2, 3, 4]).is_ok());
    assert_eq!(
        region.write(2, &[1, 2, 3, 4, 5]).unwrap_err(),
        MemioError::DataTooLarge { data_len: 5, capacity: 4 }
    );
    assert_eq!(region.read().unwrap(), vec![1, 2, 3, 4]);
    assert_eq!(region.info().unwrap().version, 1);
}

#[test]
fn creating_with_capacity_zero_fails() {
    let mut factory = LinuxSharedMemoryFactory::new();
    assert_eq!(factory.begin_create("z", 0, 1), Err(MemioError::InvalidCapacity));
    assert_eq!(factory.begin_create("z", usize::MAX, 1), Err(MemioError::InvalidCapacity));
    assert_eq!(factory.begin_create("z", usize::MAX - 63, 1), Err(MemioError::InvalidCapacity));
    let (path, len) = factory.begin_create("z", 1, 1).unwrap();
    assert_eq!(path, "/dev/shm/memio_z_1_0_0.bin");
    assert_eq!(len, 65);
}

#[test]
fn a_mapping_of_another_size_is_refused() {
    let mut factory = LinuxSharedMemoryFactory::new();
    let mmap = MmapMut::map_anon(64 + 9).unwrap();
    assert!(matches!(
        factory.finish_create("odd", "/dev/shm/odd", 10, mmap),
        Err(MemioError::MmapFailed)
    ));
    assert!(factory.list().is_empty());
}

#[test]
fn opening_a_region_whose_magic_is_zero_fails() {
    let mut factory = LinuxSharedMemoryFactory::new();
    let mmap = MmapMut::map_anon(64 + 16).unwrap();
    assert!(matches!(
        factory.finish_open("blank", "/dev/shm/blank", mmap),
        Err(MemioError::InvalidHeader)
    ));
    let short = MmapMut::map_anon(63).unwrap();
    assert!(matches!(
        LinuxSharedMemoryRegion::open("short", "/dev/shm/short", short),
        Err(MemioError::InvalidHeader)
    ));
    assert!(factory.list().is_empty());
    assert_eq!(factory.begin_open("blank"), Err(MemioError::NotFound("blank".to_string())));
}

#[test]
fn an_opened_region_sees_what_was_written() {
    let mut source = MmapMut::map_anon(64 + 64).unwrap();
    memio::region::format_region(&mut source);
    memio::region::write_region(&mut source, 64, 7, b"payload").unwrap();
    let mut copy = MmapMut::map_anon(64 + 64).unwrap();
    copy.copy_from_slice(&source);

    let mut factory = LinuxSharedMemoryFactory::new();
    let opened = factory.finish_open("x", "/dev/shm/x.bin", copy).unwrap();
    assert_eq!(opened.kind(), HandleKind::Secondary);
    assert!(!opened.unlinks_on_drop());
    assert_eq!(opened.capacity(), 64);
    let info = opened.info().unwrap();
    assert_eq!((info.version, info.length), (7, 7));
    assert_eq!(opened.read().unwrap(), b"payload");
    assert_eq!(factory.begin_open("x"), Ok("/dev/shm/x.bin".to_string()));
}

#[test]
fn paths_differ_from_call_to_call() {
    let mut factory = LinuxSharedMemoryFactory::with_base_path("/run/shm/");
    assert_eq!(factory.generate_path("a", 7), "/run/shm/memio_a_7_0_0.bin");
    assert_eq!(factory.generate_path("a", 7), "/run/shm/memio_a_7_1_0.bin");
    assert_eq!(factory.generate_path("b_c", 4294967295), "/run/shm/memio_b_c_4294967295_2_0.bin");
    assert_eq!(join_path("", "f"), "f");
    assert_eq!(join_path("/d", "f"), "/d/f");
    assert_eq!(join_path("/d/", "f"), "/d/f");
    assert_eq!(region_file_name("n", 0, u64::MAX), "memio_n_0_18446744073709551615_0.bin");
    assert_eq!(manifest_file_name(31337), "memio_shared_registry_31337.txt");
    assert_eq!(process_dir(1), "/proc/1");
}

#[test]
fn removing_forgets_the_name_and_gives_the_path() {
    let mut factory = LinuxSharedMemoryFactory::new();
    let _a = created(&mut factory, "a", 1);
    let _b = created(&mut factory, "b", 1);
    let _c = created(&mut factory, "c", 1);
    assert_eq!(factory.remove("b"), Ok("/dev/shm/memio_b_4242_1_0.bin".to_string()));
    assert_eq!(factory.list(), vec!["a".to_string(), "c".to_string()]);
    assert_eq!(factory.remove("b"), Err(MemioError::NotFound("b".to_string())));
    assert_eq!(unlink_outcome(Ok(())), Ok(()));
    assert_eq!(unlink_outcome(Err("busy".to_string())), Err(MemioError::Io("busy".to_string())));
}

#[test]
fn backing_failures_map_to_errors() {
    assert_eq!(
        backing_error(true, BackingError::Open("denied".into())),
        MemioError::CreateFailed("denied".into())
    );
    assert_eq!(
        backing_error(false, BackingError::Open("denied".into())),
        MemioError::OpenFailed("denied".into())
    );
    assert_eq!(
        backing_error(true, BackingError::Resize("full".into())),
        MemioError::CreateFailed("full".into())
    );
    assert_eq!(backing_error(true, BackingError::Mapping), MemioError::MmapFailed);
    assert_eq!(backing_error(false, BackingError::Mapping), MemioError::MmapFailed);
}

#[test]
fn pid_of_a_file_name() {
    let cases: Vec<(&str, Option<u32>)> = vec![
        ("memio_ghost_999999_0_0.bin", Some(999999)),
        ("memio_my_region_name_12_3_0.bin", Some(12)),
        ("memio_shared_registry_4321.txt", Some(4321)),
        ("memio_shared_registry_+7.txt", Some(7)),
        ("memio_shared_registry_.txt", None),
        ("memio_shared_registry_12a.txt", None),
        ("memio_shared_registry_4294967295.txt", Some(4294967295)),
        ("memio_shared_registry_4294967296.txt", None),
        ("memio_shared_registry_0007.txt", Some(7)),
        ("memio_a_1_0.bin", None),
        ("a_b_77_c_d.bin", Some(77)),
        ("memio_x_-5_0_0.bin", None),
        ("memio_x__0_0.bin", None),
        ("memio_x_5_0_0.txt", None),
        ("memio_x_5_0_0", None),
        (".bin", None),
        ("", None),
        ("memio_ring_12_0.bin", None),
        ("memio_shared_12_0.bin", None),
    ];
    for (name, pid) in cases {
        assert_eq!(extract_pid_from_filename(name), pid, "{}", name);
    }
    assert_eq!(candidate_pid("a_b_77_c_d.bin"), None);
    assert_eq!(candidate_pid("memio_ghost_999999_0_0.bin"), Some(999999));
    assert_eq!(candidate_pid("memio_shared_registry_1.txt"), Some(1));
}

#[test]
fn orphans_are_the_files_of_dead_processes() {
    let files: Vec<String> = [
        "memio_ghost_999999_0_0.bin",
        "memio_live_100_0_0.bin",
        "unrelated.txt",
        "memio_shared_registry_999999.txt",
        "memio_shared_registry_100.txt",
        "memio_broken.bin",
        "other_x_999999_0_0.bin",
    ]
    .iter()
    .map(|s| s.to_string())
    .collect();
    let remove = cleanup_orphaned_files(&files, |pid| pid == 100);
    assert_eq!(remove, vec![true, false, false, true, false, false, false]);
    assert_eq!(cleanup_orphaned_files(&Vec::new(), |_| false), Vec::<bool>::new());
}

#[test]
fn capacity_is_what_the_file_holds_behind_the_header() {
    assert_eq!(file_capacity(0), Err(MemioError::InvalidHeader));
    assert_eq!(file_capacity(63), Err(MemioError::InvalidHeader));
    assert_eq!(file_capacity(64), Ok(0));
    assert_eq!(file_capacity(64 + 1024), Ok(1024));
}
