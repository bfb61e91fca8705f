use memio::android::{
    get_shared_fd, get_shared_ptr, has_nul, has_shared_region, list_shared_regions,
    read_from_shared, region_name, write_to_shared, AndroidSharedMemoryFactory, NO_FD,
};
use memio::{HandleKind, MemioError};

fn create(
    factory: &mut AndroidSharedMemoryFactory,
    name: &str,
    capacity: usize,
    fd: i32,
) -> Vec<u8> {
    let (_, total) = factory.begin_create(name, capacity, 77).unwrap();
    let mut mapped = vec![0u8; total];
    let handle = factory.finish_create(name, capacity, fd, &mut mapped);
    assert_eq!(handle.fd(), NO_FD);
    assert_eq!(handle.kind(), HandleKind::Secondary);
    assert!(!handle.releases_on_drop());
    assert_eq!(handle.capacity(), capacity);
    assert_eq!(handle.total_size(), capacity + 64);
    assert_eq!(handle.name(), name);
    mapped
}

#[test]
fn the_table_keeps_the_owning_handle() {
    let mut factory = AndroidSharedMemoryFactory::new();
    let mut mapped = create(&mut factory, "r1", 1024, 9);
    assert_eq!(get_shared_fd(&factory, "r1"), Ok(9));
    assert_eq!(get_shared_ptr(&factory, "r1"), Ok(1088));
    let owning = factory.owning("r1").unwrap();
    assert_eq!(owning.kind(), HandleKind::Owning);
    assert!(owning.releases_on_drop());

    let opened = factory.open("r1").unwrap();
    assert_eq!(opened.fd(), -1);
    assert_eq!(opened.capacity(), 1024);

    let info = opened.write(&mut mapped, 1, b"hello world").unwrap();
    assert_eq!((info.version, info.length, info.capacity), (1, 11, 1024));
    assert_eq!(info.fd, Some(-1));
    assert_eq!(info.path, None);
    assert_eq!(info.name, "r1");
    assert_eq!(opened.read(&mapped).unwrap(), b"hello world");
    assert_eq!(factory.owning("r1").unwrap().info(&mapped).unwrap().fd, Some(9));
}

#[test]
fn writing_and_reading_by_name() {
    let mut factory = AndroidSharedMemoryFactory::new();
    let mut mapped = create(&mut factory, "x", 64, 3);
    assert_eq!(read_from_shared(&factory, "x", &mapped), Ok((0, Vec::new())));
    assert_eq!(write_to_shared(&factory, "x", 7, b"payload", &mut mapped), Ok(()));
    assert_eq!(read_from_shared(&factory, "x", &mapped), Ok((7, b"payload".to_vec())));
    assert_eq!(
        write_to_shared(&factory, "x", 8, &[0u8; 65], &mut mapped),
        Err(MemioError::DataTooLarge { data_len: 65, capacity: 64 })
    );
    assert_eq!(write_to_shared(&factory, "x", 8, &[5u8; 64], &mut mapped), Ok(()));
    assert_eq!(read_from_shared(&factory, "x", &mapped), Ok((8, vec![5u8; 64])));

    let missing = MemioError::NotFound("y".to_string());
    assert_eq!(write_to_shared(&factory, "y", 1, b"", &mut mapped), Err(missing.clone()));
    assert_eq!(read_from_shared(&factory, "y", &mapped), Err(missing.clone()));
    assert_eq!(get_shared_fd(&factory, "y"), Err(missing.clone()));
    assert_eq!(get_shared_ptr(&factory, "y"), Err(missing.clone()));
    assert!(matches!(factory.open("y"), Err(MemioError::NotFound(_))));
}

#[test]
fn a_mapping_without_magic_is_an_invalid_header() {
    let mut factory = AndroidSharedMemoryFactory::new();
    let _ = create(&mut factory, "x", 8, 3);
    let blank = vec![0u8; 72];
    assert_eq!(read_from_shared(&factory, "x", &blank), Err(MemioError::InvalidHeader));
    assert_eq!(factory.open("x").unwrap().info(&blank), Err(MemioError::InvalidHeader));
}

#[test]
fn names_for_the_system() {
    let mut factory = AndroidSharedMemoryFactory::new();
    assert_eq!(factory.begin_create("a", 1, 5), Ok(("memio_a_5_0".to_string(), 65)));
    assert_eq!(factory.begin_create("a", 1, 5), Ok(("memio_a_5_1".to_string(), 65)));
    assert_eq!(factory.begin_create("a", 0, 5), Err(MemioError::InvalidCapacity));
    assert_eq!(factory.begin_create("a", usize::MAX - 10, 5), Err(MemioError::InvalidCapacity));
    assert_eq!(
        factory.begin_create("a\0b", 1, 5),
        Err(MemioError::CreateFailed("Invalid name".to_string()))
    );
    assert_eq!(factory.begin_create("a", 1, 5), Ok(("memio_a_5_3".to_string(), 65)));
    assert_eq!(region_name("n", 4294967295, u64::MAX), "memio_n_4294967295_18446744073709551615");
    assert!(has_nul("\0"));
    assert!(!has_nul("plain"));
    assert!(!has_nul(""));
}

#[test]
fn listing_and_removing() {
    let mut factory = AndroidSharedMemoryFactory::new();
    let _ = create(&mut factory, "list_test", 100, 4);
    let _ = create(&mut factory, "second", 1, 5);
    assert!(has_shared_region(&factory, "list_test"));
    assert!(factory.contains("list_test"));
    assert!(!has_shared_region(&factory, "nonexistent"));
    assert_eq!(list_shared_regions(&factory), vec!["list_test".to_string(), "second".to_string()]);
    assert_eq!(factory.list(), list_shared_regions(&factory));

    let owning = factory.remove("list_test").unwrap();
    assert_eq!(owning.fd(), 4);
    assert!(owning.releases_on_drop());
    assert!(!has_shared_region(&factory, "list_test"));
    assert!(matches!(factory.remove("list_test"), Err(MemioError::NotFound(_))));
    assert_eq!(factory.list(), vec!["second".to_string()]);
}

#[test]
fn creating_again_replaces_the_handle() {
    let mut factory = AndroidSharedMemoryFactory::new();
    let _ = create(&mut factory, "x", 8, 3);
    let _ = create(&mut factory, "x", 16, 4);
    assert_eq!(factory.list(), vec!["x".to_string()]);
    assert_eq!(get_shared_fd(&factory, "x"), Ok(4));
    assert_eq!(get_shared_ptr(&factory, "x"), Ok(80));
}
