use memio::shared_file::SharedFileCache;
use memio::{platform_factory, MemioError, Platform, PlatformFactory};

#[test]
fn platforms_by_target() {
    assert_eq!(Platform::of("linux", "x86_64"), Platform::Linux);
    assert_eq!(Platform::of("android", "aarch64"), Platform::Android);
    assert_eq!(Platform::of("macos", "aarch64"), Platform::MacOS);
    assert_eq!(Platform::of("windows", "x86_64"), Platform::Windows);
    assert_eq!(Platform::of("unknown", "wasm32"), Platform::Wasm);
    assert_eq!(Platform::of("linux", "wasm32"), Platform::Linux);
    assert_eq!(Platform::of("freebsd", "x86_64"), Platform::Unknown);
    assert_eq!(Platform::of("", ""), Platform::Unknown);
    assert_eq!(Platform::of("Linux", "x86_64"), Platform::Unknown);
}

#[test]
fn platform_names() {
    let all = [
        (Platform::Linux, "linux"),
        (Platform::Android, "android"),
        (Platform::MacOS, "macos"),
        (Platform::Windows, "windows"),
        (Platform::Wasm, "wasm"),
        (Platform::Unknown, "unknown"),
    ];
    for (platform, name) in all {
        assert_eq!(platform.name(), name);
        assert_eq!(platform.to_string(), name);
    }
}

#[test]
fn factories_exist_where_regions_do() {
    assert!(matches!(platform_factory(Platform::Linux), Ok(PlatformFactory::Linux(_))));
    assert!(matches!(platform_factory(Platform::Android), Ok(PlatformFactory::Android(_))));
    assert!(matches!(platform_factory(Platform::Windows), Ok(PlatformFactory::Windows(_))));
    for platform in [Platform::MacOS, Platform::Wasm, Platform::Unknown] {
        assert!(!platform.is_supported());
        assert!(matches!(platform_factory(platform), Err(MemioError::PlatformNotSupported)));
    }
    assert!(Platform::Linux.is_supported());
    if let Ok(PlatformFactory::Linux(mut factory)) = platform_factory(Platform::Linux) {
        assert_eq!(factory.generate_path("a", 1), "/dev/shm/memio_a_1_0_0.bin");
    }
}

#[test]
fn a_file_is_copied_when_it_changed() {
    let mut cache = SharedFileCache::new(12, 3).ok().unwrap();
    assert_eq!(cache.dest_path(), "/dev/shm/memio_shared_12_3.bin");
    assert!(!cache.needs_copy(0, 0));
    assert!(cache.needs_copy(10, 0));
    assert!(cache.needs_copy(0, 1));
    assert_eq!(
        cache.copy_if_changed(10, 500, Err(MemioError::Io("denied".to_string()))),
        Err(MemioError::Io("denied".to_string()))
    );
    assert!(cache.needs_copy(10, 500));
    assert_eq!(
        cache.copy_if_changed(10, 500, Ok(())),
        Ok("/dev/shm/memio_shared_12_3.bin".to_string())
    );
    assert!(!cache.needs_copy(10, 500));
    assert_eq!(
        cache.copy_if_changed(10, 500, Err(MemioError::Io("not asked".to_string()))),
        Ok("/dev/shm/memio_shared_12_3.bin".to_string())
    );
    assert!(cache.needs_copy(10, 501));
    assert!(cache.needs_copy(11, 500));
}
