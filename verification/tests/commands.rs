use memio::commands::{
    build_shared_paths_script, memio_read, shared_paths_script, upload_path, upload_version,
    ReadResult,
};
use memio::windows_shared_buffer::SharedBufferTable;

#[test]
fn a_read_is_new_only_beyond_the_version_seen() {
    assert_eq!(memio_read(5, 11, None), ReadResult { success: true, version: 5, length: 11 });
    assert_eq!(memio_read(5, 11, Some(4)), ReadResult { success: true, version: 5, length: 11 });
    assert_eq!(memio_read(5, 11, Some(5)), ReadResult { success: false, version: 5, length: 0 });
    assert_eq!(memio_read(5, 11, Some(6)), ReadResult { success: false, version: 5, length: 0 });
    assert_eq!(memio_read(0, 0, Some(-1)), ReadResult { success: true, version: 0, length: 0 });
    assert_eq!(
        memio_read(u64::MAX, 3, Some(-1)),
        ReadResult { success: false, version: -1, length: 0 }
    );
    assert_eq!(
        memio_read(1 << 63, 3, None),
        ReadResult { success: true, version: i64::MIN, length: 3 }
    );
}

#[test]
fn the_path_behind_a_file_uri() {
    assert_eq!(upload_path("file:///tmp/a.bin"), "/tmp/a.bin");
    assert_eq!(upload_path("file://"), "");
    assert_eq!(upload_path("/tmp/a.bin"), "/tmp/a.bin");
    assert_eq!(upload_path("file:/tmp/a.bin"), "file:/tmp/a.bin");
    assert_eq!(upload_path("content://x/file://y"), "content://x/file://y");
    assert_eq!(upload_path("file://h\u{e9}"), "h\u{e9}");
    assert_eq!(upload_path(""), "");
}

#[test]
fn the_version_of_an_upload() {
    assert_eq!(upload_version(Some(1_700_000_000)), 1_700_000_000);
    assert_eq!(upload_version(Some(0)), 0);
    assert_eq!(upload_version(None), 1);
}

#[test]
fn the_script_names_the_paths_that_are_given() {
    assert_eq!(build_shared_paths_script(None, None), None);
    assert_eq!(
        build_shared_paths_script(Some("/dev/shm/memio_shared_registry_7.txt"), None).as_deref(),
        Some("globalThis.__memioSharedRegistryPath = \"/dev/shm/memio_shared_registry_7.txt\";")
    );
    assert_eq!(
        build_shared_paths_script(None, Some("C:\\tmp\\\"x\"\n")).as_deref(),
        Some("globalThis.__memioSharedPath = \"C:\\\\tmp\\\\\\\"x\\\"\\n\";")
    );
    assert_eq!(
        build_shared_paths_script(Some("a"), Some("b")).as_deref(),
        Some("globalThis.__memioSharedRegistryPath = \"a\";globalThis.__memioSharedPath = \"b\";")
    );
    assert_eq!(
        shared_paths_script(Some("1".to_string()), Some("2".to_string())).as_deref(),
        Some("globalThis.__memioSharedRegistryPath = 1;globalThis.__memioSharedPath = 2;")
    );
    assert_eq!(shared_paths_script(None, None), None);
}

#[test]
fn buffers_are_read_and_written_inside_their_bounds() {
    let mut table = SharedBufferTable::new();
    assert_eq!(table.create_shared_buffer("b", 8), 8);
    let mut bytes = vec![0u8; 8];
    assert_eq!(table.write_to_buffer("b", 2, b"abc", &mut bytes), Ok(()));
    assert_eq!(bytes, [0, 0, b'a', b'b', b'c', 0, 0, 0]);
    assert_eq!(table.read_from_buffer("b", 1, 4, &bytes), Ok(vec![0, b'a', b'b', b'c']));
    assert_eq!(table.read_from_buffer("b", 8, 0, &bytes), Ok(Vec::new()));
    assert_eq!(table.write_to_buffer("b", 5, b"xyz", &mut bytes), Ok(()));
    assert_eq!(
        table.write_to_buffer("b", 6, b"xyz", &mut bytes),
        Err("Write out of bounds: offset 6 + length 3 > size 8".to_string())
    );
    assert_eq!(
        table.read_from_buffer("b", 0, 9, &bytes),
        Err("Read out of bounds: offset 0 + length 9 > size 8".to_string())
    );
    assert_eq!(
        table.read_from_buffer("b", usize::MAX, 2, &bytes),
        Err(format!("Read out of bounds: offset {} + length 2 > size 8", usize::MAX))
    );
    assert_eq!(bytes, [0, 0, b'a', b'b', b'c', b'x', b'y', b'z']);
    assert_eq!(
        table.read_from_buffer("c", 0, 1, &bytes),
        Err("Buffer 'c' not found".to_string())
    );
    assert_eq!(
        table.write_to_buffer("c", 0, b"", &mut bytes),
        Err("Buffer 'c' not found".to_string())
    );
}

#[test]
fn buffers_are_listed_until_they_are_closed() {
    let mut table = SharedBufferTable::new();
    table.create_shared_buffer("one", 1);
    table.create_shared_buffer("two", 2);
    table.create_shared_buffer("one", 10);
    assert_eq!(table.list_buffers(), vec!["one".to_string(), "two".to_string()]);
    assert!(table.has_buffer("two"));
    assert!(!table.has_buffer("three"));
    assert_eq!(table.get_buffer_ptr("one"), Ok(10));
    assert_eq!(table.get_buffer_ptr("three"), Err("Buffer 'three' not found".to_string()));
    assert_eq!(table.close_buffer("one"), Ok(()));
    assert_eq!(table.close_buffer("one"), Err("Buffer 'one' not found".to_string()));
    assert_eq!(table.list_buffers(), vec!["two".to_string()]);
}
