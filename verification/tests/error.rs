use memio::{MemioError, SharedMemoryError};

#[test]
fn every_error_has_its_text() {
    let cases: Vec<(MemioError, &str)> = vec![
        (
            MemioError::ArenaFull { requested: 120, available: 7 },
            "Arena allocation failed: requested 120 bytes, available 7",
        ),
        (
            MemioError::Alignment { expected: 16, actual: 0 },
            "Alignment error: expected 16, got 0",
        ),
        (MemioError::Serialization("bad".into()), "Serialization error: bad"),
        (MemioError::Deserialization("worse".into()), "Deserialization error: worse"),
        (MemioError::PlatformNotSupported, "Platform not supported"),
        (MemioError::InvalidCapacity, "Invalid capacity"),
        (MemioError::CreateFailed("denied".into()), "Create failed: denied"),
        (MemioError::OpenFailed("gone".into()), "Open failed: gone"),
        (MemioError::MmapFailed, "Memory mapping failed"),
        (
            MemioError::DataTooLarge { data_len: 16, capacity: 10 },
            "Data (16 bytes) exceeds capacity (10 bytes)",
        ),
        (MemioError::InvalidHeader, "Invalid header"),
        (MemioError::NotFound("r1".into()), "Region not found: r1"),
        (MemioError::Protocol("p".into()), "Protocol error: p"),
        (MemioError::Io("disk".into()), "IO error: disk"),
        (MemioError::LockPoisoned("x".into()), "Lock poisoned: x"),
        (MemioError::Internal("".into()), "Internal error: "),
    ];
    for (error, text) in cases {
        assert_eq!(error.to_string(), text);
    }
}

#[test]
fn large_numbers_are_written_in_full() {
    let e = MemioError::ArenaFull { requested: usize::MAX, available: 1_000_000 };
    assert_eq!(
        e.to_string(),
        format!("Arena allocation failed: requested {} bytes, available 1000000", usize::MAX)
    );
}

#[test]
fn lock_errors() {
    assert_eq!(MemioError::lock_poisoned("held"), MemioError::LockPoisoned("held".to_string()));
    assert_eq!(MemioError::lock_failed(), MemioError::Io("Failed to acquire lock".to_string()));
    let e: SharedMemoryError = MemioError::lock_failed();
    assert_eq!(e.to_string(), "IO error: Failed to acquire lock");
}
