use memio::arena::bump;
use memio::Arena;

#[test]
fn test_arena_allocation() {
    let mut arena = Arena::new(1024);

    let ptr1 = arena.allocate(100, 8).expect("First allocation failed");
    let ptr2 = arena.allocate(200, 8).expect("Second allocation failed");

    assert!(ptr1 != ptr2);
    assert!(arena.used() >= 300);
}

#[test]
fn test_arena_full() {
    let mut arena = Arena::new(100);

    let _ = arena.allocate(50, 1);
    let _ = arena.allocate(50, 1);

    assert!(arena.allocate(10, 1).is_none());
}

#[test]
fn test_arena_reset() {
    let mut arena = Arena::new(1024);

    let _ = arena.allocate(500, 8);
    assert!(arena.used() >= 500);

    arena.reset();
    assert_eq!(arena.used(), 0);
}

#[test]
fn allocations_are_aligned_and_disjoint() {
    let mut arena = Arena::new(256);
    let a = arena.allocate(3, 1).unwrap();
    let b = arena.allocate(5, 8).unwrap();
    let c = arena.allocate(1, 16).unwrap();
    let d = arena.allocate(0, 4).unwrap();
    let e = arena.allocate(7, 3).unwrap();
    assert_eq!((a, b, c, d, e), (0, 8, 16, 20, 21));
    assert_eq!(arena.used(), 28);
    assert_eq!(arena.capacity(), 256);
    let spans = [(a, 3), (b, 5), (c, 1), (d, 0), (e, 7)];
    for (i, (start, len)) in spans.iter().enumerate() {
        for (other, _) in spans.iter().skip(i + 1) {
            assert!(start + len <= *other);
        }
    }
}

#[test]
fn used_only_grows_until_reset() {
    let mut arena = Arena::new(64);
    let mut last = arena.used();
    for (size, align) in [(1usize, 1usize), (9, 2), (100, 4), (0, 32), (31, 8), (1, 1)] {
        let _ = arena.allocate(size, align);
        assert!(arena.used() >= last);
        last = arena.used();
    }
    assert_eq!(last, 64);
    arena.reset();
    assert_eq!(arena.used(), 0);
}

#[test]
fn refused_allocation_takes_nothing() {
    let mut arena = Arena::new(16);
    assert_eq!(arena.allocate(10, 1), Some(0));
    assert_eq!(arena.allocate(7, 1), None);
    assert_eq!(arena.used(), 10);
    assert_eq!(arena.allocate(1, 16), None);
    assert_eq!(arena.used(), 10);
    assert_eq!(arena.allocate(6, 1), Some(10));
    assert_eq!(arena.used(), 16);
}

#[test]
fn bump_decides_without_overflow() {
    assert_eq!(bump(0, 0, 1, 0), Some((0, 0)));
    assert_eq!(bump(5, 3, 4, 11), Some((8, 11)));
    assert_eq!(bump(5, 4, 4, 11), None);
    assert_eq!(bump(usize::MAX - 1, 1, 8, usize::MAX), None);
    assert_eq!(bump(8, usize::MAX, 8, usize::MAX), None);
    assert_eq!(bump(9, 2, 3, 100), Some((9, 11)));
    assert_eq!(bump(10, 2, 3, 100), Some((12, 14)));
}

#[test]
fn stored_bytes_land_in_the_slab() {
    let mut arena = Arena::new(32);
    let at = arena.allocate(4, 8).unwrap();
    let next = arena.allocate(4, 8).unwrap();
    arena.store(next, &[9, 8, 7, 6]);
    arena.store(at, &[1, 2, 3, 4]);
    assert_eq!(&arena.as_slice()[0..4], &[1, 2, 3, 4]);
    assert_eq!(&arena.as_slice()[4..8], &[0, 0, 0, 0]);
    assert_eq!(&arena.as_slice()[8..12], &[9, 8, 7, 6]);
    assert!(arena.as_slice()[12..].iter().all(|b| *b == 0));
}
