use bridgevr::timeout_map::TimeoutMap;

#[test]
fn remove_any_returns_values_in_insertion_order() {
    let mut m: TimeoutMap<u32, &str> = TimeoutMap::new(1_000);
    m.insert_at(7, "a", 10);
    m.insert_at(3, "b", 11);
    m.insert_at(7, "c", 12);
    m.insert_at(1, "d", 12);
    assert_eq!(m.remove_any(), Some((7, "a")));
    assert_eq!(m.remove_any(), Some((3, "b")));
    assert_eq!(m.remove_any(), Some((7, "c")));
    assert_eq!(m.remove_any(), Some((1, "d")));
    assert_eq!(m.remove_any(), None);
    assert_eq!(m.len(), 0);
}

#[test]
fn remove_any_on_empty_buffer_returns_nothing() {
    let mut m: TimeoutMap<u32, u32> = TimeoutMap::new(5);
    assert_eq!(m.remove_any(), None);
}

#[test]
fn remove_by_key_drains_duplicates_oldest_first() {
    let mut m: TimeoutMap<u32, &str> = TimeoutMap::new(1_000);
    m.insert_at(1, "first", 0);
    m.insert_at(2, "other", 1);
    m.insert_at(1, "second", 2);
    assert_eq!(m.remove(&1), Some("first"));
    assert_eq!(m.remove(&1), Some("second"));
    assert_eq!(m.remove(&1), None);
    assert_eq!(m.remove(&2), Some("other"));
    assert_eq!(m.len(), 0);
}

#[test]
fn remove_by_missing_key_leaves_buffer_alone() {
    let mut m: TimeoutMap<u32, u32> = TimeoutMap::new(1_000);
    m.insert_at(4, 40, 0);
    assert_eq!(m.remove(&5), None);
    assert_eq!(m.len(), 1);
    assert_eq!(m.remove_any(), Some((4, 40)));
}

#[test]
fn remove_expired_returns_only_entries_older_than_timeout() {
    let mut m: TimeoutMap<u32, &str> = TimeoutMap::new(100);
    m.insert_at(1, "old", 0);
    m.insert_at(2, "older-than-timeout", 50);
    m.insert_at(3, "exactly-at-timeout", 100);
    m.insert_at(4, "young", 150);
    // At 200: ages are 200, 150, 100, 50. Only ages above 100 count as expired.
    assert_eq!(m.remove_expired_at(200), vec!["old", "older-than-timeout"]);
    assert_eq!(m.len(), 2);
    assert_eq!(m.remove_expired_at(200), Vec::<&str>::new());
    assert_eq!(m.remove_expired_at(201), vec!["exactly-at-timeout"]);
    assert_eq!(m.remove_any(), Some((4, "young")));
}

#[test]
fn remove_expired_interleaved_with_inserts_loses_nothing() {
    let mut m: TimeoutMap<u32, u32> = TimeoutMap::new(10);
    m.insert_at(1, 1, 0);
    m.insert_at(2, 2, 5);
    assert_eq!(m.remove_expired_at(12), vec![1]);
    m.insert_at(3, 3, 12);
    assert_eq!(m.remove_expired_at(30), vec![2, 3]);
    assert_eq!(m.len(), 0);
}

#[test]
fn insert_with_earlier_time_keeps_stamps_in_order() {
    let mut m: TimeoutMap<u32, u32> = TimeoutMap::new(10);
    m.insert_at(1, 1, 100);
    m.insert_at(2, 2, 50);
    // The second entry is stamped 100, so at 105 neither is expired and at 111 both are.
    assert_eq!(m.remove_expired_at(105), Vec::<u32>::new());
    assert_eq!(m.remove_expired_at(111), vec![1, 2]);
}

#[test]
fn clock_based_insert_and_sweep() {
    let mut m: TimeoutMap<u32, u32> = TimeoutMap::new(u64::MAX);
    m.insert(1, 10);
    m.insert(2, 20);
    assert_eq!(m.timeout(), u64::MAX);
    assert_eq!(m.remove_expired(), Vec::<u32>::new());
    assert_eq!(m.remove(&2), Some(20));
    assert_eq!(m.remove_any(), Some((1, 10)));
}

#[test]
fn clock_based_sweep_with_zero_timeout_eventually_expires() {
    let mut m: TimeoutMap<u32, u32> = TimeoutMap::new(0);
    m.insert(1, 10);
    let mut out = Vec::new();
    while out.is_empty() {
        out = m.remove_expired();
    }
    assert_eq!(out, vec![10]);
}
