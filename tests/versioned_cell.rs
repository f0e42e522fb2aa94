use lockfree_primitives::{CasConflict, VersionedAtomicCounter, VersionedValue};

#[test]
fn test_versioned_value_pack_unpack() {
    let v1 = VersionedValue::new(42, 5);
    let packed = v1.pack();
    let v2 = VersionedValue::unpack(packed);
    assert_eq!(v1, v2);
}

#[test]
fn test_versioned_atomic_counter() {
    let counter = VersionedAtomicCounter::new(10);
    let initial = counter.load();
    assert_eq!(initial.value, 10);
    assert_eq!(initial.version, 0);

    let updated = counter.store(20);
    assert_eq!(updated.value, 20);
    assert_eq!(updated.version, 1);

    let updated2 = counter.store(30);
    assert_eq!(updated2.value, 30);
    assert_eq!(updated2.version, 2);
}

#[test]
fn pack_puts_version_high_and_value_low() {
    assert_eq!(VersionedValue::new(42, 5).pack(), (5u64 << 32) | 42);
    assert_eq!(VersionedValue::new(0, 0).pack(), 0);
    assert_eq!(VersionedValue::new(u32::MAX, u32::MAX).pack(), u64::MAX);
    assert_eq!(VersionedValue::new(1, 0).pack(), 1);
    assert_eq!(VersionedValue::new(0, 1).pack(), 0x1_0000_0000);
}

#[test]
fn unpack_splits_the_word() {
    let v = VersionedValue::unpack(0x0000_0007_0000_0009);
    assert_eq!(v.version, 7);
    assert_eq!(v.value, 9);
    let top = VersionedValue::unpack(u64::MAX);
    assert_eq!(top, VersionedValue::new(u32::MAX, u32::MAX));
}

#[test]
fn pack_unpack_round_trip_at_the_edges() {
    for &(value, version) in &[(0u32, 0u32), (u32::MAX, 0), (0, u32::MAX), (u32::MAX, u32::MAX), (123456, 654321)] {
        let v = VersionedValue::new(value, version);
        assert_eq!(VersionedValue::unpack(v.pack()), v);
    }
}

#[test]
fn successor_takes_next_version_and_wraps() {
    let s = VersionedValue::new(3, 8).successor(11);
    assert_eq!(s, VersionedValue::new(11, 9));
    let wrapped = VersionedValue::new(3, u32::MAX).successor(4);
    assert_eq!(wrapped, VersionedValue::new(4, 0));
}

#[test]
fn new_cell_holds_value_at_version_zero() {
    let counter = VersionedAtomicCounter::new(u32::MAX);
    assert_eq!(counter.load(), VersionedValue::new(u32::MAX, 0));
}

#[test]
fn store_returns_what_load_then_sees() {
    let counter = VersionedAtomicCounter::new(0);
    for i in 1..=50u32 {
        let written = counter.store(i * 3);
        assert_eq!(written, VersionedValue::new(i * 3, i));
        assert_eq!(counter.load(), written);
    }
}

#[test]
fn exchange_succeeds_when_pair_unchanged() {
    let counter = VersionedAtomicCounter::new(5);
    let first = counter.load();
    let second = counter.load();
    assert_eq!(first.version, second.version);
    let desired = VersionedValue::new(100, first.version + 1);
    assert_eq!(counter.compare_exchange_versioned(first, desired), Ok(desired));
    assert_eq!(counter.load(), VersionedValue::new(100, 1));
}

#[test]
fn exchange_rejects_value_that_came_back() {
    let counter = VersionedAtomicCounter::new(0);
    let initial = counter.load();
    counter.store(1);
    counter.store(0);
    let current = counter.load();
    assert!(current.changed_since(initial));
    let desired = VersionedValue::new(100, initial.version + 1);
    let result = counter.compare_exchange_versioned(initial, desired);
    let actual = result.unwrap_err();
    assert_eq!(actual.value, initial.value);
    assert!(actual.version >= initial.version + 2);
    assert_eq!(actual, VersionedValue::new(0, 2));
    assert_eq!(initial.classify_conflict(actual), CasConflict::Aba);
    assert_eq!(counter.load(), VersionedValue::new(0, 2));
}

#[test]
fn exchange_failure_reports_pair_found() {
    let counter = VersionedAtomicCounter::new(7);
    counter.store(8);
    let stale = VersionedValue::new(7, 0);
    let result = counter.compare_exchange_versioned(stale, VersionedValue::new(9, 1));
    assert_eq!(result, Err(VersionedValue::new(8, 1)));
    assert_eq!(stale.classify_conflict(VersionedValue::new(8, 1)), CasConflict::ValueChanged);
    assert_eq!(counter.load(), VersionedValue::new(8, 1));
}

#[test]
fn exchange_at_the_largest_version_wraps() {
    let counter = VersionedAtomicCounter::new(1);
    let mut current = counter.load();
    let desired = VersionedValue::new(2, 1);
    assert_eq!(counter.compare_exchange_versioned(current, desired), Ok(desired));
    current = counter.load();
    assert_eq!(current, desired);
    let top = VersionedValue::new(2, u32::MAX);
    let result = counter.compare_exchange_versioned(top, top.successor(3));
    assert_eq!(result, Err(desired));
    assert_eq!(top.successor(3), VersionedValue::new(3, 0));
}

#[test]
fn resolve_exchange_maps_word_results() {
    let expected = VersionedValue::new(1, 1);
    let desired = VersionedValue::new(2, 2);
    assert_eq!(VersionedAtomicCounter::resolve_exchange(expected, desired, Ok(expected.pack())), Ok(desired));
    let found = VersionedValue::new(5, 9);
    assert_eq!(VersionedAtomicCounter::resolve_exchange(expected, desired, Err(found.pack())), Err(found));
}

#[test]
fn classify_conflict_covers_each_kind() {
    let expected = VersionedValue::new(4, 10);
    assert_eq!(expected.classify_conflict(VersionedValue::new(4, 12)), CasConflict::Aba);
    assert_eq!(expected.classify_conflict(VersionedValue::new(5, 10)), CasConflict::ValueChanged);
    assert_eq!(expected.classify_conflict(VersionedValue::new(5, 11)), CasConflict::ValueChanged);
    assert_eq!(expected.classify_conflict(VersionedValue::new(4, 10)), CasConflict::Anomaly);
    assert_eq!(expected.classify_conflict(VersionedValue::new(4, 3)), CasConflict::Anomaly);
}

#[test]
fn changed_since_compares_versions_only() {
    let earlier = VersionedValue::new(1, 4);
    assert!(VersionedValue::new(1, 5).changed_since(earlier));
    assert!(!VersionedValue::new(9, 4).changed_since(earlier));
    assert!(!VersionedValue::new(1, 3).changed_since(earlier));
}

#[test]
fn versions_rise_by_one_per_successful_update() {
    let counter = VersionedAtomicCounter::new(0);
    let mut last = counter.load();
    for i in 0..20u32 {
        if i % 3 == 0 {
            let stale = VersionedValue::new(last.value.wrapping_add(1), last.version);
            let r = counter.compare_exchange_versioned(stale, stale.successor(0));
            assert_eq!(r, Err(last));
            assert_eq!(counter.load(), last);
        } else if i % 3 == 1 {
            let next = counter.store(i);
            assert_eq!(next.version, last.version + 1);
            last = next;
        } else {
            let desired = last.successor(i * 10);
            assert_eq!(counter.compare_exchange_versioned(last, desired), Ok(desired));
            assert_eq!(desired.version, last.version + 1);
            last = desired;
        }
    }
}

#[test]
fn aba_interleaving_reader_before_both_stores() {
    let counter = VersionedAtomicCounter::new(0);
    let initial = counter.load();
    counter.store(1);
    counter.store(0);
    let current = counter.load();
    assert!(current.changed_since(initial));
    let desired = VersionedValue::new(100, initial.version + 1);
    assert_eq!(counter.compare_exchange_versioned(initial, desired), Err(VersionedValue::new(0, 2)));
    assert_ne!(counter.load().value, 100);
}

#[test]
fn aba_interleaving_reader_after_both_stores() {
    let counter = VersionedAtomicCounter::new(0);
    counter.store(1);
    counter.store(0);
    let initial = counter.load();
    let current = counter.load();
    assert!(!current.changed_since(initial));
    let desired = VersionedValue::new(100, current.version + 1);
    assert_eq!(counter.compare_exchange_versioned(current, desired), Ok(desired));
    assert_eq!(counter.load(), VersionedValue::new(100, 3));
}

#[test]
fn aba_interleaving_store_between_reads_and_exchange() {
    let counter = VersionedAtomicCounter::new(0);
    let initial = counter.load();
    let current = counter.load();
    assert!(!current.changed_since(initial));
    counter.store(1);
    let desired = VersionedValue::new(100, current.version + 1);
    let actual = counter.compare_exchange_versioned(current, desired).unwrap_err();
    assert_eq!(actual, VersionedValue::new(1, 1));
    assert_eq!(current.classify_conflict(actual), CasConflict::ValueChanged);
    counter.store(0);
    let actual = counter.compare_exchange_versioned(current, desired).unwrap_err();
    assert_eq!(current.classify_conflict(actual), CasConflict::Aba);
}
