use std::cmp::Ordering;

use wreq_core::hash::{memo_or_computed, nonzero_hash, HashMemo};

#[test]
fn nonzero_hash_maps_only_zero() {
    assert_eq!(nonzero_hash(0), 1);
    assert_eq!(nonzero_hash(1), 1);
    assert_eq!(nonzero_hash(42), 42);
    assert_eq!(nonzero_hash(u64::MAX), u64::MAX);
}

#[test]
fn memo_compares_by_value() {
    let a = HashMemo::new(String::from("a"));
    let a2 = HashMemo::new(String::from("a"));
    let b = HashMemo::new(String::from("b"));
    assert!(a == a2);
    assert!(a != b);
    assert_eq!(a.partial_cmp(&b), Some(Ordering::Less));
    assert_eq!(b.partial_cmp(&a), Some(Ordering::Greater));
    assert_eq!(a.as_ref(), "a");
}

#[test]
fn memoized_hash_is_stable_and_nonzero() {
    let hasher = lru::DefaultHasher::default();
    let a = HashMemo::new(12345u64);
    let first = a.memoized_hash(&hasher);
    assert_ne!(first, 0);
    assert_eq!(a.memoized_hash(&hasher), first);
    let same = HashMemo::new(12345u64);
    assert_eq!(same.memoized_hash(&hasher), first);
}

#[test]
fn memoized_hash_keeps_the_first_value() {
    let a = HashMemo::new("value");
    let first = a.memoized_hash(&lru::DefaultHasher::default());
    // A second, differently seeded hasher is not consulted once the memo is set.
    let again = a.memoized_hash(&lru::DefaultHasher::default());
    assert_eq!(first, again);
}

#[test]
fn memo_or_computed_prefers_the_memo() {
    assert_eq!(memo_or_computed(7, 9), 7);
    assert_eq!(memo_or_computed(0, 9), 9);
    assert_eq!(memo_or_computed(0, 0), 1);
}
