//! A value together with a memo of its hash.
use vstd::prelude::*;

use core::hash::{BuildHasher, Hash};
use std::sync::atomic::{AtomicU64, Ordering};
use vstd::std_specs::cmp::{PartialEqSpec, PartialEqSpecImpl, PartialOrdSpec, PartialOrdSpecImpl};

verus! {

/// The hash builder that the `lru` crate uses by default (a randomly seeded
/// builder of the `hashbrown` crate).
#[verifier::external_type_specification]
#[verifier::external_body]
pub struct ExDefaultHasher(lru::DefaultHasher);

/// `BuildHasher::hash_one` of the `lru` crate's default hash builder. The hash
/// depends on the builder's random seed, so nothing is claimed of it.
#[verifier::external_body]
fn hash_one_with<T: Hash>(hasher: &lru::DefaultHasher, value: &T) -> u64 {
    hasher.hash_one(value)
}

/// The memoized form of a computed hash: zero marks "not computed yet", so a
/// computed zero is stored, and reported, as one.
pub open spec fn nonzero_hash_spec(h: u64) -> u64 {
    if h == 0 {
        1
    } else {
        h
    }
}

/// A computed hash as it is memoized: never zero.
pub fn nonzero_hash(h: u64) -> (r: u64)
    ensures
        r == nonzero_hash_spec(h),
        r != 0,
{
    if h == 0 {
        1
    } else {
        h
    }
}

/// The hash that a memo reports: the memoized hash where the memo holds one
/// (a nonzero value), else the memoized form of the freshly computed hash.
pub open spec fn memo_or_computed_spec(cached: u64, computed: u64) -> u64 {
    if cached != 0 {
        cached
    } else {
        nonzero_hash_spec(computed)
    }
}

/// The hash that a memo reports, from what the memo held when read.
pub fn memo_or_computed(cached: u64, computed: u64) -> (h: u64)
    ensures
        h == memo_or_computed_spec(cached, computed),
        h != 0,
{
    if cached != 0 {
        cached
    } else {
        nonzero_hash(computed)
    }
}

/// The hash that a memo reports, from what the memo held when read, computing
/// the hash only where the memo was empty: a filled memo is reported as it is.
pub fn memo_or_compute<F: FnOnce() -> u64>(cached: u64, compute: F) -> (h: u64)
    requires
        cached == 0 ==> compute.requires(()),
    ensures
        cached != 0 ==> h == cached,
        cached == 0 ==> exists|c: u64| compute.ensures((), c) && h == memo_or_computed_spec(cached, c),
        h != 0,
{
    if cached != 0 {
        memo_or_computed(cached, 0)
    } else {
        let computed = compute();
        memo_or_computed(cached, computed)
    }
}

/// A wrapper that memoizes the hash value of its contained data.
#[derive(Debug)]
pub struct HashMemo<T> where T: Eq + PartialEq + Hash {
    value: T,
    hash: AtomicU64,
}

impl<T> View for HashMemo<T> where T: Eq + PartialEq + Hash {
    type V = T;

    closed spec fn view(&self) -> T {
        self.value
    }
}

impl<T> HashMemo<T> where T: Eq + Hash {
    /// Creates a new [`HashMemo`], with no hash memoized yet.
    pub fn new(value: T) -> (r: Self)
        ensures
            r@ == value,
    {
        HashMemo { value, hash: AtomicU64::new(u64::MIN) }
    }

    /// The contained value.
    pub fn as_ref(&self) -> (r: &T)
        ensures
            *r == self@,
    {
        &self.value
    }

    /// The hash of the contained value under `hasher`, computed once and then
    /// read from the memo. It is never zero, since zero marks an empty memo.
    /// Where two threads race to fill the memo, each reports the hash that it
    /// computed and the first one stays. What comes back is decided by
    /// `memo_or_compute` from the memo as read.
    pub fn memoized_hash(&self, hasher: &lru::DefaultHasher) -> (h: u64)
        ensures
            h != 0,
    {
        let cached = self.hash.load(Ordering::Relaxed);
        let value = &self.value;
        let h = memo_or_compute(cached, || hash_one_with(hasher, value));
        if cached == 0 {
            let _ = self.hash.compare_exchange(u64::MIN, h, Ordering::Relaxed, Ordering::Relaxed);
        }
        h
    }
}

impl<T> PartialEq for HashMemo<T> where T: Eq + Hash {
    fn eq(&self, other: &Self) -> (r: bool) {
        self.value == other.value
    }
}

impl<T> PartialEqSpecImpl for HashMemo<T> where T: Eq + Hash {
    open spec fn obeys_eq_spec() -> bool {
        T::obeys_eq_spec()
    }

    open spec fn eq_spec(&self, other: &Self) -> bool {
        self@.eq_spec(&other@)
    }
}

impl<T> Eq for HashMemo<T> where T: Eq + Hash {

}

impl<T> PartialOrd for HashMemo<T> where T: Eq + Hash + PartialOrd {
    fn partial_cmp(&self, other: &Self) -> (r: Option<core::cmp::Ordering>) {
        self.value.partial_cmp(&other.value)
    }
}

impl<T> PartialOrdSpecImpl for HashMemo<T> where T: Eq + Hash + PartialOrd {
    open spec fn obeys_partial_cmp_spec() -> bool {
        T::obeys_partial_cmp_spec()
    }

    open spec fn partial_cmp_spec(&self, other: &Self) -> Option<core::cmp::Ordering> {
        self@.partial_cmp_spec(&other@)
    }
}

} // verus!
