use std::sync::atomic::{AtomicU64, Ordering};
use vstd::prelude::*;

use crate::versioned::{
    VersionedValue, after_store, cas_outcome, lemma_pack_injective, lemma_unpack_pack,
    next_version, unpacked,
};

verus! {

/// Relies on `AtomicU64::compare_exchange`, the strong form: it writes `new`
/// only where the word equals `current`, and returns the word it found, in
/// `Ok` when that equals `current` and in `Err` when it does not. It never
/// fails spuriously.
#[verifier::external_body]
fn compare_exchange_word(cell: &AtomicU64, current: u64, new: u64) -> (r: Result<u64, u64>)
    ensures
        match r {
            Ok(found) => found == current,
            Err(found) => found != current,
        },
{
    cell.compare_exchange(current, new, Ordering::AcqRel, Ordering::Acquire)
}

/// A `(value, version)` pair held in one atomic 64-bit word, so that one
/// atomic read or compare-and-swap sees both halves together.
///
/// Every update through `store`, or through a successful
/// `compare_exchange_versioned`, installs the next version.
pub struct VersionedAtomicCounter {
    data: AtomicU64,
}

impl VersionedAtomicCounter {
    /// A cell holding `initial_value` under version 0.
    pub fn new(initial_value: u32) -> Self {
        let initial = VersionedValue::new(initial_value, 0);
        Self { data: AtomicU64::new(initial.pack()) }
    }

    /// The current pair, read in one atomic load with acquire ordering.
    pub fn load(&self) -> VersionedValue {
        let packed = self.data.load(Ordering::Acquire);
        VersionedValue::unpack(packed)
    }

    /// What `compare_exchange_versioned` reports, given what the word-level
    /// compare-and-swap returned: `desired` where it succeeded, else the pair
    /// that it found.
    pub fn resolve_exchange(
        expected: VersionedValue,
        desired: VersionedValue,
        observed: Result<u64, u64>,
    ) -> (r: Result<VersionedValue, VersionedValue>)
        ensures
            r == match observed {
                Ok(_) => Ok::<VersionedValue, VersionedValue>(desired),
                Err(found) => Err::<VersionedValue, VersionedValue>(unpacked(found)),
            },
    {
        match observed {
            Ok(_) => Ok(desired),
            Err(found) => Err(VersionedValue::unpack(found)),
        }
    }

    /// One atomic compare-and-swap of the whole pair: `new_value` replaces
    /// `expected` only where the cell holds exactly `expected`, value and
    /// version both. On failure the pair found is returned, so the caller can
    /// tell why; the call never retries.
    ///
    /// The result is what a compare-and-swap gives on some state of the cell;
    /// so a failure always reports a pair other than `expected`.
    pub fn compare_exchange_versioned(
        &self,
        expected: VersionedValue,
        new_value: VersionedValue,
    ) -> (r: Result<VersionedValue, VersionedValue>)
        requires
            new_value.version == next_version(expected.version),
        ensures
            exists|current: VersionedValue| r == cas_outcome(current, expected, new_value),
    {
        let expected_packed = expected.pack();
        let new_packed = new_value.pack();
        let observed = compare_exchange_word(&self.data, expected_packed, new_packed);
        let r = Self::resolve_exchange(expected, new_value, observed);
        proof {
            match observed {
                Ok(_) => {
                    assert(r == cas_outcome(expected, expected, new_value));
                },
                Err(found) => {
                    let current = unpacked(found);
                    lemma_unpack_pack(current);
                    lemma_pack_injective(current, expected);
                    assert(r == cas_outcome(current, expected, new_value));
                },
            }
        }
        r
    }

    /// Replaces the value and installs the next version after the one just
    /// read; the pair is written with release ordering and returned.
    ///
    /// The read and the write are two atomic steps: a write by another thread
    /// between them is overwritten.
    pub fn store(&self, value: u32) -> (r: VersionedValue)
        ensures
            exists|previous: VersionedValue| r == after_store(previous, value),
    {
        let current = self.load();
        let new_value = current.successor(value);
        self.data.store(new_value.pack(), Ordering::Release);
        new_value
    }
}

} // verus!
