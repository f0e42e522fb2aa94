use vstd::prelude::*;

use crate::versioned::{
    CasConflict, VersionedValue, after_cas, after_store, cas_outcome, conflict_kind,
    next_version,
};

verus! {

/// One update made through a cell's entry points.
pub enum Update {
    /// `store(value)`.
    Store(u32),
    /// `compare_exchange_versioned(expected, desired)`.
    Exchange(VersionedValue, VersionedValue),
}

/// An update that the cell's entry points accept: an exchange offers the
/// version that follows the expected one.
pub open spec fn admissible(u: Update) -> bool {
    match u {
        Update::Store(_) => true,
        Update::Exchange(expected, desired) => desired.version == next_version(expected.version),
    }
}

/// Whether `u` changes a cell in state `s`.
pub open spec fn mutates(s: VersionedValue, u: Update) -> bool {
    match u {
        Update::Store(_) => true,
        Update::Exchange(expected, _) => s == expected,
    }
}

/// The state of a cell in state `s` after `u`.
pub open spec fn step(s: VersionedValue, u: Update) -> VersionedValue {
    match u {
        Update::Store(value) => after_store(s, value),
        Update::Exchange(expected, desired) => after_cas(s, expected, desired),
    }
}

/// The state of a cell in state `s` after the updates `us`, in order.
pub open spec fn run(s: VersionedValue, us: Seq<Update>) -> VersionedValue
    decreases us.len(),
{
    if us.len() == 0 {
        s
    } else {
        step(run(s, us.drop_last()), us.last())
    }
}

/// How many of the updates `us`, run from state `s`, change the cell.
pub open spec fn mutations(s: VersionedValue, us: Seq<Update>) -> nat
    decreases us.len(),
{
    if us.len() == 0 {
        0
    } else {
        mutations(s, us.drop_last()) + if mutates(run(s, us.drop_last()), us.last()) {
            1nat
        } else {
            0nat
        }
    }
}

/// Each update that changes the cell moves the version up by exactly one, and
/// one that does not leaves the whole pair as it was.
pub proof fn lemma_step_version(s: VersionedValue, u: Update)
    requires
        admissible(u),
        s.version < u32::MAX,
    ensures
        mutates(s, u) ==> step(s, u).version == s.version + 1,
        !mutates(s, u) ==> step(s, u) == s,
{
}

/// Over any sequence of updates the version grows by exactly the number of
/// updates that changed the cell, so it never falls; where it has not moved,
/// neither has the value.
pub proof fn lemma_version_counts_mutations(s: VersionedValue, us: Seq<Update>)
    requires
        forall|i: int| 0 <= i < us.len() ==> admissible(#[trigger] us[i]),
        s.version + us.len() <= u32::MAX,
    ensures
        run(s, us).version == s.version + mutations(s, us),
        mutations(s, us) <= us.len(),
        run(s, us).version == s.version ==> run(s, us) == s,
    decreases us.len(),
{
    if us.len() > 0 {
        let prefix = us.drop_last();
        assert forall|i: int| 0 <= i < prefix.len() implies admissible(#[trigger] prefix[i]) by {
            assert(prefix[i] == us[i]);
        }
        lemma_version_counts_mutations(s, prefix);
        assert(admissible(us[us.len() - 1]));
        lemma_step_version(run(s, prefix), us.last());
    }
}

/// A value that goes `V0 -> V1 -> V0` through two stores is caught: an
/// exchange that expects the first pair fails and reports the same value
/// under a version two higher, which a value-only compare would have missed.
pub proof fn lemma_aba_detected(s0: VersionedValue, v1: u32, desired: VersionedValue)
    requires
        s0.version + 2 <= u32::MAX,
    ensures
        ({
            let s2 = after_store(after_store(s0, v1), s0.value);
            &&& cas_outcome(s2, s0, desired) == Err::<VersionedValue, VersionedValue>(s2)
            &&& after_cas(s2, s0, desired) == s2
            &&& s2.value == s0.value
            &&& s2.version == s0.version + 2
            &&& conflict_kind(s0, s2) == CasConflict::Aba
        }),
{
}

/// Between two reads of one cell, where the version is the same, an exchange
/// that expects the first pair succeeds and installs the pair offered.
pub proof fn lemma_unchanged_pair_exchanges(
    s: VersionedValue,
    us: Seq<Update>,
    desired: VersionedValue,
)
    requires
        forall|i: int| 0 <= i < us.len() ==> admissible(#[trigger] us[i]),
        s.version + us.len() <= u32::MAX,
        run(s, us).version == s.version,
    ensures
        cas_outcome(run(s, us), s, desired) == Ok::<VersionedValue, VersionedValue>(desired),
        after_cas(run(s, us), s, desired) == desired,
{
    lemma_version_counts_mutations(s, us);
}

} // verus!
