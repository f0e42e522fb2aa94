use vstd::prelude::*;

verus! {

/// Number of distinct values of the low (value) half of a packed word.
pub open spec fn half_range() -> int {
    0x1_0000_0000
}

/// The packed word of a pair: the version in the high 32 bits, the value in
/// the low 32 bits.
pub open spec fn packed_word(value: u32, version: u32) -> int {
    version as int * half_range() + value as int
}

/// The version that follows `v`. The counter is 32 bits wide and wraps from
/// `u32::MAX` back to 0; past that point a version can repeat, which reopens
/// the ABA hazard in theory.
pub open spec fn next_version(v: u32) -> u32 {
    if v == u32::MAX {
        0
    } else {
        (v + 1) as u32
    }
}

/// The pair that a packed word holds.
pub open spec fn unpacked(w: u64) -> VersionedValue {
    VersionedValue { value: (w as int % half_range()) as u32, version: (w as int / half_range()) as u32 }
}

/// The state of a cell after a `store` of `value` on state `s`.
pub open spec fn after_store(s: VersionedValue, value: u32) -> VersionedValue {
    VersionedValue { value, version: next_version(s.version) }
}

/// What a compare-and-swap of `expected` for `desired` reports on a cell in
/// state `current`: the new pair on a match, else the pair actually found.
pub open spec fn cas_outcome(
    current: VersionedValue,
    expected: VersionedValue,
    desired: VersionedValue,
) -> Result<VersionedValue, VersionedValue> {
    if current == expected {
        Ok(desired)
    } else {
        Err(current)
    }
}

/// The state of a cell in state `current` after that compare-and-swap.
pub open spec fn after_cas(
    current: VersionedValue,
    expected: VersionedValue,
    desired: VersionedValue,
) -> VersionedValue {
    match cas_outcome(current, expected, desired) {
        Ok(n) => n,
        Err(c) => c,
    }
}

/// Why a compare-and-swap against an expected pair failed.
#[derive(Debug, Clone, Copy, PartialEq, Eq, Structural)]
pub enum CasConflict {
    /// Same value, higher version: the value left and came back.
    Aba,
    /// Another write put a different value in place.
    ValueChanged,
    /// Same value and no higher version: no correct cell reports this.
    Anomaly,
}

/// The classification of a failed compare-and-swap that expected `expected`
/// and found `actual`.
pub open spec fn conflict_kind(expected: VersionedValue, actual: VersionedValue) -> CasConflict {
    if actual.value == expected.value && actual.version > expected.version {
        CasConflict::Aba
    } else if actual.value != expected.value {
        CasConflict::ValueChanged
    } else {
        CasConflict::Anomaly
    }
}

/// A value together with the version that identifies which write produced it.
#[derive(Debug, Clone, Copy, PartialEq, Eq, Structural)]
pub struct VersionedValue {
    pub value: u32,
    pub version: u32,
}

impl VersionedValue {
    pub fn new(value: u32, version: u32) -> (r: Self)
        ensures
            r.value == value,
            r.version == version,
    {
        Self { value, version }
    }

    /// The pair as one 64-bit word.
    pub fn pack(self) -> (r: u64)
        ensures
            r as int == packed_word(self.value, self.version),
    {
        let version = self.version;
        let value = self.value;
        let r = ((version as u64) << 32u64) | (value as u64);
        assert(((version as u64) << 32u64) | (value as u64)
            == (version as u64) * 0x1_0000_0000u64 + (value as u64)) by (bit_vector);
        r
    }

    /// The pair held by a packed word.
    pub fn unpack(packed: u64) -> (r: Self)
        ensures
            packed_word(r.value, r.version) == packed as int,
            r.version as int == packed as int / half_range(),
            r.value as int == packed as int % half_range(),
            r == unpacked(packed),
    {
        let version = (packed >> 32u64) as u32;
        let value = (packed & 0xFFFF_FFFFu64) as u32;
        assert(packed >> 32u64 == packed / 0x1_0000_0000u64) by (bit_vector);
        assert(packed & 0xFFFF_FFFFu64 == packed % 0x1_0000_0000u64) by (bit_vector);
        Self { value, version }
    }

    /// The pair that a `store` of `value` writes over this one: the new value
    /// under the next version.
    pub fn successor(self, value: u32) -> (r: Self)
        ensures
            r == after_store(self, value),
    {
        let version = if self.version == u32::MAX {
            0
        } else {
            self.version + 1
        };
        Self { value, version }
    }

    /// Whether a write happened between reading `earlier` and reading this
    /// pair: the version moved past the earlier one, whatever the value.
    pub fn changed_since(self, earlier: Self) -> (r: bool)
        ensures
            r == (self.version > earlier.version),
    {
        self.version > earlier.version
    }

    /// Why a compare-and-swap that expected this pair failed, given the pair
    /// that it found.
    pub fn classify_conflict(self, actual: Self) -> (r: CasConflict)
        ensures
            r == conflict_kind(self, actual),
    {
        if actual.value == self.value && actual.version > self.version {
            CasConflict::Aba
        } else if actual.value != self.value {
            CasConflict::ValueChanged
        } else {
            CasConflict::Anomaly
        }
    }
}

/// Packing loses nothing: the word of a pair unpacks to that pair.
pub proof fn lemma_unpack_pack(v: VersionedValue)
    ensures
        0 <= packed_word(v.value, v.version) <= u64::MAX,
        unpacked(packed_word(v.value, v.version) as u64) == v,
{
    let w = packed_word(v.value, v.version);
    assert(0 <= w <= u64::MAX) by (nonlinear_arith)
        requires
            w == v.version as int * 0x1_0000_0000 + v.value as int,
            0 <= v.version <= u32::MAX,
            0 <= v.value <= u32::MAX,
    ;
    assert(w / half_range() == v.version as int) by (nonlinear_arith)
        requires
            w == v.version as int * 0x1_0000_0000 + v.value as int,
            0 <= v.value < 0x1_0000_0000,
    ;
    assert(w % half_range() == v.value as int) by (nonlinear_arith)
        requires
            w == v.version as int * 0x1_0000_0000 + v.value as int,
            0 <= v.value < 0x1_0000_0000,
    ;
}

/// Two pairs share a packed word only when they are the same pair.
pub proof fn lemma_pack_injective(a: VersionedValue, b: VersionedValue)
    ensures
        packed_word(a.value, a.version) == packed_word(b.value, b.version) <==> a == b,
{
    lemma_unpack_pack(a);
    lemma_unpack_pack(b);
}

} // verus!
