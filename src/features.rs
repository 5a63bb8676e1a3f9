use vstd::prelude::*;

use crate::registers::RawCpuId;

verus! {

// One layout only: the leaf-1 `edx:ecx` pair. Flags reported by other leaves
// (LZCNT, AVX-VNNI-INT8, AVX-NE-CONVERT, PREFETCHI, ...) have no bit here, and
// CMPXCHG8B is the `CX8` bit of `edx`.

// Leaf-1 `ecx`, placed in the low half of the composite value.
pub const SSE3: u64 = 1 << 0;
pub const PCLMUL: u64 = 1 << 1;
pub const SSSE3: u64 = 1 << 9;
pub const FMA: u64 = 1 << 12;
pub const CMPXCHG16B: u64 = 1 << 13;
pub const SSE41: u64 = 1 << 19;
pub const SSE42: u64 = 1 << 20;
pub const MOVBE: u64 = 1 << 22;
pub const POPCNT: u64 = 1 << 23;
pub const AES: u64 = 1 << 25;
pub const XSAVE: u64 = 1 << 26;
pub const OSXSAVE: u64 = 1 << 27;
pub const AVX: u64 = 1 << 28;
pub const F16C: u64 = 1 << 29;
pub const RDRND: u64 = 1 << 30;
pub const HYPERVISOR: u64 = 1 << 31;

// Leaf-1 `edx`, placed in the high half of the composite value.
pub const FPU: u64 = 1 << 32;
pub const VME: u64 = 1 << 33;
pub const DE: u64 = 1 << 34;
pub const PSE: u64 = 1 << 35;
pub const TSC: u64 = 1 << 36;
pub const MSR: u64 = 1 << 37;
pub const PAE: u64 = 1 << 38;
pub const MCE: u64 = 1 << 39;
pub const CX8: u64 = 1 << 40;
pub const APIC: u64 = 1 << 41;
pub const SEP: u64 = 1 << 43;
pub const MTRR: u64 = 1 << 44;
pub const PGE: u64 = 1 << 45;
pub const ACPI: u64 = 1 << 54;
pub const MMX: u64 = 1 << 55;
pub const FXSAVE: u64 = 1 << 56;
pub const SSE: u64 = 1 << 57;
pub const SSE2: u64 = 1 << 58;
pub const TM: u64 = 1 << 61;

/// Number of entries in the feature catalogue.
pub const FEATURE_COUNT: usize = 34;

/// The composite feature value of leaf 1: `edx` in the high 32 bits,
/// `ecx` in the low 32 bits.
pub open spec fn composite_bits(ecx: u32, edx: u32) -> u64 {
    ((edx as u64) << 32) | (ecx as u64)
}

/// The feature catalogue: the name reported for entry `i` and the mask of
/// its bit in the composite value, in the order in which names are listed.
pub open spec fn catalogue_entry(i: nat) -> (&'static str, u64) {
    if i == 0 { ("ACPI", ACPI) }
    else if i == 1 { ("AES", AES) }
    else if i == 2 { ("APIC", APIC) }
    else if i == 3 { ("AVX", AVX) }
    else if i == 4 { ("CMPXCHG16B", CMPXCHG16B) }
    else if i == 5 { ("CX8", CX8) }
    else if i == 6 { ("F16C", F16C) }
    else if i == 7 { ("FMA", FMA) }
    else if i == 8 { ("FPU", FPU) }
    else if i == 9 { ("FXSAVE", FXSAVE) }
    else if i == 10 { ("HYPERVISOR", HYPERVISOR) }
    else if i == 11 { ("MCE", MCE) }
    else if i == 12 { ("MMX", MMX) }
    else if i == 13 { ("MOVBE", MOVBE) }
    else if i == 14 { ("MSR", MSR) }
    else if i == 15 { ("MTRR", MTRR) }
    else if i == 16 { ("OSXSAVE", OSXSAVE) }
    else if i == 17 { ("PAE", PAE) }
    else if i == 18 { ("PCLMUL", PCLMUL) }
    else if i == 19 { ("PGE", PGE) }
    else if i == 20 { ("POPCNT", POPCNT) }
    else if i == 21 { ("PSE", PSE) }
    else if i == 22 { ("RDRND", RDRND) }
    else if i == 23 { ("SEP", SEP) }
    else if i == 24 { ("SSE", SSE) }
    else if i == 25 { ("SSE2", SSE2) }
    else if i == 26 { ("SSE3", SSE3) }
    else if i == 27 { ("SSE4.1", SSE41) }
    else if i == 28 { ("SSE4.2", SSE42) }
    else if i == 29 { ("SSSE3", SSSE3) }
    else if i == 30 { ("TM", TM) }
    else if i == 31 { ("TSC", TSC) }
    else if i == 32 { ("VME", VME) }
    else { ("XSAVE", XSAVE) }
}

pub open spec fn feature_name(i: nat) -> &'static str {
    catalogue_entry(i).0
}

pub open spec fn feature_mask(i: nat) -> u64 {
    catalogue_entry(i).1
}

/// Every bit of `mask` is set in `bits`.
pub open spec fn has_all(bits: u64, mask: u64) -> bool {
    bits & mask == mask
}

/// Indices of the first `n` catalogue entries whose bit is set in `bits`,
/// in catalogue order.
pub open spec fn set_entries(bits: u64, n: nat) -> Seq<nat> {
    Seq::new(n, |k: int| k as nat).filter(|k: nat| has_all(bits, feature_mask(k)))
}

/// Names of the first `n` catalogue entries whose bit is set in `bits`, in
/// catalogue order.
pub open spec fn listed_features(bits: u64, n: nat) -> Seq<&'static str> {
    set_entries(bits, n).map_values(|k: nat| feature_name(k))
}

/// Names of all catalogue entries whose bit is set in `bits`, in catalogue
/// order.
pub open spec fn decoded_features(bits: u64) -> Seq<&'static str> {
    listed_features(bits, FEATURE_COUNT as nat)
}

/// Entry `i` of the feature catalogue.
pub fn catalogue(i: usize) -> (r: (&'static str, u64))
    requires
        i < FEATURE_COUNT,
    ensures
        r == catalogue_entry(i as nat),
{
    match i {
        0 => ("ACPI", ACPI),
        1 => ("AES", AES),
        2 => ("APIC", APIC),
        3 => ("AVX", AVX),
        4 => ("CMPXCHG16B", CMPXCHG16B),
        5 => ("CX8", CX8),
        6 => ("F16C", F16C),
        7 => ("FMA", FMA),
        8 => ("FPU", FPU),
        9 => ("FXSAVE", FXSAVE),
        10 => ("HYPERVISOR", HYPERVISOR),
        11 => ("MCE", MCE),
        12 => ("MMX", MMX),
        13 => ("MOVBE", MOVBE),
        14 => ("MSR", MSR),
        15 => ("MTRR", MTRR),
        16 => ("OSXSAVE", OSXSAVE),
        17 => ("PAE", PAE),
        18 => ("PCLMUL", PCLMUL),
        19 => ("PGE", PGE),
        20 => ("POPCNT", POPCNT),
        21 => ("PSE", PSE),
        22 => ("RDRND", RDRND),
        23 => ("SEP", SEP),
        24 => ("SSE", SSE),
        25 => ("SSE2", SSE2),
        26 => ("SSE3", SSE3),
        27 => ("SSE4.1", SSE41),
        28 => ("SSE4.2", SSE42),
        29 => ("SSSE3", SSSE3),
        30 => ("TM", TM),
        31 => ("TSC", TSC),
        32 => ("VME", VME),
        _ => ("XSAVE", XSAVE),
    }
}

/// A set of feature bits in the composite leaf-1 value.
#[derive(Clone, Copy, Debug, PartialEq, Eq, Structural)]
pub struct FeatureInfoFlags {
    bits: u64,
}

impl View for FeatureInfoFlags {
    type V = u64;

    closed spec fn view(&self) -> u64 {
        self.bits
    }
}

impl FeatureInfoFlags {
    /// The set holding exactly the bits of `bits`.
    pub fn from_bits_retain(bits: u64) -> (r: FeatureInfoFlags)
        ensures
            r@ == bits,
    {
        FeatureInfoFlags { bits }
    }

    /// The composite leaf-1 value: `edx` high, `ecx` low.
    pub fn from_registers(ecx: u32, edx: u32) -> (r: FeatureInfoFlags)
        ensures
            r@ == composite_bits(ecx, edx),
    {
        FeatureInfoFlags { bits: ((edx as u64) << 32) | (ecx as u64) }
    }

    pub fn bits(&self) -> (r: u64)
        ensures
            r == self@,
    {
        self.bits
    }

    /// Every bit of `other` is set in `self`.
    pub fn contains(&self, other: FeatureInfoFlags) -> (r: bool)
        ensures
            r == has_all(self@, other@),
    {
        self.bits & other.bits == other.bits
    }
}

/// One more catalogue entry: its index is appended exactly when its bit is set.
proof fn lemma_entries_step(bits: u64, n: nat)
    ensures
        set_entries(bits, n + 1) == (if has_all(bits, feature_mask(n)) {
            set_entries(bits, n).push(n)
        } else {
            set_entries(bits, n)
        }),
{
    let idx = Seq::new(n + 1, |k: int| k as nat);
    assert(idx.drop_last() =~= Seq::new(n, |k: int| k as nat));
    assert(idx.last() == n);
    reveal(Seq::filter);
}

/// One more catalogue entry: its name is appended exactly when its bit is set.
pub proof fn lemma_listed_step(bits: u64, n: nat)
    ensures
        listed_features(bits, n + 1) == (if has_all(bits, feature_mask(n)) {
            listed_features(bits, n).push(feature_name(n))
        } else {
            listed_features(bits, n)
        }),
{
    lemma_entries_step(bits, n);
    if has_all(bits, feature_mask(n)) {
        assert(listed_features(bits, n + 1) =~= listed_features(bits, n).push(feature_name(n)));
    }
}

/// The indices of the first `n` entries whose bit is set, strictly
/// increasing, each below `n`, and none missing.
proof fn lemma_entries_ordered(bits: u64, n: nat)
    ensures
        forall|k: int|
            0 <= k < set_entries(bits, n).len() ==> {
                &&& #[trigger] set_entries(bits, n)[k] < n
                &&& has_all(bits, feature_mask(set_entries(bits, n)[k]))
            },
        forall|k: int, l: int|
            0 <= k < l < set_entries(bits, n).len() ==> #[trigger] set_entries(bits, n)[k]
                < #[trigger] set_entries(bits, n)[l],
        forall|i: nat| i < n && has_all(bits, feature_mask(i)) ==> #[trigger] set_entries(
            bits,
            n,
        ).contains(i),
    decreases n,
{
    if n == 0 {
        reveal(Seq::filter);
        assert(set_entries(bits, 0) =~= Seq::<nat>::empty());
    } else {
        let m = (n - 1) as nat;
        lemma_entries_ordered(bits, m);
        lemma_entries_step(bits, m);
        let prev = set_entries(bits, m);
        let cur = set_entries(bits, n);
        assert forall|i: nat| i < n && has_all(bits, feature_mask(i)) implies #[trigger] cur.contains(i) by {
            if i < m {
                assert(prev.contains(i));
                let k = choose|k: int| 0 <= k < prev.len() && prev[k] == i;
                assert(cur[k] == i);
            } else {
                assert(cur[cur.len() - 1] == i);
            }
        }
    }
}

/// The decoded names are the catalogue's names of exactly the entries whose
/// bit is set, listed in catalogue order: the `k`-th name belongs to the
/// `k`-th set entry, and set entries come in increasing catalogue index.
pub proof fn lemma_features_in_catalogue_order(bits: u64)
    ensures
        decoded_features(bits).len() == set_entries(bits, FEATURE_COUNT as nat).len(),
        forall|k: int|
            0 <= k < decoded_features(bits).len() ==> {
                &&& #[trigger] decoded_features(bits)[k] == feature_name(
                    set_entries(bits, FEATURE_COUNT as nat)[k],
                )
                &&& set_entries(bits, FEATURE_COUNT as nat)[k] < FEATURE_COUNT
                &&& has_all(bits, feature_mask(set_entries(bits, FEATURE_COUNT as nat)[k]))
            },
        forall|k: int, l: int|
            0 <= k < l < decoded_features(bits).len() ==> #[trigger] set_entries(
                bits,
                FEATURE_COUNT as nat,
            )[k] < #[trigger] set_entries(bits, FEATURE_COUNT as nat)[l],
        forall|i: nat|
            i < FEATURE_COUNT && has_all(bits, feature_mask(i)) ==> #[trigger] set_entries(
                bits,
                FEATURE_COUNT as nat,
            ).contains(i),
{
    lemma_entries_ordered(bits, FEATURE_COUNT as nat);
}

/// Bit position of catalogue entry `i` in the composite value.
pub open spec fn feature_position(i: nat) -> u64 {
    if i == 0 { 54 }
    else if i == 1 { 25 }
    else if i == 2 { 41 }
    else if i == 3 { 28 }
    else if i == 4 { 13 }
    else if i == 5 { 40 }
    else if i == 6 { 29 }
    else if i == 7 { 12 }
    else if i == 8 { 32 }
    else if i == 9 { 56 }
    else if i == 10 { 31 }
    else if i == 11 { 39 }
    else if i == 12 { 55 }
    else if i == 13 { 22 }
    else if i == 14 { 37 }
    else if i == 15 { 44 }
    else if i == 16 { 27 }
    else if i == 17 { 38 }
    else if i == 18 { 1 }
    else if i == 19 { 45 }
    else if i == 20 { 23 }
    else if i == 21 { 35 }
    else if i == 22 { 30 }
    else if i == 23 { 43 }
    else if i == 24 { 57 }
    else if i == 25 { 58 }
    else if i == 26 { 0 }
    else if i == 27 { 19 }
    else if i == 28 { 20 }
    else if i == 29 { 9 }
    else if i == 30 { 61 }
    else if i == 31 { 36 }
    else if i == 32 { 33 }
    else { 26 }
}

/// Every catalogue entry is one bit of the composite value, and no two
/// entries share a bit: each name stands for exactly one position, and a
/// position carries at most one name.
pub proof fn lemma_catalogue_one_bit_each(i: nat, j: nat)
    requires
        i < FEATURE_COUNT,
        j < FEATURE_COUNT,
        i != j,
    ensures
        feature_position(i) < 64,
        feature_mask(i) == 1u64 << feature_position(i),
        feature_mask(i) & feature_mask(j) == 0,
{
    let p = feature_position(i);
    let q = feature_position(j);
    assert(p != q);
    assert(feature_mask(i) == 1u64 << p);
    assert(feature_mask(j) == 1u64 << q);
    assert((1u64 << p) & (1u64 << q) == 0) by (bit_vector)
        requires
            p < 64,
            q < 64,
            p != q,
    ;
}

/// Feature decoding is a function of the registers it reads: two register
/// quadruples that agree on `ecx` and `edx`, and so the same quadruple given
/// twice, decode to the same names in the same order.
pub proof fn lemma_feature_decoding_deterministic(a: RawCpuId, b: RawCpuId)
    requires
        a.ecx == b.ecx,
        a.edx == b.edx,
    ensures
        decoded_features(composite_bits(a.ecx, a.edx)) == decoded_features(
            composite_bits(b.ecx, b.edx),
        ),
{
}

} // verus!
