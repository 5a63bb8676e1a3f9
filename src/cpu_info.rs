use vstd::prelude::*;

use crate::features::{
    catalogue, decoded_features, composite_bits, has_all, lemma_listed_step, listed_features,
    FeatureInfoFlags, FEATURE_COUNT,
};
use crate::registers::RawCpuId;
use crate::vendor::{
    all_printable, ascii_text, is_printable, lemma_ascii_is_utf8, string_from_utf8,
    vendor_byte_vec, vendor_bytes, DecodeError,
};

verus! {

/// Stepping: bits 0 to 3 of leaf-1 `eax`.
pub open spec fn stepping_of(eax: u32) -> u32 {
    eax & 0xF
}

/// Family: bits 8 to 11 of leaf-1 `eax`.
pub open spec fn family_of(eax: u32) -> u32 {
    (eax >> 8) & 0xF
}

/// Extended family: bits 20 to 27 of leaf-1 `eax`.
pub open spec fn ex_family_of(eax: u32) -> u32 {
    (eax >> 20) & 0xFF
}

/// Stateless namespace of the decoders. Every operation is a pure function
/// of the registers it is given.
pub struct CPUInfo;

impl CPUInfo {
    /// The vendor identification string of leaf 0: the bytes of `ebx`, `edx`
    /// and `ecx`, least significant first, read as printable ASCII. Fails at
    /// the first byte that is not printable ASCII.
    pub fn get_brand(leaf: RawCpuId) -> (r: Result<String, DecodeError>)
        ensures
            match r {
                Ok(s) => all_printable(vendor_bytes(leaf)) && s@ == ascii_text(vendor_bytes(leaf)),
                Err(e) => {
                    &&& e.position < 12
                    &&& e.byte == vendor_bytes(leaf)[e.position as int]
                    &&& !is_printable(e.byte)
                    &&& forall|j: int|
                        0 <= j < e.position ==> is_printable(#[trigger] vendor_bytes(leaf)[j])
                },
            },
    {
        let bytes = vendor_byte_vec(leaf);
        let mut i: usize = 0;
        while i < bytes.len()
            invariant
                bytes@ == vendor_bytes(leaf),
                i <= bytes.len(),
                forall|j: int| 0 <= j < i ==> is_printable(#[trigger] bytes@[j]),
            decreases bytes.len() - i,
        {
            let b = bytes[i];
            if b < 0x20 || b > 0x7E {
                return Err(DecodeError { position: i, byte: b });
            }
            i += 1;
        }
        proof {
            lemma_ascii_is_utf8(bytes@);
        }
        match string_from_utf8(bytes) {
            Some(s) => Ok(s),
            None => {
                // Unreachable: printable ASCII is well-formed UTF-8.
                assert(false);
                Err(DecodeError { position: 0, byte: 0 })
            },
        }
    }

    /// Whether every bit of `flag` is set in `feat`.
    pub fn has_feat(feat: FeatureInfoFlags, flag: FeatureInfoFlags) -> (r: bool)
        ensures
            r == has_all(feat@, flag@),
    {
        feat.contains(flag)
    }

    /// Names of the features that the registers of leaf 1 report, in
    /// catalogue order.
    pub fn get_cpu_feat(leaf: RawCpuId) -> (r: Vec<&'static str>)
        ensures
            r@ == decoded_features(composite_bits(leaf.ecx, leaf.edx)),
    {
        let feat = FeatureInfoFlags::from_registers(leaf.ecx, leaf.edx);
        let ghost bits = composite_bits(leaf.ecx, leaf.edx);
        let mut names: Vec<&'static str> = Vec::new();
        let mut i: usize = 0;
        while i < FEATURE_COUNT
            invariant
                i <= FEATURE_COUNT,
                feat@ == bits,
                names@ == listed_features(bits, i as nat),
            decreases FEATURE_COUNT - i,
        {
            let (name, mask) = catalogue(i);
            proof {
                lemma_listed_step(bits, i as nat);
            }
            if Self::has_feat(feat, FeatureInfoFlags::from_bits_retain(mask)) {
                names.push(name);
            }
            i += 1;
        }
        names
    }

    /// Stepping of the processor, from the registers of leaf 1.
    pub fn get_stepping(leaf: RawCpuId) -> (r: u32)
        ensures
            r == stepping_of(leaf.eax),
            r <= 0xF,
    {
        let eax = leaf.eax;
        assert(eax & 0xF <= 0xF) by (bit_vector);
        eax & 0xF
    }

    /// Family of the processor, from the registers of leaf 1.
    pub fn get_cpu_family(leaf: RawCpuId) -> (r: u32)
        ensures
            r == family_of(leaf.eax),
            r <= 0xF,
    {
        let eax = leaf.eax;
        assert((eax >> 8) & 0xF <= 0xF) by (bit_vector);
        (eax >> 8) & 0xF
    }

    /// Extended family of the processor, from the registers of leaf 1.
    pub fn get_cpu_ex_family(leaf: RawCpuId) -> (r: u32)
        ensures
            r == ex_family_of(leaf.eax),
            r <= 0xFF,
    {
        let eax = leaf.eax;
        assert((eax >> 20) & 0xFF <= 0xFF) by (bit_vector);
        (eax >> 20) & 0xFF
    }
}

} // verus!
