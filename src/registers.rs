use vstd::prelude::*;

verus! {

/// Leaf that reports the vendor identification string.
pub const VENDOR_LEAF: u32 = 0;

/// Leaf that reports the processor signature and the feature flags.
pub const FEATURE_LEAF: u32 = 1;

/// The four output registers of one execution of the identification
/// instruction, exactly as the processor produced them.
#[derive(Clone, Copy, Debug, PartialEq, Eq, Structural)]
pub struct RawCpuId {
    pub eax: u32,
    pub ebx: u32,
    pub ecx: u32,
    pub edx: u32,
}

impl RawCpuId {
    pub fn new(eax: u32, ebx: u32, ecx: u32, edx: u32) -> (r: RawCpuId)
        ensures
            r == (RawCpuId { eax, ebx, ecx, edx }),
    {
        RawCpuId { eax, ebx, ecx, edx }
    }
}

} // verus!
