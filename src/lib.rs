//! Decoding of the processor identification registers: vendor string,
//! family / extended family / stepping, and the leaf-1 feature flags.
//!
//! Executing the identification instruction is left to the caller, which
//! hands the four output registers to the decoders here as a [`RawCpuId`].

pub mod cpu_info;
pub mod features;
pub mod registers;
pub mod vendor;

pub use cpu_info::CPUInfo;
pub use features::{
    catalogue, FeatureInfoFlags, ACPI, AES, APIC, AVX, CMPXCHG16B, CX8, DE, F16C, FEATURE_COUNT,
    FMA, FPU, FXSAVE, HYPERVISOR, MCE, MMX, MOVBE, MSR, MTRR, OSXSAVE, PAE, PCLMUL, PGE, POPCNT,
    PSE, RDRND, SEP, SSE, SSE2, SSE3, SSE41, SSE42, SSSE3, TM, TSC, VME, XSAVE,
};
pub use registers::{RawCpuId, FEATURE_LEAF, VENDOR_LEAF};
pub use vendor::{vendor_byte_vec, DecodeError};
