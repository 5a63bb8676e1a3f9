use cpuinfo::{
    catalogue, CPUInfo, DecodeError, FeatureInfoFlags, RawCpuId, AES, DE, FEATURE_COUNT, FPU,
    SSE, SSE42, TM,
};

fn leaf(eax: u32, ebx: u32, ecx: u32, edx: u32) -> RawCpuId {
    RawCpuId::new(eax, ebx, ecx, edx)
}

#[test]
fn signature_boundary_all_ones() {
    let raw = leaf(0xFFFF_FFFF, 0, 0, 0);
    assert_eq!(CPUInfo::get_stepping(raw), 0xF);
    assert_eq!(CPUInfo::get_cpu_family(raw), 0xF);
    assert_eq!(CPUInfo::get_cpu_ex_family(raw), 0xFF);
}

#[test]
fn signature_zero() {
    let raw = leaf(0, 0xFFFF_FFFF, 0xFFFF_FFFF, 0xFFFF_FFFF);
    assert_eq!(CPUInfo::get_stepping(raw), 0);
    assert_eq!(CPUInfo::get_cpu_family(raw), 0);
    assert_eq!(CPUInfo::get_cpu_ex_family(raw), 0);
}

#[test]
fn signature_fields_are_masked() {
    let raw = leaf(0x0ABC_DEF7, 0, 0, 0);
    assert_eq!(CPUInfo::get_stepping(raw), 0x7);
    assert_eq!(CPUInfo::get_cpu_family(raw), 0xE);
    assert_eq!(CPUInfo::get_cpu_ex_family(raw), 0xAB);
}

#[test]
fn vendor_genuine_intel() {
    let raw = leaf(0, 0x756E_6547, 0x6C65_746E, 0x4965_6E69);
    assert_eq!(CPUInfo::get_brand(raw), Ok(String::from("GenuineIntel")));
}

#[test]
fn vendor_authentic_amd() {
    let raw = leaf(0, 0x6874_7541, 0x444D_4163, 0x6974_6E65);
    assert_eq!(CPUInfo::get_brand(raw), Ok(String::from("AuthenticAMD")));
}

#[test]
fn vendor_spaces_are_printable() {
    let raw = leaf(0, 0x2020_2020, 0x2020_2020, 0x2020_2020);
    assert_eq!(CPUInfo::get_brand(raw), Ok(String::from("            ")));
}

#[test]
fn vendor_non_ascii_is_decode_error() {
    let raw = leaf(0, 0xFFFF_FFFF, 0x6C65_746E, 0x4965_6E69);
    assert_eq!(
        CPUInfo::get_brand(raw),
        Err(DecodeError { position: 0, byte: 0xFF })
    );
}

#[test]
fn vendor_control_byte_is_decode_error() {
    // Third byte of edx, the seventh byte overall, is a NUL.
    let raw = leaf(0, 0x756E_6547, 0x6C65_746E, 0x4900_6E69);
    assert_eq!(
        CPUInfo::get_brand(raw),
        Err(DecodeError { position: 6, byte: 0x00 })
    );
}

#[test]
fn vendor_delete_byte_is_decode_error() {
    let raw = leaf(0, 0x756E_6547, 0x7F65_746E, 0x4965_6E69);
    assert_eq!(
        CPUInfo::get_brand(raw),
        Err(DecodeError { position: 11, byte: 0x7F })
    );
}

#[test]
fn vendor_bytes_order_is_ebx_edx_ecx() {
    let raw = leaf(0, 0x0403_0201, 0x0C0B_0A09, 0x0807_0605);
    assert_eq!(
        cpuinfo::vendor_byte_vec(raw),
        vec![1u8, 2, 3, 4, 5, 6, 7, 8, 9, 10, 11, 12]
    );
}

#[test]
fn end_to_end_aes_and_sse42() {
    let ecx = (1u32 << 25) | (1u32 << 20);
    let raw = leaf(0x0009_06E9, 0, ecx, 0);
    assert_eq!(CPUInfo::get_cpu_feat(raw), vec!["AES", "SSE4.2"]);
    assert_eq!(CPUInfo::get_cpu_family(raw), 6);
    assert_eq!(CPUInfo::get_stepping(raw), 9);
    // Bits 20 to 27 of 0x000906E9 are all clear.
    assert_eq!(CPUInfo::get_cpu_ex_family(raw), 0);
}

#[test]
fn features_none_set() {
    assert!(CPUInfo::get_cpu_feat(leaf(0, 0, 0, 0)).is_empty());
}

#[test]
fn features_all_set_in_catalogue_order() {
    let raw = leaf(0, 0, 0xFFFF_FFFF, 0xFFFF_FFFF);
    let expected = vec![
        "ACPI", "AES", "APIC", "AVX", "CMPXCHG16B", "CX8", "F16C", "FMA", "FPU", "FXSAVE",
        "HYPERVISOR", "MCE", "MMX", "MOVBE", "MSR", "MTRR", "OSXSAVE", "PAE", "PCLMUL", "PGE",
        "POPCNT", "PSE", "RDRND", "SEP", "SSE", "SSE2", "SSE3", "SSE4.1", "SSE4.2", "SSSE3",
        "TM", "TSC", "VME", "XSAVE",
    ];
    assert_eq!(expected.len(), FEATURE_COUNT);
    assert_eq!(CPUInfo::get_cpu_feat(raw), expected);
}

#[test]
fn features_edx_goes_to_high_half() {
    // edx bits 0 (FPU), 25 (SSE) and 29 (TM); ecx empty.
    let raw = leaf(0, 0, 0, (1u32 << 0) | (1u32 << 25) | (1u32 << 29));
    assert_eq!(CPUInfo::get_cpu_feat(raw), vec!["FPU", "SSE", "TM"]);
}

#[test]
fn features_ecx_bit_25_is_aes_not_sse() {
    let raw = leaf(0, 0, 1u32 << 25, 0);
    assert_eq!(CPUInfo::get_cpu_feat(raw), vec!["AES"]);
}

#[test]
fn features_unlisted_bits_are_ignored() {
    // ecx bit 5 and edx bit 2 (DE) carry no catalogue name.
    let raw = leaf(0, 0, 1u32 << 5, 1u32 << 2);
    assert!(CPUInfo::get_cpu_feat(raw).is_empty());
}

#[test]
fn features_decoding_twice_gives_same_output() {
    let raw = leaf(0x0009_06E9, 0x1234_5678, 0x7FFA_FBFF, 0xBFEB_FBFF);
    let first = CPUInfo::get_cpu_feat(raw);
    let second = CPUInfo::get_cpu_feat(raw);
    assert_eq!(first, second);
    // Registers that feature decoding does not read change nothing.
    let other = leaf(0, 0, 0x7FFA_FBFF, 0xBFEB_FBFF);
    assert_eq!(CPUInfo::get_cpu_feat(other), first);
}

#[test]
fn features_output_follows_catalogue_order() {
    let raw = leaf(0, 0, 0x7FFA_FBFF, 0xBFEB_FBFF);
    let names = CPUInfo::get_cpu_feat(raw);
    let mut last: Option<usize> = None;
    for name in &names {
        let pos = (0..FEATURE_COUNT).position(|i| catalogue(i).0 == *name).unwrap();
        if let Some(p) = last {
            assert!(p < pos);
        }
        last = Some(pos);
    }
    let flags = FeatureInfoFlags::from_registers(0x7FFA_FBFF, 0xBFEB_FBFF);
    let expected: Vec<&str> = (0..FEATURE_COUNT)
        .map(catalogue)
        .filter(|(_, mask)| CPUInfo::has_feat(flags, FeatureInfoFlags::from_bits_retain(*mask)))
        .map(|(name, _)| name)
        .collect();
    assert_eq!(names, expected);
}

#[test]
fn has_feat_single_and_combined() {
    let flags = FeatureInfoFlags::from_registers(1u32 << 25, 1u32 << 0);
    assert!(CPUInfo::has_feat(flags, FeatureInfoFlags::from_bits_retain(AES)));
    assert!(CPUInfo::has_feat(flags, FeatureInfoFlags::from_bits_retain(FPU)));
    assert!(CPUInfo::has_feat(flags, FeatureInfoFlags::from_bits_retain(AES | FPU)));
    assert!(!CPUInfo::has_feat(flags, FeatureInfoFlags::from_bits_retain(SSE)));
    assert!(!CPUInfo::has_feat(flags, FeatureInfoFlags::from_bits_retain(AES | SSE42)));
    assert!(!CPUInfo::has_feat(flags, FeatureInfoFlags::from_bits_retain(DE)));
    assert!(CPUInfo::has_feat(flags, FeatureInfoFlags::from_bits_retain(0)));
}

#[test]
fn composite_value_layout() {
    let flags = FeatureInfoFlags::from_registers(0x1234_5678, 0x9ABC_DEF0);
    assert_eq!(flags.bits(), 0x9ABC_DEF0_1234_5678);
    assert!(flags.contains(FeatureInfoFlags::from_bits_retain(0x9ABC_DEF0_0000_0000)));
    assert_eq!(TM, 1u64 << 61);
}
