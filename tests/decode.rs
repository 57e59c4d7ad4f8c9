use cpudetect::cache::{CacheInfo, CacheLevel, CacheType};
use cpudetect::cpuid::{CpuidResult, LeafLimits, Register, RegisterState};
use cpudetect::features::{CpuFeatures, FeatureCategory, FeatureTables, FeatureSet, FPU, SSE2, HTT, PSN};
use cpudetect::frequency::FrequencyInfo;
use cpudetect::address::AddressInfo;
use cpudetect::topology::CpuTopology;
use cpudetect::tlb::{decode_assoc, decode_assoc_l2, TlbInfo};
use cpudetect::vendor::{extract_family, extract_model, read_brand_string, read_vendor_string, CpuVendor, VendorInfo};
use cpudetect::CpuInfo;

fn regs(eax: u32, ebx: u32, ecx: u32, edx: u32) -> CpuidResult {
    CpuidResult { eax, ebx, ecx, edx }
}

fn state(entries: &[(u32, u32, CpuidResult)]) -> RegisterState {
    let mut s = RegisterState::new();
    for (leaf, subleaf, r) in entries {
        s.set(*leaf, *subleaf, *r);
    }
    s
}

fn word(s: &[u8]) -> u32 {
    u32::from_le_bytes([s[0], s[1], s[2], s[3]])
}

#[test]
fn gate_rejects_leaves_above_maximum() {
    let limits = LeafLimits { max_standard: 0xD, max_extended: 0x8000_0008 };
    assert!(limits.is_supported(0));
    assert!(limits.is_supported(0xD));
    assert!(!limits.is_supported(0xE));
    assert!(!limits.is_supported(0x7FFF_FFFF));
    assert!(limits.is_supported(0x8000_0008));
    assert!(!limits.is_supported(0x8000_0009));
    assert!(!limits.is_supported(0xFFFF_FFFF));
}

#[test]
fn gate_is_read_from_leaf_zero_and_extended_base() {
    let s = state(&[(0, 0, regs(0x16, 0, 0, 0)), (0x8000_0000, 0, regs(0x8000_0021, 0, 0, 0))]);
    let limits = LeafLimits::read(&s);
    assert_eq!(limits, LeafLimits { max_standard: 0x16, max_extended: 0x8000_0021 });
}

#[test]
fn register_state_answers_zero_when_unset_and_latest_when_set_twice() {
    let mut s = RegisterState::new();
    assert_eq!(s.query(7, 0), regs(0, 0, 0, 0));
    s.set(7, 0, regs(1, 2, 3, 4));
    s.set(7, 1, regs(9, 9, 9, 9));
    s.set(7, 0, regs(5, 6, 7, 8));
    assert_eq!(s.query(7, 0), regs(5, 6, 7, 8));
    assert_eq!(s.query(7, 1), regs(9, 9, 9, 9));
    assert_eq!(s.query(7, 2), regs(0, 0, 0, 0));
}

#[test]
fn extract_bits_matches_manual_formula() {
    let mut seed: u64 = 0x1234_5678_9ABC_DEF0;
    for _ in 0..2000 {
        seed = seed.wrapping_mul(6364136223846793005).wrapping_add(1442695040888963407);
        let value = (seed >> 32) as u32;
        let a = ((seed >> 8) % 32) as u32;
        let b = ((seed >> 16) % 32) as u32;
        let (start, end) = if a <= b { (a, b) } else { (b, a) };
        let r = regs(value, 0, 0, 0);
        let manual = (((value >> start) as u64) & ((1u64 << (end - start + 1)) - 1)) as u32;
        assert_eq!(r.extract_bits(Register::Eax, start, end), manual);
    }
    let r = regs(0xDEAD_BEEF, 0, 0, 0);
    assert_eq!(r.extract_bits(Register::Eax, 0, 31), 0xDEAD_BEEF);
    assert_eq!(r.extract_bits(Register::Eax, 4, 7), 0xE);
    assert_eq!(r.extract_bits(Register::Eax, 31, 31), 1);
}

#[test]
fn is_bit_set_tests_each_register() {
    let r = regs(1, 1 << 5, 1 << 31, 0);
    assert!(r.is_bit_set(Register::Eax, 0));
    assert!(!r.is_bit_set(Register::Eax, 1));
    assert!(r.is_bit_set(Register::Ebx, 5));
    assert!(r.is_bit_set(Register::Ecx, 31));
    assert!(!r.is_bit_set(Register::Edx, 31));
}

#[test]
fn deterministic_cache_size() {
    let sub0 = regs(0x21, (7 << 22) | 63, 63, 0);
    let c = CacheInfo::from_deterministic(sub0).unwrap();
    assert_eq!(c.size, 32768);
    assert_eq!(c.ways, 8);
    assert_eq!(c.line_size, 64);
    assert_eq!(c.sets, 64);
    assert_eq!(c.level, CacheLevel::L1);
    assert_eq!(c.cache_type, CacheType::Data);
    assert_eq!(c.shared_by, 1);
}

#[test]
fn deterministic_walk_stops_at_type_zero() {
    let s = state(&[
        (0, 0, regs(4, 0, 0, 0)),
        (4, 0, regs(0x21, (7 << 22) | 63, 63, 0)),
        (4, 1, regs(0x22, (7 << 22) | 63, 63, 0)),
        (4, 2, regs(0x43 | (1 << 14), (15 << 22) | 63, 1023, 0)),
        (4, 3, regs(0, 0, 0, 0)),
        (4, 4, regs(0x63, (15 << 22) | 63, 8191, 0)),
    ]);
    let limits = LeafLimits::read(&s);
    let caches = CacheInfo::decode_all(&s, &limits);
    assert_eq!(caches.len(), 3);
    assert_eq!(caches[1].cache_type, CacheType::Instruction);
    assert_eq!(caches[2].level, CacheLevel::L2);
    assert_eq!(caches[2].cache_type, CacheType::Unified);
    assert_eq!(caches[2].size, 16 * 64 * 1024);
    assert_eq!(caches[2].shared_by, 2);
}

#[test]
fn deterministic_subleaf_with_unknown_level_is_skipped() {
    let s = state(&[
        (0, 0, regs(4, 0, 0, 0)),
        (4, 0, regs(0x01, 0, 0, 0)),
        (4, 1, regs(0x21, 0, 0, 0)),
    ]);
    let caches = CacheInfo::decode_all(&s, &LeafLimits::read(&s));
    assert_eq!(caches.len(), 1);
    assert_eq!(caches[0].size, 1);
}

#[test]
fn legacy_caches_derive_sets_by_division() {
    let s = state(&[
        (0, 0, regs(1, 0, 0, 0)),
        (0x8000_0000, 0, regs(0x8000_0006, 0, 0, 0)),
        (0x8000_0005, 0, regs(0, 0, (32 << 24) | (8 << 16) | 64, (64 << 24) | (4 << 16) | 64)),
        (0x8000_0006, 0, regs(0, 0, (512 << 16) | (8 << 12) | 64, (64 << 18) | (0xF << 12) | 64)),
    ]);
    let caches = CacheInfo::decode_all(&s, &LeafLimits::read(&s));
    assert_eq!(caches.len(), 4);
    assert_eq!(caches[0].size, 32 * 1024);
    assert_eq!(caches[0].sets, 64);
    assert_eq!(caches[1].cache_type, CacheType::Instruction);
    assert_eq!(caches[1].sets, 256);
    assert_eq!(caches[2].level, CacheLevel::L2);
    assert_eq!(caches[2].size, 512 * 1024);
    assert_eq!(caches[2].sets, 1024);
    assert_eq!(caches[3].level, CacheLevel::L3);
    assert_eq!(caches[3].size, 64 * 512 * 1024);
    assert_eq!(caches[3].ways, 0xF);
    assert_eq!(caches[3].sets, 34952);
}

#[test]
fn no_cache_leaf_gives_no_caches() {
    let s = state(&[(0, 0, regs(2, 0, 0, 0))]);
    assert!(CacheInfo::decode_all(&s, &LeafLimits::read(&s)).is_empty());
}

#[test]
fn topology_from_enumeration_leaf() {
    let s = state(&[
        (0, 0, regs(0xB, 0, 0, 0)),
        (1, 0, regs(0, 0, 0, 1 << 28)),
        (0xB, 0, regs(1, 2, 1 << 8, 0)),
        (0xB, 1, regs(4, 16, 2 << 8, 0)),
    ]);
    let t = CpuTopology::decode(&s, &LeafLimits::read(&s));
    assert_eq!(t.physical_cores, 8);
    assert_eq!(t.threads_per_core, 2);
    assert_eq!(t.logical_processors, 16);
    assert!(t.has_hyperthreading);
    assert!(!t.hybrid);
}

#[test]
fn topology_fallback_uses_legacy_counts() {
    let s = state(&[
        (0, 0, regs(7, 0, 0, 0)),
        (1, 0, regs(0, 8 << 16, 0, 1 << 28)),
        (4, 0, regs(3 << 26, 0, 0, 0)),
        (7, 0, regs(0, 0, 0, 1 << 15)),
    ]);
    let t = CpuTopology::decode(&s, &LeafLimits::read(&s));
    assert_eq!(t.logical_processors, 8);
    assert_eq!(t.physical_cores, 4);
    assert_eq!(t.threads_per_core, 2);
    assert!(t.hybrid);
}

#[test]
fn topology_fallback_single_logical_without_hyperthreading() {
    let s = state(&[
        (0, 0, regs(4, 0, 0, 0)),
        (1, 0, regs(0, 1 << 16, 0, 0)),
        (4, 0, regs(5 << 26, 0, 0, 0)),
    ]);
    let t = CpuTopology::decode(&s, &LeafLimits::read(&s));
    assert_eq!(t.logical_processors, 6);
    assert_eq!(t.physical_cores, 6);
    assert_eq!(t.threads_per_core, 1);
}

#[test]
fn vendor_signature_folds_extended_model() {
    assert_eq!(extract_family(0x0009_06EA), 6);
    assert_eq!(extract_model(0x0009_06EA), 0x9E);
    assert_eq!(extract_family(0x00A2_0F10), 0xF + 0xA);
    assert_eq!(extract_model(0x00A2_0F10), 0x21);
    assert_eq!(extract_model(0x0001_0571), 0x7);
    let s = state(&[(0, 0, regs(1, 0, 0, 0)), (1, 0, regs(0x0009_06EA, 0, 0, 0))]);
    let v = VendorInfo::decode(&s, &LeafLimits::read(&s));
    assert_eq!(v.family, 6);
    assert_eq!(v.model, 0x9E);
    assert_eq!(v.stepping, 0xA);
}

#[test]
fn vendor_strings_map_to_vendors() {
    let cases: [(&[u8; 12], CpuVendor); 5] = [
        (b"GenuineIntel", CpuVendor::Intel),
        (b"AuthenticAMD", CpuVendor::Amd),
        (b"HygonGenuine", CpuVendor::Hygon),
        (b"  Shanghai  ", CpuVendor::Zhaoxin),
        (b"GenuineIotel", CpuVendor::Unknown),
    ];
    for (text, vendor) in cases.iter() {
        let id = regs(0xD, word(&text[0..4]), word(&text[8..12]), word(&text[4..8]));
        let s = state(&[(0, 0, id)]);
        let v = VendorInfo::decode(&s, &LeafLimits::read(&s));
        assert_eq!(v.vendor, *vendor);
        assert_eq!(v.vendor_string, std::str::from_utf8(&text[..]).unwrap());
        assert_eq!(read_vendor_string(&id), std::str::from_utf8(&text[..]).unwrap());
    }
    assert_eq!(CpuVendor::Intel.as_str(), "GenuineIntel");
    assert_eq!(CpuVendor::Zhaoxin.as_str(), "  Shanghai  ");
    assert_eq!(CpuVendor::Unknown.as_str(), "Unknown");
}

#[test]
fn brand_string_is_trimmed() {
    let mut bytes = [0u8; 48];
    let text = b"   Intel(R) Core(TM) i7  ";
    bytes[..text.len()].copy_from_slice(text);
    let mut entries = vec![(0x8000_0000, 0, regs(0x8000_0004, 0, 0, 0))];
    for i in 0..3 {
        let b = &bytes[i * 16..i * 16 + 16];
        entries.push((0x8000_0002 + i as u32, 0, regs(word(&b[0..4]), word(&b[4..8]), word(&b[8..12]), word(&b[12..16]))));
    }
    let s = state(&entries);
    let limits = LeafLimits::read(&s);
    assert_eq!(read_brand_string(&s, &limits), "Intel(R) Core(TM) i7");
    let unsupported = LeafLimits { max_standard: 0, max_extended: 0x8000_0003 };
    assert_eq!(read_brand_string(&s, &unsupported), "");
}

#[test]
fn legacy_l2_tlb_associativity_codes() {
    assert_eq!(decode_assoc_l2(0x6), "8-way");
    assert_eq!(decode_assoc_l2(0xF), "Fully");
    assert_eq!(decode_assoc_l2(0x0), "Disabled");
    assert_eq!(decode_assoc_l2(0x2), "2-way");
    assert_eq!(decode_assoc_l2(0xE), "128-way");
    assert_eq!(decode_assoc_l2(0x3), "3-way");
}

#[test]
fn legacy_l1_tlb_associativity_codes() {
    assert_eq!(decode_assoc(0), "Reserved");
    assert_eq!(decode_assoc(1), "1-way");
    assert_eq!(decode_assoc(0xFF), "Fully");
    assert_eq!(decode_assoc(64), "64-way");
}

#[test]
fn tlb_legacy_and_deterministic_entries() {
    let s = state(&[
        (0, 0, regs(0x18, 0, 0, 0)),
        (0x8000_0000, 0, regs(0x8000_0006, 0, 0, 0)),
        (0x8000_0005, 0, regs((0xFF << 24) | (64 << 16), (0xFF << 8) | 64, 0, 0)),
        (0x8000_0006, 0, regs(0, (0x6 << 28) | (2048 << 16), 0, 0)),
        (0x18, 0, regs(3, (8 << 16) | 1, 32, 1 | (2 << 5))),
        (0x18, 1, regs(1, 0, 0, 0)),
        (0x18, 2, regs(1, 0xFFFF << 16, 1, 3 | (1 << 5))),
    ]);
    let t = TlbInfo::decode(&s, &LeafLimits::read(&s));
    assert_eq!(t.entries.len(), 5);
    assert_eq!(t.entries[0].page_size, "2M/4M");
    assert_eq!(t.entries[0].tlb_type, "L1 Data");
    assert_eq!(t.entries[0].entries, 64);
    assert_eq!(t.entries[0].associativity, "Fully");
    assert_eq!(t.entries[1].page_size, "4K");
    assert_eq!(t.entries[1].tlb_type, "L1 Instruction");
    assert_eq!(t.entries[2].tlb_type, "L2 Data");
    assert_eq!(t.entries[2].entries, 2048);
    assert_eq!(t.entries[2].associativity, "8-way");
    assert_eq!(t.entries[3].tlb_type, "L2 Data");
    assert_eq!(t.entries[3].page_size, "2M");
    assert_eq!(t.entries[3].entries, 256);
    assert_eq!(t.entries[3].associativity, "8-way");
    assert_eq!(t.entries[4].tlb_type, "L1 Unified");
    assert_eq!(t.entries[4].associativity, "Fully");
    assert_eq!(t.entries[4].entries, 0xFFFF);
}

#[test]
fn deterministic_tlb_walk_stops_at_zero_first_register() {
    let s = state(&[
        (0, 0, regs(0x18, 0, 0, 0)),
        (0x18, 0, regs(0, (4 << 16), 16, 1 | (1 << 5))),
        (0x18, 1, regs(1, (4 << 16), 16, 1 | (1 << 5))),
    ]);
    assert!(TlbInfo::decode(&s, &LeafLimits::read(&s)).entries.is_empty());
}

#[test]
fn frequency_and_tsc() {
    let s = state(&[
        (0, 0, regs(0x16, 0, 0, 0)),
        (0x15, 0, regs(2, 100, 0, 0)),
        (0x16, 0, regs(3000, 0x1_1194, 100, 0)),
    ]);
    let f = FrequencyInfo::decode(&s, &LeafLimits::read(&s));
    assert_eq!(f.base_mhz, Some(3000));
    assert_eq!(f.max_mhz, Some(0x1194));
    assert_eq!(f.bus_mhz, Some(100));
    assert_eq!(f.tsc_mhz, Some(1200));
    let s2 = state(&[(0, 0, regs(0x15, 0, 0, 0)), (0x15, 0, regs(2, 176, 38_400_000, 0))]);
    let f2 = FrequencyInfo::decode(&s2, &LeafLimits::read(&s2));
    assert_eq!(f2.tsc_mhz, Some(3379));
    assert_eq!(f2.base_mhz, None);
}

#[test]
fn address_widths_and_defaults() {
    let s = state(&[
        (0x8000_0000, 0, regs(0x8000_0008, 0, 0, 0)),
        (0x8000_0008, 0, regs(0x0030_3027, 0, 0, 0)),
    ]);
    let a = AddressInfo::decode(&s, &LeafLimits::read(&s));
    assert_eq!(a.physical_bits, 39);
    assert_eq!(a.virtual_bits, 48);
    assert_eq!(a.guest_physical_bits, Some(48));
    let none = RegisterState::new();
    let d = AddressInfo::decode(&none, &LeafLimits::read(&none));
    assert_eq!(d, AddressInfo { physical_bits: 36, virtual_bits: 48, guest_physical_bits: None });
}

#[test]
fn features_read_through_tables() {
    let tables = FeatureTables::standard();
    let s = state(&[
        (0, 0, regs(0xA, 0, 0, 0)),
        (1, 0, regs(0, 0, 1 << 25, (1 << 0) | (1 << 26) | (1 << 28) | (1 << 18))),
        (0xA, 0, regs(5, 1 << 1, 0, 0)),
    ]);
    let f = CpuFeatures::decode(&s, &LeafLimits::read(&s), &tables);
    assert!(f.has_feature("AES"));
    assert!(!f.has_feature("SSE3"));
    assert!(!f.has_feature("NO_SUCH_FEATURE"));
    assert!(f.has_feature("PERFMON_V5"));
    assert!(f.basic.contains(FPU | SSE2 | HTT));
    assert!(!f.basic.contains(PSN));
    assert_eq!(f.basic, FeatureSet { bits: FPU | SSE2 | HTT });
    let crypto = f.features_by_category(FeatureCategory::Cryptography);
    assert_eq!(crypto.len(), 1);
    assert_eq!(crypto[0].name, "AES");
    let names: Vec<&str> = f.all_supported().iter().map(|x| x.name.as_str()).collect();
    assert!(names.contains(&"AES"));
    assert!(names.iter().all(|n| *n != "SSE3"));
    assert_eq!(f.all_features.iter().filter(|x| x.name == "SSE3").count(), 1);
}

#[test]
fn performance_event_table_has_inverted_polarity() {
    let tables = FeatureTables::standard();
    let first = tables.perfmon_ebx[0];
    let s_clear = state(&[(0, 0, regs(0xA, 0, 0, 0)), (0xA, 0, regs(0, 0, 0, 0))]);
    let s_set = state(&[(0, 0, regs(0xA, 0, 0, 0)), (0xA, 0, regs(0, 1 << first.bit, 0, 0))]);
    let clear = CpuFeatures::decode(&s_clear, &LeafLimits::read(&s_clear), &tables);
    let set = CpuFeatures::decode(&s_set, &LeafLimits::read(&s_set), &tables);
    assert!(clear.has_feature(first.name));
    assert!(!set.has_feature(first.name));
}

#[test]
fn unsupported_leaves_leave_defaults() {
    let tables = FeatureTables::standard();
    let s = state(&[(0, 0, regs(0, 0, 0, 0)), (1, 0, regs(0xFFFF_FFFF, 0xFFFF_FFFF, 0xFFFF_FFFF, 0xFFFF_FFFF))]);
    let f = CpuFeatures::decode(&s, &LeafLimits::read(&s), &tables);
    assert_eq!(f.basic.bits(), 0);
    assert!(f.all_supported().is_empty());
}

#[test]
fn decoding_twice_gives_identical_reports() {
    let tables = FeatureTables::standard();
    let s = state(&[
        (0, 0, regs(0x18, 0x756E_6547, 0x6C65_746E, 0x4965_6E69)),
        (1, 0, regs(0x0009_06EA, 0x0010_0800, 0x7FFA_FBBF, 0xBFEB_FBFF)),
        (4, 0, regs(0x21, (7 << 22) | 63, 63, 0)),
        (7, 0, regs(0, 0x029C_6FBF, 0x4000_0000, 0xBC00_0400)),
        (0xB, 0, regs(1, 2, 1 << 8, 0)),
        (0xB, 1, regs(4, 8, 2 << 8, 0)),
        (0x8000_0000, 0, regs(0x8000_0008, 0, 0, 0)),
        (0x8000_0008, 0, regs(0x3027, 0, 0, 0)),
    ]);
    let a = CpuInfo::decode(&s, &tables);
    let b = CpuInfo::decode(&s, &tables);
    assert_eq!(a, b);
    assert_eq!(a.vendor.vendor, CpuVendor::Intel);
    assert_eq!(a.topology.logical_processors, 8);
}

#[test]
fn detect_reads_this_processor() {
    let info = CpuInfo::detect();
    assert_eq!(info.platform.max_cpuid_leaf, cpudetect::cpuid::max_cpuid_leaf());
    assert_eq!(info.vendor.vendor_string.chars().count(), 12);
    assert!(cpudetect::cpuid::is_leaf_supported(0));
}

#[test]
fn vendor_string_replaces_invalid_utf8() {
    let id = regs(0, 0x756E_65FF, 0x6C65_746E, 0x4965_6E69);
    let s = read_vendor_string(&id);
    assert!(s.contains('\u{FFFD}'));
    assert!(s.ends_with("uineIntel"));
}

#[test]
fn presence_and_version_flags() {
    let tables = FeatureTables::standard();
    let s = state(&[
        (0, 0, regs(0x24, 0, 0, 0)),
        (0x10, 0, regs(0, (1 << 1) | (1 << 2), 0, 0)),
        (0x10, 1, regs(7, 0, 1 << 2, 0)),
        (0x10, 2, regs(0, 0, 0, 0)),
        (0x12, 0, regs(0, 1, 0, 0)),
        (0x12, 1, regs(0, 0, 0, 9)),
        (0x18, 0, regs(0, 0, 0, 0)),
        (0x24, 0, regs(0, 12 | (1 << 17), 0, 0)),
    ]);
    let f = CpuFeatures::decode(&s, &LeafLimits::read(&s), &tables);
    assert!(f.has_feature("RDT_L3_CAT"));
    assert!(f.has_feature("RDT_L3_CDP"));
    assert!(!f.has_feature("RDT_L2_CAT"));
    assert!(f.has_feature("SGX_MISCSELECT"));
    assert!(f.has_feature("SGX_ATTRIBUTES"));
    assert!(!f.has_feature("DAT_ENUM"));
    assert!(f.has_feature("AVX10_V12"));
    assert!(f.has_feature("AVX10_256"));
    assert!(!f.has_feature("AVX10_512"));
    assert!(f.has_feature("TOPOLOGY_V2"));
    assert!(f.has_feature("TMUL_INFO"));
}

fn brand_state(text: &[u8]) -> RegisterState {
    let mut bytes = [0u8; 48];
    bytes[..text.len()].copy_from_slice(text);
    let mut entries = vec![(0x8000_0000, 0, regs(0x8000_0004, 0, 0, 0))];
    for i in 0..3 {
        let b = &bytes[i * 16..i * 16 + 16];
        entries.push((0x8000_0002 + i as u32, 0, regs(word(&b[0..4]), word(&b[4..8]), word(&b[8..12]), word(&b[12..16]))));
    }
    state(&entries)
}

#[test]
fn brand_string_drops_mixed_trailing_nul_and_spaces() {
    let s = brand_state(b"  AMD Ryzen 7\0  \0 \t");
    assert_eq!(read_brand_string(&s, &LeafLimits::read(&s)), "AMD Ryzen 7");
    let inner = brand_state(b"A\0B  ");
    assert_eq!(read_brand_string(&inner, &LeafLimits::read(&inner)), "A\0B");
    let blank = brand_state(b" \0 ");
    assert_eq!(read_brand_string(&blank, &LeafLimits::read(&blank)), "");
}

#[test]
fn hybrid_feature_agrees_with_topology() {
    let tables = FeatureTables::standard();
    for edx in [0u32, 1 << 15] {
        let s = state(&[(0, 0, regs(7, 0, 0, 0)), (7, 0, regs(0, 0, 0, edx))]);
        let report = CpuInfo::decode(&s, &tables);
        assert_eq!(report.features.has_feature("HYBRID"), report.topology.hybrid);
        assert_eq!(report.topology.hybrid, edx != 0);
    }
}

#[test]
fn standard_tables_place_known_features() {
    let tables = FeatureTables::standard();
    let avx2 = tables.leaf7_ebx.iter().find(|r| r.name == "AVX2").unwrap();
    assert_eq!(avx2.bit, 5);
    assert_eq!(tables.leaf1_ecx.len(), 31);
    assert_eq!(tables.leaf7_ebx.len() + tables.leaf7_ecx.len() + tables.leaf7_edx.len(), 80);
    assert_eq!(tables.perfmon_ebx.len(), 7);
}
