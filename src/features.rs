//! Feature decoding: table-driven named flags, and the basic flag set.
use vstd::prelude::*;

use crate::cpuid::{bit_set, CpuidResult, LeafLimits, Register, RegisterState};
use crate::decimal::{decimal, push_decimal};
use crate::feature_tables::standard_rows;

verus! {

/// The group a feature belongs to.
#[derive(Debug, Clone, Copy, PartialEq, Eq, Structural)]
pub enum FeatureCategory {
    Simd,
    Security,
    Virtualization,
    Cryptography,
    Performance,
    Debug,
    Power,
    Memory,
    System,
}

/// One row of a feature table: the bit that reports the feature, its name,
/// category and description.
#[derive(Debug, Clone, Copy, PartialEq, Eq)]
pub struct FeatureBit {
    pub bit: u32,
    pub name: &'static str,
    pub category: FeatureCategory,
    pub description: &'static str,
}

/// The table of each decoded register.
#[derive(Debug, Clone, PartialEq, Eq)]
pub struct FeatureTables {
    /// Leaf 1, third register.
    pub leaf1_ecx: Vec<FeatureBit>,
    /// Leaf 7 subleaf 0, second register.
    pub leaf7_ebx: Vec<FeatureBit>,
    /// Leaf 7 subleaf 0, third register.
    pub leaf7_ecx: Vec<FeatureBit>,
    /// Leaf 7 subleaf 0, fourth register.
    pub leaf7_edx: Vec<FeatureBit>,
    /// Leaf 7 subleaf 1, first register.
    pub leaf7_1_eax: Vec<FeatureBit>,
    /// Leaf 7 subleaf 1, second register.
    pub leaf7_1_ebx: Vec<FeatureBit>,
    /// Leaf 7 subleaf 1, fourth register.
    pub leaf7_1_edx: Vec<FeatureBit>,
    /// Leaf 7 subleaf 2, fourth register.
    pub leaf7_2_edx: Vec<FeatureBit>,
    /// Leaf 7 subleaf 3, fourth register.
    pub leaf7_3_edx: Vec<FeatureBit>,
    /// Leaf 6, first register.
    pub thermal_eax: Vec<FeatureBit>,
    /// Leaf 6, third register.
    pub thermal_ecx: Vec<FeatureBit>,
    /// Leaf 0xA, second register (a set bit means unavailable).
    pub perfmon_ebx: Vec<FeatureBit>,
    /// Leaf 0xA, fourth register.
    pub perfmon_edx: Vec<FeatureBit>,
    /// Leaf 0x10 subleaf 0, second register.
    pub rdt_ebx: Vec<FeatureBit>,
    /// Leaf 0x12 subleaf 0, first register.
    pub sgx_eax: Vec<FeatureBit>,
    /// Leaf 0x8000_0001, fourth register.
    pub ext1_edx: Vec<FeatureBit>,
    /// Leaf 0x8000_0001, third register.
    pub ext1_ecx: Vec<FeatureBit>,
    /// Leaf 0x8000_0008, second register.
    pub ext8_ebx: Vec<FeatureBit>,
    /// Leaf 0x8000_0008, third register.
    pub ext8_ecx: Vec<FeatureBit>,
    /// Leaf 0x8000_000A, fourth register.
    pub svm_edx: Vec<FeatureBit>,
    /// Leaf 0x8000_001A, first register.
    pub perf_opt_eax: Vec<FeatureBit>,
    /// Leaf 0x8000_001F, first register.
    pub mem_enc_eax: Vec<FeatureBit>,
    /// Leaf 0x8000_0021, first register.
    pub ext21_eax: Vec<FeatureBit>,
    /// Leaf 0xD subleaf 1, first register.
    pub xsave_eax: Vec<FeatureBit>,
    /// Leaf 0x14 subleaf 0, second register.
    pub trace_ebx: Vec<FeatureBit>,
}

/// The rows of each table of a `FeatureTables`.
pub struct FeatureRows {
    pub leaf1_ecx: Seq<FeatureBit>,
    pub leaf7_ebx: Seq<FeatureBit>,
    pub leaf7_ecx: Seq<FeatureBit>,
    pub leaf7_edx: Seq<FeatureBit>,
    pub leaf7_1_eax: Seq<FeatureBit>,
    pub leaf7_1_ebx: Seq<FeatureBit>,
    pub leaf7_1_edx: Seq<FeatureBit>,
    pub leaf7_2_edx: Seq<FeatureBit>,
    pub leaf7_3_edx: Seq<FeatureBit>,
    pub thermal_eax: Seq<FeatureBit>,
    pub thermal_ecx: Seq<FeatureBit>,
    pub perfmon_ebx: Seq<FeatureBit>,
    pub perfmon_edx: Seq<FeatureBit>,
    pub rdt_ebx: Seq<FeatureBit>,
    pub sgx_eax: Seq<FeatureBit>,
    pub ext1_edx: Seq<FeatureBit>,
    pub ext1_ecx: Seq<FeatureBit>,
    pub ext8_ebx: Seq<FeatureBit>,
    pub ext8_ecx: Seq<FeatureBit>,
    pub svm_edx: Seq<FeatureBit>,
    pub perf_opt_eax: Seq<FeatureBit>,
    pub mem_enc_eax: Seq<FeatureBit>,
    pub ext21_eax: Seq<FeatureBit>,
    pub xsave_eax: Seq<FeatureBit>,
    pub trace_ebx: Seq<FeatureBit>,
}

impl View for FeatureTables {
    type V = FeatureRows;

    open spec fn view(&self) -> FeatureRows {
        FeatureRows {
            leaf1_ecx: self.leaf1_ecx@,
            leaf7_ebx: self.leaf7_ebx@,
            leaf7_ecx: self.leaf7_ecx@,
            leaf7_edx: self.leaf7_edx@,
            leaf7_1_eax: self.leaf7_1_eax@,
            leaf7_1_ebx: self.leaf7_1_ebx@,
            leaf7_1_edx: self.leaf7_1_edx@,
            leaf7_2_edx: self.leaf7_2_edx@,
            leaf7_3_edx: self.leaf7_3_edx@,
            thermal_eax: self.thermal_eax@,
            thermal_ecx: self.thermal_ecx@,
            perfmon_ebx: self.perfmon_ebx@,
            perfmon_edx: self.perfmon_edx@,
            rdt_ebx: self.rdt_ebx@,
            sgx_eax: self.sgx_eax@,
            ext1_edx: self.ext1_edx@,
            ext1_ecx: self.ext1_ecx@,
            ext8_ebx: self.ext8_ebx@,
            ext8_ecx: self.ext8_ecx@,
            svm_edx: self.svm_edx@,
            perf_opt_eax: self.perf_opt_eax@,
            mem_enc_eax: self.mem_enc_eax@,
            ext21_eax: self.ext21_eax@,
            xsave_eax: self.xsave_eax@,
            trace_ebx: self.trace_ebx@,
        }
    }
}

/// One decoded feature flag, supported or not.
#[derive(Debug, Clone, PartialEq, Eq)]
pub struct Feature {
    pub name: String,
    pub category: FeatureCategory,
    pub description: &'static str,
    pub supported: bool,
}

/// The content of a `Feature`, texts as character sequences.
pub struct FeatureModel {
    pub name: Seq<char>,
    pub category: FeatureCategory,
    pub description: Seq<char>,
    pub supported: bool,
}

impl View for Feature {
    type V = FeatureModel;

    open spec fn view(&self) -> FeatureModel {
        FeatureModel {
            name: self.name@,
            category: self.category,
            description: self.description@,
            supported: self.supported,
        }
    }
}

/// The contents of a list of features.
pub open spec fn models(v: Seq<Feature>) -> Seq<FeatureModel> {
    v.map_values(|f: Feature| f@)
}

// The basic flags of leaf 1's fourth register, one bit each.
pub const FPU: u128 = 1 << 0;
pub const VME: u128 = 1 << 1;
pub const DE: u128 = 1 << 2;
pub const PSE: u128 = 1 << 3;
pub const TSC: u128 = 1 << 4;
pub const MSR: u128 = 1 << 5;
pub const PAE: u128 = 1 << 6;
pub const MCE: u128 = 1 << 7;
pub const CX8: u128 = 1 << 8;
pub const APIC: u128 = 1 << 9;
pub const SEP: u128 = 1 << 11;
pub const MTRR: u128 = 1 << 12;
pub const PGE: u128 = 1 << 13;
pub const MCA: u128 = 1 << 14;
pub const CMOV: u128 = 1 << 15;
pub const PAT: u128 = 1 << 16;
pub const PSE36: u128 = 1 << 17;
pub const PSN: u128 = 1 << 18;
pub const CLFSH: u128 = 1 << 19;
pub const DS: u128 = 1 << 21;
pub const ACPI: u128 = 1 << 22;
pub const MMX: u128 = 1 << 23;
pub const FXSR: u128 = 1 << 24;
pub const SSE: u128 = 1 << 25;
pub const SSE2: u128 = 1 << 26;
pub const SS: u128 = 1 << 27;
pub const HTT: u128 = 1 << 28;
pub const TM: u128 = 1 << 29;
pub const PBE: u128 = 1 << 31;

/// The bits of leaf 1's fourth register that the basic set takes over.
pub const BASIC_MASK: u32 = 0x178B_FBFF;

/// A fixed-width set of the oldest feature bits, tested by bit.
#[derive(Debug, Clone, Copy, PartialEq, Eq, Structural)]
pub struct FeatureSet {
    pub bits: u128,
}

impl FeatureSet {
    pub fn empty() -> (r: FeatureSet)
        ensures
            r.bits == 0,
    {
        FeatureSet { bits: 0 }
    }

    pub fn bits(&self) -> (r: u128)
        ensures
            r == self.bits,
    {
        self.bits
    }

    /// Every bit of `flags` is in the set.
    pub fn contains(&self, flags: u128) -> (r: bool)
        ensures
            r == (self.bits & flags == flags),
    {
        self.bits & flags == flags
    }
}

proof fn lemma_or_zero(x: u128)
    ensures
        0u128 | x == x,
{
    assert(0u128 | x == x) by (bit_vector);
}

/// Adds the basic flags that leaf 1's fourth register reports.
pub fn detect_leaf1_edx(edx: u32, features: &mut FeatureSet)
    ensures
        final(features).bits == old(features).bits | (edx & BASIC_MASK) as u128,
{
    features.bits = features.bits | (edx & BASIC_MASK) as u128;
}

/// The bit of a table row is in range and set.
pub open spec fn bit_on(word: u32, bit: u32) -> bool {
    bit < 32 && bit_set(word, bit)
}

/// The flag that a table row gives for a register word. With `inverted`, a
/// clear bit means supported.
pub open spec fn flag_of(word: u32, e: FeatureBit, inverted: bool) -> FeatureModel {
    FeatureModel {
        name: e.name@,
        category: e.category,
        description: e.description@,
        supported: if inverted {
            !bit_on(word, e.bit)
        } else {
            bit_on(word, e.bit)
        },
    }
}

/// One flag per row of a table, in table order.
pub open spec fn flags_of(word: u32, table: Seq<FeatureBit>, inverted: bool) -> Seq<FeatureModel> {
    table.map_values(|e: FeatureBit| flag_of(word, e, inverted))
}

/// A flag that is reported by the presence of something, and so supported.
pub open spec fn present(name: Seq<char>, category: FeatureCategory, description: Seq<char>) -> FeatureModel {
    FeatureModel { name, category, description, supported: true }
}

/// The flag of `present` where `cond` holds, else nothing.
pub open spec fn present_if(
    cond: bool,
    name: &str,
    category: FeatureCategory,
    description: &str,
) -> Seq<FeatureModel> {
    if cond {
        seq![present(name@, category, description@)]
    } else {
        Seq::empty()
    }
}

/// A version flag `prefix` followed by the decimal version, where the version is not zero.
pub open spec fn version_flag(
    version: u32,
    prefix: &str,
    category: FeatureCategory,
    description: &str,
) -> Seq<FeatureModel> {
    if version > 0 {
        seq![present(prefix@ + decimal(version as nat), category, description@)]
    } else {
        Seq::empty()
    }
}

/// `s` where `cond` holds, else nothing.
pub open spec fn when(cond: bool, s: Seq<FeatureModel>) -> Seq<FeatureModel> {
    if cond {
        s
    } else {
        Seq::empty()
    }
}

pub open spec fn part_leaf1(regs: spec_fn(u32, u32) -> CpuidResult, limits: LeafLimits, t: FeatureRows) -> Seq<FeatureModel> {
    when(limits.supports(1), flags_of(regs(1, 0).ecx, t.leaf1_ecx, false))
}

pub open spec fn part_leaf7(regs: spec_fn(u32, u32) -> CpuidResult, limits: LeafLimits, t: FeatureRows) -> Seq<FeatureModel> {
    let r = regs(7, 0);
    when(
        limits.supports(7),
        flags_of(r.ebx, t.leaf7_ebx, false) + flags_of(r.ecx, t.leaf7_ecx, false) + flags_of(r.edx, t.leaf7_edx, false),
    )
}

pub open spec fn part_leaf7_sub1(regs: spec_fn(u32, u32) -> CpuidResult, limits: LeafLimits, t: FeatureRows) -> Seq<FeatureModel> {
    let r = regs(7, 1);
    when(
        limits.supports(7),
        flags_of(r.eax, t.leaf7_1_eax, false) + flags_of(r.ebx, t.leaf7_1_ebx, false) + flags_of(r.edx, t.leaf7_1_edx, false),
    )
}

pub open spec fn part_leaf7_sub2(regs: spec_fn(u32, u32) -> CpuidResult, limits: LeafLimits, t: FeatureRows) -> Seq<FeatureModel> {
    when(limits.supports(7), flags_of(regs(7, 2).edx, t.leaf7_2_edx, false))
}

pub open spec fn part_leaf7_sub3(regs: spec_fn(u32, u32) -> CpuidResult, limits: LeafLimits, t: FeatureRows) -> Seq<FeatureModel> {
    when(limits.supports(7), flags_of(regs(7, 3).edx, t.leaf7_3_edx, false))
}

pub open spec fn part_thermal(regs: spec_fn(u32, u32) -> CpuidResult, limits: LeafLimits, t: FeatureRows) -> Seq<FeatureModel> {
    let r = regs(6, 0);
    when(limits.supports(6), flags_of(r.eax, t.thermal_eax, false) + flags_of(r.ecx, t.thermal_ecx, false))
}

/// Performance monitoring: the version flag, the event table of the second
/// register with inverted polarity, and the table of the fourth register.
pub open spec fn part_perfmon(regs: spec_fn(u32, u32) -> CpuidResult, limits: LeafLimits, t: FeatureRows) -> Seq<FeatureModel> {
    let r = regs(0xA, 0);
    when(
        limits.supports(0xA),
        version_flag(r.eax & 0xFF, "PERFMON_V", FeatureCategory::Performance, "Performance Monitoring version")
            + flags_of(r.ebx, t.perfmon_ebx, true) + flags_of(r.edx, t.perfmon_edx, false),
    )
}

/// Resource director: the table of subleaf 0, then the L3 allocation flags of
/// subleaf 1 where bit 1 reports them, and the L2 flag of subleaf 2 where bit 2 does.
pub open spec fn part_rdt(regs: spec_fn(u32, u32) -> CpuidResult, limits: LeafLimits, t: FeatureRows) -> Seq<FeatureModel> {
    let r = regs(0x10, 0);
    let l3 = regs(0x10, 1);
    let l2 = regs(0x10, 2);
    when(
        limits.supports(0x10),
        flags_of(r.ebx, t.rdt_ebx, false) + when(
            bit_set(r.ebx, 1),
            present_if(l3.eax != 0, "RDT_L3_CAT", FeatureCategory::Performance, "L3 Cache Allocation Technology")
                + present_if(bit_set(l3.ecx, 2), "RDT_L3_CDP", FeatureCategory::Performance, "L3 Code/Data Prioritization"),
        ) + when(
            bit_set(r.ebx, 2),
            present_if(l2.eax != 0, "RDT_L2_CAT", FeatureCategory::Performance, "L2 Cache Allocation Technology"),
        ),
    )
}

pub open spec fn part_sgx(regs: spec_fn(u32, u32) -> CpuidResult, limits: LeafLimits, t: FeatureRows) -> Seq<FeatureModel> {
    let r = regs(0x12, 0);
    let s = regs(0x12, 1);
    when(
        limits.supports(0x12),
        flags_of(r.eax, t.sgx_eax, false)
            + present_if(bit_set(r.ebx, 0), "SGX_MISCSELECT", FeatureCategory::Security, "SGX MISCSELECT support")
            + present_if(s.eax != 0 || s.ebx != 0 || s.ecx != 0 || s.edx != 0, "SGX_ATTRIBUTES", FeatureCategory::Security, "SGX Attributes enumeration"),
    )
}

pub open spec fn part_address_translation(regs: spec_fn(u32, u32) -> CpuidResult, limits: LeafLimits) -> Seq<FeatureModel> {
    when(
        limits.supports(0x18),
        present_if(regs(0x18, 0).eax != 0, "DAT_ENUM", FeatureCategory::Memory, "Deterministic Address Translation enumeration"),
    )
}

pub open spec fn part_avx10(regs: spec_fn(u32, u32) -> CpuidResult, limits: LeafLimits) -> Seq<FeatureModel> {
    let ebx = regs(0x24, 0).ebx;
    when(
        limits.supports(0x24),
        version_flag(ebx & 0xFF, "AVX10_V", FeatureCategory::Simd, "AVX10 Version")
            + present_if(bit_set(ebx, 16), "AVX10_128", FeatureCategory::Simd, "AVX10 128-bit vector support")
            + present_if(bit_set(ebx, 17), "AVX10_256", FeatureCategory::Simd, "AVX10 256-bit vector support")
            + present_if(bit_set(ebx, 18), "AVX10_512", FeatureCategory::Simd, "AVX10 512-bit vector support"),
    )
}

pub open spec fn part_extended(regs: spec_fn(u32, u32) -> CpuidResult, limits: LeafLimits, t: FeatureRows) -> Seq<FeatureModel> {
    let r = regs(0x8000_0001, 0);
    when(limits.supports(0x8000_0001), flags_of(r.edx, t.ext1_edx, false) + flags_of(r.ecx, t.ext1_ecx, false))
}

pub open spec fn part_amd_extended(regs: spec_fn(u32, u32) -> CpuidResult, limits: LeafLimits, t: FeatureRows) -> Seq<FeatureModel> {
    let r = regs(0x8000_0008, 0);
    when(limits.supports(0x8000_0008), flags_of(r.ebx, t.ext8_ebx, false) + flags_of(r.ecx, t.ext8_ecx, false))
}

pub open spec fn part_amd_svm(regs: spec_fn(u32, u32) -> CpuidResult, limits: LeafLimits, t: FeatureRows) -> Seq<FeatureModel> {
    when(limits.supports(0x8000_000A), flags_of(regs(0x8000_000A, 0).edx, t.svm_edx, false))
}

pub open spec fn part_amd_perf_optimization(regs: spec_fn(u32, u32) -> CpuidResult, limits: LeafLimits, t: FeatureRows) -> Seq<FeatureModel> {
    when(limits.supports(0x8000_001A), flags_of(regs(0x8000_001A, 0).eax, t.perf_opt_eax, false))
}

pub open spec fn part_amd_memory_encryption(regs: spec_fn(u32, u32) -> CpuidResult, limits: LeafLimits, t: FeatureRows) -> Seq<FeatureModel> {
    when(limits.supports(0x8000_001F), flags_of(regs(0x8000_001F, 0).eax, t.mem_enc_eax, false))
}

pub open spec fn part_amd_extended2(regs: spec_fn(u32, u32) -> CpuidResult, limits: LeafLimits, t: FeatureRows) -> Seq<FeatureModel> {
    when(limits.supports(0x8000_0021), flags_of(regs(0x8000_0021, 0).eax, t.ext21_eax, false))
}

/// Extended state (leaf 0xD subleaf 1) and processor trace (leaf 0x14)
/// tables, then one present flag for each of leaves 0x1F, 0x1A, 0x1B, 0x1C,
/// 0x1D and 0x1E that is supported.
pub open spec fn part_intel_specific(regs: spec_fn(u32, u32) -> CpuidResult, limits: LeafLimits, t: FeatureRows) -> Seq<FeatureModel> {
    when(limits.supports(0xD), flags_of(regs(0xD, 1).eax, t.xsave_eax, false))
        + when(limits.supports(0x14), flags_of(regs(0x14, 0).ebx, t.trace_ebx, false))
        + present_if(limits.supports(0x1F), "TOPOLOGY_V2", FeatureCategory::System, "V2 Extended Topology Enumeration")
        + present_if(limits.supports(0x1A), "HYBRID_INFO", FeatureCategory::System, "Hybrid Core Information")
        + present_if(limits.supports(0x1B), "PCONFIG_ENUM", FeatureCategory::Security, "PCONFIG Enumeration")
        + present_if(limits.supports(0x1C), "LBR_INFO", FeatureCategory::Debug, "Last Branch Record Information")
        + present_if(limits.supports(0x1D), "TILE_INFO", FeatureCategory::Simd, "AMX Tile Information")
        + present_if(limits.supports(0x1E), "TMUL_INFO", FeatureCategory::Simd, "AMX TMUL Information")
}

/// The whole feature list of a register state, leaf by leaf.
pub open spec fn spec_feature_list(regs: spec_fn(u32, u32) -> CpuidResult, limits: LeafLimits, t: FeatureRows) -> Seq<FeatureModel> {
    part_leaf1(regs, limits, t) + part_leaf7(regs, limits, t) + part_leaf7_sub1(regs, limits, t)
        + part_leaf7_sub2(regs, limits, t) + part_leaf7_sub3(regs, limits, t) + part_thermal(regs, limits, t)
        + part_perfmon(regs, limits, t) + part_rdt(regs, limits, t) + part_sgx(regs, limits, t)
        + part_address_translation(regs, limits) + part_avx10(regs, limits) + part_extended(regs, limits, t)
        + part_amd_extended(regs, limits, t) + part_amd_svm(regs, limits, t)
        + part_amd_perf_optimization(regs, limits, t) + part_amd_memory_encryption(regs, limits, t)
        + part_amd_extended2(regs, limits, t) + part_intel_specific(regs, limits, t)
}

/// The basic set of a register state.
pub open spec fn spec_basic(regs: spec_fn(u32, u32) -> CpuidResult, limits: LeafLimits) -> FeatureSet {
    if limits.supports(1) {
        FeatureSet { bits: (regs(1, 0).edx & BASIC_MASK) as u128 }
    } else {
        FeatureSet { bits: 0 }
    }
}

/// The supported entries of a feature list, in order; only those of
/// `category` where it is given.
pub open spec fn selected(s: Seq<FeatureModel>, category: Option<FeatureCategory>) -> Seq<FeatureModel>
    decreases s.len(),
{
    if s.len() == 0 {
        Seq::empty()
    } else {
        let f = s.last();
        let keep = f.supported && match category {
            Some(c) => f.category == c,
            None => true,
        };
        if keep {
            selected(s.drop_last(), category).push(f)
        } else {
            selected(s.drop_last(), category)
        }
    }
}

/// Appends one flag per table row for a register word.
fn push_flags(features: &mut Vec<Feature>, word: u32, table: &Vec<FeatureBit>, inverted: bool)
    ensures
        models(final(features)@) == models(old(features)@) + flags_of(word, table@, inverted),
{
    let mut i: usize = 0;
    while i < table.len()
        invariant
            i <= table.len(),
            models(features@) == models(old(features)@) + flags_of(word, table@.take(i as int), inverted),
        decreases table.len() - i,
    {
        let e = table[i];
        let on = e.bit < 32 && (word >> e.bit) & 1 == 1;
        let supported = if inverted {
            !on
        } else {
            on
        };
        let ghost before = features@;
        features.push(
            Feature { name: String::from_str(e.name), category: e.category, description: e.description, supported },
        );
        assert(table@.take(i + 1) =~= table@.take(i as int).push(e));
        assert(models(features@) =~= models(before).push(flag_of(word, e, inverted)));
        assert(flags_of(word, table@.take(i + 1), inverted) =~= flags_of(word, table@.take(i as int), inverted).push(flag_of(word, e, inverted)));
        i = i + 1;
    }
    assert(table@.take(i as int) =~= table@);
}

/// Appends a supported flag.
fn push_present(features: &mut Vec<Feature>, name: &str, category: FeatureCategory, description: &'static str)
    ensures
        models(final(features)@) == models(old(features)@) + seq![present(name@, category, description@)],
{
    features.push(Feature { name: String::from_str(name), category, description, supported: true });
    assert(models(final(features)@) =~= models(old(features)@) + seq![present(name@, category, description@)]);
}

/// Appends a supported flag where `cond` holds.
fn push_present_if(features: &mut Vec<Feature>, cond: bool, name: &str, category: FeatureCategory, description: &'static str)
    ensures
        models(final(features)@) == models(old(features)@) + present_if(cond, name, category, description),
{
    if cond {
        push_present(features, name, category, description);
    } else {
        assert(models(features@) =~= models(features@) + present_if(cond, name, category, description));
    }
}

/// Appends the version flag where the version is not zero.
fn push_version(features: &mut Vec<Feature>, version: u32, prefix: &str, category: FeatureCategory, description: &'static str)
    ensures
        models(final(features)@) == models(old(features)@) + version_flag(version, prefix, category, description),
{
    if version > 0 {
        let mut name = String::from_str(prefix);
        push_decimal(&mut name, version);
        features.push(Feature { name, category, description, supported: true });
        assert(models(final(features)@) =~= models(old(features)@) + version_flag(version, prefix, category, description));
    } else {
        assert(models(features@) =~= models(features@) + version_flag(version, prefix, category, description));
    }
}

/// Appends the flags of leaf 1's third register.
pub fn detect_leaf1_ecx(regs: &RegisterState, limits: &LeafLimits, tables: &FeatureTables, features: &mut Vec<Feature>)
    ensures
        models(final(features)@) == models(old(features)@) + part_leaf1(regs@, *limits, tables@),
{
    let ghost start = models(features@);
    if limits.is_supported(1) {
        push_flags(features, regs.query(1, 0).ecx, &tables.leaf1_ecx, false);
    }
    assert(models(features@) =~= start + part_leaf1(regs@, *limits, tables@));
}

/// Appends the structured extended flags of leaf 7 subleaf 0.
pub fn detect_leaf7(regs: &RegisterState, limits: &LeafLimits, tables: &FeatureTables, features: &mut Vec<Feature>)
    ensures
        models(final(features)@) == models(old(features)@) + part_leaf7(regs@, *limits, tables@),
{
    let ghost start = models(features@);
    if limits.is_supported(7) {
        let r = regs.query(7, 0);
        push_flags(features, r.ebx, &tables.leaf7_ebx, false);
        push_flags(features, r.ecx, &tables.leaf7_ecx, false);
        push_flags(features, r.edx, &tables.leaf7_edx, false);
    }
    assert(models(features@) =~= start + part_leaf7(regs@, *limits, tables@));
}

/// Appends the flags of leaf 7 subleaf 1.
pub fn detect_leaf7_sub1(regs: &RegisterState, limits: &LeafLimits, tables: &FeatureTables, features: &mut Vec<Feature>)
    ensures
        models(final(features)@) == models(old(features)@) + part_leaf7_sub1(regs@, *limits, tables@),
{
    let ghost start = models(features@);
    if limits.is_supported(7) {
        let r = regs.query(7, 1);
        push_flags(features, r.eax, &tables.leaf7_1_eax, false);
        push_flags(features, r.ebx, &tables.leaf7_1_ebx, false);
        push_flags(features, r.edx, &tables.leaf7_1_edx, false);
    }
    assert(models(features@) =~= start + part_leaf7_sub1(regs@, *limits, tables@));
}

/// Appends the flags of leaf 7 subleaf 2.
pub fn detect_leaf7_sub2(regs: &RegisterState, limits: &LeafLimits, tables: &FeatureTables, features: &mut Vec<Feature>)
    ensures
        models(final(features)@) == models(old(features)@) + part_leaf7_sub2(regs@, *limits, tables@),
{
    let ghost start = models(features@);
    if limits.is_supported(7) {
        push_flags(features, regs.query(7, 2).edx, &tables.leaf7_2_edx, false);
    }
    assert(models(features@) =~= start + part_leaf7_sub2(regs@, *limits, tables@));
}

/// Appends the flags of leaf 7 subleaf 3.
pub fn detect_leaf7_sub3(regs: &RegisterState, limits: &LeafLimits, tables: &FeatureTables, features: &mut Vec<Feature>)
    ensures
        models(final(features)@) == models(old(features)@) + part_leaf7_sub3(regs@, *limits, tables@),
{
    let ghost start = models(features@);
    if limits.is_supported(7) {
        push_flags(features, regs.query(7, 3).edx, &tables.leaf7_3_edx, false);
    }
    assert(models(features@) =~= start + part_leaf7_sub3(regs@, *limits, tables@));
}

/// Appends the thermal and power flags of leaf 6.
pub fn detect_thermal_power(regs: &RegisterState, limits: &LeafLimits, tables: &FeatureTables, features: &mut Vec<Feature>)
    ensures
        models(final(features)@) == models(old(features)@) + part_thermal(regs@, *limits, tables@),
{
    let ghost start = models(features@);
    if limits.is_supported(6) {
        let r = regs.query(6, 0);
        push_flags(features, r.eax, &tables.thermal_eax, false);
        push_flags(features, r.ecx, &tables.thermal_ecx, false);
    }
    assert(models(features@) =~= start + part_thermal(regs@, *limits, tables@));
}

/// Appends the performance monitoring flags of leaf 0xA; in the event table a
/// clear bit means the event is available.
pub fn detect_perfmon(regs: &RegisterState, limits: &LeafLimits, tables: &FeatureTables, features: &mut Vec<Feature>)
    ensures
        models(final(features)@) == models(old(features)@) + part_perfmon(regs@, *limits, tables@),
{
    let ghost start = models(features@);
    if limits.is_supported(0xA) {
        let r = regs.query(0xA, 0);
        push_version(features, r.eax & 0xFF, "PERFMON_V", FeatureCategory::Performance, "Performance Monitoring version");
        push_flags(features, r.ebx, &tables.perfmon_ebx, true);
        push_flags(features, r.edx, &tables.perfmon_edx, false);
    }
    assert(models(features@) =~= start + part_perfmon(regs@, *limits, tables@));
}

/// Appends the resource director flags of leaf 0x10.
pub fn detect_rdt(regs: &RegisterState, limits: &LeafLimits, tables: &FeatureTables, features: &mut Vec<Feature>)
    ensures
        models(final(features)@) == models(old(features)@) + part_rdt(regs@, *limits, tables@),
{
    let ghost start = models(features@);
    if limits.is_supported(0x10) {
        let r = regs.query(0x10, 0);
        push_flags(features, r.ebx, &tables.rdt_ebx, false);
        if r.is_bit_set(Register::Ebx, 1) {
            let l3 = regs.query(0x10, 1);
            push_present_if(features, l3.eax != 0, "RDT_L3_CAT", FeatureCategory::Performance, "L3 Cache Allocation Technology");
            push_present_if(features, l3.is_bit_set(Register::Ecx, 2), "RDT_L3_CDP", FeatureCategory::Performance, "L3 Code/Data Prioritization");
        }
        if r.is_bit_set(Register::Ebx, 2) {
            let l2 = regs.query(0x10, 2);
            push_present_if(features, l2.eax != 0, "RDT_L2_CAT", FeatureCategory::Performance, "L2 Cache Allocation Technology");
        }
    }
    assert(models(features@) =~= start + part_rdt(regs@, *limits, tables@));
}

/// Appends the SGX flags of leaf 0x12.
pub fn detect_sgx_extended(regs: &RegisterState, limits: &LeafLimits, tables: &FeatureTables, features: &mut Vec<Feature>)
    ensures
        models(final(features)@) == models(old(features)@) + part_sgx(regs@, *limits, tables@),
{
    let ghost start = models(features@);
    if limits.is_supported(0x12) {
        let r = regs.query(0x12, 0);
        push_flags(features, r.eax, &tables.sgx_eax, false);
        push_present_if(features, r.is_bit_set(Register::Ebx, 0), "SGX_MISCSELECT", FeatureCategory::Security, "SGX MISCSELECT support");
        let s = regs.query(0x12, 1);
        push_present_if(features, s.eax != 0 || s.ebx != 0 || s.ecx != 0 || s.edx != 0, "SGX_ATTRIBUTES", FeatureCategory::Security, "SGX Attributes enumeration");
    }
    assert(models(features@) =~= start + part_sgx(regs@, *limits, tables@));
}

/// Appends the address translation enumeration flag of leaf 0x18.
pub fn detect_address_translation(regs: &RegisterState, limits: &LeafLimits, tables: &FeatureTables, features: &mut Vec<Feature>)
    ensures
        models(final(features)@) == models(old(features)@) + part_address_translation(regs@, *limits),
{
    let ghost start = models(features@);
    if limits.is_supported(0x18) {
        push_present_if(features, regs.query(0x18, 0).eax != 0, "DAT_ENUM", FeatureCategory::Memory, "Deterministic Address Translation enumeration");
    }
    assert(models(features@) =~= start + part_address_translation(regs@, *limits));
}

/// Appends the AVX10 version and vector width flags of leaf 0x24.
pub fn detect_avx10(regs: &RegisterState, limits: &LeafLimits, tables: &FeatureTables, features: &mut Vec<Feature>)
    ensures
        models(final(features)@) == models(old(features)@) + part_avx10(regs@, *limits),
{
    let ghost start = models(features@);
    if limits.is_supported(0x24) {
        let r = regs.query(0x24, 0);
        push_version(features, r.ebx & 0xFF, "AVX10_V", FeatureCategory::Simd, "AVX10 Version");
        push_present_if(features, r.is_bit_set(Register::Ebx, 16), "AVX10_128", FeatureCategory::Simd, "AVX10 128-bit vector support");
        push_present_if(features, r.is_bit_set(Register::Ebx, 17), "AVX10_256", FeatureCategory::Simd, "AVX10 256-bit vector support");
        push_present_if(features, r.is_bit_set(Register::Ebx, 18), "AVX10_512", FeatureCategory::Simd, "AVX10 512-bit vector support");
    }
    assert(models(features@) =~= start + part_avx10(regs@, *limits));
}

/// Appends the extended flags of leaf 0x8000_0001.
pub fn detect_extended_features(regs: &RegisterState, limits: &LeafLimits, tables: &FeatureTables, features: &mut Vec<Feature>)
    ensures
        models(final(features)@) == models(old(features)@) + part_extended(regs@, *limits, tables@),
{
    let ghost start = models(features@);
    if limits.is_supported(0x8000_0001) {
        let r = regs.query(0x8000_0001, 0);
        push_flags(features, r.edx, &tables.ext1_edx, false);
        push_flags(features, r.ecx, &tables.ext1_ecx, false);
    }
    assert(models(features@) =~= start + part_extended(regs@, *limits, tables@));
}

/// Appends the flags of leaf 0x8000_0008.
pub fn detect_amd_extended(regs: &RegisterState, limits: &LeafLimits, tables: &FeatureTables, features: &mut Vec<Feature>)
    ensures
        models(final(features)@) == models(old(features)@) + part_amd_extended(regs@, *limits, tables@),
{
    let ghost start = models(features@);
    if limits.is_supported(0x8000_0008) {
        let r = regs.query(0x8000_0008, 0);
        push_flags(features, r.ebx, &tables.ext8_ebx, false);
        push_flags(features, r.ecx, &tables.ext8_ecx, false);
    }
    assert(models(features@) =~= start + part_amd_extended(regs@, *limits, tables@));
}

/// Appends the secure virtual machine flags of leaf 0x8000_000A.
pub fn detect_amd_svm(regs: &RegisterState, limits: &LeafLimits, tables: &FeatureTables, features: &mut Vec<Feature>)
    ensures
        models(final(features)@) == models(old(features)@) + part_amd_svm(regs@, *limits, tables@),
{
    let ghost start = models(features@);
    if limits.is_supported(0x8000_000A) {
        push_flags(features, regs.query(0x8000_000A, 0).edx, &tables.svm_edx, false);
    }
    assert(models(features@) =~= start + part_amd_svm(regs@, *limits, tables@));
}

/// Appends the performance optimization flags of leaf 0x8000_001A.
pub fn detect_amd_perf_optimization(regs: &RegisterState, limits: &LeafLimits, tables: &FeatureTables, features: &mut Vec<Feature>)
    ensures
        models(final(features)@) == models(old(features)@) + part_amd_perf_optimization(regs@, *limits, tables@),
{
    let ghost start = models(features@);
    if limits.is_supported(0x8000_001A) {
        push_flags(features, regs.query(0x8000_001A, 0).eax, &tables.perf_opt_eax, false);
    }
    assert(models(features@) =~= start + part_amd_perf_optimization(regs@, *limits, tables@));
}

/// Appends the memory encryption flags of leaf 0x8000_001F.
pub fn detect_amd_memory_encryption(regs: &RegisterState, limits: &LeafLimits, tables: &FeatureTables, features: &mut Vec<Feature>)
    ensures
        models(final(features)@) == models(old(features)@) + part_amd_memory_encryption(regs@, *limits, tables@),
{
    let ghost start = models(features@);
    if limits.is_supported(0x8000_001F) {
        push_flags(features, regs.query(0x8000_001F, 0).eax, &tables.mem_enc_eax, false);
    }
    assert(models(features@) =~= start + part_amd_memory_encryption(regs@, *limits, tables@));
}

/// Appends the flags of leaf 0x8000_0021.
pub fn detect_amd_extended_features2(regs: &RegisterState, limits: &LeafLimits, tables: &FeatureTables, features: &mut Vec<Feature>)
    ensures
        models(final(features)@) == models(old(features)@) + part_amd_extended2(regs@, *limits, tables@),
{
    let ghost start = models(features@);
    if limits.is_supported(0x8000_0021) {
        push_flags(features, regs.query(0x8000_0021, 0).eax, &tables.ext21_eax, false);
    }
    assert(models(features@) =~= start + part_amd_extended2(regs@, *limits, tables@));
}

/// Appends the extended state and processor trace flags, and a present flag
/// for each supported leaf among 0x1F, 0x1A, 0x1B, 0x1C, 0x1D and 0x1E.
pub fn detect_intel_specific(regs: &RegisterState, limits: &LeafLimits, tables: &FeatureTables, features: &mut Vec<Feature>)
    ensures
        models(final(features)@) == models(old(features)@) + part_intel_specific(regs@, *limits, tables@),
{
    let ghost start = models(features@);
    if limits.is_supported(0xD) {
        push_flags(features, regs.query(0xD, 1).eax, &tables.xsave_eax, false);
    } else {
        assert(models(features@) =~= start + Seq::<FeatureModel>::empty());
    }
    let ghost mid = models(features@);
    if limits.is_supported(0x14) {
        push_flags(features, regs.query(0x14, 0).ebx, &tables.trace_ebx, false);
    } else {
        assert(models(features@) =~= mid + Seq::<FeatureModel>::empty());
    }
    push_present_if(features, limits.is_supported(0x1F), "TOPOLOGY_V2", FeatureCategory::System, "V2 Extended Topology Enumeration");
    push_present_if(features, limits.is_supported(0x1A), "HYBRID_INFO", FeatureCategory::System, "Hybrid Core Information");
    push_present_if(features, limits.is_supported(0x1B), "PCONFIG_ENUM", FeatureCategory::Security, "PCONFIG Enumeration");
    push_present_if(features, limits.is_supported(0x1C), "LBR_INFO", FeatureCategory::Debug, "Last Branch Record Information");
    push_present_if(features, limits.is_supported(0x1D), "TILE_INFO", FeatureCategory::Simd, "AMX Tile Information");
    push_present_if(features, limits.is_supported(0x1E), "TMUL_INFO", FeatureCategory::Simd, "AMX TMUL Information");
    assert(models(features@) =~= models(old(features)@) + part_intel_specific(regs@, *limits, tables@));
}

/// All features of a processor: the basic set and the flat flag list.
#[derive(Debug, Clone, PartialEq, Eq)]
pub struct CpuFeatures {
    pub basic: FeatureSet,
    pub all_features: Vec<Feature>,
}

/// The content of a `CpuFeatures`.
pub struct CpuFeaturesModel {
    pub basic: FeatureSet,
    pub all_features: Seq<FeatureModel>,
}

impl View for CpuFeatures {
    type V = CpuFeaturesModel;

    open spec fn view(&self) -> CpuFeaturesModel {
        CpuFeaturesModel { basic: self.basic, all_features: models(self.all_features@) }
    }
}

/// The features of a register state.
pub open spec fn spec_cpu_features(regs: spec_fn(u32, u32) -> CpuidResult, limits: LeafLimits, t: FeatureRows) -> CpuFeaturesModel {
    CpuFeaturesModel { basic: spec_basic(regs, limits), all_features: spec_feature_list(regs, limits, t) }
}


impl CpuFeatures {
    /// The features of a register state, read through `tables`.
    pub fn decode(regs: &RegisterState, limits: &LeafLimits, tables: &FeatureTables) -> (r: CpuFeatures)
        ensures
            r@ == spec_cpu_features(regs@, *limits, tables@),
    {
        let mut basic = FeatureSet::empty();
        let mut all_features: Vec<Feature> = Vec::new();
        if limits.is_supported(1) {
            let result = regs.query(1, 0);
            detect_leaf1_edx(result.edx, &mut basic);
            proof {
                lemma_or_zero((result.edx & BASIC_MASK) as u128);
            }
        }
        assert(models(all_features@) =~= Seq::<FeatureModel>::empty());
        detect_leaf1_ecx(regs, limits, tables, &mut all_features);
        detect_leaf7(regs, limits, tables, &mut all_features);
        detect_leaf7_sub1(regs, limits, tables, &mut all_features);
        detect_leaf7_sub2(regs, limits, tables, &mut all_features);
        detect_leaf7_sub3(regs, limits, tables, &mut all_features);
        detect_thermal_power(regs, limits, tables, &mut all_features);
        detect_perfmon(regs, limits, tables, &mut all_features);
        detect_rdt(regs, limits, tables, &mut all_features);
        detect_sgx_extended(regs, limits, tables, &mut all_features);
        detect_address_translation(regs, limits, tables, &mut all_features);
        detect_avx10(regs, limits, tables, &mut all_features);
        detect_extended_features(regs, limits, tables, &mut all_features);
        detect_amd_extended(regs, limits, tables, &mut all_features);
        detect_amd_svm(regs, limits, tables, &mut all_features);
        detect_amd_perf_optimization(regs, limits, tables, &mut all_features);
        detect_amd_memory_encryption(regs, limits, tables, &mut all_features);
        detect_amd_extended_features2(regs, limits, tables, &mut all_features);
        detect_intel_specific(regs, limits, tables, &mut all_features);
        assert(models(all_features@) =~= spec_feature_list(regs@, *limits, tables@));
        CpuFeatures { basic, all_features }
    }

    /// The features of the calling processor.
    pub fn detect() -> (r: CpuFeatures)
        ensures
            exists|regs: RegisterState|
                r@ == spec_cpu_features(regs@, LeafLimits::of(regs@), standard_rows()),
    {
        let regs = RegisterState::capture();
        let limits = LeafLimits::read(&regs);
        let tables = FeatureTables::standard();
        CpuFeatures::decode(&regs, &limits, &tables)
    }

    /// Some entry of `name` is supported.
    pub fn has_feature(&self, name: &str) -> (r: bool)
        ensures
            r == exists|i: int|
                0 <= i < self.all_features@.len() && (#[trigger] self.all_features@[i]).name@ == name@
                    && self.all_features@[i].supported,
    {
        let target = String::from_str(name);
        let mut i: usize = 0;
        while i < self.all_features.len()
            invariant
                i <= self.all_features.len(),
                target@ == name@,
                forall|j: int|
                    0 <= j < i ==> !((#[trigger] self.all_features@[j]).name@ == name@
                        && self.all_features@[j].supported),
            decreases self.all_features.len() - i,
        {
            let f = &self.all_features[i];
            if f.supported && f.name == target {
                return true;
            }
            i = i + 1;
        }
        false
    }

    fn select(&self, category: Option<FeatureCategory>) -> (r: Vec<&Feature>)
        ensures
            r@.map_values(|f: &Feature| f@) == selected(models(self.all_features@), category),
    {
        let mut out: Vec<&Feature> = Vec::new();
        let mut i: usize = 0;
        while i < self.all_features.len()
            invariant
                i <= self.all_features.len(),
                out@.map_values(|f: &Feature| f@) == selected(models(self.all_features@).take(i as int), category),
            decreases self.all_features.len() - i,
        {
            let f = &self.all_features[i];
            let keep = f.supported && match category {
                Some(c) => f.category == c,
                None => true,
            };
            let ghost before = out@;
            assert(models(self.all_features@).take(i + 1).drop_last() =~= models(self.all_features@).take(i as int));
            if keep {
                out.push(f);
                assert(out@.map_values(|f: &Feature| f@) =~= before.map_values(|f: &Feature| f@).push(f@));
            }
            i = i + 1;
        }
        assert(models(self.all_features@).take(i as int) =~= models(self.all_features@));
        out
    }

    /// The supported features of one category, in list order.
    pub fn features_by_category(&self, category: FeatureCategory) -> (r: Vec<&Feature>)
        ensures
            r@.map_values(|f: &Feature| f@) == selected(models(self.all_features@), Some(category)),
    {
        self.select(Some(category))
    }

    /// The supported features, in list order.
    pub fn all_supported(&self) -> (r: Vec<&Feature>)
        ensures
            r@.map_values(|f: &Feature| f@) == selected(models(self.all_features@), None),
    {
        self.select(None)
    }
}

} // verus!
