//! Decoding of the x86 processor identification instruction (CPUID).
//!
//! The instruction's answers are recorded in a `RegisterState`; the
//! leaf-support gate (`LeafLimits`) is read from it once per detection pass
//! and handed to every decoder. Each decoder is a pure function from that
//! state to a typed result, stated exactly by a spec function.
use vstd::prelude::*;

pub mod address;
pub mod cache;
pub mod cpuid;
pub mod decimal;
pub mod feature_tables;
pub mod features;
pub mod frequency;
pub mod msr;
pub mod platform;
pub mod power;
pub mod thermal;
pub mod tlb;
pub mod topology;
pub mod vendor;

pub use address::AddressInfo;
pub use cache::{CacheInfo, CacheLevel, CacheType};
pub use cpuid::{CpuidResult, LeafLimits, Register, RegisterState};
pub use features::{CpuFeatures, Feature, FeatureCategory, FeatureSet, FeatureTables};
pub use frequency::FrequencyInfo;
pub use msr::MsrInfo;
pub use platform::PlatformInfo;
pub use power::PowerInfo;
pub use thermal::ThermalInfo;
pub use tlb::{TlbEntry, TlbInfo};
pub use topology::{CoreType, CpuTopology};
pub use vendor::{CpuVendor, VendorInfo};

use crate::feature_tables::standard_rows;
use crate::features::{spec_cpu_features, CpuFeaturesModel, FeatureRows};
use crate::tlb::{spec_tlbs, TlbEntryModel};
use crate::vendor::{spec_vendor_info, VendorModel};

verus! {

/// A full report of one detection pass.
#[derive(Debug, Clone, PartialEq, Eq)]
pub struct CpuInfo {
    pub vendor: VendorInfo,
    pub features: CpuFeatures,
    pub topology: CpuTopology,
    pub cache: Vec<CacheInfo>,
    pub power: PowerInfo,
    pub frequency: FrequencyInfo,
    pub address: AddressInfo,
    pub tlb: TlbInfo,
    pub platform: PlatformInfo,
    pub msr: MsrInfo,
}

/// The content of a `CpuInfo`.
pub struct CpuInfoModel {
    pub vendor: VendorModel,
    pub features: CpuFeaturesModel,
    pub topology: CpuTopology,
    pub cache: Seq<CacheInfo>,
    pub power: PowerInfo,
    pub frequency: FrequencyInfo,
    pub address: AddressInfo,
    pub tlb: Seq<TlbEntryModel>,
    pub platform: PlatformInfo,
    pub msr: MsrInfo,
}

impl View for CpuInfo {
    type V = CpuInfoModel;

    open spec fn view(&self) -> CpuInfoModel {
        CpuInfoModel {
            vendor: self.vendor@,
            features: self.features@,
            topology: self.topology,
            cache: self.cache@,
            power: self.power,
            frequency: self.frequency,
            address: self.address,
            tlb: self.tlb@,
            platform: self.platform,
            msr: self.msr,
        }
    }
}

/// The report of a register state, whose leaf maxima are taken from that state.
pub open spec fn spec_cpu_info(regs: spec_fn(u32, u32) -> CpuidResult, tables: FeatureRows) -> CpuInfoModel {
    let limits = LeafLimits::of(regs);
    CpuInfoModel {
        vendor: spec_vendor_info(regs, limits),
        features: spec_cpu_features(regs, limits, tables),
        topology: topology::spec_topology(regs, limits),
        cache: cache::spec_caches(regs, limits),
        power: power::spec_power(regs, limits),
        frequency: frequency::spec_frequency(regs, limits),
        address: address::spec_address(regs, limits),
        tlb: spec_tlbs(regs, limits),
        platform: platform::spec_platform(regs, limits),
        msr: msr::spec_msr(regs, limits),
    }
}

/// Detection depends on nothing but the register state: two states that
/// answer every query alike give identical reports, so detecting twice on
/// an unchanging processor gives the same report twice.
pub proof fn lemma_detection_deterministic(a: RegisterState, b: RegisterState)
    requires
        forall|leaf: u32, subleaf: u32| #[trigger] a@(leaf, subleaf) == b@(leaf, subleaf),
    ensures
        spec_cpu_info(a@, standard_rows()) == spec_cpu_info(b@, standard_rows()),
{
    assert(a@ =~= b@);
}

/// The HYBRID feature flag and the topology's hybrid flag read the same bit:
/// where leaf 7 is supported, the feature list holds a HYBRID entry that is
/// supported exactly when the topology reports a hybrid processor.
pub proof fn lemma_hybrid_flag_agrees(regs: RegisterState)
    requires
        LeafLimits::of(regs@).supports(7),
    ensures
        ({
            let report = spec_cpu_info(regs@, standard_rows());
            exists|i: int|
                0 <= i < report.features.all_features.len()
                    && report.features.all_features[i].name == "HYBRID"@
                    && report.features.all_features[i].supported == report.topology.hybrid
        }),
{
    let limits = LeafLimits::of(regs@);
    let t = standard_rows();
    let r7 = regs@(7, 0);
    let a = features::part_leaf1(regs@, limits, t);
    let b = features::part_leaf7(regs@, limits, t);
    let ebx = features::flags_of(r7.ebx, t.leaf7_ebx, false);
    let ecx = features::flags_of(r7.ecx, t.leaf7_ecx, false);
    let edx = features::flags_of(r7.edx, t.leaf7_edx, false);
    assert(b == ebx + ecx + edx);
    assert(ebx.len() == 31 && ecx.len() == 24);
    assert(t.leaf7_edx[10] == feature_tables::row(15, "HYBRID", FeatureCategory::System, "Hybrid processor"));
    let k: int = 65int;
    assert(b[k] == edx[10]);
    let i: int = a.len() + k;
    let full = features::spec_feature_list(regs@, limits, t);
    assert((a + b)[i] == b[k]);
    assert(full[i] == b[k]);
    let report = spec_cpu_info(regs@, standard_rows());
    assert(report.features.all_features[i] == full[i]);
}

impl CpuInfo {
    /// The report of a register state: the leaf maxima are read once and every
    /// decoder runs on the state.
    pub fn decode(regs: &RegisterState, tables: &FeatureTables) -> (r: CpuInfo)
        ensures
            r@ == spec_cpu_info(regs@, tables@),
    {
        let limits = LeafLimits::read(regs);
        CpuInfo {
            vendor: VendorInfo::decode(regs, &limits),
            features: CpuFeatures::decode(regs, &limits, tables),
            topology: CpuTopology::decode(regs, &limits),
            cache: CacheInfo::decode_all(regs, &limits),
            power: PowerInfo::decode(regs, &limits),
            frequency: FrequencyInfo::decode(regs, &limits),
            address: AddressInfo::decode(regs, &limits),
            tlb: TlbInfo::decode(regs, &limits),
            platform: PlatformInfo::decode(regs, &limits),
            msr: MsrInfo::decode(regs, &limits),
        }
    }

    /// The report of the calling processor, from one recording of its answers.
    pub fn detect() -> (r: CpuInfo)
        ensures
            exists|regs: RegisterState| r@ == spec_cpu_info(regs@, standard_rows()),
    {
        let regs = RegisterState::capture();
        let tables = FeatureTables::standard();
        CpuInfo::decode(&regs, &tables)
    }
}

} // verus!
