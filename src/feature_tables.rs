//! The bit tables of the feature decoder: which bit of which register names
//! which feature. Each table is stated row by row as a spec function, and the
//! executable table is proved equal to it.
use vstd::prelude::*;

use crate::features::{FeatureBit, FeatureCategory, FeatureRows, FeatureTables};

verus! {

/// One table row.
pub open spec fn row(
    bit: u32,
    name: &'static str,
    category: FeatureCategory,
    description: &'static str,
) -> FeatureBit {
    FeatureBit { bit, name, category, description }
}

fn fb(
    bit: u32,
    name: &'static str,
    category: FeatureCategory,
    description: &'static str,
) -> (r: FeatureBit)
    ensures
        r == row(bit, name, category, description),
{
    FeatureBit { bit, name, category, description }
}

/// The rows of leaf 1, third register.
pub open spec fn leaf1_ecx_rows() -> Seq<FeatureBit> {
    seq![
        row(0, "SSE3", FeatureCategory::Simd, "Streaming SIMD Extensions 3"),
        row(1, "PCLMULQDQ", FeatureCategory::Cryptography, "Carry-less multiplication"),
        row(2, "DTES64", FeatureCategory::Debug, "64-bit debug store"),
        row(3, "MONITOR", FeatureCategory::Power, "MONITOR/MWAIT instructions"),
        row(4, "DS-CPL", FeatureCategory::Debug, "CPL-qualified debug store"),
        row(5, "VMX", FeatureCategory::Virtualization, "Virtual Machine Extensions"),
        row(6, "SMX", FeatureCategory::Security, "Safer Mode Extensions"),
        row(7, "EIST", FeatureCategory::Power, "Enhanced Intel SpeedStep"),
        row(8, "TM2", FeatureCategory::Power, "Thermal Monitor 2"),
        row(9, "SSSE3", FeatureCategory::Simd, "Supplemental SSE3"),
        row(10, "CNXT-ID", FeatureCategory::Debug, "L1 context ID"),
        row(11, "SDBG", FeatureCategory::Debug, "Silicon Debug"),
        row(12, "FMA", FeatureCategory::Simd, "Fused Multiply-Add"),
        row(13, "CMPXCHG16B", FeatureCategory::System, "Compare and exchange 16 bytes"),
        row(14, "xTPR", FeatureCategory::System, "xTPR update control"),
        row(15, "PDCM", FeatureCategory::Performance, "Performance/Debug capability MSR"),
        row(17, "PCID", FeatureCategory::Memory, "Process-context identifiers"),
        row(18, "DCA", FeatureCategory::Performance, "Direct Cache Access"),
        row(19, "SSE4.1", FeatureCategory::Simd, "Streaming SIMD Extensions 4.1"),
        row(20, "SSE4.2", FeatureCategory::Simd, "Streaming SIMD Extensions 4.2"),
        row(21, "x2APIC", FeatureCategory::System, "x2APIC support"),
        row(22, "MOVBE", FeatureCategory::System, "MOVBE instruction"),
        row(23, "POPCNT", FeatureCategory::Performance, "POPCNT instruction"),
        row(24, "TSC-Deadline", FeatureCategory::System, "TSC deadline timer"),
        row(25, "AES", FeatureCategory::Cryptography, "AES instruction set"),
        row(26, "XSAVE", FeatureCategory::System, "XSAVE/XRSTOR"),
        row(27, "OSXSAVE", FeatureCategory::System, "OS-enabled XSAVE"),
        row(28, "AVX", FeatureCategory::Simd, "Advanced Vector Extensions"),
        row(29, "F16C", FeatureCategory::Simd, "16-bit floating-point conversion"),
        row(30, "RDRAND", FeatureCategory::Security, "Hardware random number generator"),
        row(31, "HYPERVISOR", FeatureCategory::Virtualization, "Running under hypervisor"),
    ]
}

fn leaf1_ecx_table() -> (r: Vec<FeatureBit>)
    ensures
        r@ == leaf1_ecx_rows(),
{
    let r = vec![
        fb(0, "SSE3", FeatureCategory::Simd, "Streaming SIMD Extensions 3"),
        fb(1, "PCLMULQDQ", FeatureCategory::Cryptography, "Carry-less multiplication"),
        fb(2, "DTES64", FeatureCategory::Debug, "64-bit debug store"),
        fb(3, "MONITOR", FeatureCategory::Power, "MONITOR/MWAIT instructions"),
        fb(4, "DS-CPL", FeatureCategory::Debug, "CPL-qualified debug store"),
        fb(5, "VMX", FeatureCategory::Virtualization, "Virtual Machine Extensions"),
        fb(6, "SMX", FeatureCategory::Security, "Safer Mode Extensions"),
        fb(7, "EIST", FeatureCategory::Power, "Enhanced Intel SpeedStep"),
        fb(8, "TM2", FeatureCategory::Power, "Thermal Monitor 2"),
        fb(9, "SSSE3", FeatureCategory::Simd, "Supplemental SSE3"),
        fb(10, "CNXT-ID", FeatureCategory::Debug, "L1 context ID"),
        fb(11, "SDBG", FeatureCategory::Debug, "Silicon Debug"),
        fb(12, "FMA", FeatureCategory::Simd, "Fused Multiply-Add"),
        fb(13, "CMPXCHG16B", FeatureCategory::System, "Compare and exchange 16 bytes"),
        fb(14, "xTPR", FeatureCategory::System, "xTPR update control"),
        fb(15, "PDCM", FeatureCategory::Performance, "Performance/Debug capability MSR"),
        fb(17, "PCID", FeatureCategory::Memory, "Process-context identifiers"),
        fb(18, "DCA", FeatureCategory::Performance, "Direct Cache Access"),
        fb(19, "SSE4.1", FeatureCategory::Simd, "Streaming SIMD Extensions 4.1"),
        fb(20, "SSE4.2", FeatureCategory::Simd, "Streaming SIMD Extensions 4.2"),
        fb(21, "x2APIC", FeatureCategory::System, "x2APIC support"),
        fb(22, "MOVBE", FeatureCategory::System, "MOVBE instruction"),
        fb(23, "POPCNT", FeatureCategory::Performance, "POPCNT instruction"),
        fb(24, "TSC-Deadline", FeatureCategory::System, "TSC deadline timer"),
        fb(25, "AES", FeatureCategory::Cryptography, "AES instruction set"),
        fb(26, "XSAVE", FeatureCategory::System, "XSAVE/XRSTOR"),
        fb(27, "OSXSAVE", FeatureCategory::System, "OS-enabled XSAVE"),
        fb(28, "AVX", FeatureCategory::Simd, "Advanced Vector Extensions"),
        fb(29, "F16C", FeatureCategory::Simd, "16-bit floating-point conversion"),
        fb(30, "RDRAND", FeatureCategory::Security, "Hardware random number generator"),
        fb(31, "HYPERVISOR", FeatureCategory::Virtualization, "Running under hypervisor"),
    ];
    assert(r@ =~= leaf1_ecx_rows());
    r
}

/// The rows of leaf 7 subleaf 0, second register.
pub open spec fn leaf7_ebx_rows() -> Seq<FeatureBit> {
    seq![
        row(0, "FSGSBASE", FeatureCategory::System, "FS/GS base access instructions"),
        row(1, "TSC_ADJUST", FeatureCategory::System, "TSC adjust MSR"),
        row(2, "SGX", FeatureCategory::Security, "Software Guard Extensions"),
        row(3, "BMI1", FeatureCategory::Performance, "Bit Manipulation Instruction Set 1"),
        row(4, "HLE", FeatureCategory::Performance, "Hardware Lock Elision"),
        row(5, "AVX2", FeatureCategory::Simd, "Advanced Vector Extensions 2"),
        row(6, "FDP_EXCPTN_ONLY", FeatureCategory::Debug, "FPU data pointer exception only"),
        row(7, "SMEP", FeatureCategory::Security, "Supervisor Mode Execution Prevention"),
        row(8, "BMI2", FeatureCategory::Performance, "Bit Manipulation Instruction Set 2"),
        row(9, "ERMS", FeatureCategory::Performance, "Enhanced REP MOVSB/STOSB"),
        row(10, "INVPCID", FeatureCategory::Memory, "INVPCID instruction"),
        row(11, "RTM", FeatureCategory::Performance, "Restricted Transactional Memory"),
        row(12, "PQM", FeatureCategory::Performance, "Platform QoS Monitoring"),
        row(13, "FPU_CS_DS_DEPRECATED", FeatureCategory::System, "FPU CS/DS deprecated"),
        row(14, "MPX", FeatureCategory::Security, "Memory Protection Extensions"),
        row(15, "PQE", FeatureCategory::Performance, "Platform QoS Enforcement"),
        row(16, "AVX512F", FeatureCategory::Simd, "AVX-512 Foundation"),
        row(17, "AVX512DQ", FeatureCategory::Simd, "AVX-512 Doubleword and Quadword"),
        row(18, "RDSEED", FeatureCategory::Security, "RDSEED instruction"),
        row(19, "ADX", FeatureCategory::Performance, "Multi-precision add-carry"),
        row(20, "SMAP", FeatureCategory::Security, "Supervisor Mode Access Prevention"),
        row(21, "AVX512_IFMA", FeatureCategory::Simd, "AVX-512 Integer FMA"),
        row(23, "CLFLUSHOPT", FeatureCategory::Performance, "CLFLUSHOPT instruction"),
        row(24, "CLWB", FeatureCategory::Performance, "Cache line writeback"),
        row(25, "INTEL_PT", FeatureCategory::Debug, "Intel Processor Trace"),
        row(26, "AVX512PF", FeatureCategory::Simd, "AVX-512 Prefetch"),
        row(27, "AVX512ER", FeatureCategory::Simd, "AVX-512 Exponential and Reciprocal"),
        row(28, "AVX512CD", FeatureCategory::Simd, "AVX-512 Conflict Detection"),
        row(29, "SHA", FeatureCategory::Cryptography, "SHA-1/SHA-256 instructions"),
        row(30, "AVX512BW", FeatureCategory::Simd, "AVX-512 Byte and Word"),
        row(31, "AVX512VL", FeatureCategory::Simd, "AVX-512 Vector Length Extensions"),
    ]
}

fn leaf7_ebx_table() -> (r: Vec<FeatureBit>)
    ensures
        r@ == leaf7_ebx_rows(),
{
    let r = vec![
        fb(0, "FSGSBASE", FeatureCategory::System, "FS/GS base access instructions"),
        fb(1, "TSC_ADJUST", FeatureCategory::System, "TSC adjust MSR"),
        fb(2, "SGX", FeatureCategory::Security, "Software Guard Extensions"),
        fb(3, "BMI1", FeatureCategory::Performance, "Bit Manipulation Instruction Set 1"),
        fb(4, "HLE", FeatureCategory::Performance, "Hardware Lock Elision"),
        fb(5, "AVX2", FeatureCategory::Simd, "Advanced Vector Extensions 2"),
        fb(6, "FDP_EXCPTN_ONLY", FeatureCategory::Debug, "FPU data pointer exception only"),
        fb(7, "SMEP", FeatureCategory::Security, "Supervisor Mode Execution Prevention"),
        fb(8, "BMI2", FeatureCategory::Performance, "Bit Manipulation Instruction Set 2"),
        fb(9, "ERMS", FeatureCategory::Performance, "Enhanced REP MOVSB/STOSB"),
        fb(10, "INVPCID", FeatureCategory::Memory, "INVPCID instruction"),
        fb(11, "RTM", FeatureCategory::Performance, "Restricted Transactional Memory"),
        fb(12, "PQM", FeatureCategory::Performance, "Platform QoS Monitoring"),
        fb(13, "FPU_CS_DS_DEPRECATED", FeatureCategory::System, "FPU CS/DS deprecated"),
        fb(14, "MPX", FeatureCategory::Security, "Memory Protection Extensions"),
        fb(15, "PQE", FeatureCategory::Performance, "Platform QoS Enforcement"),
        fb(16, "AVX512F", FeatureCategory::Simd, "AVX-512 Foundation"),
        fb(17, "AVX512DQ", FeatureCategory::Simd, "AVX-512 Doubleword and Quadword"),
        fb(18, "RDSEED", FeatureCategory::Security, "RDSEED instruction"),
        fb(19, "ADX", FeatureCategory::Performance, "Multi-precision add-carry"),
        fb(20, "SMAP", FeatureCategory::Security, "Supervisor Mode Access Prevention"),
        fb(21, "AVX512_IFMA", FeatureCategory::Simd, "AVX-512 Integer FMA"),
        fb(23, "CLFLUSHOPT", FeatureCategory::Performance, "CLFLUSHOPT instruction"),
        fb(24, "CLWB", FeatureCategory::Performance, "Cache line writeback"),
        fb(25, "INTEL_PT", FeatureCategory::Debug, "Intel Processor Trace"),
        fb(26, "AVX512PF", FeatureCategory::Simd, "AVX-512 Prefetch"),
        fb(27, "AVX512ER", FeatureCategory::Simd, "AVX-512 Exponential and Reciprocal"),
        fb(28, "AVX512CD", FeatureCategory::Simd, "AVX-512 Conflict Detection"),
        fb(29, "SHA", FeatureCategory::Cryptography, "SHA-1/SHA-256 instructions"),
        fb(30, "AVX512BW", FeatureCategory::Simd, "AVX-512 Byte and Word"),
        fb(31, "AVX512VL", FeatureCategory::Simd, "AVX-512 Vector Length Extensions"),
    ];
    assert(r@ =~= leaf7_ebx_rows());
    r
}

/// The rows of leaf 7 subleaf 0, third register.
pub open spec fn leaf7_ecx_rows() -> Seq<FeatureBit> {
    seq![
        row(0, "PREFETCHWT1", FeatureCategory::Performance, "PREFETCHWT1 instruction"),
        row(1, "AVX512_VBMI", FeatureCategory::Simd, "AVX-512 Vector Bit Manipulation"),
        row(2, "UMIP", FeatureCategory::Security, "User-Mode Instruction Prevention"),
        row(3, "PKU", FeatureCategory::Security, "Protection Keys for User-mode pages"),
        row(4, "OSPKE", FeatureCategory::Security, "OS has enabled PKU"),
        row(5, "WAITPKG", FeatureCategory::Power, "TPAUSE, UMONITOR, UMWAIT"),
        row(6, "AVX512_VBMI2", FeatureCategory::Simd, "AVX-512 Vector Bit Manipulation 2"),
        row(7, "CET_SS", FeatureCategory::Security, "Control-flow Enforcement Shadow Stack"),
        row(8, "GFNI", FeatureCategory::Cryptography, "Galois Field instructions"),
        row(9, "VAES", FeatureCategory::Cryptography, "Vector AES"),
        row(10, "VPCLMULQDQ", FeatureCategory::Cryptography, "Vector PCLMULQDQ"),
        row(11, "AVX512_VNNI", FeatureCategory::Simd, "AVX-512 Vector Neural Network Instructions"),
        row(12, "AVX512_BITALG", FeatureCategory::Simd, "AVX-512 Bit Algorithms"),
        row(13, "TME_EN", FeatureCategory::Security, "Total Memory Encryption"),
        row(14, "AVX512_VPOPCNTDQ", FeatureCategory::Simd, "AVX-512 Vector Population Count"),
        row(16, "LA57", FeatureCategory::Memory, "5-level paging support"),
        row(22, "RDPID", FeatureCategory::System, "Read Processor ID"),
        row(23, "KL", FeatureCategory::Security, "Key Locker"),
        row(25, "CLDEMOTE", FeatureCategory::Performance, "Cache line demote"),
        row(27, "MOVDIRI", FeatureCategory::Performance, "MOVDIRI instruction"),
        row(28, "MOVDIR64B", FeatureCategory::Performance, "MOVDIR64B instruction"),
        row(29, "ENQCMD", FeatureCategory::Performance, "Enqueue Command"),
        row(30, "SGX_LC", FeatureCategory::Security, "SGX Launch Configuration"),
        row(31, "PKS", FeatureCategory::Security, "Protection Keys for Supervisor-mode"),
    ]
}

fn leaf7_ecx_table() -> (r: Vec<FeatureBit>)
    ensures
        r@ == leaf7_ecx_rows(),
{
    let r = vec![
        fb(0, "PREFETCHWT1", FeatureCategory::Performance, "PREFETCHWT1 instruction"),
        fb(1, "AVX512_VBMI", FeatureCategory::Simd, "AVX-512 Vector Bit Manipulation"),
        fb(2, "UMIP", FeatureCategory::Security, "User-Mode Instruction Prevention"),
        fb(3, "PKU", FeatureCategory::Security, "Protection Keys for User-mode pages"),
        fb(4, "OSPKE", FeatureCategory::Security, "OS has enabled PKU"),
        fb(5, "WAITPKG", FeatureCategory::Power, "TPAUSE, UMONITOR, UMWAIT"),
        fb(6, "AVX512_VBMI2", FeatureCategory::Simd, "AVX-512 Vector Bit Manipulation 2"),
        fb(7, "CET_SS", FeatureCategory::Security, "Control-flow Enforcement Shadow Stack"),
        fb(8, "GFNI", FeatureCategory::Cryptography, "Galois Field instructions"),
        fb(9, "VAES", FeatureCategory::Cryptography, "Vector AES"),
        fb(10, "VPCLMULQDQ", FeatureCategory::Cryptography, "Vector PCLMULQDQ"),
        fb(11, "AVX512_VNNI", FeatureCategory::Simd, "AVX-512 Vector Neural Network Instructions"),
        fb(12, "AVX512_BITALG", FeatureCategory::Simd, "AVX-512 Bit Algorithms"),
        fb(13, "TME_EN", FeatureCategory::Security, "Total Memory Encryption"),
        fb(14, "AVX512_VPOPCNTDQ", FeatureCategory::Simd, "AVX-512 Vector Population Count"),
        fb(16, "LA57", FeatureCategory::Memory, "5-level paging support"),
        fb(22, "RDPID", FeatureCategory::System, "Read Processor ID"),
        fb(23, "KL", FeatureCategory::Security, "Key Locker"),
        fb(25, "CLDEMOTE", FeatureCategory::Performance, "Cache line demote"),
        fb(27, "MOVDIRI", FeatureCategory::Performance, "MOVDIRI instruction"),
        fb(28, "MOVDIR64B", FeatureCategory::Performance, "MOVDIR64B instruction"),
        fb(29, "ENQCMD", FeatureCategory::Performance, "Enqueue Command"),
        fb(30, "SGX_LC", FeatureCategory::Security, "SGX Launch Configuration"),
        fb(31, "PKS", FeatureCategory::Security, "Protection Keys for Supervisor-mode"),
    ];
    assert(r@ =~= leaf7_ecx_rows());
    r
}

/// The rows of leaf 7 subleaf 0, fourth register.
pub open spec fn leaf7_edx_rows() -> Seq<FeatureBit> {
    seq![
        row(2, "AVX512_4VNNIW", FeatureCategory::Simd, "AVX-512 4-register Neural Network"),
        row(3, "AVX512_4FMAPS", FeatureCategory::Simd, "AVX-512 4-register FMA Single Precision"),
        row(4, "FSRM", FeatureCategory::Performance, "Fast Short REP MOV"),
        row(5, "UINTR", FeatureCategory::System, "User Interrupts"),
        row(8, "AVX512_VP2INTERSECT", FeatureCategory::Simd, "AVX-512 VP2INTERSECT"),
        row(9, "SRBDS_CTRL", FeatureCategory::Security, "SRBDS mitigation control"),
        row(10, "MD_CLEAR", FeatureCategory::Security, "VERW clears CPU buffers"),
        row(11, "RTM_ALWAYS_ABORT", FeatureCategory::Performance, "RTM always aborts"),
        row(13, "TSX_FORCE_ABORT", FeatureCategory::Security, "TSX force abort MSR"),
        row(14, "SERIALIZE", FeatureCategory::System, "SERIALIZE instruction"),
        row(15, "HYBRID", FeatureCategory::System, "Hybrid processor"),
        row(16, "TSXLDTRK", FeatureCategory::Performance, "TSX suspend load tracking"),
        row(18, "PCONFIG", FeatureCategory::Security, "Platform configuration"),
        row(19, "ARCHITECTURAL_LBR", FeatureCategory::Debug, "Architectural LBR"),
        row(20, "CET_IBT", FeatureCategory::Security, "Control-flow Enforcement Indirect Branch"),
        row(22, "AMX_BF16", FeatureCategory::Simd, "AMX tile computation on bfloat16"),
        row(23, "AVX512_FP16", FeatureCategory::Simd, "AVX-512 16-bit floating-point"),
        row(24, "AMX_TILE", FeatureCategory::Simd, "AMX tile load/store"),
        row(25, "AMX_INT8", FeatureCategory::Simd, "AMX tile computation on 8-bit integers"),
        row(26, "IBRS_IBPB", FeatureCategory::Security, "Speculation Control IBRS/IBPB"),
        row(27, "STIBP", FeatureCategory::Security, "Single Thread Indirect Branch Predictors"),
        row(28, "L1D_FLUSH", FeatureCategory::Security, "L1D cache flush"),
        row(29, "IA32_ARCH_CAPABILITIES", FeatureCategory::Security, "Arch capabilities MSR"),
        row(30, "IA32_CORE_CAPABILITIES", FeatureCategory::System, "Core capabilities MSR"),
        row(31, "SSBD", FeatureCategory::Security, "Speculative Store Bypass Disable"),
    ]
}

fn leaf7_edx_table() -> (r: Vec<FeatureBit>)
    ensures
        r@ == leaf7_edx_rows(),
{
    let r = vec![
        fb(2, "AVX512_4VNNIW", FeatureCategory::Simd, "AVX-512 4-register Neural Network"),
        fb(3, "AVX512_4FMAPS", FeatureCategory::Simd, "AVX-512 4-register FMA Single Precision"),
        fb(4, "FSRM", FeatureCategory::Performance, "Fast Short REP MOV"),
        fb(5, "UINTR", FeatureCategory::System, "User Interrupts"),
        fb(8, "AVX512_VP2INTERSECT", FeatureCategory::Simd, "AVX-512 VP2INTERSECT"),
        fb(9, "SRBDS_CTRL", FeatureCategory::Security, "SRBDS mitigation control"),
        fb(10, "MD_CLEAR", FeatureCategory::Security, "VERW clears CPU buffers"),
        fb(11, "RTM_ALWAYS_ABORT", FeatureCategory::Performance, "RTM always aborts"),
        fb(13, "TSX_FORCE_ABORT", FeatureCategory::Security, "TSX force abort MSR"),
        fb(14, "SERIALIZE", FeatureCategory::System, "SERIALIZE instruction"),
        fb(15, "HYBRID", FeatureCategory::System, "Hybrid processor"),
        fb(16, "TSXLDTRK", FeatureCategory::Performance, "TSX suspend load tracking"),
        fb(18, "PCONFIG", FeatureCategory::Security, "Platform configuration"),
        fb(19, "ARCHITECTURAL_LBR", FeatureCategory::Debug, "Architectural LBR"),
        fb(20, "CET_IBT", FeatureCategory::Security, "Control-flow Enforcement Indirect Branch"),
        fb(22, "AMX_BF16", FeatureCategory::Simd, "AMX tile computation on bfloat16"),
        fb(23, "AVX512_FP16", FeatureCategory::Simd, "AVX-512 16-bit floating-point"),
        fb(24, "AMX_TILE", FeatureCategory::Simd, "AMX tile load/store"),
        fb(25, "AMX_INT8", FeatureCategory::Simd, "AMX tile computation on 8-bit integers"),
        fb(26, "IBRS_IBPB", FeatureCategory::Security, "Speculation Control IBRS/IBPB"),
        fb(27, "STIBP", FeatureCategory::Security, "Single Thread Indirect Branch Predictors"),
        fb(28, "L1D_FLUSH", FeatureCategory::Security, "L1D cache flush"),
        fb(29, "IA32_ARCH_CAPABILITIES", FeatureCategory::Security, "Arch capabilities MSR"),
        fb(30, "IA32_CORE_CAPABILITIES", FeatureCategory::System, "Core capabilities MSR"),
        fb(31, "SSBD", FeatureCategory::Security, "Speculative Store Bypass Disable"),
    ];
    assert(r@ =~= leaf7_edx_rows());
    r
}

/// The rows of leaf 7 subleaf 1, first register.
pub open spec fn leaf7_1_eax_rows() -> Seq<FeatureBit> {
    seq![
        row(3, "RAO_INT", FeatureCategory::Performance, "RAO-INT instructions"),
        row(4, "AVX_VNNI", FeatureCategory::Simd, "AVX VNNI instructions"),
        row(5, "AVX512_BF16", FeatureCategory::Simd, "AVX-512 BFLOAT16 instructions"),
        row(6, "LASS", FeatureCategory::Security, "Linear Address Space Separation"),
        row(7, "CMPCCXADD", FeatureCategory::Performance, "CMPccXADD instructions"),
        row(8, "ARCHPERFMONEXT", FeatureCategory::Performance, "Architectural PerfMon Extended"),
        row(10, "FZRM", FeatureCategory::Simd, "Fast zero-length REP MOVSB"),
        row(11, "FSRS", FeatureCategory::Performance, "Fast short REP STOSB"),
        row(12, "FSRC", FeatureCategory::Performance, "Fast short REP CMPSB/SCASB"),
        row(17, "FRED", FeatureCategory::System, "Flexible Return and Event Delivery"),
        row(18, "LKGS", FeatureCategory::System, "LKGS instruction"),
        row(19, "WRMSRNS", FeatureCategory::System, "WRMSRNS instruction"),
        row(21, "AMX_FP16", FeatureCategory::Simd, "AMX FP16 instructions"),
        row(22, "HRESET", FeatureCategory::System, "History reset support"),
        row(23, "AVX_IFMA", FeatureCategory::Simd, "AVX IFMA instructions"),
        row(26, "LAM", FeatureCategory::Memory, "Linear Address Masking"),
        row(27, "MSRLIST", FeatureCategory::System, "RDMSRLIST and WRMSRLIST"),
    ]
}

fn leaf7_1_eax_table() -> (r: Vec<FeatureBit>)
    ensures
        r@ == leaf7_1_eax_rows(),
{
    let r = vec![
        fb(3, "RAO_INT", FeatureCategory::Performance, "RAO-INT instructions"),
        fb(4, "AVX_VNNI", FeatureCategory::Simd, "AVX VNNI instructions"),
        fb(5, "AVX512_BF16", FeatureCategory::Simd, "AVX-512 BFLOAT16 instructions"),
        fb(6, "LASS", FeatureCategory::Security, "Linear Address Space Separation"),
        fb(7, "CMPCCXADD", FeatureCategory::Performance, "CMPccXADD instructions"),
        fb(8, "ARCHPERFMONEXT", FeatureCategory::Performance, "Architectural PerfMon Extended"),
        fb(10, "FZRM", FeatureCategory::Simd, "Fast zero-length REP MOVSB"),
        fb(11, "FSRS", FeatureCategory::Performance, "Fast short REP STOSB"),
        fb(12, "FSRC", FeatureCategory::Performance, "Fast short REP CMPSB/SCASB"),
        fb(17, "FRED", FeatureCategory::System, "Flexible Return and Event Delivery"),
        fb(18, "LKGS", FeatureCategory::System, "LKGS instruction"),
        fb(19, "WRMSRNS", FeatureCategory::System, "WRMSRNS instruction"),
        fb(21, "AMX_FP16", FeatureCategory::Simd, "AMX FP16 instructions"),
        fb(22, "HRESET", FeatureCategory::System, "History reset support"),
        fb(23, "AVX_IFMA", FeatureCategory::Simd, "AVX IFMA instructions"),
        fb(26, "LAM", FeatureCategory::Memory, "Linear Address Masking"),
        fb(27, "MSRLIST", FeatureCategory::System, "RDMSRLIST and WRMSRLIST"),
    ];
    assert(r@ =~= leaf7_1_eax_rows());
    r
}

/// The rows of leaf 7 subleaf 1, second register.
pub open spec fn leaf7_1_ebx_rows() -> Seq<FeatureBit> {
    seq![
        row(0, "PPIN", FeatureCategory::System, "Protected Processor Inventory Number"),
    ]
}

fn leaf7_1_ebx_table() -> (r: Vec<FeatureBit>)
    ensures
        r@ == leaf7_1_ebx_rows(),
{
    let r = vec![
        fb(0, "PPIN", FeatureCategory::System, "Protected Processor Inventory Number"),
    ];
    assert(r@ =~= leaf7_1_ebx_rows());
    r
}

/// The rows of leaf 7 subleaf 1, fourth register.
pub open spec fn leaf7_1_edx_rows() -> Seq<FeatureBit> {
    seq![
        row(4, "AVX_VNNI_INT8", FeatureCategory::Simd, "AVX VNNI INT8 instructions"),
        row(5, "AVX_NE_CONVERT", FeatureCategory::Simd, "AVX no-exception FP conversion"),
        row(8, "AMX_COMPLEX", FeatureCategory::Simd, "AMX complex number support"),
        row(10, "AVX_VNNI_INT16", FeatureCategory::Simd, "AVX VNNI INT16 instructions"),
        row(14, "PREFETCHITI", FeatureCategory::Performance, "PREFETCHIT0/1 instructions"),
        row(15, "USER_MSR", FeatureCategory::System, "User-mode MSR access"),
        row(17, "CET_SSS", FeatureCategory::Security, "Shadow Stack Select"),
        row(18, "AVX10", FeatureCategory::Simd, "AVX10 Converged Vector ISA"),
        row(19, "APX_F", FeatureCategory::Performance, "Advanced Performance Extensions"),
    ]
}

fn leaf7_1_edx_table() -> (r: Vec<FeatureBit>)
    ensures
        r@ == leaf7_1_edx_rows(),
{
    let r = vec![
        fb(4, "AVX_VNNI_INT8", FeatureCategory::Simd, "AVX VNNI INT8 instructions"),
        fb(5, "AVX_NE_CONVERT", FeatureCategory::Simd, "AVX no-exception FP conversion"),
        fb(8, "AMX_COMPLEX", FeatureCategory::Simd, "AMX complex number support"),
        fb(10, "AVX_VNNI_INT16", FeatureCategory::Simd, "AVX VNNI INT16 instructions"),
        fb(14, "PREFETCHITI", FeatureCategory::Performance, "PREFETCHIT0/1 instructions"),
        fb(15, "USER_MSR", FeatureCategory::System, "User-mode MSR access"),
        fb(17, "CET_SSS", FeatureCategory::Security, "Shadow Stack Select"),
        fb(18, "AVX10", FeatureCategory::Simd, "AVX10 Converged Vector ISA"),
        fb(19, "APX_F", FeatureCategory::Performance, "Advanced Performance Extensions"),
    ];
    assert(r@ =~= leaf7_1_edx_rows());
    r
}

/// The rows of leaf 7 subleaf 2, fourth register.
pub open spec fn leaf7_2_edx_rows() -> Seq<FeatureBit> {
    seq![
        row(0, "PSFD", FeatureCategory::Security, "Fast Store Forwarding Predictor Disable"),
        row(1, "IPRED_CTRL", FeatureCategory::Security, "IPRED control"),
        row(2, "RRSBA_CTRL", FeatureCategory::Security, "RRSBA control"),
        row(3, "DDPD_U", FeatureCategory::Security, "Data Dependent Prefetcher Disable"),
        row(4, "BHI_CTRL", FeatureCategory::Security, "Branch History Injection control"),
        row(5, "MCDT_NO", FeatureCategory::Security, "MCDT not needed"),
    ]
}

fn leaf7_2_edx_table() -> (r: Vec<FeatureBit>)
    ensures
        r@ == leaf7_2_edx_rows(),
{
    let r = vec![
        fb(0, "PSFD", FeatureCategory::Security, "Fast Store Forwarding Predictor Disable"),
        fb(1, "IPRED_CTRL", FeatureCategory::Security, "IPRED control"),
        fb(2, "RRSBA_CTRL", FeatureCategory::Security, "RRSBA control"),
        fb(3, "DDPD_U", FeatureCategory::Security, "Data Dependent Prefetcher Disable"),
        fb(4, "BHI_CTRL", FeatureCategory::Security, "Branch History Injection control"),
        fb(5, "MCDT_NO", FeatureCategory::Security, "MCDT not needed"),
    ];
    assert(r@ =~= leaf7_2_edx_rows());
    r
}

/// The rows of leaf 7 subleaf 3, fourth register.
pub open spec fn leaf7_3_edx_rows() -> Seq<FeatureBit> {
    seq![
        row(0, "AVX10_128", FeatureCategory::Simd, "AVX10 128-bit support"),
        row(1, "AVX10_256", FeatureCategory::Simd, "AVX10 256-bit support"),
        row(2, "AVX10_512", FeatureCategory::Simd, "AVX10 512-bit support"),
    ]
}

fn leaf7_3_edx_table() -> (r: Vec<FeatureBit>)
    ensures
        r@ == leaf7_3_edx_rows(),
{
    let r = vec![
        fb(0, "AVX10_128", FeatureCategory::Simd, "AVX10 128-bit support"),
        fb(1, "AVX10_256", FeatureCategory::Simd, "AVX10 256-bit support"),
        fb(2, "AVX10_512", FeatureCategory::Simd, "AVX10 512-bit support"),
    ];
    assert(r@ =~= leaf7_3_edx_rows());
    r
}

/// The rows of leaf 6, first register.
pub open spec fn thermal_eax_rows() -> Seq<FeatureBit> {
    seq![
        row(0, "DTHERM", FeatureCategory::Power, "Digital thermal sensor"),
        row(1, "TURBO_BOOST", FeatureCategory::Power, "Intel Turbo Boost"),
        row(2, "ARAT", FeatureCategory::Power, "APIC-Timer-always-running"),
        row(4, "PLN", FeatureCategory::Power, "Power limit notification"),
        row(5, "ECMD", FeatureCategory::Power, "Clock modulation duty cycle"),
        row(6, "PTM", FeatureCategory::Power, "Package thermal management"),
        row(7, "HWP", FeatureCategory::Power, "Hardware P-states (HWP)"),
        row(8, "HWP_NOTIFICATION", FeatureCategory::Power, "HWP notification"),
        row(9, "HWP_ACTIVITY_WINDOW", FeatureCategory::Power, "HWP activity window"),
        row(10, "HWP_ENERGY_PERF", FeatureCategory::Power, "HWP energy/performance"),
        row(11, "HWP_PACKAGE", FeatureCategory::Power, "HWP package level request"),
        row(13, "HDC", FeatureCategory::Power, "Hardware Duty Cycling"),
        row(14, "TURBO_BOOST_3", FeatureCategory::Power, "Intel Turbo Boost Max 3.0"),
        row(15, "HWP_CAPABILITIES", FeatureCategory::Power, "HWP capabilities"),
        row(16, "HWP_PECI", FeatureCategory::Power, "HWP PECI override"),
        row(17, "HWP_FLEXIBLE", FeatureCategory::Power, "Flexible HWP"),
        row(18, "HWP_FAST_ACCESS", FeatureCategory::Power, "Fast access HWP request"),
        row(19, "HW_FEEDBACK", FeatureCategory::Performance, "HW_FEEDBACK interface"),
        row(20, "IGNORE_IDLE", FeatureCategory::Power, "Ignore idle logical processor HWP request"),
        row(23, "THREAD_DIRECTOR", FeatureCategory::Performance, "Intel Thread Director"),
        row(24, "THERM_INTERRUPT", FeatureCategory::Power, "IA32_THERM_INTERRUPT MSR bit 25"),
    ]
}

fn thermal_eax_table() -> (r: Vec<FeatureBit>)
    ensures
        r@ == thermal_eax_rows(),
{
    let r = vec![
        fb(0, "DTHERM", FeatureCategory::Power, "Digital thermal sensor"),
        fb(1, "TURBO_BOOST", FeatureCategory::Power, "Intel Turbo Boost"),
        fb(2, "ARAT", FeatureCategory::Power, "APIC-Timer-always-running"),
        fb(4, "PLN", FeatureCategory::Power, "Power limit notification"),
        fb(5, "ECMD", FeatureCategory::Power, "Clock modulation duty cycle"),
        fb(6, "PTM", FeatureCategory::Power, "Package thermal management"),
        fb(7, "HWP", FeatureCategory::Power, "Hardware P-states (HWP)"),
        fb(8, "HWP_NOTIFICATION", FeatureCategory::Power, "HWP notification"),
        fb(9, "HWP_ACTIVITY_WINDOW", FeatureCategory::Power, "HWP activity window"),
        fb(10, "HWP_ENERGY_PERF", FeatureCategory::Power, "HWP energy/performance"),
        fb(11, "HWP_PACKAGE", FeatureCategory::Power, "HWP package level request"),
        fb(13, "HDC", FeatureCategory::Power, "Hardware Duty Cycling"),
        fb(14, "TURBO_BOOST_3", FeatureCategory::Power, "Intel Turbo Boost Max 3.0"),
        fb(15, "HWP_CAPABILITIES", FeatureCategory::Power, "HWP capabilities"),
        fb(16, "HWP_PECI", FeatureCategory::Power, "HWP PECI override"),
        fb(17, "HWP_FLEXIBLE", FeatureCategory::Power, "Flexible HWP"),
        fb(18, "HWP_FAST_ACCESS", FeatureCategory::Power, "Fast access HWP request"),
        fb(19, "HW_FEEDBACK", FeatureCategory::Performance, "HW_FEEDBACK interface"),
        fb(20, "IGNORE_IDLE", FeatureCategory::Power, "Ignore idle logical processor HWP request"),
        fb(23, "THREAD_DIRECTOR", FeatureCategory::Performance, "Intel Thread Director"),
        fb(24, "THERM_INTERRUPT", FeatureCategory::Power, "IA32_THERM_INTERRUPT MSR bit 25"),
    ];
    assert(r@ =~= thermal_eax_rows());
    r
}

/// The rows of leaf 6, third register.
pub open spec fn thermal_ecx_rows() -> Seq<FeatureBit> {
    seq![
        row(0, "HW_FEEDBACK_PERF", FeatureCategory::Performance, "Hardware feedback performance/energy bias"),
        row(1, "HW_FEEDBACK_SIZE", FeatureCategory::Performance, "Hardware feedback interface size"),
        row(3, "PERF_PREF", FeatureCategory::Performance, "Performance-energy bias preference"),
    ]
}

fn thermal_ecx_table() -> (r: Vec<FeatureBit>)
    ensures
        r@ == thermal_ecx_rows(),
{
    let r = vec![
        fb(0, "HW_FEEDBACK_PERF", FeatureCategory::Performance, "Hardware feedback performance/energy bias"),
        fb(1, "HW_FEEDBACK_SIZE", FeatureCategory::Performance, "Hardware feedback interface size"),
        fb(3, "PERF_PREF", FeatureCategory::Performance, "Performance-energy bias preference"),
    ];
    assert(r@ =~= thermal_ecx_rows());
    r
}

/// The rows of leaf 0xA, second register (a set bit means unavailable).
pub open spec fn perfmon_ebx_rows() -> Seq<FeatureBit> {
    seq![
        row(0, "PERFMON_CORE_CYCLES", FeatureCategory::Performance, "Core cycle event available"),
        row(1, "PERFMON_INSTR_RETIRED", FeatureCategory::Performance, "Instruction retired event available"),
        row(2, "PERFMON_REF_CYCLES", FeatureCategory::Performance, "Reference cycles event available"),
        row(3, "PERFMON_LLC_REF", FeatureCategory::Performance, "LLC reference event available"),
        row(4, "PERFMON_LLC_MISSES", FeatureCategory::Performance, "LLC misses event available"),
        row(5, "PERFMON_BR_INSTR", FeatureCategory::Performance, "Branch instruction retired event available"),
        row(6, "PERFMON_BR_MISPREDICT", FeatureCategory::Performance, "Branch mispredict retired event available"),
    ]
}

fn perfmon_ebx_table() -> (r: Vec<FeatureBit>)
    ensures
        r@ == perfmon_ebx_rows(),
{
    let r = vec![
        fb(0, "PERFMON_CORE_CYCLES", FeatureCategory::Performance, "Core cycle event available"),
        fb(1, "PERFMON_INSTR_RETIRED", FeatureCategory::Performance, "Instruction retired event available"),
        fb(2, "PERFMON_REF_CYCLES", FeatureCategory::Performance, "Reference cycles event available"),
        fb(3, "PERFMON_LLC_REF", FeatureCategory::Performance, "LLC reference event available"),
        fb(4, "PERFMON_LLC_MISSES", FeatureCategory::Performance, "LLC misses event available"),
        fb(5, "PERFMON_BR_INSTR", FeatureCategory::Performance, "Branch instruction retired event available"),
        fb(6, "PERFMON_BR_MISPREDICT", FeatureCategory::Performance, "Branch mispredict retired event available"),
    ];
    assert(r@ =~= perfmon_ebx_rows());
    r
}

/// The rows of leaf 0xA, fourth register.
pub open spec fn perfmon_edx_rows() -> Seq<FeatureBit> {
    seq![
        row(0, "PERFMON_FIXED_CTR0", FeatureCategory::Performance, "Fixed counter 0"),
        row(1, "PERFMON_FIXED_CTR1", FeatureCategory::Performance, "Fixed counter 1"),
        row(2, "PERFMON_FIXED_CTR2", FeatureCategory::Performance, "Fixed counter 2"),
        row(15, "PERFMON_ANYTHREAD_DEPRECATED", FeatureCategory::Performance, "AnyThread deprecation"),
    ]
}

fn perfmon_edx_table() -> (r: Vec<FeatureBit>)
    ensures
        r@ == perfmon_edx_rows(),
{
    let r = vec![
        fb(0, "PERFMON_FIXED_CTR0", FeatureCategory::Performance, "Fixed counter 0"),
        fb(1, "PERFMON_FIXED_CTR1", FeatureCategory::Performance, "Fixed counter 1"),
        fb(2, "PERFMON_FIXED_CTR2", FeatureCategory::Performance, "Fixed counter 2"),
        fb(15, "PERFMON_ANYTHREAD_DEPRECATED", FeatureCategory::Performance, "AnyThread deprecation"),
    ];
    assert(r@ =~= perfmon_edx_rows());
    r
}

/// The rows of leaf 0x10 subleaf 0, second register.
pub open spec fn rdt_ebx_rows() -> Seq<FeatureBit> {
    seq![
        row(1, "RDT_L3_MONITORING", FeatureCategory::Performance, "L3 Cache Monitoring"),
        row(2, "RDT_L2_MONITORING", FeatureCategory::Performance, "L2 Cache Monitoring"),
        row(3, "RDT_MBA", FeatureCategory::Performance, "Memory Bandwidth Allocation"),
    ]
}

fn rdt_ebx_table() -> (r: Vec<FeatureBit>)
    ensures
        r@ == rdt_ebx_rows(),
{
    let r = vec![
        fb(1, "RDT_L3_MONITORING", FeatureCategory::Performance, "L3 Cache Monitoring"),
        fb(2, "RDT_L2_MONITORING", FeatureCategory::Performance, "L2 Cache Monitoring"),
        fb(3, "RDT_MBA", FeatureCategory::Performance, "Memory Bandwidth Allocation"),
    ];
    assert(r@ =~= rdt_ebx_rows());
    r
}

/// The rows of leaf 0x12 subleaf 0, first register.
pub open spec fn sgx_eax_rows() -> Seq<FeatureBit> {
    seq![
        row(0, "SGX1", FeatureCategory::Security, "SGX1 leaf functions"),
        row(1, "SGX2", FeatureCategory::Security, "SGX2 leaf functions"),
        row(5, "ENCLV", FeatureCategory::Security, "ENCLV leaves"),
        row(6, "ENCLS", FeatureCategory::Security, "ENCLS leaves"),
    ]
}

fn sgx_eax_table() -> (r: Vec<FeatureBit>)
    ensures
        r@ == sgx_eax_rows(),
{
    let r = vec![
        fb(0, "SGX1", FeatureCategory::Security, "SGX1 leaf functions"),
        fb(1, "SGX2", FeatureCategory::Security, "SGX2 leaf functions"),
        fb(5, "ENCLV", FeatureCategory::Security, "ENCLV leaves"),
        fb(6, "ENCLS", FeatureCategory::Security, "ENCLS leaves"),
    ];
    assert(r@ =~= sgx_eax_rows());
    r
}

/// The rows of leaf 0x8000_0001, fourth register.
pub open spec fn ext1_edx_rows() -> Seq<FeatureBit> {
    seq![
        row(11, "SYSCALL", FeatureCategory::System, "SYSCALL/SYSRET instructions"),
        row(19, "MP", FeatureCategory::System, "Multiprocessor capable"),
        row(20, "NX", FeatureCategory::Security, "Execute Disable bit"),
        row(22, "MMXEXT", FeatureCategory::Simd, "Extended MMX"),
        row(25, "FXSR_OPT", FeatureCategory::Performance, "FXSAVE/FXRSTOR optimizations"),
        row(26, "PDPE1GB", FeatureCategory::Memory, "1GB pages support"),
        row(27, "RDTSCP", FeatureCategory::System, "RDTSCP instruction"),
        row(29, "LM", FeatureCategory::System, "Long Mode (x86-64/EM64T)"),
        row(30, "3DNOWEXT", FeatureCategory::Simd, "Extended 3DNow!"),
        row(31, "3DNOW", FeatureCategory::Simd, "3DNow! instructions"),
    ]
}

fn ext1_edx_table() -> (r: Vec<FeatureBit>)
    ensures
        r@ == ext1_edx_rows(),
{
    let r = vec![
        fb(11, "SYSCALL", FeatureCategory::System, "SYSCALL/SYSRET instructions"),
        fb(19, "MP", FeatureCategory::System, "Multiprocessor capable"),
        fb(20, "NX", FeatureCategory::Security, "Execute Disable bit"),
        fb(22, "MMXEXT", FeatureCategory::Simd, "Extended MMX"),
        fb(25, "FXSR_OPT", FeatureCategory::Performance, "FXSAVE/FXRSTOR optimizations"),
        fb(26, "PDPE1GB", FeatureCategory::Memory, "1GB pages support"),
        fb(27, "RDTSCP", FeatureCategory::System, "RDTSCP instruction"),
        fb(29, "LM", FeatureCategory::System, "Long Mode (x86-64/EM64T)"),
        fb(30, "3DNOWEXT", FeatureCategory::Simd, "Extended 3DNow!"),
        fb(31, "3DNOW", FeatureCategory::Simd, "3DNow! instructions"),
    ];
    assert(r@ =~= ext1_edx_rows());
    r
}

/// The rows of leaf 0x8000_0001, third register.
pub open spec fn ext1_ecx_rows() -> Seq<FeatureBit> {
    seq![
        row(0, "LAHF_LM", FeatureCategory::System, "LAHF/SAHF in 64-bit mode"),
        row(1, "CMP_LEGACY", FeatureCategory::System, "Core multi-processing legacy mode"),
        row(2, "SVM", FeatureCategory::Virtualization, "Secure Virtual Machine (AMD-V)"),
        row(3, "EXTAPIC", FeatureCategory::System, "Extended APIC space"),
        row(4, "CR8_LEGACY", FeatureCategory::System, "CR8 in 32-bit mode"),
        row(5, "ABM", FeatureCategory::Performance, "Advanced Bit Manipulation (LZCNT)"),
        row(6, "SSE4A", FeatureCategory::Simd, "SSE4a instructions"),
        row(7, "MISALIGNSSE", FeatureCategory::Performance, "Misaligned SSE mode"),
        row(8, "3DNOWPREFETCH", FeatureCategory::Performance, "PREFETCH/PREFETCHW"),
        row(9, "OSVW", FeatureCategory::System, "OS Visible Workaround"),
        row(10, "IBS", FeatureCategory::Debug, "Instruction Based Sampling"),
        row(11, "XOP", FeatureCategory::Simd, "Extended Operations"),
        row(12, "SKINIT", FeatureCategory::Security, "SKINIT/STGI instructions"),
        row(13, "WDT", FeatureCategory::Debug, "Watchdog Timer"),
        row(15, "LWP", FeatureCategory::Performance, "Lightweight Profiling"),
        row(16, "FMA4", FeatureCategory::Simd, "4-operand Fused Multiply-Add"),
        row(17, "TCE", FeatureCategory::Performance, "Translation Cache Extension"),
        row(19, "NODEID_MSR", FeatureCategory::System, "NodeID MSR"),
        row(21, "TBM", FeatureCategory::Performance, "Trailing Bit Manipulation"),
        row(22, "TOPOEXT", FeatureCategory::System, "Topology Extensions"),
        row(23, "PERFCTR_CORE", FeatureCategory::Performance, "Core performance counter"),
        row(24, "PERFCTR_NB", FeatureCategory::Performance, "Northbridge performance counter"),
        row(26, "DBX", FeatureCategory::Debug, "Data breakpoint extension"),
        row(27, "PERFTSC", FeatureCategory::Performance, "Performance TSC"),
        row(28, "PCX_L2I", FeatureCategory::Performance, "L2I performance counter"),
        row(29, "MONITORX", FeatureCategory::Power, "MONITORX/MWAITX instructions"),
        row(30, "ADDR_MASK_EXT", FeatureCategory::System, "Address mask extension"),
    ]
}

fn ext1_ecx_table() -> (r: Vec<FeatureBit>)
    ensures
        r@ == ext1_ecx_rows(),
{
    let r = vec![
        fb(0, "LAHF_LM", FeatureCategory::System, "LAHF/SAHF in 64-bit mode"),
        fb(1, "CMP_LEGACY", FeatureCategory::System, "Core multi-processing legacy mode"),
        fb(2, "SVM", FeatureCategory::Virtualization, "Secure Virtual Machine (AMD-V)"),
        fb(3, "EXTAPIC", FeatureCategory::System, "Extended APIC space"),
        fb(4, "CR8_LEGACY", FeatureCategory::System, "CR8 in 32-bit mode"),
        fb(5, "ABM", FeatureCategory::Performance, "Advanced Bit Manipulation (LZCNT)"),
        fb(6, "SSE4A", FeatureCategory::Simd, "SSE4a instructions"),
        fb(7, "MISALIGNSSE", FeatureCategory::Performance, "Misaligned SSE mode"),
        fb(8, "3DNOWPREFETCH", FeatureCategory::Performance, "PREFETCH/PREFETCHW"),
        fb(9, "OSVW", FeatureCategory::System, "OS Visible Workaround"),
        fb(10, "IBS", FeatureCategory::Debug, "Instruction Based Sampling"),
        fb(11, "XOP", FeatureCategory::Simd, "Extended Operations"),
        fb(12, "SKINIT", FeatureCategory::Security, "SKINIT/STGI instructions"),
        fb(13, "WDT", FeatureCategory::Debug, "Watchdog Timer"),
        fb(15, "LWP", FeatureCategory::Performance, "Lightweight Profiling"),
        fb(16, "FMA4", FeatureCategory::Simd, "4-operand Fused Multiply-Add"),
        fb(17, "TCE", FeatureCategory::Performance, "Translation Cache Extension"),
        fb(19, "NODEID_MSR", FeatureCategory::System, "NodeID MSR"),
        fb(21, "TBM", FeatureCategory::Performance, "Trailing Bit Manipulation"),
        fb(22, "TOPOEXT", FeatureCategory::System, "Topology Extensions"),
        fb(23, "PERFCTR_CORE", FeatureCategory::Performance, "Core performance counter"),
        fb(24, "PERFCTR_NB", FeatureCategory::Performance, "Northbridge performance counter"),
        fb(26, "DBX", FeatureCategory::Debug, "Data breakpoint extension"),
        fb(27, "PERFTSC", FeatureCategory::Performance, "Performance TSC"),
        fb(28, "PCX_L2I", FeatureCategory::Performance, "L2I performance counter"),
        fb(29, "MONITORX", FeatureCategory::Power, "MONITORX/MWAITX instructions"),
        fb(30, "ADDR_MASK_EXT", FeatureCategory::System, "Address mask extension"),
    ];
    assert(r@ =~= ext1_ecx_rows());
    r
}

/// The rows of leaf 0x8000_0008, second register.
pub open spec fn ext8_ebx_rows() -> Seq<FeatureBit> {
    seq![
        row(0, "CLZERO", FeatureCategory::Performance, "CLZERO instruction"),
        row(1, "IRPERF", FeatureCategory::Performance, "Instructions retired counter"),
        row(2, "XSAVEERPTR", FeatureCategory::System, "XSAVE error pointers"),
        row(4, "RDPRU", FeatureCategory::Performance, "RDPRU instruction"),
        row(6, "MBE", FeatureCategory::Security, "Memory Bandwidth Enforcement"),
        row(8, "MCOMMIT", FeatureCategory::Performance, "MCOMMIT instruction"),
        row(9, "WBNOINVD", FeatureCategory::Performance, "WBNOINVD instruction"),
        row(12, "IBPB", FeatureCategory::Security, "Indirect Branch Prediction Barrier"),
        row(13, "INT_WBINVD", FeatureCategory::System, "Interruptible WBINVD"),
        row(14, "IBRS", FeatureCategory::Security, "Indirect Branch Restricted Speculation"),
        row(15, "STIBP", FeatureCategory::Security, "Single Thread Indirect Branch Predictor"),
        row(16, "IBRS_ALWAYS_ON", FeatureCategory::Security, "IBRS always enabled"),
        row(17, "STIBP_ALWAYS_ON", FeatureCategory::Security, "STIBP always enabled"),
        row(18, "IBRS_PREFERRED", FeatureCategory::Security, "IBRS preferred"),
        row(19, "IBRS_SAME_MODE", FeatureCategory::Security, "IBRS same mode protection"),
        row(20, "NO_EFER_LMSLE", FeatureCategory::System, "No EFER.LMSLE support"),
        row(23, "PPIN", FeatureCategory::Security, "Protected Processor Inventory Number"),
        row(24, "SSBD", FeatureCategory::Security, "Speculative Store Bypass Disable"),
        row(25, "VIRT_SSBD", FeatureCategory::Security, "Virtualized SSBD"),
        row(26, "SSB_NO", FeatureCategory::Security, "Not vulnerable to SSB"),
        row(28, "PSFD", FeatureCategory::Security, "Predictive Store Forward Disable"),
    ]
}

fn ext8_ebx_table() -> (r: Vec<FeatureBit>)
    ensures
        r@ == ext8_ebx_rows(),
{
    let r = vec![
        fb(0, "CLZERO", FeatureCategory::Performance, "CLZERO instruction"),
        fb(1, "IRPERF", FeatureCategory::Performance, "Instructions retired counter"),
        fb(2, "XSAVEERPTR", FeatureCategory::System, "XSAVE error pointers"),
        fb(4, "RDPRU", FeatureCategory::Performance, "RDPRU instruction"),
        fb(6, "MBE", FeatureCategory::Security, "Memory Bandwidth Enforcement"),
        fb(8, "MCOMMIT", FeatureCategory::Performance, "MCOMMIT instruction"),
        fb(9, "WBNOINVD", FeatureCategory::Performance, "WBNOINVD instruction"),
        fb(12, "IBPB", FeatureCategory::Security, "Indirect Branch Prediction Barrier"),
        fb(13, "INT_WBINVD", FeatureCategory::System, "Interruptible WBINVD"),
        fb(14, "IBRS", FeatureCategory::Security, "Indirect Branch Restricted Speculation"),
        fb(15, "STIBP", FeatureCategory::Security, "Single Thread Indirect Branch Predictor"),
        fb(16, "IBRS_ALWAYS_ON", FeatureCategory::Security, "IBRS always enabled"),
        fb(17, "STIBP_ALWAYS_ON", FeatureCategory::Security, "STIBP always enabled"),
        fb(18, "IBRS_PREFERRED", FeatureCategory::Security, "IBRS preferred"),
        fb(19, "IBRS_SAME_MODE", FeatureCategory::Security, "IBRS same mode protection"),
        fb(20, "NO_EFER_LMSLE", FeatureCategory::System, "No EFER.LMSLE support"),
        fb(23, "PPIN", FeatureCategory::Security, "Protected Processor Inventory Number"),
        fb(24, "SSBD", FeatureCategory::Security, "Speculative Store Bypass Disable"),
        fb(25, "VIRT_SSBD", FeatureCategory::Security, "Virtualized SSBD"),
        fb(26, "SSB_NO", FeatureCategory::Security, "Not vulnerable to SSB"),
        fb(28, "PSFD", FeatureCategory::Security, "Predictive Store Forward Disable"),
    ];
    assert(r@ =~= ext8_ebx_rows());
    r
}

/// The rows of leaf 0x8000_0008, third register.
pub open spec fn ext8_ecx_rows() -> Seq<FeatureBit> {
    seq![
        row(0, "PERFCTR_CORE", FeatureCategory::Performance, "Core performance counters"),
        row(1, "PERFCTR_NB", FeatureCategory::Performance, "NB performance counters"),
    ]
}

fn ext8_ecx_table() -> (r: Vec<FeatureBit>)
    ensures
        r@ == ext8_ecx_rows(),
{
    let r = vec![
        fb(0, "PERFCTR_CORE", FeatureCategory::Performance, "Core performance counters"),
        fb(1, "PERFCTR_NB", FeatureCategory::Performance, "NB performance counters"),
    ];
    assert(r@ =~= ext8_ecx_rows());
    r
}

/// The rows of leaf 0x8000_000A, fourth register.
pub open spec fn svm_edx_rows() -> Seq<FeatureBit> {
    seq![
        row(0, "SVM_NPT", FeatureCategory::Virtualization, "Nested Page Tables"),
        row(1, "SVM_LBR_VIRT", FeatureCategory::Virtualization, "LBR Virtualization"),
        row(2, "SVM_LOCK", FeatureCategory::Virtualization, "SVM Lock"),
        row(3, "SVM_NRIP", FeatureCategory::Virtualization, "NRIP Save"),
        row(4, "SVM_TSC_RATE", FeatureCategory::Virtualization, "TSC Rate MSR"),
        row(5, "SVM_VMCB_CLEAN", FeatureCategory::Virtualization, "VMCB Clean Bits"),
        row(6, "SVM_FLUSH_BY_ASID", FeatureCategory::Virtualization, "Flush by ASID"),
        row(7, "SVM_DECODE_ASSISTS", FeatureCategory::Virtualization, "Decode Assists"),
        row(10, "SVM_PAUSE_FILTER", FeatureCategory::Virtualization, "Pause Intercept Filter"),
        row(12, "SVM_PAUSE_THRESHOLD", FeatureCategory::Virtualization, "Pause Filter Threshold"),
        row(13, "SVM_AVIC", FeatureCategory::Virtualization, "Advanced Virtual Interrupt Controller"),
        row(15, "SVM_V_VMSAVE_VMLOAD", FeatureCategory::Virtualization, "Virtual VMSAVE/VMLOAD"),
        row(16, "SVM_VGIF", FeatureCategory::Virtualization, "Virtual GIF"),
        row(17, "SVM_GMET", FeatureCategory::Virtualization, "Guest Mode Execute Trap"),
        row(18, "SVM_X2AVIC", FeatureCategory::Virtualization, "x2APIC Virtual Interrupt Controller"),
        row(19, "SVM_SSSE_ERR", FeatureCategory::Virtualization, "Supervisor Shadow Stack"),
        row(20, "SVM_SPEC_CTRL", FeatureCategory::Security, "SPEC_CTRL virtualization"),
        row(21, "SVM_ROGPT", FeatureCategory::Virtualization, "Read-Only Guest Page Table"),
        row(23, "SVM_HOST_MCE_OVERRIDE", FeatureCategory::Virtualization, "Host MCE Override"),
        row(24, "SVM_INVLPGB", FeatureCategory::Virtualization, "INVLPGB/TLBSYNC support"),
        row(25, "SVM_VNMI", FeatureCategory::Virtualization, "Virtual NMI"),
        row(26, "SVM_IBS_VIRT", FeatureCategory::Virtualization, "IBS Virtualization"),
        row(27, "SVM_EXT_LVT", FeatureCategory::Virtualization, "Extended LVT offset fault change"),
    ]
}

fn svm_edx_table() -> (r: Vec<FeatureBit>)
    ensures
        r@ == svm_edx_rows(),
{
    let r = vec![
        fb(0, "SVM_NPT", FeatureCategory::Virtualization, "Nested Page Tables"),
        fb(1, "SVM_LBR_VIRT", FeatureCategory::Virtualization, "LBR Virtualization"),
        fb(2, "SVM_LOCK", FeatureCategory::Virtualization, "SVM Lock"),
        fb(3, "SVM_NRIP", FeatureCategory::Virtualization, "NRIP Save"),
        fb(4, "SVM_TSC_RATE", FeatureCategory::Virtualization, "TSC Rate MSR"),
        fb(5, "SVM_VMCB_CLEAN", FeatureCategory::Virtualization, "VMCB Clean Bits"),
        fb(6, "SVM_FLUSH_BY_ASID", FeatureCategory::Virtualization, "Flush by ASID"),
        fb(7, "SVM_DECODE_ASSISTS", FeatureCategory::Virtualization, "Decode Assists"),
        fb(10, "SVM_PAUSE_FILTER", FeatureCategory::Virtualization, "Pause Intercept Filter"),
        fb(12, "SVM_PAUSE_THRESHOLD", FeatureCategory::Virtualization, "Pause Filter Threshold"),
        fb(13, "SVM_AVIC", FeatureCategory::Virtualization, "Advanced Virtual Interrupt Controller"),
        fb(15, "SVM_V_VMSAVE_VMLOAD", FeatureCategory::Virtualization, "Virtual VMSAVE/VMLOAD"),
        fb(16, "SVM_VGIF", FeatureCategory::Virtualization, "Virtual GIF"),
        fb(17, "SVM_GMET", FeatureCategory::Virtualization, "Guest Mode Execute Trap"),
        fb(18, "SVM_X2AVIC", FeatureCategory::Virtualization, "x2APIC Virtual Interrupt Controller"),
        fb(19, "SVM_SSSE_ERR", FeatureCategory::Virtualization, "Supervisor Shadow Stack"),
        fb(20, "SVM_SPEC_CTRL", FeatureCategory::Security, "SPEC_CTRL virtualization"),
        fb(21, "SVM_ROGPT", FeatureCategory::Virtualization, "Read-Only Guest Page Table"),
        fb(23, "SVM_HOST_MCE_OVERRIDE", FeatureCategory::Virtualization, "Host MCE Override"),
        fb(24, "SVM_INVLPGB", FeatureCategory::Virtualization, "INVLPGB/TLBSYNC support"),
        fb(25, "SVM_VNMI", FeatureCategory::Virtualization, "Virtual NMI"),
        fb(26, "SVM_IBS_VIRT", FeatureCategory::Virtualization, "IBS Virtualization"),
        fb(27, "SVM_EXT_LVT", FeatureCategory::Virtualization, "Extended LVT offset fault change"),
    ];
    assert(r@ =~= svm_edx_rows());
    r
}

/// The rows of leaf 0x8000_001A, first register.
pub open spec fn perf_opt_eax_rows() -> Seq<FeatureBit> {
    seq![
        row(0, "FP128", FeatureCategory::Simd, "128-bit FP execution"),
        row(1, "MOVU", FeatureCategory::Simd, "MOVU instructions better than MOVL/MOVH"),
        row(2, "FP256", FeatureCategory::Simd, "256-bit FP execution"),
    ]
}

fn perf_opt_eax_table() -> (r: Vec<FeatureBit>)
    ensures
        r@ == perf_opt_eax_rows(),
{
    let r = vec![
        fb(0, "FP128", FeatureCategory::Simd, "128-bit FP execution"),
        fb(1, "MOVU", FeatureCategory::Simd, "MOVU instructions better than MOVL/MOVH"),
        fb(2, "FP256", FeatureCategory::Simd, "256-bit FP execution"),
    ];
    assert(r@ =~= perf_opt_eax_rows());
    r
}

/// The rows of leaf 0x8000_001F, first register.
pub open spec fn mem_enc_eax_rows() -> Seq<FeatureBit> {
    seq![
        row(0, "SME", FeatureCategory::Security, "Secure Memory Encryption"),
        row(1, "SEV", FeatureCategory::Security, "Secure Encrypted Virtualization"),
        row(2, "PAGE_FLUSH_MSR", FeatureCategory::Security, "Page Flush MSR"),
        row(3, "SEV_ES", FeatureCategory::Security, "SEV Encrypted State"),
        row(4, "SEV_SNP", FeatureCategory::Security, "SEV Secure Nested Paging"),
        row(5, "VMPL", FeatureCategory::Security, "VM Permission Levels"),
        row(6, "RMPQUERY", FeatureCategory::Security, "RMPQUERY instruction"),
        row(7, "VMPL_SSS", FeatureCategory::Security, "VMPL Supervisor Shadow Stack"),
        row(8, "SECURE_TSC", FeatureCategory::Security, "Secure TSC"),
        row(9, "TSC_AUX_VIRT", FeatureCategory::Virtualization, "TSC_AUX Virtualization"),
        row(10, "HW_CACHE_COHERENCY", FeatureCategory::Security, "Hardware cache coherency"),
        row(11, "64BIT_HOST", FeatureCategory::Security, "SEV 64-bit host"),
        row(12, "REST_INJ", FeatureCategory::Security, "Restricted Injection"),
        row(13, "ALT_INJ", FeatureCategory::Security, "Alternate Injection"),
        row(14, "DEBUG_SWAP", FeatureCategory::Debug, "SEV Debug register swap"),
        row(15, "PREVENT_HOST_IBS", FeatureCategory::Security, "Prevent host IBS"),
        row(16, "VTE", FeatureCategory::Security, "Virtual Transparent Encryption"),
        row(17, "VMGEXIT_PARAM", FeatureCategory::Virtualization, "VMGEXIT parameter"),
        row(18, "VIRT_TOM_MSR", FeatureCategory::Virtualization, "Virtual TOM MSR"),
        row(19, "IBS_VIRT_GIF", FeatureCategory::Virtualization, "IBS GIF virtualization"),
        row(24, "VMSA_REG_PROT", FeatureCategory::Security, "VMSA register protection"),
        row(25, "SMT_PROTECTION", FeatureCategory::Security, "SMT protection"),
        row(28, "SECURE_AVIC", FeatureCategory::Security, "Secure AVIC"),
    ]
}

fn mem_enc_eax_table() -> (r: Vec<FeatureBit>)
    ensures
        r@ == mem_enc_eax_rows(),
{
    let r = vec![
        fb(0, "SME", FeatureCategory::Security, "Secure Memory Encryption"),
        fb(1, "SEV", FeatureCategory::Security, "Secure Encrypted Virtualization"),
        fb(2, "PAGE_FLUSH_MSR", FeatureCategory::Security, "Page Flush MSR"),
        fb(3, "SEV_ES", FeatureCategory::Security, "SEV Encrypted State"),
        fb(4, "SEV_SNP", FeatureCategory::Security, "SEV Secure Nested Paging"),
        fb(5, "VMPL", FeatureCategory::Security, "VM Permission Levels"),
        fb(6, "RMPQUERY", FeatureCategory::Security, "RMPQUERY instruction"),
        fb(7, "VMPL_SSS", FeatureCategory::Security, "VMPL Supervisor Shadow Stack"),
        fb(8, "SECURE_TSC", FeatureCategory::Security, "Secure TSC"),
        fb(9, "TSC_AUX_VIRT", FeatureCategory::Virtualization, "TSC_AUX Virtualization"),
        fb(10, "HW_CACHE_COHERENCY", FeatureCategory::Security, "Hardware cache coherency"),
        fb(11, "64BIT_HOST", FeatureCategory::Security, "SEV 64-bit host"),
        fb(12, "REST_INJ", FeatureCategory::Security, "Restricted Injection"),
        fb(13, "ALT_INJ", FeatureCategory::Security, "Alternate Injection"),
        fb(14, "DEBUG_SWAP", FeatureCategory::Debug, "SEV Debug register swap"),
        fb(15, "PREVENT_HOST_IBS", FeatureCategory::Security, "Prevent host IBS"),
        fb(16, "VTE", FeatureCategory::Security, "Virtual Transparent Encryption"),
        fb(17, "VMGEXIT_PARAM", FeatureCategory::Virtualization, "VMGEXIT parameter"),
        fb(18, "VIRT_TOM_MSR", FeatureCategory::Virtualization, "Virtual TOM MSR"),
        fb(19, "IBS_VIRT_GIF", FeatureCategory::Virtualization, "IBS GIF virtualization"),
        fb(24, "VMSA_REG_PROT", FeatureCategory::Security, "VMSA register protection"),
        fb(25, "SMT_PROTECTION", FeatureCategory::Security, "SMT protection"),
        fb(28, "SECURE_AVIC", FeatureCategory::Security, "Secure AVIC"),
    ];
    assert(r@ =~= mem_enc_eax_rows());
    r
}

/// The rows of leaf 0x8000_0021, first register.
pub open spec fn ext21_eax_rows() -> Seq<FeatureBit> {
    seq![
        row(0, "NO_NESTED_DATA_BP", FeatureCategory::Security, "No nested data breakpoints"),
        row(1, "FS_GS_NO_SERIALIZING", FeatureCategory::Performance, "FS/GS base non-serializing"),
        row(2, "LFENCE_SERIALIZING", FeatureCategory::Security, "LFENCE always serializing"),
        row(3, "SMM_PG_CFG_LOCK", FeatureCategory::Security, "SMM page config lock"),
        row(6, "NULL_SEL_CLEARS_BASE", FeatureCategory::System, "Null selector clears base"),
        row(7, "UAI", FeatureCategory::Memory, "Upper Address Ignore"),
        row(8, "AUTO_IBRS", FeatureCategory::Security, "Automatic IBRS"),
        row(9, "NO_SMM_CTL_MSR", FeatureCategory::Security, "No SMM_CTL MSR"),
        row(10, "FSRS", FeatureCategory::Performance, "Fast short REP STOSB"),
        row(11, "FSRC", FeatureCategory::Performance, "Fast short REP CMPSB"),
        row(13, "PREFETCH_CTL", FeatureCategory::Performance, "Prefetch control MSR"),
        row(17, "CPUID_DIS", FeatureCategory::Security, "CPUID disable for non-privileged"),
        row(18, "EPSF", FeatureCategory::Security, "Enhanced Predictive Store Forwarding"),
        row(19, "AGPR", FeatureCategory::Performance, "Alternate GPR for exception state"),
    ]
}

fn ext21_eax_table() -> (r: Vec<FeatureBit>)
    ensures
        r@ == ext21_eax_rows(),
{
    let r = vec![
        fb(0, "NO_NESTED_DATA_BP", FeatureCategory::Security, "No nested data breakpoints"),
        fb(1, "FS_GS_NO_SERIALIZING", FeatureCategory::Performance, "FS/GS base non-serializing"),
        fb(2, "LFENCE_SERIALIZING", FeatureCategory::Security, "LFENCE always serializing"),
        fb(3, "SMM_PG_CFG_LOCK", FeatureCategory::Security, "SMM page config lock"),
        fb(6, "NULL_SEL_CLEARS_BASE", FeatureCategory::System, "Null selector clears base"),
        fb(7, "UAI", FeatureCategory::Memory, "Upper Address Ignore"),
        fb(8, "AUTO_IBRS", FeatureCategory::Security, "Automatic IBRS"),
        fb(9, "NO_SMM_CTL_MSR", FeatureCategory::Security, "No SMM_CTL MSR"),
        fb(10, "FSRS", FeatureCategory::Performance, "Fast short REP STOSB"),
        fb(11, "FSRC", FeatureCategory::Performance, "Fast short REP CMPSB"),
        fb(13, "PREFETCH_CTL", FeatureCategory::Performance, "Prefetch control MSR"),
        fb(17, "CPUID_DIS", FeatureCategory::Security, "CPUID disable for non-privileged"),
        fb(18, "EPSF", FeatureCategory::Security, "Enhanced Predictive Store Forwarding"),
        fb(19, "AGPR", FeatureCategory::Performance, "Alternate GPR for exception state"),
    ];
    assert(r@ =~= ext21_eax_rows());
    r
}

/// The rows of leaf 0xD subleaf 1, first register.
pub open spec fn xsave_eax_rows() -> Seq<FeatureBit> {
    seq![
        row(0, "XSAVEOPT", FeatureCategory::Performance, "XSAVEOPT instruction"),
        row(1, "XSAVEC", FeatureCategory::Performance, "XSAVEC instruction"),
        row(2, "XGETBV_ECX1", FeatureCategory::System, "XGETBV with ECX=1"),
        row(3, "XSAVES", FeatureCategory::System, "XSAVES/XRSTORS instructions"),
        row(4, "XFD", FeatureCategory::System, "Extended Feature Disable"),
    ]
}

fn xsave_eax_table() -> (r: Vec<FeatureBit>)
    ensures
        r@ == xsave_eax_rows(),
{
    let r = vec![
        fb(0, "XSAVEOPT", FeatureCategory::Performance, "XSAVEOPT instruction"),
        fb(1, "XSAVEC", FeatureCategory::Performance, "XSAVEC instruction"),
        fb(2, "XGETBV_ECX1", FeatureCategory::System, "XGETBV with ECX=1"),
        fb(3, "XSAVES", FeatureCategory::System, "XSAVES/XRSTORS instructions"),
        fb(4, "XFD", FeatureCategory::System, "Extended Feature Disable"),
    ];
    assert(r@ =~= xsave_eax_rows());
    r
}

/// The rows of leaf 0x14 subleaf 0, second register.
pub open spec fn trace_ebx_rows() -> Seq<FeatureBit> {
    seq![
        row(0, "PT_LIP", FeatureCategory::Debug, "Processor Trace LIP support"),
        row(1, "PT_MTC", FeatureCategory::Debug, "Processor Trace MTC support"),
        row(2, "PT_PTWRITE", FeatureCategory::Debug, "Processor Trace PTWRITE support"),
        row(3, "PT_POWER_EVENT", FeatureCategory::Debug, "Processor Trace Power Event support"),
    ]
}

fn trace_ebx_table() -> (r: Vec<FeatureBit>)
    ensures
        r@ == trace_ebx_rows(),
{
    let r = vec![
        fb(0, "PT_LIP", FeatureCategory::Debug, "Processor Trace LIP support"),
        fb(1, "PT_MTC", FeatureCategory::Debug, "Processor Trace MTC support"),
        fb(2, "PT_PTWRITE", FeatureCategory::Debug, "Processor Trace PTWRITE support"),
        fb(3, "PT_POWER_EVENT", FeatureCategory::Debug, "Processor Trace Power Event support"),
    ];
    assert(r@ =~= trace_ebx_rows());
    r
}

/// The rows of every decoded register.
pub open spec fn standard_rows() -> FeatureRows {
    FeatureRows {
        leaf1_ecx: leaf1_ecx_rows(),
        leaf7_ebx: leaf7_ebx_rows(),
        leaf7_ecx: leaf7_ecx_rows(),
        leaf7_edx: leaf7_edx_rows(),
        leaf7_1_eax: leaf7_1_eax_rows(),
        leaf7_1_ebx: leaf7_1_ebx_rows(),
        leaf7_1_edx: leaf7_1_edx_rows(),
        leaf7_2_edx: leaf7_2_edx_rows(),
        leaf7_3_edx: leaf7_3_edx_rows(),
        thermal_eax: thermal_eax_rows(),
        thermal_ecx: thermal_ecx_rows(),
        perfmon_ebx: perfmon_ebx_rows(),
        perfmon_edx: perfmon_edx_rows(),
        rdt_ebx: rdt_ebx_rows(),
        sgx_eax: sgx_eax_rows(),
        ext1_edx: ext1_edx_rows(),
        ext1_ecx: ext1_ecx_rows(),
        ext8_ebx: ext8_ebx_rows(),
        ext8_ecx: ext8_ecx_rows(),
        svm_edx: svm_edx_rows(),
        perf_opt_eax: perf_opt_eax_rows(),
        mem_enc_eax: mem_enc_eax_rows(),
        ext21_eax: ext21_eax_rows(),
        xsave_eax: xsave_eax_rows(),
        trace_ebx: trace_ebx_rows(),
    }
}

impl FeatureTables {
    /// The tables of every decoded register.
    pub fn standard() -> (r: FeatureTables)
        ensures
            r@ == standard_rows(),
    {
        FeatureTables {
            leaf1_ecx: leaf1_ecx_table(),
            leaf7_ebx: leaf7_ebx_table(),
            leaf7_ecx: leaf7_ecx_table(),
            leaf7_edx: leaf7_edx_table(),
            leaf7_1_eax: leaf7_1_eax_table(),
            leaf7_1_ebx: leaf7_1_ebx_table(),
            leaf7_1_edx: leaf7_1_edx_table(),
            leaf7_2_edx: leaf7_2_edx_table(),
            leaf7_3_edx: leaf7_3_edx_table(),
            thermal_eax: thermal_eax_table(),
            thermal_ecx: thermal_ecx_table(),
            perfmon_ebx: perfmon_ebx_table(),
            perfmon_edx: perfmon_edx_table(),
            rdt_ebx: rdt_ebx_table(),
            sgx_eax: sgx_eax_table(),
            ext1_edx: ext1_edx_table(),
            ext1_ecx: ext1_ecx_table(),
            ext8_ebx: ext8_ebx_table(),
            ext8_ecx: ext8_ecx_table(),
            svm_edx: svm_edx_table(),
            perf_opt_eax: perf_opt_eax_table(),
            mem_enc_eax: mem_enc_eax_table(),
            ext21_eax: ext21_eax_table(),
            xsave_eax: xsave_eax_table(),
            trace_ebx: trace_ebx_table(),
        }
    }
}

} // verus!
