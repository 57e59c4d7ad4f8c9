//! Model-specific register capabilities: reported only, never exercised.
use vstd::prelude::*;

use crate::cpuid::{bit_set, CpuidResult, LeafLimits, Register, RegisterState};

verus! {
/// Which model-specific registers the processor reports; no register is read.
#[derive(Debug, Clone, Copy, PartialEq, Eq, Structural)]
pub struct MsrInfo {
    pub msr_support: bool,
    pub rdmsr_wrmsr: bool,
    pub msr_platform_info: bool,
    pub msr_temperature: bool,
    pub msr_perf_status: bool,
    pub msr_perf_ctl: bool,
    pub msr_misc_enable: bool,
    pub msr_energy_perf_bias: bool,
    pub msr_turbo_ratio_limit: bool,
}

/// The flags that a register state reports; a flag of an unsupported leaf is clear.
pub open spec fn spec_msr(regs: spec_fn(u32, u32) -> CpuidResult, limits: LeafLimits) -> MsrInfo {
    MsrInfo {
        msr_support: limits.supports(1) && bit_set(regs(1, 0).edx, 5),
        rdmsr_wrmsr: limits.supports(1) && bit_set(regs(1, 0).edx, 5),
        msr_platform_info: limits.supports(7) && bit_set(regs(7, 0).ecx, 15),
        msr_temperature: limits.supports(6) && bit_set(regs(6, 0).eax, 0),
        msr_perf_status: limits.supports(1) && bit_set(regs(1, 0).edx, 5),
        msr_perf_ctl: limits.supports(1) && bit_set(regs(1, 0).edx, 5),
        msr_misc_enable: limits.supports(1) && bit_set(regs(1, 0).edx, 5),
        msr_energy_perf_bias: limits.supports(6) && bit_set(regs(6, 0).ecx, 3),
        msr_turbo_ratio_limit: limits.supports(6) && bit_set(regs(6, 0).eax, 1),
    }
}

impl MsrInfo {
    /// The flags that a register state reports.
    pub fn decode(regs: &RegisterState, limits: &LeafLimits) -> (r: MsrInfo)
        ensures
            r == spec_msr(regs@, *limits),
    {
        let mut info = MsrInfo {
            msr_support: false,
            rdmsr_wrmsr: false,
            msr_platform_info: false,
            msr_temperature: false,
            msr_perf_status: false,
            msr_perf_ctl: false,
            msr_misc_enable: false,
            msr_energy_perf_bias: false,
            msr_turbo_ratio_limit: false,
        };
        if limits.is_supported(1) {
            let r = regs.query(1, 0);
            info.msr_support = r.is_bit_set(Register::Edx, 5);
        }
        if limits.is_supported(6) {
            let r = regs.query(6, 0);
            info.msr_temperature = r.is_bit_set(Register::Eax, 0);
            info.msr_turbo_ratio_limit = r.is_bit_set(Register::Eax, 1);
            info.msr_energy_perf_bias = r.is_bit_set(Register::Ecx, 3);
        }
        if limits.is_supported(7) {
            let r = regs.query(7, 0);
            info.msr_platform_info = r.is_bit_set(Register::Ecx, 15);
        }
        info.rdmsr_wrmsr = info.msr_support;
        info.msr_perf_status = info.msr_support;
        info.msr_perf_ctl = info.msr_support;
        info.msr_misc_enable = info.msr_support;
        info
    }

    /// The flags of the calling processor.
    pub fn detect() -> (r: MsrInfo)
        ensures
            exists|regs: RegisterState| r == spec_msr(regs@, LeafLimits::of(regs@)),
    {
        let regs = RegisterState::capture();
        let limits = LeafLimits::read(&regs);
        MsrInfo::decode(&regs, &limits)
    }
}

} // verus!
