//! Platform capability flags.
use vstd::prelude::*;

use crate::cpuid::{bit_set, CpuidResult, LeafLimits, Register, RegisterState};

verus! {
/// Platform capability flags and the maximum leaf numbers.
#[derive(Debug, Clone, Copy, PartialEq, Eq, Structural)]
pub struct PlatformInfo {
    pub max_cpuid_leaf: u32,
    pub max_extended_leaf: u32,
    pub microcode_update: bool,
    pub machine_check: bool,
    pub mtrr: bool,
    pub page_attribute_table: bool,
    pub page_size_extension: bool,
    pub time_stamp_counter: bool,
    pub model_specific_registers: bool,
    pub apic_on_chip: bool,
    pub x2apic: bool,
    pub local_apic_timer_always_running: bool,
    pub tsc_invariant: bool,
    pub tsc_deadline: bool,
    pub xapic: bool,
}

/// The platform information of a register state; a flag of an unsupported leaf is clear.
pub open spec fn spec_platform(regs: spec_fn(u32, u32) -> CpuidResult, limits: LeafLimits) -> PlatformInfo {
    PlatformInfo {
        max_cpuid_leaf: limits.max_standard,
        max_extended_leaf: limits.max_extended,
        microcode_update: false,
        machine_check: limits.supports(1) && bit_set(regs(1, 0).edx, 14),
        mtrr: limits.supports(1) && bit_set(regs(1, 0).edx, 12),
        page_attribute_table: limits.supports(1) && bit_set(regs(1, 0).edx, 16),
        page_size_extension: limits.supports(1) && bit_set(regs(1, 0).edx, 17),
        time_stamp_counter: limits.supports(1) && bit_set(regs(1, 0).edx, 4),
        model_specific_registers: limits.supports(1) && bit_set(regs(1, 0).edx, 5),
        apic_on_chip: limits.supports(1) && bit_set(regs(1, 0).edx, 9),
        x2apic: limits.supports(1) && bit_set(regs(1, 0).ecx, 21),
        local_apic_timer_always_running: limits.supports(6) && bit_set(regs(6, 0).eax, 2),
        tsc_invariant: limits.supports(0x8000_0007) && bit_set(regs(0x8000_0007, 0).edx, 8),
        tsc_deadline: limits.supports(1) && bit_set(regs(1, 0).ecx, 24),
        xapic: limits.supports(1) && bit_set(regs(1, 0).ecx, 21),
    }
}

impl PlatformInfo {
    /// The flags that a register state reports.
    pub fn decode(regs: &RegisterState, limits: &LeafLimits) -> (r: PlatformInfo)
        ensures
            r == spec_platform(regs@, *limits),
    {
        let mut info = PlatformInfo {
            max_cpuid_leaf: limits.max_standard,
            max_extended_leaf: limits.max_extended,
            microcode_update: false,
            machine_check: false,
            mtrr: false,
            page_attribute_table: false,
            page_size_extension: false,
            time_stamp_counter: false,
            model_specific_registers: false,
            apic_on_chip: false,
            x2apic: false,
            local_apic_timer_always_running: false,
            tsc_invariant: false,
            tsc_deadline: false,
            xapic: false,
        };
        if limits.is_supported(1) {
            let r = regs.query(1, 0);
            info.time_stamp_counter = r.is_bit_set(Register::Edx, 4);
            info.model_specific_registers = r.is_bit_set(Register::Edx, 5);
            info.apic_on_chip = r.is_bit_set(Register::Edx, 9);
            info.mtrr = r.is_bit_set(Register::Edx, 12);
            info.machine_check = r.is_bit_set(Register::Edx, 14);
            info.page_attribute_table = r.is_bit_set(Register::Edx, 16);
            info.page_size_extension = r.is_bit_set(Register::Edx, 17);
            info.x2apic = r.is_bit_set(Register::Ecx, 21);
            info.tsc_deadline = r.is_bit_set(Register::Ecx, 24);
            info.xapic = r.is_bit_set(Register::Ecx, 21);
        }
        if limits.is_supported(6) {
            let r = regs.query(6, 0);
            info.local_apic_timer_always_running = r.is_bit_set(Register::Eax, 2);
        }
        if limits.is_supported(0x8000_0007) {
            let r = regs.query(0x8000_0007, 0);
            info.tsc_invariant = r.is_bit_set(Register::Edx, 8);
        }
        info
    }

    /// The flags of the calling processor.
    pub fn detect() -> (r: PlatformInfo)
        ensures
            exists|regs: RegisterState| r == spec_platform(regs@, LeafLimits::of(regs@)),
    {
        let regs = RegisterState::capture();
        let limits = LeafLimits::read(&regs);
        PlatformInfo::decode(&regs, &limits)
    }
}

} // verus!
