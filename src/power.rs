//! Power management flags.
use vstd::prelude::*;

use crate::cpuid::{bit_set, CpuidResult, LeafLimits, Register, RegisterState};

verus! {
/// Power management and thermal flags, with the number of thermal interrupt thresholds.
#[derive(Debug, Clone, Copy, PartialEq, Eq, Structural)]
pub struct PowerInfo {
    pub digital_thermal_sensor: bool,
    pub turbo_boost: bool,
    pub arat: bool,
    pub pln: bool,
    pub pts: bool,
    pub hwp: bool,
    pub hwp_notification: bool,
    pub hwp_activity_window: bool,
    pub hwp_epp: bool,
    pub hwp_package: bool,
    pub hdc: bool,
    pub turbo_boost_max_3: bool,
    pub hwp_capabilities: bool,
    pub hwp_peci: bool,
    pub flexible_hwp: bool,
    pub hwp_fast_access: bool,
    pub hw_feedback: bool,
    pub ignore_idle_hwp: bool,
    pub thread_director: bool,
    pub therm_interrupt: bool,
    pub therm_status: bool,
    pub tm2: bool,
    pub num_interrupt_thresholds: u32,
}

/// The flags that a register state reports; a flag of an unsupported leaf is clear.
pub open spec fn spec_power(regs: spec_fn(u32, u32) -> CpuidResult, limits: LeafLimits) -> PowerInfo {
    PowerInfo {
        digital_thermal_sensor: limits.supports(6) && bit_set(regs(6, 0).eax, 0),
        turbo_boost: limits.supports(6) && bit_set(regs(6, 0).eax, 1),
        arat: limits.supports(6) && bit_set(regs(6, 0).eax, 2),
        pln: limits.supports(6) && bit_set(regs(6, 0).eax, 4),
        pts: limits.supports(6) && bit_set(regs(6, 0).eax, 6),
        hwp: limits.supports(6) && bit_set(regs(6, 0).eax, 7),
        hwp_notification: limits.supports(6) && bit_set(regs(6, 0).eax, 8),
        hwp_activity_window: limits.supports(6) && bit_set(regs(6, 0).eax, 9),
        hwp_epp: limits.supports(6) && bit_set(regs(6, 0).eax, 10),
        hwp_package: limits.supports(6) && bit_set(regs(6, 0).eax, 11),
        hdc: limits.supports(6) && bit_set(regs(6, 0).eax, 13),
        turbo_boost_max_3: limits.supports(6) && bit_set(regs(6, 0).eax, 14),
        hwp_capabilities: limits.supports(6) && bit_set(regs(6, 0).eax, 15),
        hwp_peci: limits.supports(6) && bit_set(regs(6, 0).eax, 16),
        flexible_hwp: limits.supports(6) && bit_set(regs(6, 0).eax, 17),
        hwp_fast_access: limits.supports(6) && bit_set(regs(6, 0).eax, 18),
        hw_feedback: limits.supports(6) && bit_set(regs(6, 0).eax, 19),
        ignore_idle_hwp: limits.supports(6) && bit_set(regs(6, 0).eax, 20),
        thread_director: limits.supports(6) && bit_set(regs(6, 0).eax, 23),
        therm_interrupt: limits.supports(1) && bit_set(regs(1, 0).edx, 22),
        therm_status: limits.supports(1) && bit_set(regs(1, 0).ecx, 3),
        tm2: limits.supports(1) && bit_set(regs(1, 0).ecx, 8),
        num_interrupt_thresholds: if limits.supports(6) { regs(6, 0).ebx & 0xF } else { 0 },
    }
}

impl PowerInfo {
    /// The flags that a register state reports.
    pub fn decode(regs: &RegisterState, limits: &LeafLimits) -> (r: PowerInfo)
        ensures
            r == spec_power(regs@, *limits),
    {
        let mut info = PowerInfo {
            digital_thermal_sensor: false,
            turbo_boost: false,
            arat: false,
            pln: false,
            pts: false,
            hwp: false,
            hwp_notification: false,
            hwp_activity_window: false,
            hwp_epp: false,
            hwp_package: false,
            hdc: false,
            turbo_boost_max_3: false,
            hwp_capabilities: false,
            hwp_peci: false,
            flexible_hwp: false,
            hwp_fast_access: false,
            hw_feedback: false,
            ignore_idle_hwp: false,
            thread_director: false,
            therm_interrupt: false,
            therm_status: false,
            tm2: false,
            num_interrupt_thresholds: 0,
        };
        if limits.is_supported(1) {
            let r = regs.query(1, 0);
            info.therm_status = r.is_bit_set(Register::Ecx, 3);
            info.tm2 = r.is_bit_set(Register::Ecx, 8);
            info.therm_interrupt = r.is_bit_set(Register::Edx, 22);
        }
        if limits.is_supported(6) {
            let r = regs.query(6, 0);
            info.digital_thermal_sensor = r.is_bit_set(Register::Eax, 0);
            info.turbo_boost = r.is_bit_set(Register::Eax, 1);
            info.arat = r.is_bit_set(Register::Eax, 2);
            info.pln = r.is_bit_set(Register::Eax, 4);
            info.pts = r.is_bit_set(Register::Eax, 6);
            info.hwp = r.is_bit_set(Register::Eax, 7);
            info.hwp_notification = r.is_bit_set(Register::Eax, 8);
            info.hwp_activity_window = r.is_bit_set(Register::Eax, 9);
            info.hwp_epp = r.is_bit_set(Register::Eax, 10);
            info.hwp_package = r.is_bit_set(Register::Eax, 11);
            info.hdc = r.is_bit_set(Register::Eax, 13);
            info.turbo_boost_max_3 = r.is_bit_set(Register::Eax, 14);
            info.hwp_capabilities = r.is_bit_set(Register::Eax, 15);
            info.hwp_peci = r.is_bit_set(Register::Eax, 16);
            info.flexible_hwp = r.is_bit_set(Register::Eax, 17);
            info.hwp_fast_access = r.is_bit_set(Register::Eax, 18);
            info.hw_feedback = r.is_bit_set(Register::Eax, 19);
            info.ignore_idle_hwp = r.is_bit_set(Register::Eax, 20);
            info.thread_director = r.is_bit_set(Register::Eax, 23);
        }
        if limits.is_supported(6) {
            info.num_interrupt_thresholds = regs.query(6, 0).ebx & 0xF;
        }
        info
    }

    /// The flags of the calling processor.
    pub fn detect() -> (r: PowerInfo)
        ensures
            exists|regs: RegisterState| r == spec_power(regs@, LeafLimits::of(regs@)),
    {
        let regs = RegisterState::capture();
        let limits = LeafLimits::read(&regs);
        PowerInfo::decode(&regs, &limits)
    }
}

} // verus!
