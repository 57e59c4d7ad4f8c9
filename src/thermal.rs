//! Thermal monitoring and power management flags of leaf 6.
use vstd::prelude::*;

use crate::cpuid::{bit_set, CpuidResult, LeafLimits, Register, RegisterState};

verus! {
/// Thermal and power management flags.
#[derive(Debug, Clone, Copy, PartialEq, Eq, Structural)]
pub struct ThermalInfo {
    pub digital_thermal_sensor: bool,
    pub turbo_boost: bool,
    pub arat: bool,
    pub pln: bool,
    pub pts: bool,
    pub hwp: bool,
    pub hwp_notification: bool,
    pub hwp_activity_window: bool,
    pub hwp_epp: bool,
    pub hwp_package: bool,
    pub hdc: bool,
}

/// The flags that a register state reports; a flag of an unsupported leaf is clear.
pub open spec fn spec_thermal(regs: spec_fn(u32, u32) -> CpuidResult, limits: LeafLimits) -> ThermalInfo {
    ThermalInfo {
        digital_thermal_sensor: limits.supports(6) && bit_set(regs(6, 0).eax, 0),
        turbo_boost: limits.supports(6) && bit_set(regs(6, 0).eax, 1),
        arat: limits.supports(6) && bit_set(regs(6, 0).eax, 2),
        pln: limits.supports(6) && bit_set(regs(6, 0).eax, 4),
        pts: limits.supports(6) && bit_set(regs(6, 0).eax, 6),
        hwp: limits.supports(6) && bit_set(regs(6, 0).eax, 7),
        hwp_notification: limits.supports(6) && bit_set(regs(6, 0).eax, 8),
        hwp_activity_window: limits.supports(6) && bit_set(regs(6, 0).eax, 9),
        hwp_epp: limits.supports(6) && bit_set(regs(6, 0).eax, 10),
        hwp_package: limits.supports(6) && bit_set(regs(6, 0).eax, 11),
        hdc: limits.supports(6) && bit_set(regs(6, 0).eax, 13),
    }
}

impl ThermalInfo {
    /// The flags that a register state reports.
    pub fn decode(regs: &RegisterState, limits: &LeafLimits) -> (r: ThermalInfo)
        ensures
            r == spec_thermal(regs@, *limits),
    {
        let mut info = ThermalInfo {
            digital_thermal_sensor: false,
            turbo_boost: false,
            arat: false,
            pln: false,
            pts: false,
            hwp: false,
            hwp_notification: false,
            hwp_activity_window: false,
            hwp_epp: false,
            hwp_package: false,
            hdc: false,
        };
        if limits.is_supported(6) {
            let r = regs.query(6, 0);
            info.digital_thermal_sensor = r.is_bit_set(Register::Eax, 0);
            info.turbo_boost = r.is_bit_set(Register::Eax, 1);
            info.arat = r.is_bit_set(Register::Eax, 2);
            info.pln = r.is_bit_set(Register::Eax, 4);
            info.pts = r.is_bit_set(Register::Eax, 6);
            info.hwp = r.is_bit_set(Register::Eax, 7);
            info.hwp_notification = r.is_bit_set(Register::Eax, 8);
            info.hwp_activity_window = r.is_bit_set(Register::Eax, 9);
            info.hwp_epp = r.is_bit_set(Register::Eax, 10);
            info.hwp_package = r.is_bit_set(Register::Eax, 11);
            info.hdc = r.is_bit_set(Register::Eax, 13);
        }
        info
    }

    /// The flags of the calling processor.
    pub fn detect() -> (r: ThermalInfo)
        ensures
            exists|regs: RegisterState| r == spec_thermal(regs@, LeafLimits::of(regs@)),
    {
        let regs = RegisterState::capture();
        let limits = LeafLimits::read(&regs);
        ThermalInfo::decode(&regs, &limits)
    }
}

} // verus!
