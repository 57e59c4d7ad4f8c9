//! Base, maximum, bus and time-stamp-counter frequencies.
use vstd::prelude::*;

use crate::cpuid::{CpuidResult, LeafLimits, RegisterState};

verus! {

/// The leaf that reports base, maximum and bus frequency in MHz.
pub const FREQUENCY_LEAF: u32 = 0x16;

/// The leaf that reports the time-stamp-counter to crystal clock ratio.
pub const TSC_RATIO_LEAF: u32 = 0x15;

/// The crystal clock frequency in Hz assumed where the ratio leaf reports none.
pub const DEFAULT_CRYSTAL_HZ: u32 = 24_000_000;

/// Frequencies in MHz; each is absent where the processor does not report it.
#[derive(Debug, Clone, Copy, PartialEq, Eq, Structural)]
pub struct FrequencyInfo {
    pub base_mhz: Option<u32>,
    pub max_mhz: Option<u32>,
    pub bus_mhz: Option<u32>,
    pub tsc_mhz: Option<u32>,
}

/// The low 16 bits of a frequency register, absent where the register is zero.
pub open spec fn spec_mhz(word: u32) -> Option<u32> {
    if word != 0 {
        Some(word & 0xFFFF)
    } else {
        None
    }
}

/// The time-stamp-counter frequency in MHz of the ratio leaf: crystal Hz
/// times numerator (second register) over denominator (first register),
/// truncated to 32 bits; absent where either part of the ratio is zero.
pub open spec fn spec_tsc_mhz(r: CpuidResult) -> Option<u32> {
    if r.ebx != 0 && r.eax != 0 {
        let crystal: int = if r.ecx != 0 {
            r.ecx as int
        } else {
            DEFAULT_CRYSTAL_HZ as int
        };
        Some((crystal * r.ebx / (r.eax as int) / 1_000_000) as u32)
    } else {
        None
    }
}

/// The frequencies of a register state.
pub open spec fn spec_frequency(regs: spec_fn(u32, u32) -> CpuidResult, limits: LeafLimits) -> FrequencyInfo {
    let f = regs(FREQUENCY_LEAF, 0);
    let has_f = limits.supports(FREQUENCY_LEAF);
    FrequencyInfo {
        base_mhz: if has_f {
            spec_mhz(f.eax)
        } else {
            None
        },
        max_mhz: if has_f {
            spec_mhz(f.ebx)
        } else {
            None
        },
        bus_mhz: if has_f {
            spec_mhz(f.ecx)
        } else {
            None
        },
        tsc_mhz: if limits.supports(TSC_RATIO_LEAF) {
            spec_tsc_mhz(regs(TSC_RATIO_LEAF, 0))
        } else {
            None
        },
    }
}

fn mhz(word: u32) -> (r: Option<u32>)
    ensures
        r == spec_mhz(word),
{
    if word != 0 {
        Some(word & 0xFFFF)
    } else {
        None
    }
}

/// The time-stamp-counter frequency of the ratio leaf.
pub fn tsc_mhz(r: CpuidResult) -> (f: Option<u32>)
    ensures
        f == spec_tsc_mhz(r),
{
    if r.ebx != 0 && r.eax != 0 {
        let crystal_hz: u32 = if r.ecx != 0 {
            r.ecx
        } else {
            DEFAULT_CRYSTAL_HZ
        };
        assert(crystal_hz as u64 * r.ebx as u64 <= 0xFFFF_FFFF * 0xFFFF_FFFF) by (nonlinear_arith)
            requires
                crystal_hz <= 0xFFFF_FFFF,
                r.ebx <= 0xFFFF_FFFF,
        ;
        let product = crystal_hz as u64 * r.ebx as u64;
        Some(#[verifier::truncate] ((product / r.eax as u64 / 1_000_000) as u32))
    } else {
        None
    }
}

impl FrequencyInfo {
    /// The frequencies of a register state.
    pub fn decode(regs: &RegisterState, limits: &LeafLimits) -> (r: FrequencyInfo)
        ensures
            r == spec_frequency(regs@, *limits),
    {
        let mut info = FrequencyInfo { base_mhz: None, max_mhz: None, bus_mhz: None, tsc_mhz: None };
        if limits.is_supported(FREQUENCY_LEAF) {
            let r = regs.query(FREQUENCY_LEAF, 0);
            info.base_mhz = mhz(r.eax);
            info.max_mhz = mhz(r.ebx);
            info.bus_mhz = mhz(r.ecx);
        }
        if limits.is_supported(TSC_RATIO_LEAF) {
            info.tsc_mhz = tsc_mhz(regs.query(TSC_RATIO_LEAF, 0));
        }
        info
    }

    /// The frequencies of the calling processor.
    pub fn detect() -> (r: FrequencyInfo)
        ensures
            exists|regs: RegisterState| r == spec_frequency(regs@, LeafLimits::of(regs@)),
    {
        let regs = RegisterState::capture();
        let limits = LeafLimits::read(&regs);
        FrequencyInfo::decode(&regs, &limits)
    }
}

} // verus!
