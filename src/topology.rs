//! Core topology: logical processors, physical cores, threads per core.
use vstd::prelude::*;

use crate::cpuid::{bit_set, lemma_and_le, CpuidResult, LeafLimits, RegisterState};

verus! {

/// The leaf that enumerates topology levels explicitly, one per subleaf.
pub const TOPOLOGY_LEAF: u32 = 0xB;

/// Subleaves of the topology leaf that are walked at most.
pub const MAX_TOPOLOGY_SUBLEAVES: u32 = 10;

/// The level type of the thread (SMT) level.
pub const SMT_LEVEL: u32 = 1;

/// The level type of the core level.
pub const CORE_LEVEL: u32 = 2;

/// The kind of a core on a hybrid processor.
#[derive(Debug, Clone, Copy, PartialEq, Eq, Structural)]
pub enum CoreType {
    Performance,
    Efficient,
    Unknown,
}

/// Processor counts and threading flags.
#[derive(Debug, Clone, Copy, PartialEq, Eq, Structural)]
pub struct CpuTopology {
    pub logical_processors: u32,
    pub physical_cores: u32,
    pub threads_per_core: u32,
    pub has_hyperthreading: bool,
    pub hybrid: bool,
}

/// The width (second register, low 16 bits) of the first subleaf at or after
/// `index` whose level type is `level_type`; 1 when a subleaf of level type
/// zero comes first or the walk ends.
pub open spec fn spec_level_width(
    regs: spec_fn(u32, u32) -> CpuidResult,
    level_type: u32,
    index: int,
) -> u32
    decreases MAX_TOPOLOGY_SUBLEAVES - index,
{
    if index < 0 || index >= MAX_TOPOLOGY_SUBLEAVES {
        1
    } else {
        let r = regs(TOPOLOGY_LEAF, index as u32);
        let t = (r.ecx >> 8) & 0xFF;
        if t == level_type {
            r.ebx & 0xFFFF
        } else if t == 0 {
            1
        } else {
            spec_level_width(regs, level_type, index + 1)
        }
    }
}

/// The topology of a register state.
pub open spec fn spec_topology(
    regs: spec_fn(u32, u32) -> CpuidResult,
    limits: LeafLimits,
) -> CpuTopology {
    let ht = limits.supports(1) && bit_set(regs(1, 0).edx, 28);
    let hybrid = limits.supports(7) && bit_set(regs(7, 0).edx, 15);
    if limits.supports(TOPOLOGY_LEAF) {
        let threads = spec_level_width(regs, SMT_LEVEL, 0);
        let logical = spec_level_width(regs, CORE_LEVEL, 0);
        CpuTopology {
            logical_processors: logical,
            physical_cores: if logical > 0 && threads > 0 {
                (logical / threads) as u32
            } else {
                1
            },
            threads_per_core: threads,
            has_hyperthreading: ht,
            hybrid,
        }
    } else {
        let reported: u32 = if limits.supports(1) {
            (regs(1, 0).ebx >> 16) & 0xFF
        } else {
            1
        };
        let physical: u32 = if limits.supports(4) {
            (((regs(4, 0).eax >> 26) & 0x3F) + 1) as u32
        } else {
            1
        };
        let logical: u32 = if reported == 1 && !ht {
            physical
        } else {
            reported
        };
        CpuTopology {
            logical_processors: logical,
            physical_cores: physical,
            threads_per_core: (logical / physical) as u32,
            has_hyperthreading: ht,
            hybrid,
        }
    }
}

/// Walks the topology leaf for the width of the level of type `level_type`.
pub fn level_width(regs: &RegisterState, level_type: u32) -> (r: u32)
    ensures
        r == spec_level_width(regs@, level_type, 0),
{
    let mut index: u32 = 0;
    while index < MAX_TOPOLOGY_SUBLEAVES
        invariant
            index <= MAX_TOPOLOGY_SUBLEAVES,
            spec_level_width(regs@, level_type, 0) == spec_level_width(
                regs@,
                level_type,
                index as int,
            ),
        decreases MAX_TOPOLOGY_SUBLEAVES - index,
    {
        let r = regs.query(TOPOLOGY_LEAF, index);
        let t = (r.ecx >> 8) & 0xFF;
        if t == level_type {
            return r.ebx & 0xFFFF;
        }
        if t == 0 {
            return 1;
        }
        index = index + 1;
    }
    1
}

impl CpuTopology {
    /// The topology of a register state: the explicit topology leaf where
    /// supported, else the legacy counts of leaves 1 and 4.
    pub fn decode(regs: &RegisterState, limits: &LeafLimits) -> (r: CpuTopology)
        ensures
            r == spec_topology(regs@, *limits),
    {
        let mut has_hyperthreading = false;
        if limits.is_supported(1) {
            has_hyperthreading = regs.query(1, 0).is_bit_set(crate::cpuid::Register::Edx, 28);
        }
        let mut logical_processors: u32 = 1;
        let mut physical_cores: u32 = 1;
        let threads_per_core: u32;
        if limits.is_supported(TOPOLOGY_LEAF) {
            threads_per_core = level_width(regs, SMT_LEVEL);
            logical_processors = level_width(regs, CORE_LEVEL);
            if logical_processors > 0 && threads_per_core > 0 {
                physical_cores = logical_processors / threads_per_core;
            }
        } else {
            if limits.is_supported(1) {
                logical_processors = (regs.query(1, 0).ebx >> 16) & 0xFF;
            }
            if limits.is_supported(4) {
                let eax = regs.query(4, 0).eax;
                proof {
                    lemma_and_le(eax >> 26, 0x3F);
                }
                physical_cores = ((eax >> 26) & 0x3F) + 1;
            }
            if logical_processors == 1 && !has_hyperthreading {
                logical_processors = physical_cores;
            }
            threads_per_core = logical_processors / physical_cores;
        }
        let mut hybrid = false;
        if limits.is_supported(7) {
            hybrid = regs.query(7, 0).is_bit_set(crate::cpuid::Register::Edx, 15);
        }
        CpuTopology {
            logical_processors,
            physical_cores,
            threads_per_core,
            has_hyperthreading,
            hybrid,
        }
    }

    /// The topology of the calling processor.
    pub fn detect() -> (r: CpuTopology)
        ensures
            exists|regs: RegisterState| r == spec_topology(regs@, LeafLimits::of(regs@)),
    {
        let regs = RegisterState::capture();
        let limits = LeafLimits::read(&regs);
        CpuTopology::decode(&regs, &limits)
    }
}

} // verus!
