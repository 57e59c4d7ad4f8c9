//! Physical, virtual and guest-physical address widths.
use vstd::prelude::*;

use crate::cpuid::{CpuidResult, LeafLimits, RegisterState};

verus! {

/// The extended leaf that reports address widths.
pub const ADDRESS_LEAF: u32 = 0x8000_0008;

/// Address widths in bits.
#[derive(Debug, Clone, Copy, PartialEq, Eq, Structural)]
pub struct AddressInfo {
    pub physical_bits: u32,
    pub virtual_bits: u32,
    pub guest_physical_bits: Option<u32>,
}

/// The widths of a register state: bytes 0, 1 and 2 of the address leaf's
/// first register (a zero guest width is absent); 36 and 48 bits where the
/// leaf is not supported.
pub open spec fn spec_address(regs: spec_fn(u32, u32) -> CpuidResult, limits: LeafLimits) -> AddressInfo {
    if limits.supports(ADDRESS_LEAF) {
        let eax = regs(ADDRESS_LEAF, 0).eax;
        let guest = (eax >> 16) & 0xFF;
        AddressInfo {
            physical_bits: eax & 0xFF,
            virtual_bits: (eax >> 8) & 0xFF,
            guest_physical_bits: if guest > 0 {
                Some(guest)
            } else {
                None
            },
        }
    } else {
        AddressInfo { physical_bits: 36, virtual_bits: 48, guest_physical_bits: None }
    }
}

impl AddressInfo {
    /// The address widths of a register state.
    pub fn decode(regs: &RegisterState, limits: &LeafLimits) -> (r: AddressInfo)
        ensures
            r == spec_address(regs@, *limits),
    {
        let mut info = AddressInfo { physical_bits: 36, virtual_bits: 48, guest_physical_bits: None };
        if limits.is_supported(ADDRESS_LEAF) {
            let eax = regs.query(ADDRESS_LEAF, 0).eax;
            info.physical_bits = eax & 0xFF;
            info.virtual_bits = (eax >> 8) & 0xFF;
            let guest_phys = (eax >> 16) & 0xFF;
            if guest_phys > 0 {
                info.guest_physical_bits = Some(guest_phys);
            }
        }
        info
    }

    /// The address widths of the calling processor.
    pub fn detect() -> (r: AddressInfo)
        ensures
            exists|regs: RegisterState| r == spec_address(regs@, LeafLimits::of(regs@)),
    {
        let regs = RegisterState::capture();
        let limits = LeafLimits::read(&regs);
        AddressInfo::decode(&regs, &limits)
    }
}

} // verus!
