//! Cache hierarchy: the deterministic subleaf-indexed format and the legacy
//! packed format.
use vstd::prelude::*;

use crate::cpuid::{lemma_and_le, CpuidResult, LeafLimits, RegisterState};

verus! {

/// The leaf that enumerates deterministic cache parameters, one cache per subleaf.
pub const DETERMINISTIC_CACHE_LEAF: u32 = 4;

/// The legacy leaf that packs L1 data and instruction cache geometry.
pub const LEGACY_L1_LEAF: u32 = 0x8000_0005;

/// The legacy leaf that packs L2 and L3 cache geometry.
pub const LEGACY_L2_L3_LEAF: u32 = 0x8000_0006;

/// Subleaves of the deterministic leaf that are walked at most.
pub const MAX_CACHE_SUBLEAVES: u32 = 32;

#[derive(Debug, Clone, Copy, PartialEq, Eq, Structural)]
pub enum CacheLevel {
    L1,
    L2,
    L3,
    L4,
}

#[derive(Debug, Clone, Copy, PartialEq, Eq, Structural)]
pub enum CacheType {
    Data,
    Instruction,
    Unified,
}

/// One cache: its place in the hierarchy and its geometry.
#[derive(Debug, Clone, Copy, PartialEq, Eq, Structural)]
pub struct CacheInfo {
    pub level: CacheLevel,
    pub cache_type: CacheType,
    pub size: u64,
    pub ways: u32,
    pub line_size: u32,
    pub sets: u32,
    pub shared_by: u32,
}

/// The cache type that the low five bits of the first register encode.
pub open spec fn spec_cache_type(bits: u32) -> Option<CacheType> {
    if bits == 1 {
        Some(CacheType::Data)
    } else if bits == 2 {
        Some(CacheType::Instruction)
    } else if bits == 3 {
        Some(CacheType::Unified)
    } else {
        None
    }
}

/// The cache level that bits 7:5 of the first register encode.
pub open spec fn spec_cache_level(bits: u32) -> Option<CacheLevel> {
    if bits == 1 {
        Some(CacheLevel::L1)
    } else if bits == 2 {
        Some(CacheLevel::L2)
    } else if bits == 3 {
        Some(CacheLevel::L3)
    } else if bits == 4 {
        Some(CacheLevel::L4)
    } else {
        None
    }
}

/// The cache that one deterministic subleaf describes. A subleaf with an
/// unknown type or level, or whose set count does not fit 32 bits, describes none.
pub open spec fn spec_deterministic(r: CpuidResult) -> Option<CacheInfo> {
    let ty = spec_cache_type(r.eax & 0x1F);
    let level = spec_cache_level((r.eax >> 5) & 0x7);
    if ty.is_none() || level.is_none() || r.ecx == 0xFFFF_FFFF {
        None
    } else {
        let ways = ((r.ebx >> 22) & 0x3FF) + 1;
        let partitions = ((r.ebx >> 12) & 0x3FF) + 1;
        let line_size = (r.ebx & 0xFFF) + 1;
        let sets = r.ecx + 1;
        Some(
            CacheInfo {
                level: level.unwrap(),
                cache_type: ty.unwrap(),
                size: (ways * partitions * line_size * sets) as u64,
                ways: ways as u32,
                line_size: line_size as u32,
                sets: sets as u32,
                shared_by: (((r.eax >> 14) & 0xFFF) + 1) as u32,
            },
        )
    }
}

/// The caches of deterministic subleaves `index..MAX_CACHE_SUBLEAVES`, up to
/// the first subleaf of type zero.
pub open spec fn spec_deterministic_walk(
    regs: spec_fn(u32, u32) -> CpuidResult,
    index: int,
) -> Seq<CacheInfo>
    decreases MAX_CACHE_SUBLEAVES - index,
{
    if index < 0 || index >= MAX_CACHE_SUBLEAVES {
        Seq::empty()
    } else {
        let r = regs(DETERMINISTIC_CACHE_LEAF, index as u32);
        if r.eax & 0x1F == 0 {
            Seq::empty()
        } else {
            let here = match spec_deterministic(r) {
                Some(c) => seq![c],
                None => Seq::empty(),
            };
            here + spec_deterministic_walk(regs, index + 1)
        }
    }
}

/// A legacy cache entry from its size in bytes, ways and line size: the set
/// count is derived, and is zero where ways or line size is zero.
pub open spec fn spec_legacy(
    level: CacheLevel,
    cache_type: CacheType,
    size: u64,
    ways: u32,
    line_size: u32,
) -> CacheInfo {
    CacheInfo {
        level,
        cache_type,
        size,
        ways,
        line_size,
        sets: if ways == 0 || line_size == 0 {
            0
        } else {
            (size as int / (ways as int * line_size as int)) as u32
        },
        shared_by: 1,
    }
}

/// One legacy cache if its size is not zero.
pub open spec fn spec_legacy_entry(
    level: CacheLevel,
    cache_type: CacheType,
    size: u64,
    ways: u32,
    line_size: u32,
) -> Seq<CacheInfo> {
    if size > 0 {
        seq![spec_legacy(level, cache_type, size, ways, line_size)]
    } else {
        Seq::empty()
    }
}

/// The L1 caches of the legacy packed leaf: one byte lane each for size in
/// KB, ways and line size.
pub open spec fn spec_legacy_l1(r: CpuidResult) -> Seq<CacheInfo> {
    spec_legacy_entry(
        CacheLevel::L1,
        CacheType::Data,
        (((r.ecx >> 24) & 0xFF) as u64 * 1024) as u64,
        (r.ecx >> 16) & 0xFF,
        r.ecx & 0xFF,
    ) + spec_legacy_entry(
        CacheLevel::L1,
        CacheType::Instruction,
        (((r.edx >> 24) & 0xFF) as u64 * 1024) as u64,
        (r.edx >> 16) & 0xFF,
        r.edx & 0xFF,
    )
}

/// The L2 and L3 caches of the legacy packed leaf: L2 size in KB in a 16-bit
/// lane, L3 size in a 14-bit lane of 512 KB units.
pub open spec fn spec_legacy_l2_l3(r: CpuidResult) -> Seq<CacheInfo> {
    spec_legacy_entry(
        CacheLevel::L2,
        CacheType::Unified,
        (((r.ecx >> 16) & 0xFFFF) as u64 * 1024) as u64,
        (r.ecx >> 12) & 0xF,
        r.ecx & 0xFF,
    ) + spec_legacy_entry(
        CacheLevel::L3,
        CacheType::Unified,
        (((r.edx >> 18) & 0x3FFF) as u64 * 512 * 1024) as u64,
        (r.edx >> 12) & 0xF,
        r.edx & 0xFF,
    )
}

/// The legacy caches: each of the two leaves contributes only where supported.
pub open spec fn spec_legacy_caches(
    regs: spec_fn(u32, u32) -> CpuidResult,
    limits: LeafLimits,
) -> Seq<CacheInfo> {
    (if limits.supports(LEGACY_L1_LEAF) {
        spec_legacy_l1(regs(LEGACY_L1_LEAF, 0))
    } else {
        Seq::empty()
    }) + (if limits.supports(LEGACY_L2_L3_LEAF) {
        spec_legacy_l2_l3(regs(LEGACY_L2_L3_LEAF, 0))
    } else {
        Seq::empty()
    })
}

/// The cache list: the deterministic format where its leaf is supported, else
/// the legacy format where its first leaf is supported, else nothing.
pub open spec fn spec_caches(
    regs: spec_fn(u32, u32) -> CpuidResult,
    limits: LeafLimits,
) -> Seq<CacheInfo> {
    if limits.supports(DETERMINISTIC_CACHE_LEAF) {
        spec_deterministic_walk(regs, 0)
    } else if limits.supports(LEGACY_L1_LEAF) {
        spec_legacy_caches(regs, limits)
    } else {
        Seq::empty()
    }
}

impl CacheInfo {
    /// Decodes one subleaf of the deterministic cache leaf.
    pub fn from_deterministic(r: CpuidResult) -> (res: Option<CacheInfo>)
        ensures
            res == spec_deterministic(r),
            res matches Some(c) ==> c.size == c.ways * (((r.ebx >> 12) & 0x3FF) + 1)
                * c.line_size * c.sets,
    {
        let cache_type = match r.eax & 0x1F {
            1 => CacheType::Data,
            2 => CacheType::Instruction,
            3 => CacheType::Unified,
            _ => return None,
        };
        let level = match (r.eax >> 5) & 0x7 {
            1 => CacheLevel::L1,
            2 => CacheLevel::L2,
            3 => CacheLevel::L3,
            4 => CacheLevel::L4,
            _ => return None,
        };
        if r.ecx == 0xFFFF_FFFF {
            return None;
        }
        proof {
            lemma_and_le(r.ebx >> 22, 0x3FF);
            lemma_and_le(r.ebx >> 12, 0x3FF);
            lemma_and_le(r.ebx, 0xFFF);
            lemma_and_le(r.eax >> 14, 0xFFF);
        }
        let ways = ((r.ebx >> 22) & 0x3FF) + 1;
        let partitions = ((r.ebx >> 12) & 0x3FF) + 1;
        let line_size = (r.ebx & 0xFFF) + 1;
        let sets = r.ecx + 1;
        let shared_by = ((r.eax >> 14) & 0xFFF) + 1;
        assert(ways as u64 * partitions as u64 <= 0x10_0000) by (nonlinear_arith)
            requires
                ways <= 0x400,
                partitions <= 0x400,
        ;
        let wp = ways as u64 * partitions as u64;
        assert(wp * line_size as u64 <= 0x1_0000_0000) by (nonlinear_arith)
            requires
                wp <= 0x10_0000,
                line_size <= 0x1000,
        ;
        let wpl = wp * line_size as u64;
        assert(wpl * sets as u64 <= 0x1_0000_0000 * 0xFFFF_FFFF) by (nonlinear_arith)
            requires
                wpl <= 0x1_0000_0000,
                sets <= 0xFFFF_FFFF,
        ;
        let size = wpl * sets as u64;
        Some(CacheInfo { level, cache_type, size, ways, line_size, sets, shared_by })
    }

    /// Walks the deterministic cache leaf from subleaf zero until a subleaf
    /// reports type zero, at most `MAX_CACHE_SUBLEAVES` subleaves.
    pub fn decode_deterministic(regs: &RegisterState) -> (r: Vec<CacheInfo>)
        ensures
            r@ == spec_deterministic_walk(regs@, 0),
    {
        let mut caches: Vec<CacheInfo> = Vec::new();
        let mut index: u32 = 0;
        while index < MAX_CACHE_SUBLEAVES
            invariant
                index <= MAX_CACHE_SUBLEAVES,
                caches@ + spec_deterministic_walk(regs@, index as int) == spec_deterministic_walk(
                    regs@,
                    0,
                ),
            decreases MAX_CACHE_SUBLEAVES - index,
        {
            let r = regs.query(DETERMINISTIC_CACHE_LEAF, index);
            if r.eax & 0x1F == 0 {
                assert(caches@ + spec_deterministic_walk(regs@, index as int) =~= caches@);
                return caches;
            }
            let ghost before = caches@;
            match CacheInfo::from_deterministic(r) {
                Some(c) => {
                    caches.push(c);
                    assert(before + spec_deterministic_walk(regs@, index as int) =~= caches@
                        + spec_deterministic_walk(regs@, index + 1));
                },
                None => {
                    assert(before + spec_deterministic_walk(regs@, index as int) =~= caches@
                        + spec_deterministic_walk(regs@, index + 1));
                },
            }
            index = index + 1;
        }
        assert(caches@ + spec_deterministic_walk(regs@, index as int) =~= caches@);
        caches
    }

    fn legacy(
        level: CacheLevel,
        cache_type: CacheType,
        size: u64,
        ways: u32,
        line_size: u32,
    ) -> (r: CacheInfo)
        ensures
            r == spec_legacy(level, cache_type, size, ways, line_size),
    {
        let sets: u32 = if ways == 0 || line_size == 0 {
            0
        } else {
            assert(0 < ways as u64 * line_size as u64 <= 0xFFFF_FFFF * 0xFFFF_FFFF) by (nonlinear_arith)
                requires
                    0 < ways <= 0xFFFF_FFFF,
                    0 < line_size <= 0xFFFF_FFFF,
            ;
            #[verifier::truncate]
            ((size / (ways as u64 * line_size as u64)) as u32)
        };
        CacheInfo { level, cache_type, size, ways, line_size, sets, shared_by: 1 }
    }

    /// Decodes the legacy packed L1 leaf.
    pub fn decode_legacy_l1(r: CpuidResult) -> (caches: Vec<CacheInfo>)
        ensures
            caches@ == spec_legacy_l1(r),
    {
        let mut caches: Vec<CacheInfo> = Vec::new();
        let l1d_size = ((r.ecx >> 24) & 0xFF) as u64 * 1024;
        if l1d_size > 0 {
            caches.push(
                CacheInfo::legacy(
                    CacheLevel::L1,
                    CacheType::Data,
                    l1d_size,
                    (r.ecx >> 16) & 0xFF,
                    r.ecx & 0xFF,
                ),
            );
        }
        let l1i_size = ((r.edx >> 24) & 0xFF) as u64 * 1024;
        if l1i_size > 0 {
            caches.push(
                CacheInfo::legacy(
                    CacheLevel::L1,
                    CacheType::Instruction,
                    l1i_size,
                    (r.edx >> 16) & 0xFF,
                    r.edx & 0xFF,
                ),
            );
        }
        assert(caches@ =~= spec_legacy_l1(r));
        caches
    }

    /// Decodes the legacy packed L2/L3 leaf.
    pub fn decode_legacy_l2_l3(r: CpuidResult) -> (caches: Vec<CacheInfo>)
        ensures
            caches@ == spec_legacy_l2_l3(r),
    {
        let mut caches: Vec<CacheInfo> = Vec::new();
        let l2_size = ((r.ecx >> 16) & 0xFFFF) as u64 * 1024;
        if l2_size > 0 {
            caches.push(
                CacheInfo::legacy(
                    CacheLevel::L2,
                    CacheType::Unified,
                    l2_size,
                    (r.ecx >> 12) & 0xF,
                    r.ecx & 0xFF,
                ),
            );
        }
        proof {
            lemma_and_le(r.edx >> 18, 0x3FFF);
        }
        let l3_size = ((r.edx >> 18) & 0x3FFF) as u64 * 512 * 1024;
        if l3_size > 0 {
            caches.push(
                CacheInfo::legacy(
                    CacheLevel::L3,
                    CacheType::Unified,
                    l3_size,
                    (r.edx >> 12) & 0xF,
                    r.edx & 0xFF,
                ),
            );
        }
        assert(caches@ =~= spec_legacy_l2_l3(r));
        caches
    }

    /// The caches of the legacy packed format, each leaf read only where supported.
    pub fn decode_legacy(regs: &RegisterState, limits: &LeafLimits) -> (r: Vec<CacheInfo>)
        ensures
            r@ == spec_legacy_caches(regs@, *limits),
    {
        let mut caches: Vec<CacheInfo> = Vec::new();
        if limits.is_supported(LEGACY_L1_LEAF) {
            caches = CacheInfo::decode_legacy_l1(regs.query(LEGACY_L1_LEAF, 0));
        }
        if limits.is_supported(LEGACY_L2_L3_LEAF) {
            let mut more = CacheInfo::decode_legacy_l2_l3(regs.query(LEGACY_L2_L3_LEAF, 0));
            caches.append(&mut more);
        }
        assert(caches@ =~= spec_legacy_caches(regs@, *limits));
        caches
    }

    /// The cache list of a register state.
    pub fn decode_all(regs: &RegisterState, limits: &LeafLimits) -> (r: Vec<CacheInfo>)
        ensures
            r@ == spec_caches(regs@, *limits),
    {
        if limits.is_supported(DETERMINISTIC_CACHE_LEAF) {
            CacheInfo::decode_deterministic(regs)
        } else if limits.is_supported(LEGACY_L1_LEAF) {
            CacheInfo::decode_legacy(regs, limits)
        } else {
            Vec::new()
        }
    }

    /// The cache list of the calling processor.
    pub fn detect_all() -> (r: Vec<CacheInfo>)
        ensures
            exists|regs: RegisterState| r@ == spec_caches(regs@, LeafLimits::of(regs@)),
    {
        let regs = RegisterState::capture();
        let limits = LeafLimits::read(&regs);
        CacheInfo::decode_all(&regs, &limits)
    }
}

} // verus!
