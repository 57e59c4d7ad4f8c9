//! Translation lookaside buffers: the legacy packed leaves and the
//! deterministic subleaf-walked leaf.
use vstd::prelude::*;

use crate::cpuid::{lemma_and_le, CpuidResult, LeafLimits, RegisterState};
use crate::decimal::{decimal, push_decimal};

verus! {

/// The legacy leaf that packs the L1 TLBs.
pub const LEGACY_L1_TLB_LEAF: u32 = 0x8000_0005;

/// The legacy leaf that packs the L2 TLBs.
pub const LEGACY_L2_TLB_LEAF: u32 = 0x8000_0006;

/// The deterministic address translation leaf, one TLB per subleaf.
pub const TLB_LEAF: u32 = 0x18;

/// Subleaves of the deterministic TLB leaf that are walked at most.
pub const MAX_TLB_SUBLEAVES: u32 = 10;

/// The ways value that marks a fully associative TLB.
pub const FULLY_ASSOCIATIVE_WAYS: u32 = 0xFFFF;

/// One TLB: page size class, entry count, associativity and kind.
#[derive(Debug, Clone, PartialEq, Eq)]
pub struct TlbEntry {
    pub page_size: String,
    pub entries: u32,
    pub associativity: String,
    pub tlb_type: String,
}

/// The content of a `TlbEntry`, strings as character sequences.
pub struct TlbEntryModel {
    pub page_size: Seq<char>,
    pub entries: u32,
    pub associativity: Seq<char>,
    pub tlb_type: Seq<char>,
}

impl View for TlbEntry {
    type V = TlbEntryModel;

    open spec fn view(&self) -> TlbEntryModel {
        TlbEntryModel {
            page_size: self.page_size@,
            entries: self.entries,
            associativity: self.associativity@,
            tlb_type: self.tlb_type@,
        }
    }
}

/// All TLBs of the processor.
#[derive(Debug, Clone, PartialEq, Eq)]
pub struct TlbInfo {
    pub entries: Vec<TlbEntry>,
}

impl View for TlbInfo {
    type V = Seq<TlbEntryModel>;

    open spec fn view(&self) -> Seq<TlbEntryModel> {
        self.entries@.map_values(|e: TlbEntry| e@)
    }
}

/// `n-way` for a count of ways.
pub open spec fn n_way(n: u32) -> Seq<char> {
    decimal(n as nat) + "-way"@
}

/// The associativity that an 8-bit legacy L1 code describes.
pub open spec fn spec_assoc(val: u32) -> Seq<char> {
    if val == 0 {
        "Reserved"@
    } else if val == 0xFF {
        "Fully"@
    } else {
        n_way(val)
    }
}

/// The associativity that a 4-bit legacy L2 code describes.
pub open spec fn spec_assoc_l2(val: u32) -> Seq<char> {
    if val == 0x0 {
        "Disabled"@
    } else if val == 0x6 {
        n_way(8)
    } else if val == 0x8 {
        n_way(16)
    } else if val == 0xA {
        n_way(32)
    } else if val == 0xB {
        n_way(48)
    } else if val == 0xC {
        n_way(64)
    } else if val == 0xD {
        n_way(96)
    } else if val == 0xE {
        n_way(128)
    } else if val == 0xF {
        "Fully"@
    } else {
        n_way(val)
    }
}

/// The TLB of one 16-bit lane of the legacy L1 leaf, if the lane is not zero:
/// count in the low byte, associativity code in the high byte.
pub open spec fn spec_l1_lane(lane: u32, page: Seq<char>, kind: Seq<char>) -> Seq<TlbEntryModel> {
    if lane != 0 {
        seq![
            TlbEntryModel {
                page_size: page,
                entries: lane & 0xFF,
                associativity: spec_assoc((lane >> 8) & 0xFF),
                tlb_type: kind,
            },
        ]
    } else {
        Seq::empty()
    }
}

/// The TLB of one 16-bit lane of the legacy L2 leaf, if the lane is not zero:
/// count in the low 12 bits, associativity code in the high nibble.
pub open spec fn spec_l2_lane(lane: u32, page: Seq<char>, kind: Seq<char>) -> Seq<TlbEntryModel> {
    if lane != 0 {
        seq![
            TlbEntryModel {
                page_size: page,
                entries: lane & 0xFFF,
                associativity: spec_assoc_l2((lane >> 12) & 0xF),
                tlb_type: kind,
            },
        ]
    } else {
        Seq::empty()
    }
}

/// The L1 TLBs of the legacy leaf: large-page data and instruction in the
/// first register, 4K-page data and instruction in the second.
pub open spec fn spec_l1_tlbs(r: CpuidResult) -> Seq<TlbEntryModel> {
    spec_l1_lane((r.eax >> 16) & 0xFFFF, "2M/4M"@, "L1 Data"@) + spec_l1_lane(
        r.eax & 0xFFFF,
        "2M/4M"@,
        "L1 Instruction"@,
    ) + spec_l1_lane((r.ebx >> 16) & 0xFFFF, "4K"@, "L1 Data"@) + spec_l1_lane(
        r.ebx & 0xFFFF,
        "4K"@,
        "L1 Instruction"@,
    )
}

/// The L2 TLBs of the legacy leaf, laid out as the L1 ones.
pub open spec fn spec_l2_tlbs(r: CpuidResult) -> Seq<TlbEntryModel> {
    spec_l2_lane((r.eax >> 16) & 0xFFFF, "2M/4M"@, "L2 Data"@) + spec_l2_lane(
        r.eax & 0xFFFF,
        "2M/4M"@,
        "L2 Instruction"@,
    ) + spec_l2_lane((r.ebx >> 16) & 0xFFFF, "4K"@, "L2 Data"@) + spec_l2_lane(
        r.ebx & 0xFFFF,
        "4K"@,
        "L2 Instruction"@,
    )
}

/// The kind name that the low five bits of a deterministic subleaf's fourth
/// register give.
pub open spec fn spec_tlb_kind(bits: u32) -> Option<Seq<char>> {
    if bits == 1 {
        Some("Data"@)
    } else if bits == 2 {
        Some("Instruction"@)
    } else if bits == 3 {
        Some("Unified"@)
    } else {
        None
    }
}

/// The page size class of bits 1:0 of a deterministic subleaf's second register.
pub open spec fn spec_page_class(bits: u32) -> Seq<char> {
    if bits == 0 {
        "4K"@
    } else if bits == 1 {
        "2M"@
    } else if bits == 2 {
        "4M"@
    } else {
        "1G"@
    }
}

/// `ways * sets`, or the largest `u32` where the product does not fit.
pub open spec fn capped_product(ways: u32, sets: u32) -> u32 {
    if ways * sets > 0xFFFF_FFFF {
        0xFFFF_FFFF
    } else {
        (ways * sets) as u32
    }
}

/// The TLB that one deterministic subleaf describes, if its kind is known.
pub open spec fn spec_deterministic_tlb(r: CpuidResult) -> Option<TlbEntryModel> {
    match spec_tlb_kind(r.edx & 0x1F) {
        None => None,
        Some(kind) => {
            let ways = (r.ebx >> 16) & 0xFFFF;
            Some(
                TlbEntryModel {
                    page_size: spec_page_class(r.ebx & 0x3),
                    entries: capped_product(ways, r.ecx),
                    associativity: if ways == FULLY_ASSOCIATIVE_WAYS {
                        "Fully"@
                    } else {
                        n_way(ways)
                    },
                    tlb_type: "L"@ + decimal(((r.edx >> 5) & 0x7) as nat) + " "@ + kind,
                },
            )
        },
    }
}

/// The TLBs of deterministic subleaves `index..MAX_TLB_SUBLEAVES`, up to the
/// first subleaf whose first register is zero.
pub open spec fn spec_tlb_walk(regs: spec_fn(u32, u32) -> CpuidResult, index: int) -> Seq<
    TlbEntryModel,
>
    decreases MAX_TLB_SUBLEAVES - index,
{
    if index < 0 || index >= MAX_TLB_SUBLEAVES {
        Seq::empty()
    } else {
        let r = regs(TLB_LEAF, index as u32);
        if r.eax == 0 {
            Seq::empty()
        } else {
            (match spec_deterministic_tlb(r) {
                Some(t) => seq![t],
                None => Seq::empty(),
            }) + spec_tlb_walk(regs, index + 1)
        }
    }
}

/// The TLBs of a register state: legacy L1, legacy L2, then deterministic,
/// each where its leaf is supported.
pub open spec fn spec_tlbs(regs: spec_fn(u32, u32) -> CpuidResult, limits: LeafLimits) -> Seq<
    TlbEntryModel,
> {
    (if limits.supports(LEGACY_L1_TLB_LEAF) {
        spec_l1_tlbs(regs(LEGACY_L1_TLB_LEAF, 0))
    } else {
        Seq::empty()
    }) + (if limits.supports(LEGACY_L2_TLB_LEAF) {
        spec_l2_tlbs(regs(LEGACY_L2_TLB_LEAF, 0))
    } else {
        Seq::empty()
    }) + (if limits.supports(TLB_LEAF) {
        spec_tlb_walk(regs, 0)
    } else {
        Seq::empty()
    })
}

fn n_way_string(n: u32) -> (r: String)
    ensures
        r@ == n_way(n),
{
    let mut s = String::new();
    push_decimal(&mut s, n);
    s.append("-way");
    s
}

/// The associativity of an 8-bit legacy L1 code.
pub fn decode_assoc(val: u32) -> (r: String)
    ensures
        r@ == spec_assoc(val),
{
    if val == 0 {
        String::from_str("Reserved")
    } else if val == 0xFF {
        String::from_str("Fully")
    } else {
        n_way_string(val)
    }
}

/// The associativity of a 4-bit legacy L2 code.
pub fn decode_assoc_l2(val: u32) -> (r: String)
    ensures
        r@ == spec_assoc_l2(val),
{
    match val {
        0x0 => String::from_str("Disabled"),
        0x6 => n_way_string(8),
        0x8 => n_way_string(16),
        0xA => n_way_string(32),
        0xB => n_way_string(48),
        0xC => n_way_string(64),
        0xD => n_way_string(96),
        0xE => n_way_string(128),
        0xF => String::from_str("Fully"),
        _ => n_way_string(val),
    }
}

fn push_l1_lane(out: &mut Vec<TlbEntry>, lane: u32, page: &str, kind: &str)
    ensures
        final(out)@.map_values(|e: TlbEntry| e@) == old(out)@.map_values(|e: TlbEntry| e@)
            + spec_l1_lane(lane, page@, kind@),
{
    let ghost before = out@;
    if lane != 0 {
        out.push(
            TlbEntry {
                page_size: String::from_str(page),
                entries: lane & 0xFF,
                associativity: decode_assoc((lane >> 8) & 0xFF),
                tlb_type: String::from_str(kind),
            },
        );
    }
    assert(out@.map_values(|e: TlbEntry| e@) =~= before.map_values(|e: TlbEntry| e@)
        + spec_l1_lane(lane, page@, kind@));
}

fn push_l2_lane(out: &mut Vec<TlbEntry>, lane: u32, page: &str, kind: &str)
    ensures
        final(out)@.map_values(|e: TlbEntry| e@) == old(out)@.map_values(|e: TlbEntry| e@)
            + spec_l2_lane(lane, page@, kind@),
{
    let ghost before = out@;
    if lane != 0 {
        out.push(
            TlbEntry {
                page_size: String::from_str(page),
                entries: lane & 0xFFF,
                associativity: decode_assoc_l2((lane >> 12) & 0xF),
                tlb_type: String::from_str(kind),
            },
        );
    }
    assert(out@.map_values(|e: TlbEntry| e@) =~= before.map_values(|e: TlbEntry| e@)
        + spec_l2_lane(lane, page@, kind@));
}

/// Appends the L1 TLBs of the legacy leaf.
pub fn detect_amd_l1_tlb(r: CpuidResult, entries: &mut Vec<TlbEntry>)
    ensures
        final(entries)@.map_values(|e: TlbEntry| e@) == old(entries)@.map_values(
            |e: TlbEntry| e@,
        ) + spec_l1_tlbs(r),
{
    let ghost start = entries@.map_values(|e: TlbEntry| e@);
    push_l1_lane(entries, (r.eax >> 16) & 0xFFFF, "2M/4M", "L1 Data");
    push_l1_lane(entries, r.eax & 0xFFFF, "2M/4M", "L1 Instruction");
    push_l1_lane(entries, (r.ebx >> 16) & 0xFFFF, "4K", "L1 Data");
    push_l1_lane(entries, r.ebx & 0xFFFF, "4K", "L1 Instruction");
    assert(entries@.map_values(|e: TlbEntry| e@) =~= start + spec_l1_tlbs(r));
}

/// Appends the L2 TLBs of the legacy leaf.
pub fn detect_amd_l2_tlb(r: CpuidResult, entries: &mut Vec<TlbEntry>)
    ensures
        final(entries)@.map_values(|e: TlbEntry| e@) == old(entries)@.map_values(
            |e: TlbEntry| e@,
        ) + spec_l2_tlbs(r),
{
    let ghost start = entries@.map_values(|e: TlbEntry| e@);
    push_l2_lane(entries, (r.eax >> 16) & 0xFFFF, "2M/4M", "L2 Data");
    push_l2_lane(entries, r.eax & 0xFFFF, "2M/4M", "L2 Instruction");
    push_l2_lane(entries, (r.ebx >> 16) & 0xFFFF, "4K", "L2 Data");
    push_l2_lane(entries, r.ebx & 0xFFFF, "4K", "L2 Instruction");
    assert(entries@.map_values(|e: TlbEntry| e@) =~= start + spec_l2_tlbs(r));
}

/// Decodes one subleaf of the deterministic TLB leaf.
pub fn decode_deterministic_tlb(r: CpuidResult) -> (t: Option<TlbEntry>)
    ensures
        t matches Some(e) ==> spec_deterministic_tlb(r) == Some(e@),
        t is None ==> spec_deterministic_tlb(r) is None,
{
    let kind = match r.edx & 0x1F {
        1 => "Data",
        2 => "Instruction",
        3 => "Unified",
        _ => return None,
    };
    let level = (r.edx >> 5) & 0x7;
    let page_size = match r.ebx & 0x3 {
        0 => "4K",
        1 => "2M",
        2 => "4M",
        _ => "1G",
    };
    let ways = (r.ebx >> 16) & 0xFFFF;
    proof {
        lemma_and_le(r.ebx >> 16, 0xFFFF);
    }
    assert(ways as u64 * r.ecx as u64 <= 0xFFFF * 0xFFFF_FFFF) by (nonlinear_arith)
        requires
            ways <= 0xFFFF,
            r.ecx <= 0xFFFF_FFFF,
    ;
    let wide = ways as u64 * r.ecx as u64;
    let entries: u32 = if wide > 0xFFFF_FFFF {
        0xFFFF_FFFF
    } else {
        wide as u32
    };
    let associativity = if ways == FULLY_ASSOCIATIVE_WAYS {
        String::from_str("Fully")
    } else {
        n_way_string(ways)
    };
    let mut tlb_type = String::from_str("L");
    push_decimal(&mut tlb_type, level);
    tlb_type.append(" ");
    tlb_type.append(kind);
    let e = TlbEntry { page_size: String::from_str(page_size), entries, associativity, tlb_type };
    assert(e@ == spec_deterministic_tlb(r).unwrap());
    Some(e)
}

/// Appends the TLBs of the deterministic leaf, walking subleaves from zero
/// until one whose first register is zero.
pub fn detect_intel_tlb(regs: &RegisterState, entries: &mut Vec<TlbEntry>)
    ensures
        final(entries)@.map_values(|e: TlbEntry| e@) == old(entries)@.map_values(
            |e: TlbEntry| e@,
        ) + spec_tlb_walk(regs@, 0),
{
    let ghost start = entries@.map_values(|e: TlbEntry| e@);
    let mut subleaf: u32 = 0;
    while subleaf < MAX_TLB_SUBLEAVES
        invariant
            subleaf <= MAX_TLB_SUBLEAVES,
            start == old(entries)@.map_values(|e: TlbEntry| e@),
            entries@.map_values(|e: TlbEntry| e@) + spec_tlb_walk(regs@, subleaf as int) == start
                + spec_tlb_walk(regs@, 0),
        decreases MAX_TLB_SUBLEAVES - subleaf,
    {
        let r = regs.query(TLB_LEAF, subleaf);
        if r.eax == 0 {
            assert(entries@.map_values(|e: TlbEntry| e@) + spec_tlb_walk(regs@, subleaf as int)
                =~= entries@.map_values(|e: TlbEntry| e@));
            return;
        }
        let ghost before = entries@.map_values(|e: TlbEntry| e@);
        match decode_deterministic_tlb(r) {
            Some(t) => {
                entries.push(t);
                assert(entries@.map_values(|e: TlbEntry| e@) =~= before + seq![t@]);
            },
            None => {},
        }
        assert(before + spec_tlb_walk(regs@, subleaf as int) =~= entries@.map_values(
            |e: TlbEntry| e@,
        ) + spec_tlb_walk(regs@, subleaf + 1));
        subleaf = subleaf + 1;
    }
    assert(entries@.map_values(|e: TlbEntry| e@) + spec_tlb_walk(regs@, subleaf as int)
        =~= entries@.map_values(|e: TlbEntry| e@));
}

impl TlbInfo {
    /// The TLBs of a register state.
    pub fn decode(regs: &RegisterState, limits: &LeafLimits) -> (r: TlbInfo)
        ensures
            r@ == spec_tlbs(regs@, *limits),
    {
        let mut entries: Vec<TlbEntry> = Vec::new();
        assert(entries@.map_values(|e: TlbEntry| e@) =~= Seq::<TlbEntryModel>::empty());
        if limits.is_supported(LEGACY_L1_TLB_LEAF) {
            detect_amd_l1_tlb(regs.query(LEGACY_L1_TLB_LEAF, 0), &mut entries);
        }
        if limits.is_supported(LEGACY_L2_TLB_LEAF) {
            detect_amd_l2_tlb(regs.query(LEGACY_L2_TLB_LEAF, 0), &mut entries);
        }
        if limits.is_supported(TLB_LEAF) {
            detect_intel_tlb(regs, &mut entries);
        }
        let r = TlbInfo { entries };
        assert(r@ =~= spec_tlbs(regs@, *limits));
        r
    }

    /// The TLBs of the calling processor.
    pub fn detect() -> (r: TlbInfo)
        ensures
            exists|regs: RegisterState| r@ == spec_tlbs(regs@, LeafLimits::of(regs@)),
    {
        let regs = RegisterState::capture();
        let limits = LeafLimits::read(&regs);
        TlbInfo::decode(&regs, &limits)
    }
}

} // verus!
