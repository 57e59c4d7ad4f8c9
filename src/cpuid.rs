//! The raw instruction interface: register quadruples and bit primitives.
use vstd::prelude::*;

verus! {

/// The four 32-bit words returned by one query of the instruction.
#[derive(Debug, Clone, Copy, PartialEq, Eq, Structural)]
pub struct CpuidResult {
    pub eax: u32,
    pub ebx: u32,
    pub ecx: u32,
    pub edx: u32,
}

/// One of the four result registers.
#[derive(Debug, Clone, Copy, PartialEq, Eq, Structural)]
pub enum Register {
    Eax,
    Ebx,
    Ecx,
    Edx,
}

/// Bit `bit` of `word` is one.
pub open spec fn bit_set(word: u32, bit: u32) -> bool {
    (word >> bit) & 1u32 == 1u32
}

/// Bits `start..=end` of `word`, shifted down to bit zero.
pub open spec fn bits_of(word: u32, start: u32, end: u32) -> u32 {
    ((word >> start) as u64 & (((1u64 << ((end - start + 1) as u64)) - 1u64) as u64)) as u32
}

impl CpuidResult {
    /// The word held in `register`.
    pub open spec fn word(self, register: Register) -> u32 {
        match register {
            Register::Eax => self.eax,
            Register::Ebx => self.ebx,
            Register::Ecx => self.ecx,
            Register::Edx => self.edx,
        }
    }

    /// The all-zero quadruple.
    pub open spec fn zero() -> CpuidResult {
        CpuidResult { eax: 0, ebx: 0, ecx: 0, edx: 0 }
    }

    fn get(&self, register: Register) -> (r: u32)
        ensures
            r == self.word(register),
    {
        match register {
            Register::Eax => self.eax,
            Register::Ebx => self.ebx,
            Register::Ecx => self.ecx,
            Register::Edx => self.edx,
        }
    }

    /// Tests one bit of one register.
    pub fn is_bit_set(&self, register: Register, bit: u32) -> (r: bool)
        requires
            bit < 32,
        ensures
            r == bit_set(self.word(register), bit),
    {
        let value = self.get(register);
        let r = (value & (1u32 << bit)) != 0;
        assert(((value & (1u32 << bit)) != 0) == ((value >> bit) & 1u32 == 1u32)) by (bit_vector)
            requires
                bit < 32,
        ;
        r
    }

    /// The inclusive bit range `start..=end` of one register, right-aligned.
    pub fn extract_bits(&self, register: Register, start: u32, end: u32) -> (r: u32)
        requires
            start <= end < 32,
        ensures
            r == bits_of(self.word(register), start, end),
    {
        let value = self.get(register);
        let width: u64 = (end - start + 1) as u64;
        assert(1u64 << width >= 1u64) by (bit_vector)
            requires
                1u64 <= width <= 32u64,
        ;
        let mask: u64 = (1u64 << width) - 1;
        assert((value >> start) as u64 & mask <= 0xFFFF_FFFFu64) by (bit_vector);
        ((value >> start) as u64 & mask) as u32
    }
}

/// Masking never exceeds the mask.
pub proof fn lemma_and_le(x: u32, m: u32)
    ensures
        x & m <= m,
{
    assert(x & m <= m) by (bit_vector);
}

/// The first extended leaf; leaves from here on are gated by the extended maximum.
pub const EXTENDED_BASE: u32 = 0x8000_0000;

/// The highest standard leaf that any decoder reads.
pub const LAST_DECODED_STANDARD: u32 = 0x24;

/// The highest extended leaf that any decoder reads.
pub const LAST_DECODED_EXTENDED: u32 = 0x8000_0021;

/// Subleaves `0..SUBLEAF_LIMIT` of each standard leaf are recorded.
pub const SUBLEAF_LIMIT: u32 = 32;

/// The recorded answer of one query.
#[derive(Debug, Clone, Copy, PartialEq, Eq, Structural)]
pub struct LeafData {
    pub leaf: u32,
    pub subleaf: u32,
    pub regs: CpuidResult,
}

/// The answer for `(leaf, subleaf)` among recorded entries: the latest entry
/// for that pair, or all zeros when there is none.
pub open spec fn lookup(entries: Seq<LeafData>, leaf: u32, subleaf: u32) -> CpuidResult
    decreases entries.len(),
{
    if entries.len() == 0 {
        CpuidResult::zero()
    } else if entries.last().leaf == leaf && entries.last().subleaf == subleaf {
        entries.last().regs
    } else {
        lookup(entries.drop_last(), leaf, subleaf)
    }
}

/// Some entry answers `(leaf, subleaf)`.
pub open spec fn recorded(entries: Seq<LeafData>, leaf: u32, subleaf: u32) -> bool {
    exists|i: int| 0 <= i < entries.len() && entries[i].leaf == leaf && entries[i].subleaf == subleaf
}

/// A state of the instruction: what each `(leaf, subleaf)` query answers.
#[derive(Debug, Clone, PartialEq, Eq)]
pub struct RegisterState {
    pub entries: Vec<LeafData>,
}

impl View for RegisterState {
    type V = spec_fn(u32, u32) -> CpuidResult;

    open spec fn view(&self) -> spec_fn(u32, u32) -> CpuidResult {
        |leaf: u32, subleaf: u32| lookup(self.entries@, leaf, subleaf)
    }
}

impl RegisterState {
    /// A state in which every query answers all zeros.
    pub fn new() -> (r: RegisterState)
        ensures
            r.entries@.len() == 0,
            forall|leaf: u32, subleaf: u32| #[trigger] r@(leaf, subleaf) == CpuidResult::zero(),
    {
        RegisterState { entries: Vec::new() }
    }

    /// Makes `(leaf, subleaf)` answer `regs`; every other query is unchanged.
    pub fn set(&mut self, leaf: u32, subleaf: u32, regs: CpuidResult)
        ensures
            final(self).entries@ == old(self).entries@.push(LeafData { leaf, subleaf, regs }),
            recorded(final(self).entries@, leaf, subleaf),
            forall|l: u32, s: u32|
                recorded(old(self).entries@, l, s) ==> #[trigger] recorded(final(self).entries@, l, s),
            forall|l: u32, s: u32|
                #[trigger] final(self)@(l, s) == if l == leaf && s == subleaf {
                    regs
                } else {
                    old(self)@(l, s)
                },
    {
        let ghost before = self.entries@;
        self.entries.push(LeafData { leaf, subleaf, regs });
        assert(self.entries@.drop_last() =~= before);
        assert(forall|l: u32, s: u32| #[trigger] self@(l, s) == lookup(self.entries@, l, s));
        assert(self.entries@[before.len() as int] == LeafData { leaf, subleaf, regs });
        assert forall|l: u32, s: u32| recorded(before, l, s) implies #[trigger] recorded(
            self.entries@,
            l,
            s,
        ) by {
            let i = choose|i: int| 0 <= i < before.len() && before[i].leaf == l && before[i].subleaf == s;
            assert(self.entries@[i] == before[i]);
        }
    }

    /// The answer of the state to `(leaf, subleaf)`.
    pub fn query(&self, leaf: u32, subleaf: u32) -> (r: CpuidResult)
        ensures
            r == self@(leaf, subleaf),
    {
        let mut i: usize = self.entries.len();
        assert(self.entries@.subrange(0, i as int) =~= self.entries@);
        while i > 0
            invariant
                i <= self.entries.len(),
                lookup(self.entries@, leaf, subleaf) == lookup(
                    self.entries@.subrange(0, i as int),
                    leaf,
                    subleaf,
                ),
            decreases i,
        {
            let e = self.entries[i - 1];
            assert(self.entries@.subrange(0, i as int).drop_last() =~= self.entries@.subrange(
                0,
                i - 1,
            ));
            if e.leaf == leaf && e.subleaf == subleaf {
                return e.regs;
            }
            i = i - 1;
        }
        CpuidResult { eax: 0, ebx: 0, ecx: 0, edx: 0 }
    }

    /// Records the calling processor's answers to every leaf that a decoder
    /// reads and that the processor reports as supported; besides the two
    /// leaves that report the maxima, nothing beyond them is queried.
    pub fn capture() -> (r: RegisterState)
        ensures
            forall|i: int|
                0 <= i < r.entries.len() ==> (r.entries[i].leaf == EXTENDED_BASE
                    || LeafLimits::of(r@).supports(#[trigger] r.entries[i].leaf)),
            recorded(r.entries@, 0, 0),
            recorded(r.entries@, EXTENDED_BASE, 0),
            forall|l: u32, s: u32|
                1 <= l <= LAST_DECODED_STANDARD && LeafLimits::of(r@).supports(l) && s
                    < SUBLEAF_LIMIT ==> #[trigger] recorded(r.entries@, l, s),
            forall|l: u32|
                EXTENDED_BASE < l <= LAST_DECODED_EXTENDED && LeafLimits::of(r@).supports(l)
                    ==> #[trigger] recorded(r.entries@, l, 0),
    {
        let mut state = RegisterState::new();
        let top = cpuid(0, 0);
        let ext = cpuid(EXTENDED_BASE, 0);
        state.set(0, 0, top);
        state.set(EXTENDED_BASE, 0, ext);
        let last_standard = if top.eax < LAST_DECODED_STANDARD {
            top.eax
        } else {
            LAST_DECODED_STANDARD
        };
        let mut leaf: u32 = 1;
        while leaf <= last_standard
            invariant
                1 <= leaf <= last_standard + 1,
                last_standard <= top.eax,
                last_standard <= LAST_DECODED_STANDARD,
                state@(0, 0) == top,
                state@(EXTENDED_BASE, 0) == ext,
                recorded(state.entries@, 0, 0),
                recorded(state.entries@, EXTENDED_BASE, 0),
                forall|l: u32, s: u32|
                    1 <= l < leaf && s < SUBLEAF_LIMIT ==> #[trigger] recorded(state.entries@, l, s),
                forall|i: int|
                    0 <= i < state.entries.len() ==> (state.entries[i].leaf == EXTENDED_BASE
                        || LeafLimits::of(state@).supports(#[trigger] state.entries[i].leaf)),
            decreases last_standard + 1 - leaf,
        {
            let mut subleaf: u32 = 0;
            while subleaf < SUBLEAF_LIMIT
                invariant
                    1 <= leaf <= last_standard,
                    last_standard <= top.eax,
                    last_standard <= LAST_DECODED_STANDARD,
                    state@(0, 0) == top,
                    state@(EXTENDED_BASE, 0) == ext,
                    subleaf <= SUBLEAF_LIMIT,
                    recorded(state.entries@, 0, 0),
                    recorded(state.entries@, EXTENDED_BASE, 0),
                    forall|l: u32, s: u32|
                        (1 <= l < leaf && s < SUBLEAF_LIMIT) || (l == leaf && s < subleaf)
                            ==> #[trigger] recorded(state.entries@, l, s),
                    forall|i: int|
                        0 <= i < state.entries.len() ==> (state.entries[i].leaf == EXTENDED_BASE
                            || LeafLimits::of(state@).supports(#[trigger] state.entries[i].leaf)),
                decreases SUBLEAF_LIMIT - subleaf,
            {
                state.set(leaf, subleaf, cpuid(leaf, subleaf));
                subleaf = subleaf + 1;
            }
            leaf = leaf + 1;
        }
        let last_extended = if ext.eax < LAST_DECODED_EXTENDED {
            ext.eax
        } else {
            LAST_DECODED_EXTENDED
        };
        let mut leaf: u32 = EXTENDED_BASE + 1;
        while leaf <= last_extended
            invariant
                EXTENDED_BASE + 1 <= leaf,
                leaf <= last_extended + 1 || last_extended < EXTENDED_BASE,
                last_extended <= ext.eax,
                last_extended <= LAST_DECODED_EXTENDED,
                last_standard <= top.eax,
                last_standard <= LAST_DECODED_STANDARD,
                top.eax <= LAST_DECODED_STANDARD ==> last_standard == top.eax,
                top.eax > LAST_DECODED_STANDARD ==> last_standard == LAST_DECODED_STANDARD,
                state@(0, 0) == top,
                state@(EXTENDED_BASE, 0) == ext,
                recorded(state.entries@, 0, 0),
                recorded(state.entries@, EXTENDED_BASE, 0),
                forall|l: u32, s: u32|
                    1 <= l <= last_standard && s < SUBLEAF_LIMIT ==> #[trigger] recorded(state.entries@, l, s),
                forall|l: u32| EXTENDED_BASE < l < leaf ==> #[trigger] recorded(state.entries@, l, 0),
                forall|i: int|
                    0 <= i < state.entries.len() ==> (state.entries[i].leaf == EXTENDED_BASE
                        || LeafLimits::of(state@).supports(#[trigger] state.entries[i].leaf)),
            decreases last_extended + 1 - leaf,
        {
            state.set(leaf, 0, cpuid(leaf, 0));
            leaf = leaf + 1;
        }
        state
    }
}

/// The maximum standard and maximum extended leaf numbers of one state,
/// read once and handed to every decoder.
#[derive(Debug, Clone, Copy, PartialEq, Eq, Structural)]
pub struct LeafLimits {
    pub max_standard: u32,
    pub max_extended: u32,
}

impl LeafLimits {
    /// The maxima that a state reports in leaves zero and `EXTENDED_BASE`.
    pub open spec fn of(regs: spec_fn(u32, u32) -> CpuidResult) -> LeafLimits {
        LeafLimits { max_standard: regs(0, 0).eax, max_extended: regs(EXTENDED_BASE, 0).eax }
    }

    /// `leaf` lies at or below the maximum of its range.
    pub open spec fn supports(self, leaf: u32) -> bool {
        if leaf < EXTENDED_BASE {
            leaf <= self.max_standard
        } else {
            leaf <= self.max_extended
        }
    }

    /// Reads the maxima of a state.
    pub fn read(regs: &RegisterState) -> (r: LeafLimits)
        ensures
            r == LeafLimits::of(regs@),
    {
        LeafLimits { max_standard: regs.query(0, 0).eax, max_extended: regs.query(EXTENDED_BASE, 0).eax }
    }

    /// Whether `leaf` may be queried.
    pub fn is_supported(&self, leaf: u32) -> (r: bool)
        ensures
            r == self.supports(leaf),
    {
        if leaf < EXTENDED_BASE {
            leaf <= self.max_standard
        } else {
            leaf <= self.max_extended
        }
    }
}

/// A leaf above the maximum of its range is never supported.
pub proof fn lemma_gate_rejects_above_maximum(limits: LeafLimits, leaf: u32)
    requires
        (leaf < EXTENDED_BASE && leaf > limits.max_standard) || (EXTENDED_BASE <= leaf
            && leaf > limits.max_extended),
    ensures
        !limits.supports(leaf),
{
}

/// The calling processor's maximum standard leaf.
pub fn max_cpuid_leaf() -> u32 {
    cpuid(0, 0).eax
}

/// The calling processor's maximum extended leaf.
pub fn max_extended_leaf() -> u32 {
    cpuid(EXTENDED_BASE, 0).eax
}

/// Whether the calling processor supports `leaf`, by the maxima it reports.
pub fn is_leaf_supported(leaf: u32) -> (r: bool)
    ensures
        exists|limits: LeafLimits| r == limits.supports(leaf),
{
    let limits = LeafLimits { max_standard: max_cpuid_leaf(), max_extended: max_extended_leaf() };
    let r = limits.is_supported(leaf);
    assert(r == limits.supports(leaf));
    r
}

/// Relies on `std::arch::x86_64::__cpuid_count`: executes the instruction for
/// `(leaf, subleaf)` on the calling processor. Nothing is known of the words.
#[verifier::external_body]
pub fn cpuid(leaf: u32, subleaf: u32) -> CpuidResult {
    let r = std::arch::x86_64::__cpuid_count(leaf, subleaf);
    CpuidResult { eax: r.eax, ebx: r.ebx, ecx: r.ecx, edx: r.edx }
}

} // verus!
