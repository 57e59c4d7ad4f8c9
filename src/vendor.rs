//! Processor identity: vendor, brand string, family, model and stepping.
use vstd::prelude::*;

use crate::cpuid::{lemma_and_le, CpuidResult, LeafLimits, RegisterState};

verus! {

/// The last of the three extended leaves that hold the brand string.
pub const BRAND_LAST_LEAF: u32 = 0x8000_0004;

#[derive(Debug, Clone, Copy, PartialEq, Eq, Structural)]
pub enum CpuVendor {
    Intel,
    Amd,
    Hygon,
    Zhaoxin,
    Unknown,
}

/// The vendor whose 12-character identification string is held, four
/// characters each in little-endian order, in the second, fourth and third
/// registers of leaf zero.
pub open spec fn spec_vendor(ebx: u32, edx: u32, ecx: u32) -> CpuVendor {
    if ebx == 0x756E_6547 && edx == 0x4965_6E69 && ecx == 0x6C65_746E {
        CpuVendor::Intel
    } else if ebx == 0x6874_7541 && edx == 0x6974_6E65 && ecx == 0x444D_4163 {
        CpuVendor::Amd
    } else if ebx == 0x6F67_7948 && edx == 0x6E65_476E && ecx == 0x656E_6975 {
        CpuVendor::Hygon
    } else if ebx == 0x6853_2020 && edx == 0x6867_6E61 && ecx == 0x2020_6961 {
        CpuVendor::Zhaoxin
    } else {
        CpuVendor::Unknown
    }
}

impl CpuVendor {
    /// The identification string of the vendor.
    pub open spec fn spec_name(self) -> &'static str {
        match self {
            CpuVendor::Intel => "GenuineIntel",
            CpuVendor::Amd => "AuthenticAMD",
            CpuVendor::Hygon => "HygonGenuine",
            CpuVendor::Zhaoxin => "  Shanghai  ",
            CpuVendor::Unknown => "Unknown",
        }
    }

    pub fn as_str(&self) -> (r: &'static str)
        ensures
            r == self.spec_name(),
    {
        match self {
            CpuVendor::Intel => "GenuineIntel",
            CpuVendor::Amd => "AuthenticAMD",
            CpuVendor::Hygon => "HygonGenuine",
            CpuVendor::Zhaoxin => "  Shanghai  ",
            CpuVendor::Unknown => "Unknown",
        }
    }

    /// The vendor of leaf zero's identification words.
    pub fn from_words(ebx: u32, edx: u32, ecx: u32) -> (r: CpuVendor)
        ensures
            r == spec_vendor(ebx, edx, ecx),
    {
        if ebx == 0x756E_6547 && edx == 0x4965_6E69 && ecx == 0x6C65_746E {
            CpuVendor::Intel
        } else if ebx == 0x6874_7541 && edx == 0x6974_6E65 && ecx == 0x444D_4163 {
            CpuVendor::Amd
        } else if ebx == 0x6F67_7948 && edx == 0x6E65_476E && ecx == 0x656E_6975 {
            CpuVendor::Hygon
        } else if ebx == 0x6853_2020 && edx == 0x6867_6E61 && ecx == 0x2020_6961 {
            CpuVendor::Zhaoxin
        } else {
            CpuVendor::Unknown
        }
    }
}

/// What `String::from_utf8_lossy` makes of a byte sequence.
pub uninterp spec fn utf8_lossy(bytes: Seq<u8>) -> Seq<char>;

/// Relies on `String::from_utf8_lossy`: decodes UTF-8, replacing invalid
/// sequences; the result depends on the bytes alone.
#[verifier::external_body]
fn decode_lossy(bytes: &Vec<u8>) -> (r: String)
    ensures
        r@ == utf8_lossy(bytes@),
{
    String::from_utf8_lossy(bytes.as_slice()).into_owned()
}

/// Characters with the Unicode White_Space property, the set that
/// `char::is_whitespace` and `str::trim` use.
pub open spec fn is_white(c: char) -> bool {
    let u = c as u32;
    (0x9 <= u <= 0xD) || u == 0x20 || u == 0x85 || u == 0xA0 || u == 0x1680 || (0x2000 <= u
        <= 0x200A) || u == 0x2028 || u == 0x2029 || u == 0x202F || u == 0x205F || u == 0x3000
}

/// `s` without its leading white space.
pub open spec fn trim_start_white(s: Seq<char>) -> Seq<char>
    decreases s.len(),
{
    if s.len() > 0 && is_white(s[0]) {
        trim_start_white(s.subrange(1, s.len() as int))
    } else {
        s
    }
}

/// `s` without its trailing white space.
pub open spec fn trim_end_white(s: Seq<char>) -> Seq<char>
    decreases s.len(),
{
    if s.len() > 0 && is_white(s.last()) {
        trim_end_white(s.drop_last())
    } else {
        s
    }
}

/// `s` without its trailing run of NUL and white space characters.
pub open spec fn trim_end_nul_white(s: Seq<char>) -> Seq<char>
    decreases s.len(),
{
    if s.len() > 0 && (s.last() == '\0' || is_white(s.last())) {
        trim_end_nul_white(s.drop_last())
    } else {
        s
    }
}

/// Relies on `str::trim`: the string without leading and trailing characters
/// that have the Unicode White_Space property.
#[verifier::external_body]
fn trim_whitespace(s: &str) -> (r: String)
    ensures
        r@ == trim_end_white(trim_start_white(s@)),
{
    s.trim().to_string()
}

proof fn lemma_trim_start_first(s: Seq<char>)
    ensures
        trim_start_white(s).len() == 0 || !is_white(trim_start_white(s)[0]),
    decreases s.len(),
{
    if s.len() > 0 && is_white(s[0]) {
        lemma_trim_start_first(s.subrange(1, s.len() as int));
    }
}

proof fn lemma_trim_end_prefix(s: Seq<char>)
    ensures
        trim_end_white(s).len() <= s.len(),
        trim_end_white(s) == s.subrange(0, trim_end_white(s).len() as int),
        trim_end_white(s).len() == 0 || !is_white(trim_end_white(s).last()),
    decreases s.len(),
{
    if s.len() > 0 && is_white(s.last()) {
        lemma_trim_end_prefix(s.drop_last());
        assert(s.drop_last().subrange(0, trim_end_white(s).len() as int) =~= s.subrange(
            0,
            trim_end_white(s).len() as int,
        ));
    } else {
        assert(s.subrange(0, s.len() as int) =~= s);
    }
}

proof fn lemma_trim_end_absorbed(s: Seq<char>)
    ensures
        trim_end_nul_white(trim_end_white(s)) == trim_end_nul_white(s),
    decreases s.len(),
{
    if s.len() > 0 && is_white(s.last()) {
        lemma_trim_end_absorbed(s.drop_last());
    }
}

fn ends_with_nul(s: &String) -> (r: bool)
    ensures
        r == (s@.len() > 0 && s@.last() == '\0'),
{
    let n = s.as_str().unicode_len();
    n > 0 && s.as_str().get_char(n - 1) == '\0'
}

/// The four bytes of a word, least significant first.
pub open spec fn le_bytes(w: u32) -> Seq<u8> {
    seq![(w & 0xFF) as u8, ((w >> 8) & 0xFF) as u8, ((w >> 16) & 0xFF) as u8, ((w >> 24) & 0xFF) as u8]
}

/// The identification bytes of leaf zero: second, fourth, then third register.
pub open spec fn vendor_bytes(r: CpuidResult) -> Seq<u8> {
    le_bytes(r.ebx) + le_bytes(r.edx) + le_bytes(r.ecx)
}

/// The 16 brand bytes of one brand leaf, registers in order.
pub open spec fn brand_leaf_bytes(r: CpuidResult) -> Seq<u8> {
    le_bytes(r.eax) + le_bytes(r.ebx) + le_bytes(r.ecx) + le_bytes(r.edx)
}

/// The 48 brand bytes of the three brand leaves.
pub open spec fn brand_bytes(regs: spec_fn(u32, u32) -> CpuidResult) -> Seq<u8> {
    brand_leaf_bytes(regs(0x8000_0002, 0)) + brand_leaf_bytes(regs(0x8000_0003, 0))
        + brand_leaf_bytes(regs(BRAND_LAST_LEAF, 0))
}

/// The brand string: the brand bytes decoded, without leading white space and
/// without any trailing run of NUL and white space.
pub open spec fn spec_brand(regs: spec_fn(u32, u32) -> CpuidResult, limits: LeafLimits) -> Seq<
    char,
> {
    if limits.supports(BRAND_LAST_LEAF) {
        trim_end_nul_white(trim_start_white(utf8_lossy(brand_bytes(regs))))
    } else {
        Seq::empty()
    }
}

/// The family of a signature word: bits 11:8, plus bits 27:20 where bits 11:8 are 0xF.
pub open spec fn spec_family(eax: u32) -> u32 {
    let base = (eax >> 8) & 0xF;
    if base == 0xF {
        (base + ((eax >> 20) & 0xFF)) as u32
    } else {
        base
    }
}

/// The model of a signature word: bits 7:4, below bits 19:16 as high nibble
/// where the base family is 6 or 0xF.
pub open spec fn spec_model(eax: u32) -> u32 {
    let base = (eax >> 4) & 0xF;
    let family = (eax >> 8) & 0xF;
    if family == 6 || family == 0xF {
        (((eax >> 16) & 0xF) << 4) | base
    } else {
        base
    }
}

/// Identity of the processor.
#[derive(Debug, Clone, PartialEq, Eq)]
pub struct VendorInfo {
    pub vendor: CpuVendor,
    pub vendor_string: String,
    pub brand_string: String,
    pub family: u32,
    pub model: u32,
    pub stepping: u32,
}

/// The content of a `VendorInfo`, strings as character sequences.
pub struct VendorModel {
    pub vendor: CpuVendor,
    pub vendor_string: Seq<char>,
    pub brand_string: Seq<char>,
    pub family: u32,
    pub model: u32,
    pub stepping: u32,
}

impl View for VendorInfo {
    type V = VendorModel;

    open spec fn view(&self) -> VendorModel {
        VendorModel {
            vendor: self.vendor,
            vendor_string: self.vendor_string@,
            brand_string: self.brand_string@,
            family: self.family,
            model: self.model,
            stepping: self.stepping,
        }
    }
}

/// The identity that a register state reports.
pub open spec fn spec_vendor_info(
    regs: spec_fn(u32, u32) -> CpuidResult,
    limits: LeafLimits,
) -> VendorModel {
    let id = regs(0, 0);
    let sig = regs(1, 0);
    let has_sig = limits.supports(1);
    VendorModel {
        vendor: spec_vendor(id.ebx, id.edx, id.ecx),
        vendor_string: utf8_lossy(vendor_bytes(id)),
        brand_string: spec_brand(regs, limits),
        family: if has_sig {
            spec_family(sig.eax)
        } else {
            0
        },
        model: if has_sig {
            spec_model(sig.eax)
        } else {
            0
        },
        stepping: if has_sig {
            sig.eax & 0xF
        } else {
            0
        },
    }
}

fn push_le_bytes(out: &mut Vec<u8>, w: u32)
    ensures
        final(out)@ == old(out)@ + le_bytes(w),
{
    out.push((w & 0xFF) as u8);
    out.push(((w >> 8) & 0xFF) as u8);
    out.push(((w >> 16) & 0xFF) as u8);
    out.push(((w >> 24) & 0xFF) as u8);
    assert(final(out)@ =~= old(out)@ + le_bytes(w));
}

/// The identification string of leaf zero's words.
pub fn read_vendor_string(result: &CpuidResult) -> (r: String)
    ensures
        r@ == utf8_lossy(vendor_bytes(*result)),
{
    let mut bytes: Vec<u8> = Vec::new();
    push_le_bytes(&mut bytes, result.ebx);
    push_le_bytes(&mut bytes, result.edx);
    push_le_bytes(&mut bytes, result.ecx);
    assert(bytes@ =~= vendor_bytes(*result));
    decode_lossy(&bytes)
}

/// The brand string of a register state; empty where the brand leaves are
/// not supported.
pub fn read_brand_string(regs: &RegisterState, limits: &LeafLimits) -> (r: String)
    ensures
        r@ == spec_brand(regs@, *limits),
{
    if !limits.is_supported(BRAND_LAST_LEAF) {
        return String::new();
    }
    let mut brand: Vec<u8> = Vec::new();
    let mut leaf: u32 = 0x8000_0002;
    while leaf <= BRAND_LAST_LEAF
        invariant
            0x8000_0002 <= leaf <= BRAND_LAST_LEAF + 1,
            leaf == 0x8000_0002 ==> brand@ == Seq::<u8>::empty(),
            leaf == 0x8000_0003 ==> brand@ == brand_leaf_bytes(regs@(0x8000_0002, 0)),
            leaf == 0x8000_0004 ==> brand@ == brand_leaf_bytes(regs@(0x8000_0002, 0))
                + brand_leaf_bytes(regs@(0x8000_0003, 0)),
            leaf == 0x8000_0005 ==> brand@ == brand_bytes(regs@),
        decreases BRAND_LAST_LEAF + 1 - leaf,
    {
        let r = regs.query(leaf, 0);
        let ghost before = brand@;
        push_le_bytes(&mut brand, r.eax);
        push_le_bytes(&mut brand, r.ebx);
        push_le_bytes(&mut brand, r.ecx);
        push_le_bytes(&mut brand, r.edx);
        assert(brand@ =~= before + brand_leaf_bytes(r));
        leaf = leaf + 1;
    }
    let decoded = decode_lossy(&brand);
    let ghost target = trim_end_nul_white(trim_start_white(decoded@));
    let mut cur = trim_whitespace(decoded.as_str());
    proof {
        lemma_trim_start_first(decoded@);
        lemma_trim_end_prefix(trim_start_white(decoded@));
        lemma_trim_end_absorbed(trim_start_white(decoded@));
    }
    while ends_with_nul(&cur)
        invariant
            trim_end_nul_white(cur@) == target,
            cur@.len() == 0 || !is_white(cur@[0]),
            cur@.len() == 0 || !is_white(cur@.last()),
        decreases cur@.len(),
    {
        let n = cur.as_str().unicode_len();
        let mut k: usize = n;
        assert(cur@.subrange(0, n as int) =~= cur@);
        while k > 0 && cur.as_str().get_char(k - 1) == '\0'
            invariant
                k <= n == cur@.len(),
                trim_end_nul_white(cur@.subrange(0, k as int)) == target,
            decreases k,
        {
            assert(cur@.subrange(0, k as int).drop_last() =~= cur@.subrange(0, k - 1));
            k = k - 1;
        }
        let stripped = cur.as_str().substring_char(0, k);
        proof {
            if k > 0 {
                assert(stripped@[0] == cur@[0]);
            }
            lemma_trim_end_prefix(stripped@);
            lemma_trim_end_absorbed(stripped@);
        }
        cur = trim_whitespace(stripped);
    }
    cur
}

/// The family of a signature word.
pub fn extract_family(eax: u32) -> (r: u32)
    ensures
        r == spec_family(eax),
{
    let base_family = (eax >> 8) & 0xF;
    let extended_family = (eax >> 20) & 0xFF;
    proof {
        lemma_and_le(eax >> 8, 0xF);
        lemma_and_le(eax >> 20, 0xFF);
    }
    if base_family == 0xF {
        base_family + extended_family
    } else {
        base_family
    }
}

/// The model of a signature word.
pub fn extract_model(eax: u32) -> (r: u32)
    ensures
        r == spec_model(eax),
{
    let base_model = (eax >> 4) & 0xF;
    let extended_model = (eax >> 16) & 0xF;
    let family = (eax >> 8) & 0xF;
    if family == 0x6 || family == 0xF {
        (extended_model << 4) | base_model
    } else {
        base_model
    }
}

impl VendorInfo {
    /// The identity that a register state reports.
    pub fn decode(regs: &RegisterState, limits: &LeafLimits) -> (r: VendorInfo)
        ensures
            r@ == spec_vendor_info(regs@, *limits),
    {
        let id = regs.query(0, 0);
        let vendor_string = read_vendor_string(&id);
        let vendor = CpuVendor::from_words(id.ebx, id.edx, id.ecx);
        let mut family: u32 = 0;
        let mut model: u32 = 0;
        let mut stepping: u32 = 0;
        if limits.is_supported(1) {
            let signature = regs.query(1, 0);
            family = extract_family(signature.eax);
            model = extract_model(signature.eax);
            stepping = signature.eax & 0xF;
        }
        let brand_string = read_brand_string(regs, limits);
        VendorInfo { vendor, vendor_string, brand_string, family, model, stepping }
    }

    /// The identity of the calling processor.
    pub fn detect() -> (r: VendorInfo)
        ensures
            exists|regs: RegisterState| r@ == spec_vendor_info(regs@, LeafLimits::of(regs@)),
    {
        let regs = RegisterState::capture();
        let limits = LeafLimits::read(&regs);
        VendorInfo::decode(&regs, &limits)
    }
}

} // verus!
