//! Typed readings of an instruction's raw, processor-dependent segment
//! prefix byte.
use vstd::prelude::*;

verus! {

/// The meaning of an instruction's segment prefix byte, by processor family.
#[derive(Debug, Clone, Copy, PartialEq, Eq, PartialOrd, Ord, Hash)]
pub enum SegPref {
    Metapc { segment: MetapcSegment },
    Mc68k { operand_size: Mc68kOperandSize, hide_suffix: bool },
    Mips { fpu_format: MipsFpuFormat },
    Sparc { condition: SparcConditionCode },
    Spc700 { indirect: bool },
    Mc68xx { suffix: Mc68xxSuffix },
    C166 { repeat_count: u8 },
    Trimedia { slot: u8 },
}

/// x86 segment override.
#[derive(Debug, Clone, Copy, PartialEq, Eq, PartialOrd, Ord, Hash)]
pub enum MetapcSegment {
    Es,
    Cs,
    Ss,
    Ds,
    Fs,
    Gs,
}

impl MetapcSegment {
    /// The raw prefix value that stands for this segment (the register
    /// number of the segment register in the x86 processor module).
    pub open spec fn raw(self) -> i8 {
        match self {
            MetapcSegment::Es => 29,
            MetapcSegment::Cs => 30,
            MetapcSegment::Ss => 31,
            MetapcSegment::Ds => 32,
            MetapcSegment::Fs => 33,
            MetapcSegment::Gs => 34,
        }
    }

    /// The segment that a raw prefix value stands for, if any.
    pub open spec fn spec_from_raw(val: i8) -> Option<MetapcSegment> {
        if val == 29 {
            Some(MetapcSegment::Es)
        } else if val == 30 {
            Some(MetapcSegment::Cs)
        } else if val == 31 {
            Some(MetapcSegment::Ss)
        } else if val == 32 {
            Some(MetapcSegment::Ds)
        } else if val == 33 {
            Some(MetapcSegment::Fs)
        } else if val == 34 {
            Some(MetapcSegment::Gs)
        } else {
            None
        }
    }

    pub fn from_raw(val: i8) -> (r: Option<Self>)
        ensures
            r == Self::spec_from_raw(val),
    {
        match val {
            29 => Some(Self::Es),
            30 => Some(Self::Cs),
            31 => Some(Self::Ss),
            32 => Some(Self::Ds),
            33 => Some(Self::Fs),
            34 => Some(Self::Gs),
            _ => None,
        }
    }
}

/// Motorola 68k operand size suffix.
#[derive(Debug, Clone, Copy, PartialEq, Eq, PartialOrd, Ord, Hash)]
pub enum Mc68kOperandSize {
    Byte,
    Word,
    Long,
    Single,
    Double,
    Extended,
}

impl Mc68kOperandSize {
    /// The size code held in the low seven bits of the prefix.
    pub open spec fn raw(self) -> i8 {
        match self {
            Mc68kOperandSize::Byte => 1,
            Mc68kOperandSize::Word => 2,
            Mc68kOperandSize::Long => 3,
            Mc68kOperandSize::Single => 4,
            Mc68kOperandSize::Double => 5,
            Mc68kOperandSize::Extended => 6,
        }
    }

    /// The size that a size code (the prefix without its high bit) stands for.
    pub open spec fn spec_from_code(code: i8) -> Option<Mc68kOperandSize> {
        if code == 1 {
            Some(Mc68kOperandSize::Byte)
        } else if code == 2 {
            Some(Mc68kOperandSize::Word)
        } else if code == 3 {
            Some(Mc68kOperandSize::Long)
        } else if code == 4 {
            Some(Mc68kOperandSize::Single)
        } else if code == 5 {
            Some(Mc68kOperandSize::Double)
        } else if code == 6 {
            Some(Mc68kOperandSize::Extended)
        } else {
            None
        }
    }

    /// The size that a raw prefix stands for: its high bit (the "hide
    /// suffix" flag) plays no part.
    pub open spec fn spec_from_raw(val: i8) -> Option<Mc68kOperandSize> {
        Self::spec_from_code(val & 0x7F)
    }

    pub open spec fn spec_suffix(self) -> Seq<char> {
        match self {
            Mc68kOperandSize::Byte => ".b"@,
            Mc68kOperandSize::Word => ".w"@,
            Mc68kOperandSize::Long => ".l"@,
            Mc68kOperandSize::Single => ".s"@,
            Mc68kOperandSize::Double => ".d"@,
            Mc68kOperandSize::Extended => ".x"@,
        }
    }

    pub fn from_raw(val: i8) -> (r: Option<Self>)
        ensures
            r == Self::spec_from_raw(val),
    {
        match val & 0x7F {
            1 => Some(Self::Byte),
            2 => Some(Self::Word),
            3 => Some(Self::Long),
            4 => Some(Self::Single),
            5 => Some(Self::Double),
            6 => Some(Self::Extended),
            _ => None,
        }
    }

    /// The assembler suffix for this operand size.
    pub fn suffix(&self) -> (r: &'static str)
        ensures
            r@ == self.spec_suffix(),
    {
        match self {
            Self::Byte => ".b",
            Self::Word => ".w",
            Self::Long => ".l",
            Self::Single => ".s",
            Self::Double => ".d",
            Self::Extended => ".x",
        }
    }
}

/// MIPS floating-point format suffix.
#[derive(Debug, Clone, Copy, PartialEq, Eq, PartialOrd, Ord, Hash)]
pub enum MipsFpuFormat {
    Single,
    Double,
    Word,
    Long,
    PairedSingle,
    Triple,
    Quad,
}

impl MipsFpuFormat {
    /// The prefix byte that stands for this format: the ASCII letter of its
    /// suffix.
    pub open spec fn raw(self) -> u8 {
        match self {
            MipsFpuFormat::Single => 0x73 /* 's' */,
            MipsFpuFormat::Double => 0x64 /* 'd' */,
            MipsFpuFormat::Word => 0x77 /* 'w' */,
            MipsFpuFormat::Long => 0x6c /* 'l' */,
            MipsFpuFormat::PairedSingle => 0x70 /* 'p' */,
            MipsFpuFormat::Triple => 0x74 /* 't' */,
            MipsFpuFormat::Quad => 0x71 /* 'q' */,
        }
    }

    /// The format that a raw prefix stands for, the prefix read as a byte.
    pub open spec fn spec_from_raw(val: i8) -> Option<MipsFpuFormat> {
        let c = val as u8;
        if c == 0x73 /* 's' */ {
            Some(MipsFpuFormat::Single)
        } else if c == 0x64 /* 'd' */ {
            Some(MipsFpuFormat::Double)
        } else if c == 0x77 /* 'w' */ {
            Some(MipsFpuFormat::Word)
        } else if c == 0x6c /* 'l' */ {
            Some(MipsFpuFormat::Long)
        } else if c == 0x70 /* 'p' */ {
            Some(MipsFpuFormat::PairedSingle)
        } else if c == 0x74 /* 't' */ {
            Some(MipsFpuFormat::Triple)
        } else if c == 0x71 /* 'q' */ {
            Some(MipsFpuFormat::Quad)
        } else {
            None
        }
    }

    pub open spec fn spec_suffix(self) -> Seq<char> {
        match self {
            MipsFpuFormat::Single => ".s"@,
            MipsFpuFormat::Double => ".d"@,
            MipsFpuFormat::Word => ".w"@,
            MipsFpuFormat::Long => ".l"@,
            MipsFpuFormat::PairedSingle => ".p"@,
            MipsFpuFormat::Triple => ".t"@,
            MipsFpuFormat::Quad => ".q"@,
        }
    }

    pub fn from_raw(val: i8) -> (r: Option<Self>)
        ensures
            r == Self::spec_from_raw(val),
    {
        match val as u8 {
            0x73 /* 's' */ => Some(Self::Single),
            0x64 /* 'd' */ => Some(Self::Double),
            0x77 /* 'w' */ => Some(Self::Word),
            0x6c /* 'l' */ => Some(Self::Long),
            0x70 /* 'p' */ => Some(Self::PairedSingle),
            0x74 /* 't' */ => Some(Self::Triple),
            0x71 /* 'q' */ => Some(Self::Quad),
            _ => None,
        }
    }

    /// The assembler suffix for this format.
    pub fn suffix(&self) -> (r: &'static str)
        ensures
            r@ == self.spec_suffix(),
    {
        match self {
            Self::Single => ".s",
            Self::Double => ".d",
            Self::Word => ".w",
            Self::Long => ".l",
            Self::PairedSingle => ".p",
            Self::Triple => ".t",
            Self::Quad => ".q",
        }
    }
}

/// SPARC branch condition code.
#[derive(Debug, Clone, Copy, PartialEq, Eq, PartialOrd, Ord, Hash)]
pub enum SparcConditionCode {
    Never,
    Equal,
    LessOrEqual,
    Less,
    LessOrEqualUnsigned,
    CarrySet,
    Negative,
    OverflowSet,
    Always,
    NotEqual,
    Greater,
    GreaterOrEqual,
    GreaterUnsigned,
    CarryClear,
    Positive,
    OverflowClear,
}

impl SparcConditionCode {
    /// The raw prefix value of this condition: its number in the encoding.
    pub open spec fn raw(self) -> i8 {
        match self {
            SparcConditionCode::Never => 0,
            SparcConditionCode::Equal => 1,
            SparcConditionCode::LessOrEqual => 2,
            SparcConditionCode::Less => 3,
            SparcConditionCode::LessOrEqualUnsigned => 4,
            SparcConditionCode::CarrySet => 5,
            SparcConditionCode::Negative => 6,
            SparcConditionCode::OverflowSet => 7,
            SparcConditionCode::Always => 8,
            SparcConditionCode::NotEqual => 9,
            SparcConditionCode::Greater => 10,
            SparcConditionCode::GreaterOrEqual => 11,
            SparcConditionCode::GreaterUnsigned => 12,
            SparcConditionCode::CarryClear => 13,
            SparcConditionCode::Positive => 14,
            SparcConditionCode::OverflowClear => 15,
        }
    }

    /// The condition that a raw prefix value stands for, if any.
    pub open spec fn spec_from_raw(val: i8) -> Option<SparcConditionCode> {
        if val == 0 {
            Some(SparcConditionCode::Never)
        } else if val == 1 {
            Some(SparcConditionCode::Equal)
        } else if val == 2 {
            Some(SparcConditionCode::LessOrEqual)
        } else if val == 3 {
            Some(SparcConditionCode::Less)
        } else if val == 4 {
            Some(SparcConditionCode::LessOrEqualUnsigned)
        } else if val == 5 {
            Some(SparcConditionCode::CarrySet)
        } else if val == 6 {
            Some(SparcConditionCode::Negative)
        } else if val == 7 {
            Some(SparcConditionCode::OverflowSet)
        } else if val == 8 {
            Some(SparcConditionCode::Always)
        } else if val == 9 {
            Some(SparcConditionCode::NotEqual)
        } else if val == 10 {
            Some(SparcConditionCode::Greater)
        } else if val == 11 {
            Some(SparcConditionCode::GreaterOrEqual)
        } else if val == 12 {
            Some(SparcConditionCode::GreaterUnsigned)
        } else if val == 13 {
            Some(SparcConditionCode::CarryClear)
        } else if val == 14 {
            Some(SparcConditionCode::Positive)
        } else if val == 15 {
            Some(SparcConditionCode::OverflowClear)
        } else {
            None
        }
    }

    pub fn from_raw(val: i8) -> (r: Option<Self>)
        ensures
            r == Self::spec_from_raw(val),
    {
        match val {
            0 => Some(Self::Never),
            1 => Some(Self::Equal),
            2 => Some(Self::LessOrEqual),
            3 => Some(Self::Less),
            4 => Some(Self::LessOrEqualUnsigned),
            5 => Some(Self::CarrySet),
            6 => Some(Self::Negative),
            7 => Some(Self::OverflowSet),
            8 => Some(Self::Always),
            9 => Some(Self::NotEqual),
            10 => Some(Self::Greater),
            11 => Some(Self::GreaterOrEqual),
            12 => Some(Self::GreaterUnsigned),
            13 => Some(Self::CarryClear),
            14 => Some(Self::Positive),
            15 => Some(Self::OverflowClear),
            _ => None,
        }
    }
}

/// Motorola 68xx register suffix.
#[derive(Debug, Clone, Copy, PartialEq, Eq, PartialOrd, Ord, Hash)]
pub enum Mc68xxSuffix {
    Long,
    A,
    B,
    H,
    X,
    Y,
    S,
    U,
    D,
}

impl Mc68xxSuffix {
    /// The raw prefix value of this suffix.
    pub open spec fn raw(self) -> i8 {
        match self {
            Mc68xxSuffix::Long => -1i8,
            Mc68xxSuffix::A => 1,
            Mc68xxSuffix::B => 2,
            Mc68xxSuffix::H => 3,
            Mc68xxSuffix::X => 4,
            Mc68xxSuffix::Y => 5,
            Mc68xxSuffix::S => 6,
            Mc68xxSuffix::U => 7,
            Mc68xxSuffix::D => 8,
        }
    }

    /// The suffix that a raw prefix value stands for, if any.
    pub open spec fn spec_from_raw(val: i8) -> Option<Mc68xxSuffix> {
        if val == -1i8 {
            Some(Mc68xxSuffix::Long)
        } else if val == 1 {
            Some(Mc68xxSuffix::A)
        } else if val == 2 {
            Some(Mc68xxSuffix::B)
        } else if val == 3 {
            Some(Mc68xxSuffix::H)
        } else if val == 4 {
            Some(Mc68xxSuffix::X)
        } else if val == 5 {
            Some(Mc68xxSuffix::Y)
        } else if val == 6 {
            Some(Mc68xxSuffix::S)
        } else if val == 7 {
            Some(Mc68xxSuffix::U)
        } else if val == 8 {
            Some(Mc68xxSuffix::D)
        } else {
            None
        }
    }

    pub open spec fn spec_suffix(self) -> Seq<char> {
        match self {
            Mc68xxSuffix::Long => ".l"@,
            Mc68xxSuffix::A => ".a"@,
            Mc68xxSuffix::B => ".b"@,
            Mc68xxSuffix::H => ".h"@,
            Mc68xxSuffix::X => ".x"@,
            Mc68xxSuffix::Y => ".y"@,
            Mc68xxSuffix::S => ".s"@,
            Mc68xxSuffix::U => ".u"@,
            Mc68xxSuffix::D => ".d"@,
        }
    }

    pub fn from_raw(val: i8) -> (r: Option<Self>)
        ensures
            r == Self::spec_from_raw(val),
    {
        match val {
            -1 => Some(Self::Long),
            1 => Some(Self::A),
            2 => Some(Self::B),
            3 => Some(Self::H),
            4 => Some(Self::X),
            5 => Some(Self::Y),
            6 => Some(Self::S),
            7 => Some(Self::U),
            8 => Some(Self::D),
            _ => None,
        }
    }

    /// The assembler suffix for this register suffix.
    pub fn suffix(&self) -> (r: &'static str)
        ensures
            r@ == self.spec_suffix(),
    {
        match self {
            Self::Long => ".l",
            Self::A => ".a",
            Self::B => ".b",
            Self::H => ".h",
            Self::X => ".x",
            Self::Y => ".y",
            Self::S => ".s",
            Self::U => ".u",
            Self::D => ".d",
        }
    }
}

/// Decoding an x86 segment prefix is the exact inverse of its encoding: a raw
/// value decodes to a segment if and only if it is that segment's value.
pub proof fn lemma_metapc_segment_decodes_exactly(seg: MetapcSegment, val: i8)
    ensures
        MetapcSegment::spec_from_raw(val) == Some(seg) <==> val == seg.raw(),
{
}

/// Decoding a 68k size prefix looks only at its low seven bits, and is the
/// exact inverse of the size code there.
pub proof fn lemma_mc68k_size_decodes_exactly(size: Mc68kOperandSize, val: i8)
    ensures
        Mc68kOperandSize::spec_from_raw(val) == Some(size) <==> (val & 0x7F) == size.raw(),
{
}

/// Setting the high ("hide suffix") bit of a 68k size prefix does not change
/// the size it decodes to.
pub proof fn lemma_mc68k_hide_suffix_bit_ignored(val: i8)
    ensures
        Mc68kOperandSize::spec_from_raw(val | -128i8) == Mc68kOperandSize::spec_from_raw(val),
{
    assert((val | -128i8) & 0x7F == val & 0x7F) by (bit_vector);
}

/// No two 68k operand sizes have the same assembler suffix.
pub proof fn lemma_mc68k_suffixes_distinct(a: Mc68kOperandSize, b: Mc68kOperandSize)
    ensures
        a.spec_suffix() == b.spec_suffix() <==> a == b,
{
    reveal_strlit(".b");
    reveal_strlit(".w");
    reveal_strlit(".l");
    reveal_strlit(".s");
    reveal_strlit(".d");
    reveal_strlit(".x");
    if a != b {
        assert(a.spec_suffix()[1] != b.spec_suffix()[1]);
    }
}

/// Decoding a MIPS format prefix is the exact inverse of its encoding.
pub proof fn lemma_mips_fpu_format_decodes_exactly(fmt: MipsFpuFormat, val: i8)
    ensures
        MipsFpuFormat::spec_from_raw(val) == Some(fmt) <==> (val as u8) == fmt.raw(),
{
}

/// A MIPS format's suffix is a dot followed by the letter that its prefix
/// byte holds.
pub proof fn lemma_mips_suffix_is_prefix_letter(fmt: MipsFpuFormat)
    ensures
        fmt.spec_suffix().len() == 2,
        fmt.spec_suffix()[0] == '.',
        fmt.spec_suffix()[1] as u32 == fmt.raw() as u32,
{
    reveal_strlit(".s");
    reveal_strlit(".d");
    reveal_strlit(".w");
    reveal_strlit(".l");
    reveal_strlit(".p");
    reveal_strlit(".t");
    reveal_strlit(".q");
}

/// Decoding a SPARC condition prefix is the exact inverse of its encoding.
pub proof fn lemma_sparc_condition_decodes_exactly(cond: SparcConditionCode, val: i8)
    ensures
        SparcConditionCode::spec_from_raw(val) == Some(cond) <==> val == cond.raw(),
{
}

/// Decoding a 68xx suffix prefix is the exact inverse of its encoding.
pub proof fn lemma_mc68xx_suffix_decodes_exactly(sfx: Mc68xxSuffix, val: i8)
    ensures
        Mc68xxSuffix::spec_from_raw(val) == Some(sfx) <==> val == sfx.raw(),
{
}

/// No two 68xx register suffixes have the same assembler suffix.
pub proof fn lemma_mc68xx_suffixes_distinct(a: Mc68xxSuffix, b: Mc68xxSuffix)
    ensures
        a.spec_suffix() == b.spec_suffix() <==> a == b,
{
    reveal_strlit(".l");
    reveal_strlit(".a");
    reveal_strlit(".b");
    reveal_strlit(".h");
    reveal_strlit(".x");
    reveal_strlit(".y");
    reveal_strlit(".s");
    reveal_strlit(".u");
    reveal_strlit(".d");
    if a != b {
        assert(a.spec_suffix()[1] != b.spec_suffix()[1]);
    }
}

/// The x86 segment overrides are the segment register numbers 29 (es) to 34
/// (gs), in the order es, cs, ss, ds, fs, gs.
pub proof fn lemma_metapc_segment_numbers()
    ensures
        MetapcSegment::spec_from_raw(29i8) == Some(MetapcSegment::Es),
        MetapcSegment::spec_from_raw(30i8) == Some(MetapcSegment::Cs),
        MetapcSegment::spec_from_raw(31i8) == Some(MetapcSegment::Ss),
        MetapcSegment::spec_from_raw(32i8) == Some(MetapcSegment::Ds),
        MetapcSegment::spec_from_raw(33i8) == Some(MetapcSegment::Fs),
        MetapcSegment::spec_from_raw(34i8) == Some(MetapcSegment::Gs),
        forall|v: i8| (v < 29 || v > 34) ==> MetapcSegment::spec_from_raw(v) is None,
{
}

/// The 68k size codes are 1 (byte) to 6 (extended), in the order byte, word,
/// long, single, double, extended, and each size's suffix is its letter:
/// `.b`, `.w`, `.l`, `.s`, `.d`, `.x`.
pub proof fn lemma_mc68k_size_codes_and_suffixes()
    ensures
        Mc68kOperandSize::spec_from_code(1i8) == Some(Mc68kOperandSize::Byte),
        Mc68kOperandSize::spec_from_code(2i8) == Some(Mc68kOperandSize::Word),
        Mc68kOperandSize::spec_from_code(3i8) == Some(Mc68kOperandSize::Long),
        Mc68kOperandSize::spec_from_code(4i8) == Some(Mc68kOperandSize::Single),
        Mc68kOperandSize::spec_from_code(5i8) == Some(Mc68kOperandSize::Double),
        Mc68kOperandSize::spec_from_code(6i8) == Some(Mc68kOperandSize::Extended),
        Mc68kOperandSize::Byte.spec_suffix() == ".b"@,
        Mc68kOperandSize::Word.spec_suffix() == ".w"@,
        Mc68kOperandSize::Long.spec_suffix() == ".l"@,
        Mc68kOperandSize::Single.spec_suffix() == ".s"@,
        Mc68kOperandSize::Double.spec_suffix() == ".d"@,
        Mc68kOperandSize::Extended.spec_suffix() == ".x"@,
{
}

/// The MIPS formats are the letters `s`, `d`, `w`, `l`, `p`, `t`, `q` of
/// single, double, word, long, paired single, triple and quad, and each
/// format's suffix is a dot and its letter.
pub proof fn lemma_mips_fpu_format_letters()
    ensures
        MipsFpuFormat::Single.raw() == 0x73 /* 's' */,
        MipsFpuFormat::spec_from_raw(0x73i8) == Some(MipsFpuFormat::Single),
        MipsFpuFormat::Single.spec_suffix() == ".s"@,
        MipsFpuFormat::Double.raw() == 0x64 /* 'd' */,
        MipsFpuFormat::spec_from_raw(0x64i8) == Some(MipsFpuFormat::Double),
        MipsFpuFormat::Double.spec_suffix() == ".d"@,
        MipsFpuFormat::Word.raw() == 0x77 /* 'w' */,
        MipsFpuFormat::spec_from_raw(0x77i8) == Some(MipsFpuFormat::Word),
        MipsFpuFormat::Word.spec_suffix() == ".w"@,
        MipsFpuFormat::Long.raw() == 0x6c /* 'l' */,
        MipsFpuFormat::spec_from_raw(0x6ci8) == Some(MipsFpuFormat::Long),
        MipsFpuFormat::Long.spec_suffix() == ".l"@,
        MipsFpuFormat::PairedSingle.raw() == 0x70 /* 'p' */,
        MipsFpuFormat::spec_from_raw(0x70i8) == Some(MipsFpuFormat::PairedSingle),
        MipsFpuFormat::PairedSingle.spec_suffix() == ".p"@,
        MipsFpuFormat::Triple.raw() == 0x74 /* 't' */,
        MipsFpuFormat::spec_from_raw(0x74i8) == Some(MipsFpuFormat::Triple),
        MipsFpuFormat::Triple.spec_suffix() == ".t"@,
        MipsFpuFormat::Quad.raw() == 0x71 /* 'q' */,
        MipsFpuFormat::spec_from_raw(0x71i8) == Some(MipsFpuFormat::Quad),
        MipsFpuFormat::Quad.spec_suffix() == ".q"@,
{
}

/// Sizes that the 68k and MIPS families both name (single, double, word,
/// long) are written with the same suffix in both.
pub proof fn lemma_shared_size_suffixes_agree()
    ensures
        Mc68kOperandSize::Single.spec_suffix() == MipsFpuFormat::Single.spec_suffix(),
        Mc68kOperandSize::Double.spec_suffix() == MipsFpuFormat::Double.spec_suffix(),
        Mc68kOperandSize::Word.spec_suffix() == MipsFpuFormat::Word.spec_suffix(),
        Mc68kOperandSize::Long.spec_suffix() == MipsFpuFormat::Long.spec_suffix(),
        Mc68kOperandSize::Long.spec_suffix() == Mc68xxSuffix::Long.spec_suffix(),
{
}

/// The SPARC condition codes are numbered 0 (never) to 15 (overflow clear)
/// in the order of their encoding.
pub proof fn lemma_sparc_condition_numbers()
    ensures
        SparcConditionCode::spec_from_raw(0i8) == Some(SparcConditionCode::Never),
        SparcConditionCode::spec_from_raw(1i8) == Some(SparcConditionCode::Equal),
        SparcConditionCode::spec_from_raw(2i8) == Some(SparcConditionCode::LessOrEqual),
        SparcConditionCode::spec_from_raw(3i8) == Some(SparcConditionCode::Less),
        SparcConditionCode::spec_from_raw(4i8) == Some(SparcConditionCode::LessOrEqualUnsigned),
        SparcConditionCode::spec_from_raw(5i8) == Some(SparcConditionCode::CarrySet),
        SparcConditionCode::spec_from_raw(6i8) == Some(SparcConditionCode::Negative),
        SparcConditionCode::spec_from_raw(7i8) == Some(SparcConditionCode::OverflowSet),
        SparcConditionCode::spec_from_raw(8i8) == Some(SparcConditionCode::Always),
        SparcConditionCode::spec_from_raw(9i8) == Some(SparcConditionCode::NotEqual),
        SparcConditionCode::spec_from_raw(10i8) == Some(SparcConditionCode::Greater),
        SparcConditionCode::spec_from_raw(11i8) == Some(SparcConditionCode::GreaterOrEqual),
        SparcConditionCode::spec_from_raw(12i8) == Some(SparcConditionCode::GreaterUnsigned),
        SparcConditionCode::spec_from_raw(13i8) == Some(SparcConditionCode::CarryClear),
        SparcConditionCode::spec_from_raw(14i8) == Some(SparcConditionCode::Positive),
        SparcConditionCode::spec_from_raw(15i8) == Some(SparcConditionCode::OverflowClear),
        forall|v: i8| (v < 0 || v > 15) ==> SparcConditionCode::spec_from_raw(v) is None,
{
}

/// The 68xx suffixes are -1 (long) and 1 to 8 (a, b, h, x, y, s, u, d), and
/// each one's suffix is its letter.
pub proof fn lemma_mc68xx_suffix_codes()
    ensures
        Mc68xxSuffix::spec_from_raw(-1i8) == Some(Mc68xxSuffix::Long),
        Mc68xxSuffix::spec_from_raw(1i8) == Some(Mc68xxSuffix::A),
        Mc68xxSuffix::spec_from_raw(2i8) == Some(Mc68xxSuffix::B),
        Mc68xxSuffix::spec_from_raw(3i8) == Some(Mc68xxSuffix::H),
        Mc68xxSuffix::spec_from_raw(4i8) == Some(Mc68xxSuffix::X),
        Mc68xxSuffix::spec_from_raw(5i8) == Some(Mc68xxSuffix::Y),
        Mc68xxSuffix::spec_from_raw(6i8) == Some(Mc68xxSuffix::S),
        Mc68xxSuffix::spec_from_raw(7i8) == Some(Mc68xxSuffix::U),
        Mc68xxSuffix::spec_from_raw(8i8) == Some(Mc68xxSuffix::D),
        Mc68xxSuffix::Long.spec_suffix() == ".l"@,
        Mc68xxSuffix::A.spec_suffix() == ".a"@,
        Mc68xxSuffix::B.spec_suffix() == ".b"@,
        Mc68xxSuffix::H.spec_suffix() == ".h"@,
        Mc68xxSuffix::X.spec_suffix() == ".x"@,
        Mc68xxSuffix::Y.spec_suffix() == ".y"@,
        Mc68xxSuffix::S.spec_suffix() == ".s"@,
        Mc68xxSuffix::U.spec_suffix() == ".u"@,
        Mc68xxSuffix::D.spec_suffix() == ".d"@,
        Mc68xxSuffix::spec_from_raw(0i8) is None,
{
}

} // verus!
