//! Bit sets that the disassembler attaches to operands and instructions.
use vstd::prelude::*;

verus! {

/// Operand flag: the operand has no base displacement.
pub const OF_NO_BASE_DISP: u8 = 0x80;
/// Operand flag: the operand's `value` holds an outer displacement.
pub const OF_OUTER_DISP: u8 = 0x40;
/// Operand flag: the operand can be converted to a number only.
pub const OF_NUMBER: u8 = 0x10;
/// Operand flag: the operand is shown.
pub const OF_SHOW: u8 = 0x08;

/// Canonical feature: the instruction does not pass execution to the next one.
pub const CF_STOP: u32 = 0x1;
pub const CF_CHG1: u32 = 0x4;
pub const CF_CHG2: u32 = 0x8;
pub const CF_CHG3: u32 = 0x10;
pub const CF_CHG4: u32 = 0x20;
pub const CF_USE1: u32 = 0x40;
pub const CF_USE2: u32 = 0x80;
pub const CF_USE3: u32 = 0x100;
pub const CF_USE4: u32 = 0x200;
pub const CF_SHFT: u32 = 0x400;
pub const CF_HLL: u32 = 0x800;
pub const CF_CHG5: u32 = 0x1000;
pub const CF_USE5: u32 = 0x2000;
pub const CF_JUMP: u32 = 0x4000;
pub const CF_USE6: u32 = 0x8000;
pub const CF_CHG6: u32 = 0x10000;

/// Return query: any instruction that ends a function.
pub const IRI_EXTENDED: u8 = 0x0;
/// Return query: only literal return instructions.
pub const IRI_RET_LITERALLY: u8 = 0x1;
/// Return query: pass over return instructions that have special targets.
pub const IRI_SKIP_RETTARGET: u8 = 0x2;
/// Return query: the strict reading, both of the above.
pub const IRI_STRICT: u8 = 0x3;

/// The flags of an operand (`OF_*` bits), kept exactly as stored.
#[derive(Debug, Clone, Copy, PartialEq, Eq, PartialOrd, Ord, Hash)]
pub struct OperandFlags {
    bits: u8,
}

impl View for OperandFlags {
    type V = u8;

    closed spec fn view(&self) -> u8 {
        self.bits
    }
}

impl OperandFlags {
    /// The set holding exactly the given bits, unknown bits included.
    pub fn from_bits_retain(bits: u8) -> (r: Self)
        ensures
            r@ == bits,
    {
        OperandFlags { bits }
    }

    pub fn bits(&self) -> (r: u8)
        ensures
            r == self@,
    {
        self.bits
    }

    /// Whether every bit of `other` is set in `self`.
    pub fn contains(&self, other: Self) -> (r: bool)
        ensures
            r == (self@ & other@ == other@),
    {
        self.bits & other.bits == other.bits
    }
}

/// Options for asking whether an instruction returns (`IRI_*` bits), kept
/// exactly as given.
#[derive(Debug, Clone, Copy, PartialEq, Eq, PartialOrd, Ord, Hash)]
pub struct IsReturnFlags {
    bits: u8,
}

impl View for IsReturnFlags {
    type V = u8;

    closed spec fn view(&self) -> u8 {
        self.bits
    }
}

impl IsReturnFlags {
    /// The set holding exactly the given bits, unknown bits included.
    pub fn from_bits_retain(bits: u8) -> (r: Self)
        ensures
            r@ == bits,
    {
        IsReturnFlags { bits }
    }

    pub fn bits(&self) -> (r: u8)
        ensures
            r == self@,
    {
        self.bits
    }

    /// Whether every bit of `other` is set in `self`.
    pub fn contains(&self, other: Self) -> (r: bool)
        ensures
            r == (self@ & other@ == other@),
    {
        self.bits & other.bits == other.bits
    }
}

/// The canonical features of an instruction type (`CF_*` bits), kept exactly
/// as the processor module reports them.
#[derive(Debug, Clone, Copy, PartialEq, Eq, PartialOrd, Ord, Hash)]
pub struct CanonFeature {
    bits: u32,
}

impl View for CanonFeature {
    type V = u32;

    closed spec fn view(&self) -> u32 {
        self.bits
    }
}

impl CanonFeature {
    /// The set holding exactly the given bits, unknown bits included.
    pub fn from_bits_retain(bits: u32) -> (r: Self)
        ensures
            r@ == bits,
    {
        CanonFeature { bits }
    }

    pub fn bits(&self) -> (r: u32)
        ensures
            r == self@,
    {
        self.bits
    }

    /// Whether every bit of `other` is set in `self`.
    pub fn contains(&self, other: Self) -> (r: bool)
        ensures
            r == (self@ & other@ == other@),
    {
        self.bits & other.bits == other.bits
    }
}

/// The operand flags are the disassembler's single bits: no base
/// displacement 0x80, outer displacement 0x40, number only 0x10, shown 0x08;
/// no two share a bit.
pub proof fn lemma_operand_flag_bits()
    ensures
        OF_NO_BASE_DISP == 0x80,
        OF_OUTER_DISP == 0x40,
        OF_NUMBER == 0x10,
        OF_SHOW == 0x08,
        OF_NO_BASE_DISP & OF_OUTER_DISP == 0,
        OF_OUTER_DISP & OF_NUMBER == 0,
        OF_NUMBER & OF_SHOW == 0,
{
    assert(0x80u8 & 0x40u8 == 0) by (bit_vector);
    assert(0x40u8 & 0x10u8 == 0) by (bit_vector);
    assert(0x10u8 & 0x08u8 == 0) by (bit_vector);
}

/// The canonical feature bits are the disassembler's: stop 0x1, the operand
/// change bits 0x4, 0x8, 0x10, 0x20, 0x1000, 0x10000 and use bits 0x40,
/// 0x80, 0x100, 0x200, 0x2000, 0x8000 for operands 1 to 6, shift 0x400,
/// high-level 0x800, jump 0x4000.
pub proof fn lemma_canon_feature_bits()
    ensures
        CF_STOP == 0x1,
        CF_CHG1 == 0x4,
        CF_CHG2 == 0x8,
        CF_CHG3 == 0x10,
        CF_CHG4 == 0x20,
        CF_CHG5 == 0x1000,
        CF_CHG6 == 0x10000,
        CF_USE1 == 0x40,
        CF_USE2 == 0x80,
        CF_USE3 == 0x100,
        CF_USE4 == 0x200,
        CF_USE5 == 0x2000,
        CF_USE6 == 0x8000,
        CF_SHFT == 0x400,
        CF_HLL == 0x800,
        CF_JUMP == 0x4000,
{
}

} // verus!
