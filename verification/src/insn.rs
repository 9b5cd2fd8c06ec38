//! Instructions and their operands, as the disassembler decodes them.
//!
//! An instruction is held as the record the disassembler fills in
//! ([`InsnRepr`], with one [`OperandRepr`] per operand slot); the accessors
//! read it the way the disassembler's own conventions say it is to be read.
use vstd::prelude::*;
use vstd::arithmetic::power2::pow2;

pub mod flags;
pub mod segpref;

pub use flags::{CanonFeature, IsReturnFlags, OperandFlags};
use flags::{CF_STOP, OF_OUTER_DISP};
use crate::Address;

verus! {

/// A processor register number.
pub type Register = u16;

/// A processor-specific addressing phrase number.
pub type Phrase = u16;

/// A processor-specific instruction type number.
pub type InsnType = u16;

/// Operand type code of an empty operand slot; it ends the operand list.
pub const O_VOID: u8 = 0;
pub const O_REG: u8 = 1;
pub const O_MEM: u8 = 2;
pub const O_PHRASE: u8 = 3;
pub const O_DISPL: u8 = 4;
pub const O_IMM: u8 = 5;
pub const O_FAR: u8 = 6;
pub const O_NEAR: u8 = 7;
pub const O_IDPSPEC0: u8 = 8;
pub const O_IDPSPEC1: u8 = 9;
pub const O_IDPSPEC2: u8 = 10;
pub const O_IDPSPEC3: u8 = 11;
pub const O_IDPSPEC4: u8 = 12;
pub const O_IDPSPEC5: u8 = 13;

/// The highest operand data type code (`dt_half`).
pub const DT_LAST: u8 = 18;

/// The kind of a (non-empty) operand.
#[derive(Debug, Clone, Copy, PartialEq, Eq, PartialOrd, Ord, Hash)]
pub enum OperandType {
    Reg,
    Mem,
    Phrase,
    Displ,
    Imm,
    Far,
    Near,
    IdpSpec0,
    IdpSpec1,
    IdpSpec2,
    IdpSpec3,
    IdpSpec4,
    IdpSpec5,
}

impl OperandType {
    /// The operand type code that the disassembler stores for this kind.
    pub open spec fn code(self) -> u8 {
        match self {
            OperandType::Reg => O_REG,
            OperandType::Mem => O_MEM,
            OperandType::Phrase => O_PHRASE,
            OperandType::Displ => O_DISPL,
            OperandType::Imm => O_IMM,
            OperandType::Far => O_FAR,
            OperandType::Near => O_NEAR,
            OperandType::IdpSpec0 => O_IDPSPEC0,
            OperandType::IdpSpec1 => O_IDPSPEC1,
            OperandType::IdpSpec2 => O_IDPSPEC2,
            OperandType::IdpSpec3 => O_IDPSPEC3,
            OperandType::IdpSpec4 => O_IDPSPEC4,
            OperandType::IdpSpec5 => O_IDPSPEC5,
        }
    }

    /// The kind that a type code stands for; the empty-slot code and codes
    /// past the last processor-specific one stand for none.
    pub open spec fn spec_from_raw(code: u8) -> Option<OperandType> {
        if code == O_REG {
            Some(OperandType::Reg)
        } else if code == O_MEM {
            Some(OperandType::Mem)
        } else if code == O_PHRASE {
            Some(OperandType::Phrase)
        } else if code == O_DISPL {
            Some(OperandType::Displ)
        } else if code == O_IMM {
            Some(OperandType::Imm)
        } else if code == O_FAR {
            Some(OperandType::Far)
        } else if code == O_NEAR {
            Some(OperandType::Near)
        } else if code == O_IDPSPEC0 {
            Some(OperandType::IdpSpec0)
        } else if code == O_IDPSPEC1 {
            Some(OperandType::IdpSpec1)
        } else if code == O_IDPSPEC2 {
            Some(OperandType::IdpSpec2)
        } else if code == O_IDPSPEC3 {
            Some(OperandType::IdpSpec3)
        } else if code == O_IDPSPEC4 {
            Some(OperandType::IdpSpec4)
        } else if code == O_IDPSPEC5 {
            Some(OperandType::IdpSpec5)
        } else {
            None
        }
    }

    pub fn from_raw(code: u8) -> (r: Option<Self>)
        ensures
            r == Self::spec_from_raw(code),
    {
        match code {
            1 => Some(OperandType::Reg),
            2 => Some(OperandType::Mem),
            3 => Some(OperandType::Phrase),
            4 => Some(OperandType::Displ),
            5 => Some(OperandType::Imm),
            6 => Some(OperandType::Far),
            7 => Some(OperandType::Near),
            8 => Some(OperandType::IdpSpec0),
            9 => Some(OperandType::IdpSpec1),
            10 => Some(OperandType::IdpSpec2),
            11 => Some(OperandType::IdpSpec3),
            12 => Some(OperandType::IdpSpec4),
            13 => Some(OperandType::IdpSpec5),
            _ => None,
        }
    }

    /// The stored type code of this kind.
    pub fn raw(self) -> (r: u8)
        ensures
            r == self.code(),
    {
        match self {
            OperandType::Reg => O_REG,
            OperandType::Mem => O_MEM,
            OperandType::Phrase => O_PHRASE,
            OperandType::Displ => O_DISPL,
            OperandType::Imm => O_IMM,
            OperandType::Far => O_FAR,
            OperandType::Near => O_NEAR,
            OperandType::IdpSpec0 => O_IDPSPEC0,
            OperandType::IdpSpec1 => O_IDPSPEC1,
            OperandType::IdpSpec2 => O_IDPSPEC2,
            OperandType::IdpSpec3 => O_IDPSPEC3,
            OperandType::IdpSpec4 => O_IDPSPEC4,
            OperandType::IdpSpec5 => O_IDPSPEC5,
        }
    }
}


/// The size and kind of the data an operand refers to.
#[derive(Debug, Clone, Copy, PartialEq, Eq, PartialOrd, Ord, Hash)]
pub enum OperandDataType {
    Byte,
    Word,
    DWord,
    Float,
    Double,
    TByte,
    PackReal,
    QWord,
    Byte16,
    Code,
    Void,
    FWord,
    Bitfield,
    String,
    Unicode,
    LongDouble,
    Byte32,
    Byte64,
    Half,
}

impl OperandDataType {
    /// The data type code that the disassembler stores for this data type
    /// (`dt_byte` is 0, and so on in declaration order up to `dt_half`).
    pub open spec fn code(self) -> u8 {
        match self {
            OperandDataType::Byte => 0,
            OperandDataType::Word => 1,
            OperandDataType::DWord => 2,
            OperandDataType::Float => 3,
            OperandDataType::Double => 4,
            OperandDataType::TByte => 5,
            OperandDataType::PackReal => 6,
            OperandDataType::QWord => 7,
            OperandDataType::Byte16 => 8,
            OperandDataType::Code => 9,
            OperandDataType::Void => 10,
            OperandDataType::FWord => 11,
            OperandDataType::Bitfield => 12,
            OperandDataType::String => 13,
            OperandDataType::Unicode => 14,
            OperandDataType::LongDouble => 15,
            OperandDataType::Byte32 => 16,
            OperandDataType::Byte64 => 17,
            OperandDataType::Half => 18,
        }
    }

    /// The data type that a code stands for, if any.
    pub open spec fn spec_from_raw(code: u8) -> Option<OperandDataType> {
        if code == 0 {
            Some(OperandDataType::Byte)
        } else if code == 1 {
            Some(OperandDataType::Word)
        } else if code == 2 {
            Some(OperandDataType::DWord)
        } else if code == 3 {
            Some(OperandDataType::Float)
        } else if code == 4 {
            Some(OperandDataType::Double)
        } else if code == 5 {
            Some(OperandDataType::TByte)
        } else if code == 6 {
            Some(OperandDataType::PackReal)
        } else if code == 7 {
            Some(OperandDataType::QWord)
        } else if code == 8 {
            Some(OperandDataType::Byte16)
        } else if code == 9 {
            Some(OperandDataType::Code)
        } else if code == 10 {
            Some(OperandDataType::Void)
        } else if code == 11 {
            Some(OperandDataType::FWord)
        } else if code == 12 {
            Some(OperandDataType::Bitfield)
        } else if code == 13 {
            Some(OperandDataType::String)
        } else if code == 14 {
            Some(OperandDataType::Unicode)
        } else if code == 15 {
            Some(OperandDataType::LongDouble)
        } else if code == 16 {
            Some(OperandDataType::Byte32)
        } else if code == 17 {
            Some(OperandDataType::Byte64)
        } else if code == 18 {
            Some(OperandDataType::Half)
        } else {
            None
        }
    }

    pub fn from_raw(code: u8) -> (r: Option<Self>)
        ensures
            r == Self::spec_from_raw(code),
    {
        match code {
            0 => Some(OperandDataType::Byte),
            1 => Some(OperandDataType::Word),
            2 => Some(OperandDataType::DWord),
            3 => Some(OperandDataType::Float),
            4 => Some(OperandDataType::Double),
            5 => Some(OperandDataType::TByte),
            6 => Some(OperandDataType::PackReal),
            7 => Some(OperandDataType::QWord),
            8 => Some(OperandDataType::Byte16),
            9 => Some(OperandDataType::Code),
            10 => Some(OperandDataType::Void),
            11 => Some(OperandDataType::FWord),
            12 => Some(OperandDataType::Bitfield),
            13 => Some(OperandDataType::String),
            14 => Some(OperandDataType::Unicode),
            15 => Some(OperandDataType::LongDouble),
            16 => Some(OperandDataType::Byte32),
            17 => Some(OperandDataType::Byte64),
            18 => Some(OperandDataType::Half),
            _ => None,
        }
    }

    /// The stored code of this data type.
    pub fn raw(self) -> (r: u8)
        ensures
            r == self.code(),
    {
        match self {
            OperandDataType::Byte => 0,
            OperandDataType::Word => 1,
            OperandDataType::DWord => 2,
            OperandDataType::Float => 3,
            OperandDataType::Double => 4,
            OperandDataType::TByte => 5,
            OperandDataType::PackReal => 6,
            OperandDataType::QWord => 7,
            OperandDataType::Byte16 => 8,
            OperandDataType::Code => 9,
            OperandDataType::Void => 10,
            OperandDataType::FWord => 11,
            OperandDataType::Bitfield => 12,
            OperandDataType::String => 13,
            OperandDataType::Unicode => 14,
            OperandDataType::LongDouble => 15,
            OperandDataType::Byte32 => 16,
            OperandDataType::Byte64 => 17,
            OperandDataType::Half => 18,
        }
    }
}

/// How a phrase or displacement operand addresses memory (x86).
#[derive(Debug, Clone, Copy, PartialEq, Eq, PartialOrd, Ord, Hash)]
pub enum AddressingMode {
    /// `[base + offset]` or `[base]`.
    Base,
    /// A SIB byte is present; the base comes from `specflag2`.
    Sib,
}

/// One operand slot of a decoded instruction, as the disassembler stores it.
///
/// `reg` is shared storage: it holds the register number of a register
/// operand and the phrase number of a phrase or displacement operand.
/// `value`, `addr` and `specval` are likewise read in ways that depend on
/// `type_`; a processor-specific operand may use all of them.
#[derive(Debug, Clone, Copy, PartialEq, Eq)]
pub struct OperandRepr {
    /// Operand type code (`O_*`); [`O_VOID`] marks an empty slot.
    pub type_: u8,
    /// Data type code (see [`OperandDataType`]).
    pub dtype: u8,
    /// Operand flags (`OF_*` bits).
    pub flags: u8,
    /// Offset of the operand value from the start of the instruction.
    pub offb: i8,
    /// Offset of the second operand value from the start of the instruction.
    pub offo: i8,
    /// Number of the operand in the instruction.
    pub n: u8,
    pub reg: u16,
    pub value: u64,
    pub addr: u64,
    pub specval: u64,
    pub specflag1: i8,
    pub specflag2: i8,
    pub specflag3: i8,
    pub specflag4: i8,
}

/// The number of operand slots of an instruction.
pub const UA_MAXOP: usize = 8;

/// A decoded instruction, as the disassembler stores it.
#[derive(Debug, Clone, Copy)]
pub struct InsnRepr {
    /// Linear address of the instruction.
    pub ea: Address,
    /// Processor-specific instruction type.
    pub itype: u16,
    /// Size of the instruction in bytes.
    pub size: u16,
    /// Raw processor-dependent segment prefix.
    pub segpref: i8,
    /// The operand slots, in order; the first empty slot ends the operands.
    pub ops: [OperandRepr; UA_MAXOP],
}


/// Whether a type code is one of the processor-specific kinds.
pub open spec fn is_idp_spec_code(code: u8) -> bool {
    O_IDPSPEC0 <= code <= O_IDPSPEC5
}

} // verus!

verus! {

/// A decoded instruction.
#[derive(Debug, Copy)]
pub struct Insn {
    inner: InsnRepr,
}

impl Clone for Insn {
    fn clone(&self) -> (r: Self)
        ensures
            r == *self,
    {
        *self
    }
}

impl View for Insn {
    type V = InsnRepr;

    closed spec fn view(&self) -> InsnRepr {
        self.inner
    }
}

impl Insn {
    /// Wraps a decoded instruction record.
    pub fn from_repr(inner: InsnRepr) -> (r: Self)
        ensures
            r@ == inner,
    {
        Insn { inner }
    }

    /// The underlying record.
    pub fn repr(&self) -> (r: &InsnRepr)
        ensures
            *r == self@,
    {
        &self.inner
    }

    pub fn address(&self) -> (r: Address)
        ensures
            r == self@.ea,
    {
        self.inner.ea
    }

    pub fn itype(&self) -> (r: InsnType)
        ensures
            r == self@.itype,
    {
        self.inner.itype
    }

    /// Raw processor-dependent segment prefix value; the types in
    /// [`segpref`] interpret it for each processor family.
    pub fn segpref(&self) -> (r: i8)
        ensures
            r == self@.segpref,
    {
        self.inner.segpref
    }

    /// The operand in slot `n`, unless there is no such slot or it is empty.
    pub fn operand(&self, n: usize) -> (r: Option<Operand>)
        ensures
            r is Some <==> has_operand_at(self@.ops@, n as int),
            r matches Some(op) ==> op@ == self@.ops@[n as int] && op.spec_insn_address()
                == self@.ea,
    {
        if n < UA_MAXOP {
            let op = self.inner.ops[n];
            if op.type_ != O_VOID {
                Some(Operand { inner: op, ea: self.inner.ea })
            } else {
                None
            }
        } else {
            None
        }
    }

    /// The number of operands: the slots before the first empty one.
    pub fn operand_count(&self) -> (r: usize)
        ensures
            is_operand_count(self@.ops@, r as int),
    {
        let mut i: usize = 0;
        while i < UA_MAXOP
            invariant
                i <= self.inner.ops@.len(),
                forall|j: int| 0 <= j < i ==> #[trigger] self.inner.ops@[j].type_ != O_VOID,
            decreases self.inner.ops@.len() - i,
        {
            if self.inner.ops[i].type_ == O_VOID {
                return i;
            }
            i += 1;
        }
        i
    }

    /// The size of the instruction in bytes.
    pub fn len(&self) -> (r: usize)
        ensures
            r == self@.size,
    {
        self.inner.size as usize
    }

    pub fn is_empty(&self) -> (r: bool)
        ensures
            r == (self@.size == 0),
    {
        self.len() == 0
    }

    /// Whether the instruction breaks sequential flow, given the canonical
    /// features of its instruction type.
    pub fn breaks_flow(&self, canon: CanonFeature) -> (r: bool)
        ensures
            r == (canon@ & CF_STOP == CF_STOP),
    {
        canon.contains(CanonFeature::from_bits_retain(CF_STOP))
    }
}

/// A non-empty operand of a decoded instruction.
#[derive(Debug, Copy)]
pub struct Operand {
    inner: OperandRepr,
    ea: Address,
}

impl Clone for Operand {
    fn clone(&self) -> (r: Self)
        ensures
            r == *self,
    {
        *self
    }
}

impl View for Operand {
    type V = OperandRepr;

    closed spec fn view(&self) -> OperandRepr {
        self.inner
    }
}

impl Operand {
    #[verifier::type_invariant]
    spec fn well_formed(self) -> bool {
        self.inner.type_ != O_VOID
    }

    /// The address of the instruction that this operand belongs to.
    pub closed spec fn spec_insn_address(&self) -> Address {
        self.ea
    }

    /// The address of the instruction that this operand belongs to.
    pub fn insn_address(&self) -> (r: Address)
        ensures
            r == self.spec_insn_address(),
    {
        self.ea
    }

    /// The underlying record.
    pub fn repr(&self) -> (r: &OperandRepr)
        ensures
            *r == self@,
            r.type_ != O_VOID,
    {
        proof {
            use_type_invariant(self);
        }
        &self.inner
    }

    pub fn flags(&self) -> (r: OperandFlags)
        ensures
            r@ == self@.flags,
    {
        OperandFlags::from_bits_retain(self.inner.flags)
    }

    pub fn offb(&self) -> (r: i8)
        ensures
            r == self@.offb,
    {
        self.inner.offb
    }

    pub fn offo(&self) -> (r: i8)
        ensures
            r == self@.offo,
    {
        self.inner.offo
    }

    /// The number of the operand in its instruction.
    pub fn n(&self) -> (r: usize)
        ensures
            r == self@.n,
    {
        self.inner.n as usize
    }

    pub fn number(&self) -> (r: usize)
        ensures
            r == self@.n,
    {
        self.n()
    }

    /// The kind of the operand; its type code must be one that the
    /// disassembler produces.
    pub fn type_(&self) -> (r: OperandType)
        requires
            self@.type_ <= O_IDPSPEC5,
        ensures
            r.code() == self@.type_,
    {
        proof {
            use_type_invariant(self);
        }
        OperandType::from_raw(self.inner.type_).unwrap()
    }

    /// The data type of the operand; its data type code must be one that
    /// the disassembler produces.
    pub fn dtype(&self) -> (r: OperandDataType)
        requires
            self@.dtype <= DT_LAST,
        ensures
            r.code() == self@.dtype,
    {
        OperandDataType::from_raw(self.inner.dtype).unwrap()
    }

    /// Whether the operand is of one of the processor-specific kinds.
    pub fn is_processor_specific(&self) -> (r: bool)
        ensures
            r == is_idp_spec_code(self@.type_),
    {
        O_IDPSPEC0 <= self.inner.type_ && self.inner.type_ <= O_IDPSPEC5
    }

    /// The register number, for register and processor-specific operands.
    pub fn reg(&self) -> (r: Option<Register>)
        ensures
            r == (if is_idp_spec_code(self@.type_) || self@.type_ == O_REG {
                Some(self@.reg)
            } else {
                None
            }),
    {
        if self.is_processor_specific() || self.inner.type_ == O_REG {
            Some(self.inner.reg)
        } else {
            None
        }
    }

    pub fn register(&self) -> (r: Option<Register>)
        ensures
            r == (if is_idp_spec_code(self@.type_) || self@.type_ == O_REG {
                Some(self@.reg)
            } else {
                None
            }),
    {
        self.reg()
    }

    /// The phrase number, for phrase, displacement and processor-specific
    /// operands.
    pub fn phrase(&self) -> (r: Option<Phrase>)
        ensures
            r == (if is_idp_spec_code(self@.type_) || self@.type_ == O_PHRASE || self@.type_
                == O_DISPL {
                Some(self@.reg)
            } else {
                None
            }),
    {
        let t = self.inner.type_;
        if self.is_processor_specific() || t == O_PHRASE || t == O_DISPL {
            Some(self.inner.reg)
        } else {
            None
        }
    }

    /// The immediate value, for immediate and processor-specific operands.
    pub fn value(&self) -> (r: Option<u64>)
        ensures
            r == (if is_idp_spec_code(self@.type_) || self@.type_ == O_IMM {
                Some(self@.value)
            } else {
                None
            }),
    {
        if self.is_processor_specific() || self.inner.type_ == O_IMM {
            Some(self.inner.value)
        } else {
            None
        }
    }

    /// The outer displacement, when the operand's flags say it has one.
    pub fn outer_displacement(&self) -> (r: Option<u64>)
        ensures
            r == (if self@.flags & OF_OUTER_DISP == OF_OUTER_DISP {
                Some(self@.value)
            } else {
                None
            }),
    {
        if self.flags().contains(OperandFlags::from_bits_retain(OF_OUTER_DISP)) {
            Some(self.inner.value)
        } else {
            None
        }
    }

    pub fn address(&self) -> (r: Option<Address>)
        ensures
            r == (if is_idp_spec_code(self@.type_) || addresses_memory_code(self@.type_) {
                Some(self@.addr)
            } else {
                None
            }),
    {
        self.addr()
    }

    /// The address, for memory, phrase, displacement, far, near and
    /// processor-specific operands.
    pub fn addr(&self) -> (r: Option<Address>)
        ensures
            r == (if is_idp_spec_code(self@.type_) || addresses_memory_code(self@.type_) {
                Some(self@.addr)
            } else {
                None
            }),
    {
        let t = self.inner.type_;
        if self.is_processor_specific() || t == O_PHRASE || t == O_MEM || t == O_DISPL || t
            == O_FAR || t == O_NEAR {
            Some(self.inner.addr)
        } else {
            None
        }
    }

    pub fn processor_specific(&self) -> (r: Option<u64>)
        ensures
            r == (if is_idp_spec_code(self@.type_) {
                Some(self@.specval)
            } else {
                None
            }),
    {
        if self.is_processor_specific() {
            Some(self.inner.specval)
        } else {
            None
        }
    }

    /// The low 16 bits of the processor-specific value.
    pub fn processor_specific_low(&self) -> (r: Option<u16>)
        ensures
            r == (if is_idp_spec_code(self@.type_) {
                Some((self@.specval % 0x10000) as u16)
            } else {
                None
            }),
    {
        if self.is_processor_specific() {
            let v = self.inner.specval;
            let low = (v & 0xffff) as u16;
            assert((v & 0xffff) as u16 == (v % 0x10000) as u16) by (bit_vector);
            Some(low)
        } else {
            None
        }
    }

    /// Bits 16 to 31 of the processor-specific value.
    pub fn processor_specific_high(&self) -> (r: Option<u16>)
        ensures
            r == (if is_idp_spec_code(self@.type_) {
                Some(((self@.specval / 0x10000) % 0x10000) as u16)
            } else {
                None
            }),
    {
        if self.is_processor_specific() {
            let v = self.inner.specval;
            let high = ((v >> 16) & 0xffff) as u16;
            assert(((v >> 16) & 0xffff) as u16 == ((v / 0x10000) % 0x10000) as u16)
                by (bit_vector);
            Some(high)
        } else {
            None
        }
    }

    pub fn processor_specific_flag1(&self) -> (r: Option<i8>)
        ensures
            r == (if is_idp_spec_code(self@.type_) {
                Some(self@.specflag1)
            } else {
                None
            }),
    {
        if self.is_processor_specific() {
            Some(self.inner.specflag1)
        } else {
            None
        }
    }

    pub fn processor_specific_flag2(&self) -> (r: Option<i8>)
        ensures
            r == (if is_idp_spec_code(self@.type_) {
                Some(self@.specflag2)
            } else {
                None
            }),
    {
        if self.is_processor_specific() {
            Some(self.inner.specflag2)
        } else {
            None
        }
    }

    pub fn processor_specific_flag3(&self) -> (r: Option<i8>)
        ensures
            r == (if is_idp_spec_code(self@.type_) {
                Some(self@.specflag3)
            } else {
                None
            }),
    {
        if self.is_processor_specific() {
            Some(self.inner.specflag3)
        } else {
            None
        }
    }

    pub fn processor_specific_flag4(&self) -> (r: Option<i8>)
        ensures
            r == (if is_idp_spec_code(self@.type_) {
                Some(self@.specflag4)
            } else {
                None
            }),
    {
        if self.is_processor_specific() {
            Some(self.inner.specflag4)
        } else {
            None
        }
    }

    /// The addressing mode of a phrase or displacement operand (x86): a
    /// first processor-specific flag of 1 means a SIB byte is present.
    pub fn addressing_mode(&self) -> (r: AddressingMode)
        ensures
            r == (if self@.specflag1 == 1 {
                AddressingMode::Sib
            } else {
                AddressingMode::Base
            }),
    {
        match self.inner.specflag1 {
            1 => AddressingMode::Sib,
            _ => AddressingMode::Base,
        }
    }

    /// The second processor-specific flag, whatever the operand's kind (x86
    /// keeps the SIB base there).
    pub fn specflag2(&self) -> (r: i8)
        ensures
            r == self@.specflag2,
    {
        self.inner.specflag2
    }
}

/// Whether operand slot `n` exists and is not empty.
pub open spec fn has_operand_at(ops: Seq<OperandRepr>, n: int) -> bool {
    0 <= n < ops.len() && ops[n].type_ != O_VOID
}

/// Whether `count` is the number of operands: the number of slots before
/// the first empty one, or all of them when none is empty.
pub open spec fn is_operand_count(ops: Seq<OperandRepr>, count: int) -> bool {
    &&& 0 <= count <= ops.len()
    &&& forall|i: int| 0 <= i < count ==> #[trigger] ops[i].type_ != O_VOID
    &&& (count == ops.len() || ops[count].type_ == O_VOID)
}

/// The operand count of an instruction is well defined: there is exactly one
/// count for any list of slots.
pub proof fn lemma_operand_count_unique(ops: Seq<OperandRepr>, a: int, b: int)
    requires
        is_operand_count(ops, a),
        is_operand_count(ops, b),
    ensures
        a == b,
{
    if a < b {
        assert(ops[a].type_ != O_VOID);
    } else if b < a {
        assert(ops[b].type_ != O_VOID);
    }
}

/// Every slot before the operand count holds an operand, and the slot at the
/// count, if there is one, does not.
pub proof fn lemma_operands_before_count(ops: Seq<OperandRepr>, count: int, n: int)
    requires
        is_operand_count(ops, count),
        0 <= n <= count,
    ensures
        n < count ==> has_operand_at(ops, n),
        n == count ==> !has_operand_at(ops, n),
{
}

/// Decoding an operand type code is the exact inverse of its encoding.
pub proof fn lemma_operand_type_decodes_exactly(t: OperandType, code: u8)
    ensures
        OperandType::spec_from_raw(code) == Some(t) <==> t.code() == code,
{
}

/// Every code that stands for an operand kind lies between the register
/// code and the last processor-specific code; the empty-slot code stands
/// for none.
pub proof fn lemma_operand_type_codes(code: u8)
    ensures
        OperandType::spec_from_raw(code) is Some <==> O_REG <= code <= O_IDPSPEC5,
        OperandType::spec_from_raw(O_VOID) is None,
{
}

/// Each operand kind has the disassembler's type code for it: the empty
/// slot is 0, a register 1, memory 2, a phrase 3, a displacement 4, an
/// immediate 5, a far address 6, a near address 7, and the six
/// processor-specific kinds 8 to 13, in that order.
pub proof fn lemma_operand_type_codes_are_the_disassemblers()
    ensures
        O_VOID == 0,
        OperandType::spec_from_raw(0) is None,
        O_REG == 1,
        OperandType::Reg.code() == 1,
        OperandType::spec_from_raw(1) == Some(OperandType::Reg),
        O_MEM == 2,
        OperandType::Mem.code() == 2,
        OperandType::spec_from_raw(2) == Some(OperandType::Mem),
        O_PHRASE == 3,
        OperandType::Phrase.code() == 3,
        OperandType::spec_from_raw(3) == Some(OperandType::Phrase),
        O_DISPL == 4,
        OperandType::Displ.code() == 4,
        OperandType::spec_from_raw(4) == Some(OperandType::Displ),
        O_IMM == 5,
        OperandType::Imm.code() == 5,
        OperandType::spec_from_raw(5) == Some(OperandType::Imm),
        O_FAR == 6,
        OperandType::Far.code() == 6,
        OperandType::spec_from_raw(6) == Some(OperandType::Far),
        O_NEAR == 7,
        OperandType::Near.code() == 7,
        OperandType::spec_from_raw(7) == Some(OperandType::Near),
        O_IDPSPEC0 == 8,
        OperandType::IdpSpec0.code() == 8,
        OperandType::spec_from_raw(8) == Some(OperandType::IdpSpec0),
        O_IDPSPEC1 == 9,
        OperandType::IdpSpec1.code() == 9,
        OperandType::spec_from_raw(9) == Some(OperandType::IdpSpec1),
        O_IDPSPEC2 == 10,
        OperandType::IdpSpec2.code() == 10,
        OperandType::spec_from_raw(10) == Some(OperandType::IdpSpec2),
        O_IDPSPEC3 == 11,
        OperandType::IdpSpec3.code() == 11,
        OperandType::spec_from_raw(11) == Some(OperandType::IdpSpec3),
        O_IDPSPEC4 == 12,
        OperandType::IdpSpec4.code() == 12,
        OperandType::spec_from_raw(12) == Some(OperandType::IdpSpec4),
        O_IDPSPEC5 == 13,
        OperandType::IdpSpec5.code() == 13,
        OperandType::spec_from_raw(13) == Some(OperandType::IdpSpec5),
        forall|code: u8| code > 13 ==> OperandType::spec_from_raw(code) is None,
{
}

/// The data type decoded from code `k` is the `k`-th data type in the
/// disassembler's list: byte 0, word 1, dword 2, float 3, double 4, tbyte 5,
/// packed real 6, qword 7, 16 bytes 8, code 9, void 10, fword 11, bit field
/// 12, string 13, unicode 14, long double 15, 32 bytes 16, 64 bytes 17,
/// half 18; no other code has one.
pub proof fn lemma_operand_data_type_codes_are_the_disassemblers()
    ensures
        OperandDataType::Byte.code() == 0,
        OperandDataType::spec_from_raw(0) == Some(OperandDataType::Byte),
        OperandDataType::Word.code() == 1,
        OperandDataType::spec_from_raw(1) == Some(OperandDataType::Word),
        OperandDataType::DWord.code() == 2,
        OperandDataType::spec_from_raw(2) == Some(OperandDataType::DWord),
        OperandDataType::Float.code() == 3,
        OperandDataType::spec_from_raw(3) == Some(OperandDataType::Float),
        OperandDataType::Double.code() == 4,
        OperandDataType::spec_from_raw(4) == Some(OperandDataType::Double),
        OperandDataType::TByte.code() == 5,
        OperandDataType::spec_from_raw(5) == Some(OperandDataType::TByte),
        OperandDataType::PackReal.code() == 6,
        OperandDataType::spec_from_raw(6) == Some(OperandDataType::PackReal),
        OperandDataType::QWord.code() == 7,
        OperandDataType::spec_from_raw(7) == Some(OperandDataType::QWord),
        OperandDataType::Byte16.code() == 8,
        OperandDataType::spec_from_raw(8) == Some(OperandDataType::Byte16),
        OperandDataType::Code.code() == 9,
        OperandDataType::spec_from_raw(9) == Some(OperandDataType::Code),
        OperandDataType::Void.code() == 10,
        OperandDataType::spec_from_raw(10) == Some(OperandDataType::Void),
        OperandDataType::FWord.code() == 11,
        OperandDataType::spec_from_raw(11) == Some(OperandDataType::FWord),
        OperandDataType::Bitfield.code() == 12,
        OperandDataType::spec_from_raw(12) == Some(OperandDataType::Bitfield),
        OperandDataType::String.code() == 13,
        OperandDataType::spec_from_raw(13) == Some(OperandDataType::String),
        OperandDataType::Unicode.code() == 14,
        OperandDataType::spec_from_raw(14) == Some(OperandDataType::Unicode),
        OperandDataType::LongDouble.code() == 15,
        OperandDataType::spec_from_raw(15) == Some(OperandDataType::LongDouble),
        OperandDataType::Byte32.code() == 16,
        OperandDataType::spec_from_raw(16) == Some(OperandDataType::Byte32),
        OperandDataType::Byte64.code() == 17,
        OperandDataType::spec_from_raw(17) == Some(OperandDataType::Byte64),
        OperandDataType::Half.code() == 18,
        OperandDataType::spec_from_raw(18) == Some(OperandDataType::Half),
        DT_LAST == 18,
        forall|code: u8| code > 18 ==> OperandDataType::spec_from_raw(code) is None,
{
}

/// An operand carries a memory address exactly when its kind is a phrase,
/// memory, a displacement, a far address or a near address; a register or an
/// immediate does not, nor does any processor-specific kind by this test.
pub proof fn lemma_address_carrying_kinds(t: OperandType)
    ensures
        addresses_memory_code(t.code()) <==> (t is Phrase || t is Mem || t is Displ || t is Far
            || t is Near),
{
}

/// Only type codes of operand kinds carry addresses.
pub proof fn lemma_address_carrying_codes_are_kinds(code: u8)
    ensures
        addresses_memory_code(code) ==> OperandType::spec_from_raw(code) is Some,
        addresses_memory_code(code) ==> !is_idp_spec_code(code),
        !addresses_memory_code(O_VOID),
{
}

/// An operand is processor-specific exactly when its kind is one of the six
/// processor-specific kinds: register, memory, phrase, displacement,
/// immediate, far and near operands are not.
pub proof fn lemma_processor_specific_kinds(t: OperandType)
    ensures
        is_idp_spec_code(t.code()) <==> (t is IdpSpec0 || t is IdpSpec1 || t is IdpSpec2
            || t is IdpSpec3 || t is IdpSpec4 || t is IdpSpec5),
{
}

/// Only type codes of operand kinds are processor-specific; the empty-slot
/// code is not.
pub proof fn lemma_processor_specific_codes_are_kinds(code: u8)
    ensures
        is_idp_spec_code(code) ==> OperandType::spec_from_raw(code) is Some,
        !is_idp_spec_code(O_VOID),
{
}

/// Decoding a data type code is the exact inverse of its encoding, and the
/// codes that stand for a data type are exactly those up to `DT_LAST`.
pub proof fn lemma_operand_data_type_decodes_exactly(t: OperandDataType, code: u8)
    ensures
        OperandDataType::spec_from_raw(code) == Some(t) <==> t.code() == code,
        OperandDataType::spec_from_raw(code) is Some <==> code <= DT_LAST,
{
}

/// The low and high halves of a processor-specific value put together give
/// back its low 32 bits.
pub proof fn lemma_processor_specific_halves(specval: u64)
    ensures
        ((specval % 0x10000) as u16) as int + ((((specval / 0x10000) % 0x10000) as u16) as int)
            * 0x10000 == specval % 0x1_0000_0000,
{
    assert(((specval % 0x10000) as u16) as int + ((((specval / 0x10000) % 0x10000) as u16) as int)
        * 0x10000 == specval % 0x1_0000_0000) by (bit_vector);
}

/// Whether a type code is one of the kinds that carry a memory address.
pub open spec fn addresses_memory_code(code: u8) -> bool {
    code == O_PHRASE || code == O_MEM || code == O_DISPL || code == O_FAR || code == O_NEAR
}

/// A register number as the x86 helpers report it: a negative value means
/// there is none; otherwise its low 16 bits are the register.
pub fn register_from_raw(raw: i32) -> (r: Option<Register>)
    ensures
        r == (if raw >= 0 {
            Some(raw as u16)
        } else {
            None
        }),
{
    if raw >= 0 {
        let reg = raw as u32 as u16;
        assert(raw >= 0 ==> (raw as u32) as u16 == raw as u16) by (bit_vector);
        Some(reg)
    } else {
        None
    }
}

/// A SIB scale factor from the scale bits that the x86 helpers report: a
/// negative value means there is none; otherwise the factor is two to that
/// power.
pub fn scale_from_raw(raw: i32) -> (r: Option<u32>)
    requires
        raw < 32,
    ensures
        r == (if raw >= 0 {
            Some(pow2(raw as nat) as u32)
        } else {
            None
        }),
{
    if raw >= 0 {
        let shift = raw as u32;
        proof {
            vstd::bits::lemma_u32_pow2_no_overflow(shift as nat);
            vstd::bits::lemma_u32_shl_is_mul(1, shift);
        }
        Some(1u32 << shift)
    } else {
        None
    }
}

} // verus!
