use idalib::insn::flags::{
    CF_JUMP, CF_STOP, CF_USE1, IRI_RET_LITERALLY, IRI_SKIP_RETTARGET, IRI_STRICT, OF_OUTER_DISP,
    OF_SHOW,
};
use idalib::insn::{
    register_from_raw, scale_from_raw, AddressingMode, CanonFeature, Insn, InsnRepr,
    IsReturnFlags, OperandDataType, OperandFlags, OperandRepr, OperandType, O_IDPSPEC0, O_IMM,
    O_MEM, O_PHRASE, O_REG, O_VOID, UA_MAXOP,
};

fn op(type_: u8) -> OperandRepr {
    OperandRepr {
        type_,
        dtype: 2,
        flags: 0,
        offb: 0,
        offo: 0,
        n: 0,
        reg: 0,
        value: 0,
        addr: 0,
        specval: 0,
        specflag1: 0,
        specflag2: 0,
        specflag3: 0,
        specflag4: 0,
    }
}

// mov ecx, [esp+4] : register operand, then a displacement operand
fn sample() -> InsnRepr {
    let mut reg = op(O_REG);
    reg.n = 0;
    reg.reg = 1;
    let mut displ = op(4);
    displ.n = 1;
    displ.reg = 4;
    displ.addr = 4;
    displ.offb = 3;
    let mut ops = [op(O_VOID); UA_MAXOP];
    ops[0] = reg;
    ops[1] = displ;
    ops[3] = op(O_IMM);
    ops[3].value = 99;
    InsnRepr { ea: 0x10001002, itype: 0x7a, size: 4, segpref: 0, ops }
}

#[test]
fn from_repr_wraps_the_record() {
    let insn = Insn::from_repr(sample());
    assert_eq!(insn.address(), 0x10001002);
    assert_eq!(insn.itype(), 0x7a);
    assert_eq!(insn.segpref(), 0);
    assert_eq!(insn.len(), 4);
    assert!(!insn.is_empty());
    assert_eq!(insn.repr().ops.len(), 8);
}

#[test]
fn from_repr_keeps_any_record() {
    // slots with codes the disassembler never produces are kept as they are;
    // the readings that do not decode the kind still answer
    let mut r = sample();
    r.ops[5].type_ = 14;
    r.ops[5].reg = 9;
    r.ops[0].dtype = 19;
    let insn = Insn::from_repr(r);
    assert_eq!(insn.address(), 0x10001002);
    let odd = insn.operand(5).unwrap();
    assert_eq!(odd.repr().type_, 14);
    assert!(!odd.is_processor_specific());
    assert_eq!(odd.reg(), None);
    assert_eq!(odd.addr(), None);
    assert_eq!(insn.operand(0).unwrap().repr().dtype, 19);
    assert_eq!(insn.operand(0).unwrap().reg(), Some(1));
    // an empty slot's other fields are never read, whatever they hold
    let mut r = sample();
    r.ops[2].dtype = 200;
    r.ops[6].dtype = 255;
    let insn = Insn::from_repr(r);
    assert!(insn.operand(2).is_none());
    assert_eq!(insn.operand_count(), 2);
}

#[test]
fn operands_stop_at_first_empty_slot() {
    let insn = Insn::from_repr(sample());
    assert_eq!(insn.operand_count(), 2);
    assert!(insn.operand(0).is_some());
    assert!(insn.operand(1).is_some());
    assert!(insn.operand(2).is_none());
    // a slot past the first empty one is still reachable by index
    let late = insn.operand(3).unwrap();
    assert_eq!(late.value(), Some(99));
    assert!(insn.operand(8).is_none());
    assert!(insn.operand(usize::MAX).is_none());
}

#[test]
fn operand_count_of_full_and_empty_lists() {
    let mut r = sample();
    r.ops = [op(O_MEM); UA_MAXOP];
    r.ops[0] = op(O_REG);
    let full = Insn::from_repr(r);
    assert_eq!(full.operand_count(), UA_MAXOP);
    assert!(full.operand(UA_MAXOP - 1).is_some());
    assert!(full.operand(UA_MAXOP).is_none());
    let mut r = sample();
    r.ops = [op(O_VOID); UA_MAXOP];
    let insn = Insn::from_repr(r);
    assert_eq!(insn.operand_count(), 0);
    assert!(insn.operand(0).is_none());
}

#[test]
fn register_operand_readings() {
    let insn = Insn::from_repr(sample());
    let o = insn.operand(0).unwrap();
    assert_eq!(o.type_(), OperandType::Reg);
    assert_eq!(o.dtype(), OperandDataType::DWord);
    assert_eq!(o.reg(), Some(1));
    assert_eq!(o.register(), Some(1));
    assert_eq!(o.phrase(), None);
    assert_eq!(o.value(), None);
    assert_eq!(o.addr(), None);
    assert_eq!(o.address(), None);
    assert!(!o.is_processor_specific());
    assert_eq!(o.processor_specific(), None);
    assert_eq!(o.n(), 0);
    assert_eq!(o.number(), 0);
    assert_eq!(o.insn_address(), 0x10001002);
}

#[test]
fn displacement_operand_readings() {
    let insn = Insn::from_repr(sample());
    let o = insn.operand(1).unwrap();
    assert_eq!(o.type_(), OperandType::Displ);
    assert_eq!(o.reg(), None);
    assert_eq!(o.phrase(), Some(4));
    assert_eq!(o.addr(), Some(4));
    assert_eq!(o.value(), None);
    assert_eq!(o.offb(), 3);
    assert_eq!(o.offo(), 0);
    assert_eq!(o.n(), 1);
    assert_eq!(o.addressing_mode(), AddressingMode::Base);
}

#[test]
fn memory_and_phrase_operands_have_addresses() {
    let mut r = sample();
    r.ops[0] = op(O_MEM);
    r.ops[0].addr = 0x1000_2000;
    r.ops[1] = op(O_PHRASE);
    r.ops[1].reg = 7;
    r.ops[1].addr = 0;
    let insn = Insn::from_repr(r);
    let m = insn.operand(0).unwrap();
    assert_eq!(m.addr(), Some(0x1000_2000));
    assert_eq!(m.phrase(), None);
    let p = insn.operand(1).unwrap();
    assert_eq!(p.phrase(), Some(7));
    assert_eq!(p.addr(), Some(0));
}

#[test]
fn processor_specific_operand_readings() {
    let mut r = sample();
    let mut s = op(O_IDPSPEC0 + 2);
    s.reg = 5;
    s.value = 6;
    s.addr = 7;
    s.specval = 0x1234_5678_9abc;
    s.specflag1 = 1;
    s.specflag2 = -2;
    s.specflag3 = 3;
    s.specflag4 = 4;
    r.ops[0] = s;
    let insn = Insn::from_repr(r);
    let o = insn.operand(0).unwrap();
    assert_eq!(o.type_(), OperandType::IdpSpec2);
    assert!(o.is_processor_specific());
    assert_eq!(o.reg(), Some(5));
    assert_eq!(o.phrase(), Some(5));
    assert_eq!(o.value(), Some(6));
    assert_eq!(o.addr(), Some(7));
    assert_eq!(o.processor_specific(), Some(0x1234_5678_9abc));
    assert_eq!(o.processor_specific_low(), Some(0x9abc));
    assert_eq!(o.processor_specific_high(), Some(0x5678));
    assert_eq!(o.processor_specific_flag1(), Some(1));
    assert_eq!(o.processor_specific_flag2(), Some(-2));
    assert_eq!(o.processor_specific_flag3(), Some(3));
    assert_eq!(o.processor_specific_flag4(), Some(4));
    assert_eq!(o.specflag2(), -2);
    assert_eq!(o.addressing_mode(), AddressingMode::Sib);
    // the halves recombine to the low 32 bits
    let low = o.processor_specific_low().unwrap() as u64;
    let high = o.processor_specific_high().unwrap() as u64;
    assert_eq!(low + (high << 16), 0x1234_5678_9abc & 0xffff_ffff);
}

#[test]
fn non_specific_operand_hides_specific_flags() {
    let insn = Insn::from_repr(sample());
    let o = insn.operand(1).unwrap();
    assert_eq!(o.processor_specific_low(), None);
    assert_eq!(o.processor_specific_high(), None);
    assert_eq!(o.processor_specific_flag1(), None);
    assert_eq!(o.processor_specific_flag2(), None);
    assert_eq!(o.processor_specific_flag3(), None);
    assert_eq!(o.processor_specific_flag4(), None);
    assert_eq!(o.specflag2(), 0);
}

#[test]
fn outer_displacement_follows_flag() {
    let mut r = sample();
    r.ops[1].flags = OF_OUTER_DISP | OF_SHOW;
    r.ops[1].value = 0x40;
    let insn = Insn::from_repr(r);
    let o = insn.operand(1).unwrap();
    assert_eq!(o.outer_displacement(), Some(0x40));
    assert_eq!(o.flags().bits(), OF_OUTER_DISP | OF_SHOW);
    assert!(o.flags().contains(OperandFlags::from_bits_retain(OF_SHOW)));
    let plain = Insn::from_repr(sample()).operand(1).unwrap();
    assert_eq!(plain.outer_displacement(), None);
}

#[test]
fn empty_instruction() {
    let mut r = sample();
    r.size = 0;
    let insn = Insn::from_repr(r);
    assert_eq!(insn.len(), 0);
    assert!(insn.is_empty());
}

#[test]
fn breaks_flow_reads_stop_bit() {
    let insn = Insn::from_repr(sample());
    assert!(insn.breaks_flow(CanonFeature::from_bits_retain(CF_STOP | CF_JUMP)));
    assert!(!insn.breaks_flow(CanonFeature::from_bits_retain(CF_USE1 | CF_JUMP)));
    assert!(!insn.breaks_flow(CanonFeature::from_bits_retain(0)));
}

#[test]
fn flag_sets_keep_their_bits() {
    let f = CanonFeature::from_bits_retain(0x8000_0001);
    assert_eq!(f.bits(), 0x8000_0001);
    assert!(f.contains(CanonFeature::from_bits_retain(CF_STOP)));
    assert!(!f.contains(CanonFeature::from_bits_retain(CF_STOP | CF_JUMP)));
    let i = IsReturnFlags::from_bits_retain(IRI_STRICT);
    assert_eq!(i.bits(), 3);
    assert!(i.contains(IsReturnFlags::from_bits_retain(IRI_RET_LITERALLY)));
    assert!(i.contains(IsReturnFlags::from_bits_retain(IRI_SKIP_RETTARGET)));
    assert!(i.contains(IsReturnFlags::from_bits_retain(0)));
    assert!(!IsReturnFlags::from_bits_retain(2).contains(i));
}

#[test]
fn register_and_scale_from_raw() {
    assert_eq!(register_from_raw(-1), None);
    assert_eq!(register_from_raw(0), Some(0));
    assert_eq!(register_from_raw(5), Some(5));
    assert_eq!(register_from_raw(0x1_0003), Some(3));
    assert_eq!(scale_from_raw(-1), None);
    assert_eq!(scale_from_raw(0), Some(1));
    assert_eq!(scale_from_raw(1), Some(2));
    assert_eq!(scale_from_raw(3), Some(8));
    assert_eq!(scale_from_raw(31), Some(0x8000_0000));
}

#[test]
fn operand_type_codes_round_trip() {
    for code in 0u8..=255 {
        match OperandType::from_raw(code) {
            Some(t) => {
                assert!((1..=13).contains(&code));
                assert_eq!(t.raw(), code);
            }
            None => assert!(code == 0 || code > 13),
        }
    }
    assert_eq!(OperandType::from_raw(O_IMM), Some(OperandType::Imm));
    assert_eq!(OperandType::from_raw(O_IDPSPEC0), Some(OperandType::IdpSpec0));
}

#[test]
fn data_type_codes_round_trip() {
    for code in 0u8..=255 {
        match OperandDataType::from_raw(code) {
            Some(t) => {
                assert!(code <= 18);
                assert_eq!(t.raw(), code);
            }
            None => assert!(code > 18),
        }
    }
    assert_eq!(OperandDataType::from_raw(0), Some(OperandDataType::Byte));
    assert_eq!(OperandDataType::from_raw(18), Some(OperandDataType::Half));
    assert_eq!(OperandDataType::from_raw(10), Some(OperandDataType::Void));
}

#[test]
fn clone_keeps_the_instruction() {
    let insn = Insn::from_repr(sample());
    let copy = insn;
    let _still_usable = insn.address();
    let copy = copy.clone();
    assert_eq!(copy.address(), insn.address());
    assert_eq!(copy.operand_count(), insn.operand_count());
    assert_eq!(copy.repr().ops, insn.repr().ops);
    let o = insn.operand(1).unwrap();
    let o2 = o.clone();
    assert_eq!(o2.repr(), o.repr());
}
