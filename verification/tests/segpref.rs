use idalib::insn::segpref::{
    Mc68kOperandSize, Mc68xxSuffix, MetapcSegment, MipsFpuFormat, SparcConditionCode,
};

#[test]
fn test_metapc_segment_from_raw() {
    assert_eq!(MetapcSegment::from_raw(0), None);
    assert_eq!(MetapcSegment::from_raw(29), Some(MetapcSegment::Es));
    assert_eq!(MetapcSegment::from_raw(30), Some(MetapcSegment::Cs));
    assert_eq!(MetapcSegment::from_raw(31), Some(MetapcSegment::Ss));
    assert_eq!(MetapcSegment::from_raw(32), Some(MetapcSegment::Ds));
    assert_eq!(MetapcSegment::from_raw(33), Some(MetapcSegment::Fs));
    assert_eq!(MetapcSegment::from_raw(34), Some(MetapcSegment::Gs));
    assert_eq!(MetapcSegment::from_raw(35), None);
    assert_eq!(MetapcSegment::from_raw(-1), None);
}

#[test]
fn test_mc68k_operand_size() {
    assert_eq!(Mc68kOperandSize::from_raw(0), None);
    assert_eq!(Mc68kOperandSize::from_raw(1), Some(Mc68kOperandSize::Byte));
    assert_eq!(Mc68kOperandSize::from_raw(2), Some(Mc68kOperandSize::Word));
    assert_eq!(Mc68kOperandSize::from_raw(3), Some(Mc68kOperandSize::Long));
    assert_eq!(Mc68kOperandSize::from_raw(4), Some(Mc68kOperandSize::Single));
    assert_eq!(Mc68kOperandSize::from_raw(5), Some(Mc68kOperandSize::Double));
    assert_eq!(Mc68kOperandSize::from_raw(6), Some(Mc68kOperandSize::Extended));
    assert_eq!(Mc68kOperandSize::from_raw(7), None);

    // high bit (hide suffix) is masked off
    assert_eq!(Mc68kOperandSize::from_raw(0x01 | -128), Some(Mc68kOperandSize::Byte));
    assert_eq!(Mc68kOperandSize::from_raw(0x03 | -128), Some(Mc68kOperandSize::Long));

    assert_eq!(Mc68kOperandSize::Byte.suffix(), ".b");
    assert_eq!(Mc68kOperandSize::Long.suffix(), ".l");
    assert_eq!(Mc68kOperandSize::Extended.suffix(), ".x");
}

#[test]
fn test_mips_fpu_format() {
    assert_eq!(MipsFpuFormat::from_raw(0), None);
    assert_eq!(MipsFpuFormat::from_raw(b's' as i8), Some(MipsFpuFormat::Single));
    assert_eq!(MipsFpuFormat::from_raw(b'd' as i8), Some(MipsFpuFormat::Double));
    assert_eq!(MipsFpuFormat::from_raw(b'w' as i8), Some(MipsFpuFormat::Word));
    assert_eq!(MipsFpuFormat::from_raw(b'l' as i8), Some(MipsFpuFormat::Long));
    assert_eq!(MipsFpuFormat::from_raw(b'p' as i8), Some(MipsFpuFormat::PairedSingle));
    assert_eq!(MipsFpuFormat::from_raw(b't' as i8), Some(MipsFpuFormat::Triple));
    assert_eq!(MipsFpuFormat::from_raw(b'q' as i8), Some(MipsFpuFormat::Quad));
    assert_eq!(MipsFpuFormat::from_raw(b'x' as i8), None);

    assert_eq!(MipsFpuFormat::Single.suffix(), ".s");
    assert_eq!(MipsFpuFormat::PairedSingle.suffix(), ".p");
}

#[test]
fn test_sparc_condition_code() {
    assert_eq!(SparcConditionCode::from_raw(0), Some(SparcConditionCode::Never));
    assert_eq!(SparcConditionCode::from_raw(1), Some(SparcConditionCode::Equal));
    assert_eq!(SparcConditionCode::from_raw(8), Some(SparcConditionCode::Always));
    assert_eq!(SparcConditionCode::from_raw(15), Some(SparcConditionCode::OverflowClear));
    assert_eq!(SparcConditionCode::from_raw(16), None);
    assert_eq!(SparcConditionCode::from_raw(-1), None);
}

#[test]
fn test_mc68xx_suffix() {
    assert_eq!(Mc68xxSuffix::from_raw(0), None);
    assert_eq!(Mc68xxSuffix::from_raw(-1), Some(Mc68xxSuffix::Long));
    assert_eq!(Mc68xxSuffix::from_raw(1), Some(Mc68xxSuffix::A));
    assert_eq!(Mc68xxSuffix::from_raw(8), Some(Mc68xxSuffix::D));
    assert_eq!(Mc68xxSuffix::from_raw(9), None);

    assert_eq!(Mc68xxSuffix::Long.suffix(), ".l");
    assert_eq!(Mc68xxSuffix::A.suffix(), ".a");
}

#[test]
fn mc68k_hide_suffix_bit_never_changes_the_size() {
    for v in i8::MIN..=i8::MAX {
        assert_eq!(Mc68kOperandSize::from_raw(v | -128), Mc68kOperandSize::from_raw(v));
        assert_eq!(Mc68kOperandSize::from_raw(v), Mc68kOperandSize::from_raw(v & 0x7F));
    }
}

#[test]
fn mips_suffix_is_dot_and_prefix_letter() {
    for v in i8::MIN..=i8::MAX {
        if let Some(fmt) = MipsFpuFormat::from_raw(v) {
            let expected = format!(".{}", v as u8 as char);
            assert_eq!(fmt.suffix(), expected);
        }
    }
}

#[test]
fn mc68xx_suffixes_distinct() {
    let all = [
        Mc68xxSuffix::Long,
        Mc68xxSuffix::A,
        Mc68xxSuffix::B,
        Mc68xxSuffix::H,
        Mc68xxSuffix::X,
        Mc68xxSuffix::Y,
        Mc68xxSuffix::S,
        Mc68xxSuffix::U,
        Mc68xxSuffix::D,
    ];
    for a in all.iter() {
        for b in all.iter() {
            assert_eq!(a.suffix() == b.suffix(), a == b);
        }
    }
    assert_eq!(Mc68xxSuffix::D.suffix(), ".d");
    assert_eq!(Mc68xxSuffix::U.suffix(), ".u");
}

#[test]
fn mc68k_suffixes_distinct() {
    let all = [
        Mc68kOperandSize::Byte,
        Mc68kOperandSize::Word,
        Mc68kOperandSize::Long,
        Mc68kOperandSize::Single,
        Mc68kOperandSize::Double,
        Mc68kOperandSize::Extended,
    ];
    for a in all.iter() {
        for b in all.iter() {
            assert_eq!(a.suffix() == b.suffix(), a == b);
        }
    }
}

#[test]
fn decoding_counts_match_the_encodings() {
    let metapc = (i8::MIN..=i8::MAX).filter(|v| MetapcSegment::from_raw(*v).is_some()).count();
    assert_eq!(metapc, 6);
    let sparc = (i8::MIN..=i8::MAX).filter(|v| SparcConditionCode::from_raw(*v).is_some()).count();
    assert_eq!(sparc, 16);
    let mc68xx = (i8::MIN..=i8::MAX).filter(|v| Mc68xxSuffix::from_raw(*v).is_some()).count();
    assert_eq!(mc68xx, 9);
    let mips = (i8::MIN..=i8::MAX).filter(|v| MipsFpuFormat::from_raw(*v).is_some()).count();
    assert_eq!(mips, 7);
    // each size code appears twice: with and without the hide-suffix bit
    let mc68k = (i8::MIN..=i8::MAX).filter(|v| Mc68kOperandSize::from_raw(*v).is_some()).count();
    assert_eq!(mc68k, 12);
}
