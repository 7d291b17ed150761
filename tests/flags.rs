use xsave::{Fcw, Fsw, MxCsr, XCompBv, XStateBv};

#[test]
fn flag_defaults() {
    assert_eq!(Fcw::default().bits(), 0x037F);
    assert_eq!(Fsw::default().bits(), 0);
    assert_eq!(MxCsr::default().bits(), 0x1F80);
    assert_eq!(XCompBv::default().bits(), 0);
    assert_eq!(XStateBv::default().bits(), 0);
}

#[test]
fn reset_control_word_has_reserved_bit() {
    assert!(Fcw::default().contains(Fcw::RESERVED6));
    assert!(!Fcw::default().contains(Fcw::RESERVED7));
    assert!(Fcw::default().contains(Fcw::PRECISION_CONTROL0 | Fcw::PRECISION_CONTROL1));
    assert!(!Fcw::default().contains(Fcw::ROUNDING_CONTROL0));
}

#[test]
fn all_named_bits() {
    assert_eq!(Fcw::all().bits(), 0x1FFF);
    assert_eq!(Fsw::all().bits(), 0xC7FF);
    assert_eq!(MxCsr::all().bits(), 0xFFFF);
    assert_eq!(XCompBv::all().bits(), 1 << 63);
    assert_eq!(XStateBv::all().bits(), 0x3FF);
}

#[test]
fn undefined_bits_are_kept() {
    assert_eq!(Fsw::from_bits_retain(0x3800).bits(), 0x3800);
    assert_eq!(MxCsr::from_bits_retain(0xFFFF_0000).bits(), 0xFFFF_0000);
    assert_eq!(XStateBv::from_bits_retain(u64::MAX).bits(), u64::MAX);
}

#[test]
fn insert_and_remove() {
    let mut m = MxCsr::empty();
    m.insert(MxCsr::FLUSH_TO_ZERO | MxCsr::DENORMALS_ARE_ZEROS);
    assert_eq!(m.bits(), 0x8040);
    assert!(m.contains(MxCsr::FLUSH_TO_ZERO));
    m.remove(MxCsr::FLUSH_TO_ZERO);
    assert_eq!(m.bits(), 0x0040);
    assert!(!m.contains(MxCsr::FLUSH_TO_ZERO));
    m.remove(MxCsr::OVERFLOW);
    assert_eq!(m.bits(), 0x0040);
    assert!(m.contains(0));
}
