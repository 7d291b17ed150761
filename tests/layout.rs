use core::mem::size_of;
use xsave::{
    Fcw, Fsw, MxCsr, XCompBv, XSave, XSaveExtend, XSaveHeader, XSaveLegacy, XStateBv, Xmm,
    EXTEND_SIZE, HEADER_SIZE, LEGACY_SIZE, XSAVE_ALIGN, XSAVE_SIZE,
};

#[test]
fn default() {
    assert_eq!(XSave::default().legacy.mxcsr.bits, 0x1F80);
    assert_eq!(XSave::default().legacy.fcw.bits, 0x037F);
    assert_eq!(XSave::default().legacy.fsw.bits, 0);
}

#[test]
fn size() {
    assert_eq!(size_of::<XSaveLegacy>(), 512);
    assert_eq!(size_of::<XSaveHeader>(), 64);
    assert_eq!(size_of::<XSaveExtend>(), 2496);
    assert_eq!(size_of::<XSave>(), 3072);
}

#[test]
fn align() {
    assert_eq!(XSAVE_ALIGN, 64);
}

#[test]
fn region_sizes() {
    assert_eq!(LEGACY_SIZE, 512);
    assert_eq!(HEADER_SIZE, 64);
    assert_eq!(EXTEND_SIZE, 2496);
    assert_eq!(XSAVE_SIZE, 3072);
    assert_eq!(XSave::default().to_image().len(), 3072);
}

#[test]
fn default_legacy_state() {
    let x = XSave::default();
    assert_eq!(x.legacy.mxcsr_mask.bits, 0xFFFF);
    assert_eq!(x.legacy.ftw, 0);
    assert_eq!(x.legacy.fop, 0);
    assert_eq!(x.legacy.fip, 0);
    assert_eq!(x.legacy.fdp, 0);
    for f in x.legacy.mm.iter() {
        assert_eq!(f.mm.0, [0u8; 10]);
        assert_eq!(f.reserved, [0u8; 6]);
    }
    for r in x.legacy.xmm.iter() {
        assert_eq!(r.0, [0u8; 16]);
    }
    assert_eq!(x.header.xstate_bv.bits, 0);
    assert_eq!(x.header.xcomp_bv.bits, 0);
}

#[test]
fn default_image_clears_vector_registers() {
    let img = XSave::default().to_image();
    assert!(img[160..416].iter().all(|b| *b == 0));
    assert!(img[512..].iter().all(|b| *b == 0));
}

#[test]
fn default_image_control_words() {
    let img = XSave::default().to_image();
    assert_eq!(&img[0..4], &[0x7F, 0x03, 0x00, 0x00]);
    assert_eq!(&img[24..32], &[0x80, 0x1F, 0x00, 0x00, 0xFF, 0xFF, 0x00, 0x00]);
}

#[test]
fn field_offsets() {
    let mut x = XSave::default();
    x.legacy.fop = 0x0102;
    x.legacy.fip = 0x0807060504030201;
    x.legacy.fdp = 0x1817161514131211;
    x.legacy.ftw = 0xAB;
    x.legacy.mm[2].mm.0 = [0x33; 10];
    x.legacy.xmm[3] = Xmm([0x44; 16]);
    x.header.xstate_bv = XStateBv::from_bits_retain(XStateBv::X87 | XStateBv::SSE);
    x.header.xcomp_bv = XCompBv::from_bits_retain(XCompBv::COMPACT);
    let img = x.to_image();
    assert_eq!(img[4], 0xAB);
    assert_eq!(&img[6..8], &[0x02, 0x01]);
    assert_eq!(&img[8..16], &[1, 2, 3, 4, 5, 6, 7, 8]);
    assert_eq!(&img[16..24], &[0x11, 0x12, 0x13, 0x14, 0x15, 0x16, 0x17, 0x18]);
    assert_eq!(&img[64..74], &[0x33; 10]);
    assert_eq!(&img[74..80], &[0; 6]);
    assert_eq!(&img[208..224], &[0x44; 16]);
    assert_eq!(&img[512..520], &[3, 0, 0, 0, 0, 0, 0, 0]);
    assert_eq!(&img[520..528], &[0, 0, 0, 0, 0, 0, 0, 0x80]);
}

#[test]
fn image_round_trip() {
    let mut x = XSave::default();
    x.legacy.fcw = Fcw::from_bits_retain(0xFFFF);
    x.legacy.mxcsr = MxCsr::from_bits_retain(0xDEAD_BEEF);
    x.legacy.reserved0 = 9;
    x.legacy.xmm[15] = Xmm([0xC3; 16]);
    x.header.reserved[47] = 1;
    x.extend.reserved[2495] = 0x5A;
    let img = x.to_image();
    let y = XSave::from_image(&img).unwrap();
    assert_eq!(y.legacy.fcw.bits, 0xFFFF);
    assert_eq!(y.legacy.mxcsr.bits, 0xDEAD_BEEF);
    assert_eq!(y.legacy.reserved0, 9);
    assert_eq!(y.legacy.xmm[15].0, [0xC3; 16]);
    assert_eq!(y.header.reserved[47], 1);
    assert_eq!(y.extend.reserved[2495], 0x5A);
    assert_eq!(y.to_image(), img);
}

#[test]
fn image_of_any_bytes_round_trips() {
    let bytes: Vec<u8> = (0..3072u32).map(|i| (i * 7 % 251) as u8).collect();
    let x = XSave::from_image(&bytes).unwrap();
    assert_eq!(x.to_image(), bytes);
    assert_eq!(x.legacy.fcw.bits, u16::from_le_bytes([bytes[0], bytes[1]]));
}

#[test]
fn saved_register_comes_back() {
    let mut x = XSave::default();
    x.legacy.xmm[0] = Xmm([0x11; 16]);
    let saved = x.to_image();
    x.legacy.xmm[0] = Xmm([0x22; 16]);
    assert_eq!(x.legacy.xmm[0].0, [0x22; 16]);
    let back = XSave::from_image(&saved).unwrap();
    assert_eq!(back.legacy.xmm[0].0, [0x11; 16]);
}

#[test]
fn image_of_wrong_length_is_refused() {
    assert!(XSave::from_image(&[0u8; 3071]).is_none());
    assert!(XSave::from_image(&[0u8; 3073]).is_none());
    assert!(XSave::from_image(&[]).is_none());
}
