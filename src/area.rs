//! The XSAVE area in standard form and its byte image.
//!
//! | region   | offset | size  |
//! |----------|--------|-------|
//! | legacy   | 0      | 512   |
//! | header   | 512    | 64    |
//! | extended | 576    | 2,496 |
//! | total    | 0      | 3,072 |
//!
//! The hardware wants the area at a 64-byte aligned address.
use vstd::prelude::*;
use vstd::bytes::*;
use vstd::slice::slice_subrange;
use crate::flags::{Fcw, Fsw, MxCsr, XCompBv, XStateBv};
use crate::image::{zeros, slots, lemma_slot, lemma_slots_of, push_bytes, read_array};

verus! {

/// Size in bytes of the legacy area.
pub const LEGACY_SIZE: usize = 512;

/// Size in bytes of the header area.
pub const HEADER_SIZE: usize = 64;

/// Size in bytes of the extended area.
pub const EXTEND_SIZE: usize = 2496;

/// Size in bytes of the whole area.
pub const XSAVE_SIZE: usize = 3072;

/// Alignment in bytes that `xsave` and `xrstor` require of the area's address.
pub const XSAVE_ALIGN: usize = 64;

/// The little-endian bytes of the three word widths.
pub proof fn lemma_le_words()
    ensures
        forall|x: u16| #![trigger spec_u16_to_le_bytes(x)] spec_u16_to_le_bytes(x).len() == 2,
        forall|x: u32| #![trigger spec_u32_to_le_bytes(x)] spec_u32_to_le_bytes(x).len() == 4,
        forall|x: u64| #![trigger spec_u64_to_le_bytes(x)] spec_u64_to_le_bytes(x).len() == 8,
        forall|x: u16, y: u16| #[trigger] spec_u16_to_le_bytes(x) == #[trigger] spec_u16_to_le_bytes(y) ==> x == y,
        forall|x: u32, y: u32| #[trigger] spec_u32_to_le_bytes(x) == #[trigger] spec_u32_to_le_bytes(y) ==> x == y,
        forall|x: u64, y: u64| #[trigger] spec_u64_to_le_bytes(x) == #[trigger] spec_u64_to_le_bytes(y) ==> x == y,
{
    lemma_auto_spec_u16_to_from_le_bytes();
    lemma_auto_spec_u32_to_from_le_bytes();
    lemma_auto_spec_u64_to_from_le_bytes();
    assert forall|x: u16, y: u16| #[trigger] spec_u16_to_le_bytes(x) == #[trigger] spec_u16_to_le_bytes(y)
        implies x == y by {
        assert(spec_u16_to_le_bytes(x).len() == 2 && spec_u16_to_le_bytes(y).len() == 2);
        assert(spec_u16_from_le_bytes(spec_u16_to_le_bytes(y)) == y);
    }
    assert forall|x: u32, y: u32| #[trigger] spec_u32_to_le_bytes(x) == #[trigger] spec_u32_to_le_bytes(y)
        implies x == y by {
        assert(spec_u32_to_le_bytes(x).len() == 4 && spec_u32_to_le_bytes(y).len() == 4);
        assert(spec_u32_from_le_bytes(spec_u32_to_le_bytes(y)) == y);
    }
    assert forall|x: u64, y: u64| #[trigger] spec_u64_to_le_bytes(x) == #[trigger] spec_u64_to_le_bytes(y)
        implies x == y by {
        assert(spec_u64_to_le_bytes(x).len() == 8 && spec_u64_to_le_bytes(y).len() == 8);
        assert(spec_u64_from_le_bytes(spec_u64_to_le_bytes(y)) == y);
    }
}

/// Appends the two little-endian bytes of `x`.
fn push_u16(out: &mut Vec<u8>, x: u16)
    ensures
        final(out)@ == old(out)@ + spec_u16_to_le_bytes(x),
{
    let mut b = u16_to_le_bytes(x);
    out.append(&mut b);
}

/// Appends the four little-endian bytes of `x`.
fn push_u32(out: &mut Vec<u8>, x: u32)
    ensures
        final(out)@ == old(out)@ + spec_u32_to_le_bytes(x),
{
    let mut b = u32_to_le_bytes(x);
    out.append(&mut b);
}

/// Appends the eight little-endian bytes of `x`.
fn push_u64(out: &mut Vec<u8>, x: u64)
    ensures
        final(out)@ == old(out)@ + spec_u64_to_le_bytes(x),
{
    let mut b = u64_to_le_bytes(x);
    out.append(&mut b);
}

/// The little-endian word of two bytes at `at`.
fn read_u16(b: &[u8], at: usize) -> (r: u16)
    requires
        at + 2 <= b@.len(),
    ensures
        spec_u16_to_le_bytes(r) == b@.subrange(at as int, at + 2),
{
    let _len = b.len();
    let r = u16_from_le_bytes(slice_subrange(b, at, at + 2));
    proof {
        lemma_auto_spec_u16_to_from_le_bytes();
    }
    r
}

/// The little-endian word of four bytes at `at`.
fn read_u32(b: &[u8], at: usize) -> (r: u32)
    requires
        at + 4 <= b@.len(),
    ensures
        spec_u32_to_le_bytes(r) == b@.subrange(at as int, at + 4),
{
    let _len = b.len();
    let r = u32_from_le_bytes(slice_subrange(b, at, at + 4));
    proof {
        lemma_auto_spec_u32_to_from_le_bytes();
    }
    r
}

/// The little-endian word of eight bytes at `at`.
fn read_u64(b: &[u8], at: usize) -> (r: u64)
    requires
        at + 8 <= b@.len(),
    ensures
        spec_u64_to_le_bytes(r) == b@.subrange(at as int, at + 8),
{
    let _len = b.len();
    let r = u64_from_le_bytes(slice_subrange(b, at, at + 8));
    proof {
        lemma_auto_spec_u64_to_from_le_bytes();
    }
    r
}

/// An x87 / MMX register: 80 bits, not interpreted.
#[derive(Clone, Copy, Debug)]
pub struct Mm(pub [u8; 10]);

/// The 16-byte slot of an x87 / MMX register: the register, then 6 reserved bytes.
#[derive(Clone, Copy, Debug)]
pub struct MmField {
    pub mm: Mm,
    pub reserved: [u8; 6],
}

/// An XMM register: 128 bits, not interpreted.
#[derive(Clone, Copy, Debug)]
pub struct Xmm(pub [u8; 16]);

impl Default for Mm {
    /// All zero.
    fn default() -> (r: Self)
        ensures
            r.0@ == zeros(10),
    {
        let r = Mm([0u8; 10]);
        assert(r.0@ =~= zeros(10));
        r
    }
}

impl Default for Xmm {
    /// All zero.
    fn default() -> (r: Self)
        ensures
            r.0@ == zeros(16),
    {
        let r = Xmm([0u8; 16]);
        assert(r.0@ =~= zeros(16));
        r
    }
}

impl MmField {
    /// The slot's 16 bytes.
    pub open spec fn image(&self) -> Seq<u8> {
        self.mm.0@ + self.reserved@
    }
}

impl Default for MmField {
    /// All zero.
    fn default() -> (r: Self)
        ensures
            r.image() == zeros(16),
    {
        let r = MmField { mm: Mm::default(), reserved: [0u8; 6] };
        assert(r.image() =~= zeros(16));
        r
    }
}

/// The legacy area: the x87 and SSE state, 512 bytes.
#[derive(Clone, Copy, Debug)]
pub struct XSaveLegacy {
    pub fcw: Fcw,
    pub fsw: Fsw,
    /// The abridged tag word: one bit per x87 register.
    pub ftw: u8,
    pub reserved0: u8,
    /// The last x87 opcode.
    pub fop: u16,
    /// The last x87 instruction pointer.
    pub fip: u64,
    /// The last x87 data pointer.
    pub fdp: u64,
    pub mxcsr: MxCsr,
    /// Which MXCSR bits the processor supports.
    pub mxcsr_mask: MxCsr,
    pub mm: [MmField; 8],
    pub xmm: [Xmm; 16],
    /// Reserved bytes up to the end of the area.
    pub reserved1: [u8; 96],
}

impl XSaveLegacy {
    /// The register slots of `mm`, in order.
    pub open spec fn mm_slots(&self) -> Seq<Seq<u8>> {
        self.mm@.map_values(|f: MmField| f.image())
    }

    /// The register slots of `xmm`, in order.
    pub open spec fn xmm_slots(&self) -> Seq<Seq<u8>> {
        self.xmm@.map_values(|x: Xmm| x.0@)
    }

    /// The area's bytes, fields in order and words little-endian.
    pub open spec fn image(&self) -> Seq<u8> {
        spec_u16_to_le_bytes(self.fcw.bits) + spec_u16_to_le_bytes(self.fsw.bits) + seq![
            self.ftw,
            self.reserved0,
        ] + spec_u16_to_le_bytes(self.fop) + spec_u64_to_le_bytes(self.fip) + spec_u64_to_le_bytes(
            self.fdp,
        ) + spec_u32_to_le_bytes(self.mxcsr.bits) + spec_u32_to_le_bytes(self.mxcsr_mask.bits) + slots(
            self.mm_slots(),
        ) + slots(self.xmm_slots()) + self.reserved1@
    }

    /// Where each field stands in the 512 bytes of the area.
    pub proof fn lemma_layout(&self)
        ensures
            self.image().len() == LEGACY_SIZE,
            self.image().subrange(0, 2) == spec_u16_to_le_bytes(self.fcw.bits),
            self.image().subrange(2, 4) == spec_u16_to_le_bytes(self.fsw.bits),
            self.image()[4] == self.ftw,
            self.image()[5] == self.reserved0,
            self.image().subrange(6, 8) == spec_u16_to_le_bytes(self.fop),
            self.image().subrange(8, 16) == spec_u64_to_le_bytes(self.fip),
            self.image().subrange(16, 24) == spec_u64_to_le_bytes(self.fdp),
            self.image().subrange(24, 28) == spec_u32_to_le_bytes(self.mxcsr.bits),
            self.image().subrange(28, 32) == spec_u32_to_le_bytes(self.mxcsr_mask.bits),
            forall|k: int|
                0 <= k < 8 ==> self.image().subrange(32 + 16 * k, 48 + 16 * k) == #[trigger] self.mm[k].image(),
            forall|k: int|
                0 <= k < 16 ==> self.image().subrange(160 + 16 * k, 176 + 16 * k) == #[trigger] self.xmm[k].0@,
            self.image().subrange(416, 512) == self.reserved1@,
    {
        lemma_le_words();
        let img = self.image();
        let mm = slots(self.mm_slots());
        let xmm = slots(self.xmm_slots());
        assert(img.subrange(0, 2) =~= spec_u16_to_le_bytes(self.fcw.bits));
        assert(img.subrange(2, 4) =~= spec_u16_to_le_bytes(self.fsw.bits));
        assert(img.subrange(6, 8) =~= spec_u16_to_le_bytes(self.fop));
        assert(img.subrange(8, 16) =~= spec_u64_to_le_bytes(self.fip));
        assert(img.subrange(16, 24) =~= spec_u64_to_le_bytes(self.fdp));
        assert(img.subrange(24, 28) =~= spec_u32_to_le_bytes(self.mxcsr.bits));
        assert(img.subrange(28, 32) =~= spec_u32_to_le_bytes(self.mxcsr_mask.bits));
        assert(img.subrange(32, 160) =~= mm);
        assert(img.subrange(160, 416) =~= xmm);
        assert(img.subrange(416, 512) =~= self.reserved1@);
        assert forall|k: int| 0 <= k < 8 implies img.subrange(32 + 16 * k, 48 + 16 * k)
            == #[trigger] self.mm[k].image() by {
            lemma_slot(self.mm_slots(), k);
            assert(img.subrange(32 + 16 * k, 48 + 16 * k) =~= mm.subrange(16 * k, 16 * k + 16));
        }
        assert forall|k: int| 0 <= k < 16 implies img.subrange(160 + 16 * k, 176 + 16 * k)
            == #[trigger] self.xmm[k].0@ by {
            lemma_slot(self.xmm_slots(), k);
            assert(img.subrange(160 + 16 * k, 176 + 16 * k) =~= xmm.subrange(16 * k, 16 * k + 16));
        }
    }

    /// Two legacy areas with the same bytes are the same.
    pub proof fn lemma_image_injective(a: XSaveLegacy, b: XSaveLegacy)
        requires
            a.image() == b.image(),
        ensures
            a == b,
    {
        lemma_le_words();
        a.lemma_layout();
        b.lemma_layout();
        assert(a.fcw == b.fcw);
        assert(a.fsw == b.fsw);
        assert(a.mxcsr == b.mxcsr);
        assert(a.mxcsr_mask == b.mxcsr_mask);
        assert forall|k: int| 0 <= k < 8 implies a.mm[k] == b.mm[k] by {
            assert(a.mm[k].image() == b.mm[k].image());
            assert(a.mm[k].image().subrange(0, 10) =~= a.mm[k].mm.0@);
            assert(b.mm[k].image().subrange(0, 10) =~= b.mm[k].mm.0@);
            assert(a.mm[k].image().subrange(10, 16) =~= a.mm[k].reserved@);
            assert(b.mm[k].image().subrange(10, 16) =~= b.mm[k].reserved@);
            assert(a.mm[k].mm.0 =~= b.mm[k].mm.0);
            assert(a.mm[k].reserved =~= b.mm[k].reserved);
        }
        assert forall|k: int| 0 <= k < 16 implies a.xmm[k] == b.xmm[k] by {
            assert(a.xmm[k].0@ == b.xmm[k].0@);
            assert(a.xmm[k].0 =~= b.xmm[k].0);
        }
        assert(a.mm =~= b.mm);
        assert(a.xmm =~= b.xmm);
        assert(a.reserved1 =~= b.reserved1);
    }

    /// Appends the area's 512 bytes.
    pub fn write_image(&self, out: &mut Vec<u8>)
        ensures
            final(out)@ == old(out)@ + self.image(),
    {
        let ghost start = out@;
        push_u16(out, self.fcw.bits);
        push_u16(out, self.fsw.bits);
        out.push(self.ftw);
        out.push(self.reserved0);
        push_u16(out, self.fop);
        push_u64(out, self.fip);
        push_u64(out, self.fdp);
        push_u32(out, self.mxcsr.bits);
        push_u32(out, self.mxcsr_mask.bits);
        let ghost head = out@;
        let mut k: usize = 0;
        while k < 8
            invariant
                k <= 8,
                out@.len() == head.len() + 16 * k,
                forall|i: int| 0 <= i < head.len() ==> out@[i] == head[i],
                forall|i: int| 0 <= i < 16 * k ==> out@[head.len() + i] == slots(self.mm_slots())[i],
            decreases 8 - k,
        {
            let ghost before = out@;
            push_bytes(out, self.mm[k].mm.0.as_slice());
            push_bytes(out, self.mm[k].reserved.as_slice());
            proof {
                assert(out@ == before + self.mm[k as int].image());
                assert forall|j: int| 0 <= j < 16 implies out@[head.len() + 16 * k + j]
                    == #[trigger] slots(self.mm_slots())[16 * k + j] by {
                    crate::image::lemma_slot_byte(self.mm_slots(), k as int, j);
                }
            }
            k += 1;
        }
        assert(out@ =~= head + slots(self.mm_slots()));
        let ghost mid = out@;
        let mut k: usize = 0;
        while k < 16
            invariant
                k <= 16,
                out@.len() == mid.len() + 16 * k,
                forall|i: int| 0 <= i < mid.len() ==> out@[i] == mid[i],
                forall|i: int| 0 <= i < 16 * k ==> out@[mid.len() + i] == slots(self.xmm_slots())[i],
            decreases 16 - k,
        {
            let ghost before = out@;
            push_bytes(out, self.xmm[k].0.as_slice());
            proof {
                assert forall|j: int| 0 <= j < 16 implies out@[mid.len() + 16 * k + j]
                    == #[trigger] slots(self.xmm_slots())[16 * k + j] by {
                    crate::image::lemma_slot_byte(self.xmm_slots(), k as int, j);
                }
            }
            k += 1;
        }
        assert(out@ =~= mid + slots(self.xmm_slots()));
        push_bytes(out, self.reserved1.as_slice());
        proof {
            lemma_le_words();
            assert(out@ =~= start + self.image());
        }
    }

    /// The legacy area whose 512 bytes stand in `b` from `at`.
    pub fn read_image(b: &[u8], at: usize) -> (r: XSaveLegacy)
        requires
            at + LEGACY_SIZE <= b@.len(),
        ensures
            r.image() == b@.subrange(at as int, at + LEGACY_SIZE),
    {
        let len = b.len();
        let fcw = Fcw::from_bits_retain(read_u16(b, at));
        let fsw = Fsw::from_bits_retain(read_u16(b, at + 2));
        let ftw = b[at + 4];
        let reserved0 = b[at + 5];
        let fop = read_u16(b, at + 6);
        let fip = read_u64(b, at + 8);
        let fdp = read_u64(b, at + 16);
        let mxcsr = MxCsr::from_bits_retain(read_u32(b, at + 24));
        let mxcsr_mask = MxCsr::from_bits_retain(read_u32(b, at + 28));
        let mut mm = [MmField::default(); 8];
        let mut k: usize = 0;
        while k < 8
            invariant
                k <= 8,
                at + LEGACY_SIZE <= b@.len() == len,
                forall|i: int|
                    0 <= i < k ==> (#[trigger] mm[i]).image() == b@.subrange(
                        at + 32 + 16 * i,
                        at + 48 + 16 * i,
                    ),
            decreases 8 - k,
        {
            let f = MmField { mm: Mm(read_array(b, at + 32 + 16 * k)), reserved: read_array(b, at + 42 + 16 * k) };
            assert(f.image() =~= b@.subrange(at + 32 + 16 * k, at + 48 + 16 * k));
            mm[k] = f;
            k += 1;
        }
        let mut xmm = [Xmm::default(); 16];
        let mut k: usize = 0;
        while k < 16
            invariant
                k <= 16,
                at + LEGACY_SIZE <= b@.len() == len,
                forall|i: int|
                    0 <= i < k ==> (#[trigger] xmm[i]).0@ == b@.subrange(
                        at + 160 + 16 * i,
                        at + 176 + 16 * i,
                    ),
            decreases 16 - k,
        {
            xmm[k] = Xmm(read_array(b, at + 160 + 16 * k));
            k += 1;
        }
        let reserved1 = read_array(b, at + 416);
        let r = XSaveLegacy { fcw, fsw, ftw, reserved0, fop, fip, fdp, mxcsr, mxcsr_mask, mm, xmm, reserved1 };
        proof {
            lemma_le_words();
            let bb = b@;
            let a = at as int;
            lemma_slots_of(r.mm_slots(), bb, a + 32);
            lemma_slots_of(r.xmm_slots(), bb, a + 160);
            assert(r.image() =~= bb.subrange(a, a + 512));
        }
        r
    }
}

impl XSaveLegacy {
    /// The state at reset: control words per `Fcw` and `MxCsr` defaults, every named
    /// bit of the MXCSR mask, every other field and byte zero.
    pub open spec fn is_reset(&self) -> bool {
        &&& self.fcw.bits == 0x037F
        &&& self.fsw.bits == 0
        &&& self.ftw == 0
        &&& self.reserved0 == 0
        &&& self.fop == 0
        &&& self.fip == 0
        &&& self.fdp == 0
        &&& self.mxcsr.bits == 0x1F80
        &&& self.mxcsr_mask.bits == 0xFFFF
        &&& forall|k: int| 0 <= k < 8 ==> #[trigger] self.mm[k].image() == zeros(16)
        &&& forall|k: int| 0 <= k < 16 ==> #[trigger] self.xmm[k].0@ == zeros(16)
        &&& self.reserved1@ == zeros(96)
    }
}

impl Default for XSaveLegacy {
    /// The x87 and SSE state at reset.
    fn default() -> (r: Self)
        ensures
            r.is_reset(),
    {
        proof {
            assert((1u32 << 0u32) | (1u32 << 1u32) | (1u32 << 2u32) | (1u32 << 3u32) | (1u32 << 4u32)
                | (1u32 << 5u32) | (1u32 << 6u32) | (1u32 << 7u32) | (1u32 << 8u32) | (1u32 << 9u32)
                | (1u32 << 10u32) | (1u32 << 11u32) | (1u32 << 12u32) | (1u32 << 13u32) | (1u32
                << 14u32) | (1u32 << 15u32) == 0xFFFF) by (bit_vector);
        }
        let r = XSaveLegacy {
            fcw: Fcw::default(),
            fsw: Fsw::default(),
            ftw: 0,
            reserved0: 0,
            fop: 0,
            fip: 0,
            fdp: 0,
            mxcsr: MxCsr::default(),
            mxcsr_mask: MxCsr::all(),
            mm: [MmField::default(); 8],
            xmm: [Xmm::default(); 16],
            reserved1: [0u8; 96],
        };
        assert(r.reserved1@ =~= zeros(96));
        r
    }
}

/// The header area: which state components the area holds, and in which form. 64 bytes.
#[derive(Clone, Copy, Debug)]
pub struct XSaveHeader {
    pub xstate_bv: XStateBv,
    pub xcomp_bv: XCompBv,
    /// Reserved bytes; `xrstor` faults unless they are zero.
    pub reserved: [u8; 48],
}

impl XSaveHeader {
    /// The area's bytes: the two bitmaps little-endian, then the reserved bytes.
    pub open spec fn image(&self) -> Seq<u8> {
        spec_u64_to_le_bytes(self.xstate_bv.bits) + spec_u64_to_le_bytes(self.xcomp_bv.bits)
            + self.reserved@
    }

    /// Where each field stands in the 64 bytes of the area.
    pub proof fn lemma_layout(&self)
        ensures
            self.image().len() == HEADER_SIZE,
            self.image().subrange(0, 8) == spec_u64_to_le_bytes(self.xstate_bv.bits),
            self.image().subrange(8, 16) == spec_u64_to_le_bytes(self.xcomp_bv.bits),
            self.image().subrange(16, 64) == self.reserved@,
    {
        lemma_le_words();
        assert(self.image().subrange(0, 8) =~= spec_u64_to_le_bytes(self.xstate_bv.bits));
        assert(self.image().subrange(8, 16) =~= spec_u64_to_le_bytes(self.xcomp_bv.bits));
        assert(self.image().subrange(16, 64) =~= self.reserved@);
    }

    /// Appends the area's 64 bytes.
    pub fn write_image(&self, out: &mut Vec<u8>)
        ensures
            final(out)@ == old(out)@ + self.image(),
    {
        let ghost start = out@;
        push_u64(out, self.xstate_bv.bits);
        push_u64(out, self.xcomp_bv.bits);
        push_bytes(out, self.reserved.as_slice());
        assert(out@ =~= start + self.image());
    }

    /// The header area whose 64 bytes stand in `b` from `at`.
    pub fn read_image(b: &[u8], at: usize) -> (r: XSaveHeader)
        requires
            at + HEADER_SIZE <= b@.len(),
        ensures
            r.image() == b@.subrange(at as int, at + HEADER_SIZE),
    {
        let _len = b.len();
        let r = XSaveHeader {
            xstate_bv: XStateBv::from_bits_retain(read_u64(b, at)),
            xcomp_bv: XCompBv::from_bits_retain(read_u64(b, at + 8)),
            reserved: read_array(b, at + 16),
        };
        proof {
            lemma_le_words();
            assert(r.image() =~= b@.subrange(at as int, at + HEADER_SIZE));
        }
        r
    }
}

impl Default for XSaveHeader {
    /// No component present, standard form, reserved bytes zero.
    fn default() -> (r: Self)
        ensures
            r.xstate_bv.bits == 0,
            r.xcomp_bv.bits == 0,
            r.reserved@ == zeros(48),
    {
        let r = XSaveHeader { xstate_bv: XStateBv::default(), xcomp_bv: XCompBv::default(), reserved: [0u8; 48] };
        assert(r.reserved@ =~= zeros(48));
        r
    }
}

/// The extended area: room for every optional state component (AVX, MPX, AVX-512,
/// PT, PKRU and more to come), kept as bytes and not interpreted. It is larger than
/// any processor needs, so that the whole area has one size.
#[derive(Clone, Copy, Debug)]
pub struct XSaveExtend {
    pub reserved: [u8; 2496],
}

impl Default for XSaveExtend {
    /// All zero.
    fn default() -> (r: Self)
        ensures
            r.reserved@ == zeros(2496),
    {
        let r = XSaveExtend { reserved: [0u8; 2496] };
        assert(r.reserved@ =~= zeros(2496));
        r
    }
}

/// The whole XSAVE area: legacy, header and extended areas, end to end.
#[derive(Clone, Copy, Debug)]
pub struct XSave {
    pub legacy: XSaveLegacy,
    pub header: XSaveHeader,
    pub extend: XSaveExtend,
}

impl XSave {
    /// The 3,072 bytes that `xsave` writes and `xrstor` reads.
    pub open spec fn image(&self) -> Seq<u8> {
        self.legacy.image() + self.header.image() + self.extend.reserved@
    }

    /// The sizes and offsets of the three areas: legacy 512 bytes at 0, header 64 at
    /// 512, extended 2,496 at 576, 3,072 in all.
    pub proof fn lemma_layout(&self)
        ensures
            self.legacy.image().len() == LEGACY_SIZE,
            self.header.image().len() == HEADER_SIZE,
            self.extend.reserved@.len() == EXTEND_SIZE,
            self.image().len() == XSAVE_SIZE,
            LEGACY_SIZE + HEADER_SIZE + EXTEND_SIZE == XSAVE_SIZE,
            self.image().subrange(0, 512) == self.legacy.image(),
            self.image().subrange(512, 576) == self.header.image(),
            self.image().subrange(576, 3072) == self.extend.reserved@,
    {
        self.legacy.lemma_layout();
        self.header.lemma_layout();
        assert(self.image().subrange(0, 512) =~= self.legacy.image());
        assert(self.image().subrange(512, 576) =~= self.header.image());
        assert(self.image().subrange(576, 3072) =~= self.extend.reserved@);
    }

    /// A value is determined by its image: decoding the bytes that `to_image` gives
    /// for `a` yields `a` again, reserved and undefined bits included.
    pub proof fn lemma_image_injective(a: XSave, b: XSave)
        requires
            a.image() == b.image(),
        ensures
            a == b,
    {
        a.lemma_layout();
        b.lemma_layout();
        XSaveLegacy::lemma_image_injective(a.legacy, b.legacy);
        a.header.lemma_layout();
        b.header.lemma_layout();
        lemma_le_words();
        assert(a.header.xstate_bv == b.header.xstate_bv);
        assert(a.header.xcomp_bv == b.header.xcomp_bv);
        assert(a.header.reserved =~= b.header.reserved);
        assert(a.extend.reserved =~= b.extend.reserved);
    }

    /// The area's image.
    pub fn to_image(&self) -> (r: Vec<u8>)
        ensures
            r@ == self.image(),
            r@.len() == XSAVE_SIZE,
    {
        let mut out: Vec<u8> = Vec::new();
        self.legacy.write_image(&mut out);
        self.header.write_image(&mut out);
        push_bytes(&mut out, self.extend.reserved.as_slice());
        proof {
            self.lemma_layout();
            assert(out@ =~= self.image());
        }
        out
    }

    /// The area whose image is `b`; `None` unless `b` holds exactly 3,072 bytes.
    pub fn from_image(b: &[u8]) -> (r: Option<XSave>)
        ensures
            r.is_some() <==> b@.len() == XSAVE_SIZE,
            r matches Some(x) ==> x.image() == b@,
    {
        if b.len() != XSAVE_SIZE {
            return None;
        }
        let r = XSave {
            legacy: XSaveLegacy::read_image(b, 0),
            header: XSaveHeader::read_image(b, LEGACY_SIZE),
            extend: XSaveExtend { reserved: read_array(b, LEGACY_SIZE + HEADER_SIZE) },
        };
        proof {
            r.lemma_layout();
            assert(r.image() =~= b@);
        }
        Some(r)
    }
}

impl Default for XSave {
    /// The extended state at reset: legacy area at reset, empty header, extended
    /// area zero. Loaded, it clears every register it covers.
    fn default() -> (r: Self)
        ensures
            r.legacy.is_reset(),
            r.legacy.mxcsr.bits == 0x1F80,
            r.legacy.fcw.bits == 0x037F,
            r.legacy.fsw.bits == 0,
            r.header.xstate_bv.bits == 0,
            r.header.xcomp_bv.bits == 0,
            r.header.reserved@ == zeros(48),
            r.extend.reserved@ == zeros(2496),
    {
        XSave { legacy: XSaveLegacy::default(), header: XSaveHeader::default(), extend: XSaveExtend::default() }
    }
}

} // verus!
