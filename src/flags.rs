//! The control, status and state-component words of the XSAVE area.
//!
//! Each is a plain integer of the width the hardware uses, with a named mask per
//! bit. Bits are independent, and bits that have no name are kept as they are.
use vstd::prelude::*;

verus! {

/// The x87 FPU control word.
#[derive(Clone, Copy, Debug, PartialEq, Eq, Structural)]
pub struct Fcw {
    /// The raw value, reserved bits included.
    pub bits: u16,
}

impl Fcw {
    pub const INVALID_OPERATION: u16 = 1 << 0;
    pub const DENORMALIZED_OPERAND: u16 = 1 << 1;
    pub const DIVIDE_BY_ZERO: u16 = 1 << 2;
    pub const OVERFLOW: u16 = 1 << 3;
    pub const UNDERFLOW: u16 = 1 << 4;
    pub const PRECISION: u16 = 1 << 5;
    pub const RESERVED6: u16 = 1 << 6;
    pub const RESERVED7: u16 = 1 << 7;
    pub const PRECISION_CONTROL0: u16 = 1 << 8;
    pub const PRECISION_CONTROL1: u16 = 1 << 9;
    pub const ROUNDING_CONTROL0: u16 = 1 << 10;
    pub const ROUNDING_CONTROL1: u16 = 1 << 11;
    pub const INFINITY_CONTROL: u16 = 1 << 12;

    /// Every named bit.
    pub const ALL: u16 = Fcw::INVALID_OPERATION | Fcw::DENORMALIZED_OPERAND | Fcw::DIVIDE_BY_ZERO | Fcw::OVERFLOW | Fcw::UNDERFLOW | Fcw::PRECISION | Fcw::RESERVED6 | Fcw::RESERVED7 | Fcw::PRECISION_CONTROL0 | Fcw::PRECISION_CONTROL1 | Fcw::ROUNDING_CONTROL0 | Fcw::ROUNDING_CONTROL1 | Fcw::INFINITY_CONTROL;

    /// The value with exactly the given bits, named or not.
    pub fn from_bits_retain(bits: u16) -> (r: Self)
        ensures
            r.bits == bits,
    {
        Fcw { bits }
    }

    /// The raw value.
    pub fn bits(&self) -> (r: u16)
        ensures
            r == self.bits,
    {
        self.bits
    }

    /// No bit set.
    pub fn empty() -> (r: Self)
        ensures
            r.bits == 0,
    {
        Fcw { bits: 0 }
    }

    /// Every named bit set, and no other.
    pub fn all() -> (r: Self)
        ensures
            r.bits == Fcw::ALL,
    {
        Fcw { bits: Fcw::ALL }
    }

    /// Whether every bit of `mask` is set.
    pub fn contains(&self, mask: u16) -> (r: bool)
        ensures
            r == (self.bits & mask == mask),
    {
        self.bits & mask == mask
    }

    /// Sets the bits of `mask`, leaving the others.
    pub fn insert(&mut self, mask: u16)
        ensures
            final(self).bits == old(self).bits | mask,
    {
        self.bits = self.bits | mask;
    }

    /// Clears the bits of `mask`, leaving the others.
    pub fn remove(&mut self, mask: u16)
        ensures
            final(self).bits == old(self).bits & !mask,
    {
        self.bits = self.bits & !mask;
    }
}

/// The x87 FPU status word.
#[derive(Clone, Copy, Debug, PartialEq, Eq, Structural)]
pub struct Fsw {
    /// The raw value, reserved bits included.
    pub bits: u16,
}

impl Fsw {
    pub const INVALID_OPERATION: u16 = 1 << 0;
    pub const DENORMALIZED_OPERAND: u16 = 1 << 1;
    pub const DIVIDE_BY_ZERO: u16 = 1 << 2;
    pub const OVERFLOW: u16 = 1 << 3;
    pub const UNDERFLOW: u16 = 1 << 4;
    pub const PRECISION: u16 = 1 << 5;
    pub const STACK_FAULT: u16 = 1 << 6;
    pub const EXCEPTION_SUMMARY: u16 = 1 << 7;
    pub const CONDITION0: u16 = 1 << 8;
    pub const CONDITION1: u16 = 1 << 9;
    pub const CONDITION2: u16 = 1 << 10;
    pub const CONDITION3: u16 = 1 << 14;
    pub const FPU_BUSY: u16 = 1 << 15;

    /// Every named bit.
    pub const ALL: u16 = Fsw::INVALID_OPERATION | Fsw::DENORMALIZED_OPERAND | Fsw::DIVIDE_BY_ZERO | Fsw::OVERFLOW | Fsw::UNDERFLOW | Fsw::PRECISION | Fsw::STACK_FAULT | Fsw::EXCEPTION_SUMMARY | Fsw::CONDITION0 | Fsw::CONDITION1 | Fsw::CONDITION2 | Fsw::CONDITION3 | Fsw::FPU_BUSY;

    /// The value with exactly the given bits, named or not.
    pub fn from_bits_retain(bits: u16) -> (r: Self)
        ensures
            r.bits == bits,
    {
        Fsw { bits }
    }

    /// The raw value.
    pub fn bits(&self) -> (r: u16)
        ensures
            r == self.bits,
    {
        self.bits
    }

    /// No bit set.
    pub fn empty() -> (r: Self)
        ensures
            r.bits == 0,
    {
        Fsw { bits: 0 }
    }

    /// Every named bit set, and no other.
    pub fn all() -> (r: Self)
        ensures
            r.bits == Fsw::ALL,
    {
        Fsw { bits: Fsw::ALL }
    }

    /// Whether every bit of `mask` is set.
    pub fn contains(&self, mask: u16) -> (r: bool)
        ensures
            r == (self.bits & mask == mask),
    {
        self.bits & mask == mask
    }

    /// Sets the bits of `mask`, leaving the others.
    pub fn insert(&mut self, mask: u16)
        ensures
            final(self).bits == old(self).bits | mask,
    {
        self.bits = self.bits | mask;
    }

    /// Clears the bits of `mask`, leaving the others.
    pub fn remove(&mut self, mask: u16)
        ensures
            final(self).bits == old(self).bits & !mask,
    {
        self.bits = self.bits & !mask;
    }
}

/// The MXCSR register: SSE control and status.
#[derive(Clone, Copy, Debug, PartialEq, Eq, Structural)]
pub struct MxCsr {
    /// The raw value, reserved bits included.
    pub bits: u32,
}

impl MxCsr {
    pub const INVALID_OPERATION: u32 = 1 << 0;
    pub const DENORMAL: u32 = 1 << 1;
    pub const DIVIDE_BY_ZERO: u32 = 1 << 2;
    pub const OVERFLOW: u32 = 1 << 3;
    pub const UNDERFLOW: u32 = 1 << 4;
    pub const PRECISION: u32 = 1 << 5;
    pub const DENORMALS_ARE_ZEROS: u32 = 1 << 6;
    pub const INVALID_OPERATION_MASK: u32 = 1 << 7;
    pub const DENORMAL_MASK: u32 = 1 << 8;
    pub const DIVIDE_BY_ZERO_MASK: u32 = 1 << 9;
    pub const OVERFLOW_MASK: u32 = 1 << 10;
    pub const UNDERFLOW_MASK: u32 = 1 << 11;
    pub const PRECISION_MASK: u32 = 1 << 12;
    pub const ROUNDING_CONTROL0: u32 = 1 << 13;
    pub const ROUNDING_CONTROL1: u32 = 1 << 14;
    pub const FLUSH_TO_ZERO: u32 = 1 << 15;

    /// Every named bit.
    pub const ALL: u32 = MxCsr::INVALID_OPERATION | MxCsr::DENORMAL | MxCsr::DIVIDE_BY_ZERO | MxCsr::OVERFLOW | MxCsr::UNDERFLOW | MxCsr::PRECISION | MxCsr::DENORMALS_ARE_ZEROS | MxCsr::INVALID_OPERATION_MASK | MxCsr::DENORMAL_MASK | MxCsr::DIVIDE_BY_ZERO_MASK | MxCsr::OVERFLOW_MASK | MxCsr::UNDERFLOW_MASK | MxCsr::PRECISION_MASK | MxCsr::ROUNDING_CONTROL0 | MxCsr::ROUNDING_CONTROL1 | MxCsr::FLUSH_TO_ZERO;

    /// The value with exactly the given bits, named or not.
    pub fn from_bits_retain(bits: u32) -> (r: Self)
        ensures
            r.bits == bits,
    {
        MxCsr { bits }
    }

    /// The raw value.
    pub fn bits(&self) -> (r: u32)
        ensures
            r == self.bits,
    {
        self.bits
    }

    /// No bit set.
    pub fn empty() -> (r: Self)
        ensures
            r.bits == 0,
    {
        MxCsr { bits: 0 }
    }

    /// Every named bit set, and no other.
    pub fn all() -> (r: Self)
        ensures
            r.bits == MxCsr::ALL,
    {
        MxCsr { bits: MxCsr::ALL }
    }

    /// Whether every bit of `mask` is set.
    pub fn contains(&self, mask: u32) -> (r: bool)
        ensures
            r == (self.bits & mask == mask),
    {
        self.bits & mask == mask
    }

    /// Sets the bits of `mask`, leaving the others.
    pub fn insert(&mut self, mask: u32)
        ensures
            final(self).bits == old(self).bits | mask,
    {
        self.bits = self.bits | mask;
    }

    /// Clears the bits of `mask`, leaving the others.
    pub fn remove(&mut self, mask: u32)
        ensures
            final(self).bits == old(self).bits & !mask,
    {
        self.bits = self.bits & !mask;
    }
}

/// The XCOMP_BV field of the header: the compaction bitmap.
#[derive(Clone, Copy, Debug, PartialEq, Eq, Structural)]
pub struct XCompBv {
    /// The raw value, reserved bits included.
    pub bits: u64,
}

impl XCompBv {
    pub const COMPACT: u64 = 1 << 63;

    /// Every named bit.
    pub const ALL: u64 = XCompBv::COMPACT;

    /// The value with exactly the given bits, named or not.
    pub fn from_bits_retain(bits: u64) -> (r: Self)
        ensures
            r.bits == bits,
    {
        XCompBv { bits }
    }

    /// The raw value.
    pub fn bits(&self) -> (r: u64)
        ensures
            r == self.bits,
    {
        self.bits
    }

    /// No bit set.
    pub fn empty() -> (r: Self)
        ensures
            r.bits == 0,
    {
        XCompBv { bits: 0 }
    }

    /// Every named bit set, and no other.
    pub fn all() -> (r: Self)
        ensures
            r.bits == XCompBv::ALL,
    {
        XCompBv { bits: XCompBv::ALL }
    }

    /// Whether every bit of `mask` is set.
    pub fn contains(&self, mask: u64) -> (r: bool)
        ensures
            r == (self.bits & mask == mask),
    {
        self.bits & mask == mask
    }

    /// Sets the bits of `mask`, leaving the others.
    pub fn insert(&mut self, mask: u64)
        ensures
            final(self).bits == old(self).bits | mask,
    {
        self.bits = self.bits | mask;
    }

    /// Clears the bits of `mask`, leaving the others.
    pub fn remove(&mut self, mask: u64)
        ensures
            final(self).bits == old(self).bits & !mask,
    {
        self.bits = self.bits & !mask;
    }
}

/// The XSTATE_BV field of the header: which state components the area holds.
#[derive(Clone, Copy, Debug, PartialEq, Eq, Structural)]
pub struct XStateBv {
    /// The raw value, reserved bits included.
    pub bits: u64,
}

impl XStateBv {
    pub const X87: u64 = 1 << 0;
    pub const SSE: u64 = 1 << 1;
    pub const AVX: u64 = 1 << 2;
    pub const BNDREGS: u64 = 1 << 3;
    pub const BNDCSR: u64 = 1 << 4;
    pub const AVX512_OPMASK: u64 = 1 << 5;
    pub const AVX512_ZMM_HI256: u64 = 1 << 6;
    pub const AVX512_HI16_ZMM: u64 = 1 << 7;
    pub const PT: u64 = 1 << 8;
    pub const PKRU: u64 = 1 << 9;

    /// Every named bit.
    pub const ALL: u64 = XStateBv::X87 | XStateBv::SSE | XStateBv::AVX | XStateBv::BNDREGS | XStateBv::BNDCSR | XStateBv::AVX512_OPMASK | XStateBv::AVX512_ZMM_HI256 | XStateBv::AVX512_HI16_ZMM | XStateBv::PT | XStateBv::PKRU;

    /// The value with exactly the given bits, named or not.
    pub fn from_bits_retain(bits: u64) -> (r: Self)
        ensures
            r.bits == bits,
    {
        XStateBv { bits }
    }

    /// The raw value.
    pub fn bits(&self) -> (r: u64)
        ensures
            r == self.bits,
    {
        self.bits
    }

    /// No bit set.
    pub fn empty() -> (r: Self)
        ensures
            r.bits == 0,
    {
        XStateBv { bits: 0 }
    }

    /// Every named bit set, and no other.
    pub fn all() -> (r: Self)
        ensures
            r.bits == XStateBv::ALL,
    {
        XStateBv { bits: XStateBv::ALL }
    }

    /// Whether every bit of `mask` is set.
    pub fn contains(&self, mask: u64) -> (r: bool)
        ensures
            r == (self.bits & mask == mask),
    {
        self.bits & mask == mask
    }

    /// Sets the bits of `mask`, leaving the others.
    pub fn insert(&mut self, mask: u64)
        ensures
            final(self).bits == old(self).bits | mask,
    {
        self.bits = self.bits | mask;
    }

    /// Clears the bits of `mask`, leaving the others.
    pub fn remove(&mut self, mask: u64)
        ensures
            final(self).bits == old(self).bits & !mask,
    {
        self.bits = self.bits & !mask;
    }
}

impl Fcw {
    /// The value at reset: all six exception masks, 64-bit precision and round to
    /// nearest. The reset value `0x037F` also sets the reserved bit 6.
    pub const RESET: u16 = Fcw::INVALID_OPERATION | Fcw::DENORMALIZED_OPERAND | Fcw::DIVIDE_BY_ZERO
        | Fcw::OVERFLOW | Fcw::UNDERFLOW | Fcw::PRECISION | Fcw::RESERVED6 | Fcw::PRECISION_CONTROL0
        | Fcw::PRECISION_CONTROL1;
}

impl MxCsr {
    /// The value at reset: all six exception masks, no flag, round to nearest.
    pub const RESET: u32 = MxCsr::INVALID_OPERATION_MASK | MxCsr::DENORMAL_MASK
        | MxCsr::DIVIDE_BY_ZERO_MASK | MxCsr::OVERFLOW_MASK | MxCsr::UNDERFLOW_MASK
        | MxCsr::PRECISION_MASK;
}

impl Default for Fcw {
    /// The control word at reset.
    fn default() -> (r: Self)
        ensures
            r.bits == 0x037F,
    {
        proof {
            assert((1u16 << 0u16) | (1u16 << 1u16) | (1u16 << 2u16) | (1u16 << 3u16) | (1u16 << 4u16)
                | (1u16 << 5u16) | (1u16 << 6u16) | (1u16 << 8u16) | (1u16 << 9u16) == 0x037F)
                by (bit_vector);
        }
        Fcw { bits: Fcw::RESET }
    }
}

impl Default for Fsw {
    /// The status word at reset: all clear.
    fn default() -> (r: Self)
        ensures
            r.bits == 0,
    {
        Fsw { bits: 0 }
    }
}

impl Default for MxCsr {
    /// MXCSR at reset.
    fn default() -> (r: Self)
        ensures
            r.bits == 0x1F80,
    {
        proof {
            assert((1u32 << 7u32) | (1u32 << 8u32) | (1u32 << 9u32) | (1u32 << 10u32) | (1u32 << 11u32)
                | (1u32 << 12u32) == 0x1F80) by (bit_vector);
        }
        MxCsr { bits: MxCsr::RESET }
    }
}

impl Default for XCompBv {
    /// The standard, non-compacted form.
    fn default() -> (r: Self)
        ensures
            r.bits == 0,
    {
        XCompBv { bits: 0 }
    }
}

impl Default for XStateBv {
    /// No state component present.
    fn default() -> (r: Self)
        ensures
            r.bits == 0,
    {
        XStateBv { bits: 0 }
    }
}

} // verus!
