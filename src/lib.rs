//! The x86 XSAVE area in its standard (non-compacted) form, as one constant-size
//! value: a 512-byte legacy area, a 64-byte header and a 2,496-byte extended area
//! that over-provisions for every optional state component.
//!
//! Each area knows its byte image, the exact bytes that `xsave` writes and `xrstor`
//! reads at each offset. Encoding a value into its image and decoding an image back
//! are proved to be inverse to each other, so reserved and undefined bits pass through
//! unchanged.
pub mod flags;
pub mod image;
pub mod area;

pub use area::{
    Mm, MmField, XSave, XSaveExtend, XSaveHeader, XSaveLegacy, Xmm, EXTEND_SIZE, HEADER_SIZE,
    LEGACY_SIZE, XSAVE_ALIGN, XSAVE_SIZE,
};
pub use flags::{Fcw, Fsw, MxCsr, XCompBv, XStateBv};
