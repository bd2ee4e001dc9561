//! The failures that decoding and rendering can report.

use vstd::prelude::*;

verus! {

/// Why a value could not be built, decoded or rendered.
#[derive(Debug, Clone, Copy, PartialEq, Eq, Structural)]
pub enum ChunkError {
    /// The text given for a type code is not exactly four ASCII letters.
    InvalidTypeCode,
    /// The buffer is shorter than the smallest frame; `actual` is its length.
    BufferTooShort { actual: usize },
    /// The length field, read in either byte order, is not the payload's size.
    /// `declared` is the big-endian reading, `actual` the payload's size.
    LengthMismatch { declared: u32, actual: usize },
    /// The checksum field, read in either byte order, is not the checksum of
    /// the type code and payload. `declared` is the big-endian reading.
    ChecksumMismatch { declared: u32, computed: u32 },
    /// The payload is not valid UTF-8.
    TextDecodeError,
    /// The type code's bytes are not valid UTF-8.
    TextRenderError,
}

} // verus!
