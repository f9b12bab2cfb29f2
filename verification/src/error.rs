//! The error kinds a decode operation can report.  Every validation
//! failure is terminal for the operation that detected it; no operation
//! truncates silently or panics.

use vstd::prelude::*;

verus! {

/// Why a decode operation failed.
#[derive(Clone, Copy, Debug, PartialEq, Eq, Structural)]
pub enum WadError {
    /// The buffer is shorter than the 12-byte header.
    TruncatedHeader,
    /// The first 4 bytes are not the WAD2 signature.
    InvalidMagic,
    /// The declared directory does not fit inside the buffer.
    TruncatedDirectory,
    /// A directory entry's payload range falls outside the buffer.
    TruncatedDirectoryEntry,
    /// Fewer than 768 palette bytes remain at the palette entry's offset.
    InvalidPaletteSize,
    /// A texture's width or height is zero or not a multiple of 8.
    InvalidTextureDimensions,
    /// A mip level's pixel range falls outside the buffer.
    TruncatedPixelData,
    /// An indexed pixel buffer's length is not width times height.
    PixelCountMismatch,
}

} // verus!
