//! Decoder for WAD2 texture archives: a flat binary container holding a
//! 12-byte header, a directory of 32-byte entries, a 256-color palette
//! block, and mip-texture records with four resolutions of indexed-color
//! pixel data.  Every byte range is validated against the archive buffer
//! before it is read; each texture decodes through the palette to an
//! interleaved RGB pixel buffer.

pub mod error;
pub mod lebytes;
pub mod miptexture;
pub mod names;
pub mod palette;
pub mod wad;

pub use crate::error::WadError;
pub use crate::miptexture::DecodedTexture;
pub use crate::miptexture::MipTexture;
pub use crate::names::export_name;
pub use crate::names::get_entry_name;
pub use crate::palette::decode_indexed_image;
pub use crate::palette::indexed_to_rgb;
pub use crate::palette::Palette;
pub use crate::palette::Rgb;
pub use crate::wad::EntryType;
pub use crate::wad::WadEntry;
pub use crate::wad::WadFile;
pub use crate::wad::WadHeader;
pub use crate::wad::WAD2_MAGIC;
