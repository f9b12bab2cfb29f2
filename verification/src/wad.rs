//! The WAD2 container: the 12-byte header, the directory of 32-byte
//! entries, and the archive buffer they are validated against.
//!
//! Binary layout, all integers little-endian:
//! header: magic(0:4), numentries(4:4), diroffset(8:4);
//! entry: offset(0:4), dsize(4:4), size(8:4), entry_type(12:1),
//! compression(13:1), dummy(14:2), name(16:16).

use crate::error::WadError;
use crate::lebytes::{le_u16, le_u32, lemma_le_u32_injective, read_u16_le, read_u32_le};
use crate::miptexture::{decoded_matches, dims_valid, mip_height, mip_matches, mip_offset,
    mip_record_fits, mip_valid, mip_width, all_levels_fit, DecodedTexture, MipTexture};
use crate::names::export_name;
use crate::palette::{rgb_at, Palette};
use vstd::prelude::*;

verus! {

/// The WAD2 signature: the bytes `W` `A` `D` `2` read as a little-endian u32.
pub const WAD2_MAGIC: u32 = 0x32444157;

/// The closed set of directory entry kinds.  Unrecognized kind bytes are
/// preserved, not rejected: consumers skip entries they do not handle.
#[derive(Clone, Copy, Debug, PartialEq, Eq, Structural)]
pub enum EntryType {
    /// A 768-byte block of 256 RGB triples (kind byte 0x40).
    Palette,
    /// A status-bar image (kind byte 0x42).
    StatusImage,
    /// A mip texture record with four resolutions (kind byte 0x44).
    MipTexture,
    /// A console image (kind byte 0x45).
    ConsoleImage,
    /// Any other kind byte, carried through unchanged.
    Unknown(u8),
}

/// The entry kind a directory kind byte denotes.
pub open spec fn kind_of(b: u8) -> EntryType {
    if b == 0x40 {
        EntryType::Palette
    } else if b == 0x42 {
        EntryType::StatusImage
    } else if b == 0x44 {
        EntryType::MipTexture
    } else if b == 0x45 {
        EntryType::ConsoleImage
    } else {
        EntryType::Unknown(b)
    }
}

impl EntryType {
    /// Classifies a directory kind byte.
    pub fn from_byte(b: u8) -> (t: EntryType)
        ensures
            t == kind_of(b),
    {
        if b == 0x40 {
            EntryType::Palette
        } else if b == 0x42 {
            EntryType::StatusImage
        } else if b == 0x44 {
            EntryType::MipTexture
        } else if b == 0x45 {
            EntryType::ConsoleImage
        } else {
            EntryType::Unknown(b)
        }
    }
}

/// The fixed 12-byte archive header.
#[derive(Clone, Copy, Debug, PartialEq, Eq, Structural)]
pub struct WadHeader {
    /// Must equal the WAD2 signature.
    pub magic: u32,
    /// How many 32-byte records the directory holds.
    pub numentries: u32,
    /// Absolute byte offset of the directory in the archive buffer.
    pub diroffset: u32,
}

/// The buffer holds at least the 12 header bytes.
pub open spec fn header_fits(s: Seq<u8>) -> bool {
    s.len() >= 12
}

/// The first 4 bytes carry the WAD2 signature.
pub open spec fn magic_ok(s: Seq<u8>) -> bool {
    le_u32(s, 0) == WAD2_MAGIC
}

/// `h` holds exactly the three little-endian header fields of `s`.
pub open spec fn header_matches(s: Seq<u8>, h: WadHeader) -> bool {
    &&& h.magic == le_u32(s, 0)
    &&& h.numentries == le_u32(s, 4)
    &&& h.diroffset == le_u32(s, 8)
}

impl WadHeader {
    /// Parses and validates the archive header.  This check gates every
    /// later operation: nothing downstream runs on a buffer that failed it.
    pub fn read(data: &[u8]) -> (r: Result<WadHeader, WadError>)
        ensures
            !header_fits(data@) ==> r == Err::<WadHeader, WadError>(WadError::TruncatedHeader),
            header_fits(data@) && !magic_ok(data@) ==> r == Err::<WadHeader, WadError>(
                WadError::InvalidMagic,
            ),
            header_fits(data@) && magic_ok(data@) ==> (r matches Ok(h) && header_matches(
                data@,
                h,
            )),
    {
        if data.len() < 12 {
            return Err(WadError::TruncatedHeader);
        }
        let magic = read_u32_le(data, 0);
        if magic != WAD2_MAGIC {
            return Err(WadError::InvalidMagic);
        }
        Ok(WadHeader { magic, numentries: read_u32_le(data, 4), diroffset: read_u32_le(data, 8) })
    }
}

/// Changing any single one of the 4 magic bytes, with the rest of the
/// signature window unchanged, flips header validation from success to
/// `InvalidMagic`: a valid signature never survives a one-byte change.
pub proof fn lemma_magic_byte_decides(s1: Seq<u8>, s2: Seq<u8>, i: int)
    requires
        s1.len() >= 12,
        s2.len() >= 12,
        0 <= i < 4,
        forall|j: int| 0 <= j < 4 && j != i ==> s1[j] == s2[j],
        s1[i] != s2[i],
        magic_ok(s1),
    ensures
        !magic_ok(s2),
{
    if magic_ok(s2) {
        lemma_le_u32_injective(s1, s2, 0, 0);
        assert(s1.subrange(0, 4)[i] == s2.subrange(0, 4)[i]);
        assert(false);
    }
}

/// One 32-byte directory record: where one payload lies, its size, and
/// its kind.  `offset` is absolute into the archive buffer.
#[derive(Clone, Copy, Debug)]
pub struct WadEntry {
    /// Absolute byte offset of the payload.
    pub offset: u32,
    /// Size of the payload on disk; `offset + dsize` must stay inside the buffer.
    pub dsize: u32,
    /// Uncompressed payload size.
    pub size: u32,
    /// What the payload is.
    pub entry_type: EntryType,
    /// Compression marker byte, carried through unchanged.
    pub compression: u8,
    /// Two padding bytes, carried through unchanged.
    pub dummy: u16,
    /// 16 raw name bytes, text up to the first zero.
    pub name: [u8; 16],
}

/// `e` holds exactly the fields of the 32-byte record at offset `base` of `s`.
pub open spec fn entry_matches(s: Seq<u8>, base: int, e: WadEntry) -> bool {
    &&& e.offset == le_u32(s, base)
    &&& e.dsize == le_u32(s, base + 4)
    &&& e.size == le_u32(s, base + 8)
    &&& e.entry_type == kind_of(s[base + 12])
    &&& e.compression == s[base + 13]
    &&& e.dummy == le_u16(s, base + 14)
    &&& e.name@ == s.subrange(base + 16, base + 32)
}

/// The record at `base` fits in the buffer and its payload range
/// `offset .. offset + dsize` lies inside the buffer.
pub open spec fn entry_valid_at(s: Seq<u8>, base: int) -> bool {
    &&& base + 32 <= s.len()
    &&& le_u32(s, base) + le_u32(s, base + 4) <= s.len()
}

impl WadEntry {
    /// Parses the 32-byte directory record at offset `base` and validates
    /// its payload range against the buffer.  Both a record that does not
    /// fit and a payload range that leaves the buffer are
    /// `TruncatedDirectoryEntry`.
    pub fn read(data: &[u8], base: usize) -> (r: Result<WadEntry, WadError>)
        ensures
            !entry_valid_at(data@, base as int) ==> r == Err::<WadEntry, WadError>(
                WadError::TruncatedDirectoryEntry,
            ),
            entry_valid_at(data@, base as int) ==> (r matches Ok(e) && entry_matches(
                data@,
                base as int,
                e,
            )),
    {
        let n = data.len();
        if base > n || n - base < 32 {
            return Err(WadError::TruncatedDirectoryEntry);
        }
        let offset = read_u32_le(data, base);
        let dsize = read_u32_le(data, base + 4);
        if (offset as u64) + (dsize as u64) > (n as u64) {
            return Err(WadError::TruncatedDirectoryEntry);
        }
        let size = read_u32_le(data, base + 8);
        let entry_type = EntryType::from_byte(data[base + 12]);
        let compression = data[base + 13];
        let dummy = read_u16_le(data, base + 14);
        let mut name: [u8; 16] = [0; 16];
        let mut k: usize = 0;
        while k < 16
            invariant
                0 <= k <= 16,
                base + 32 <= data@.len() <= usize::MAX,
                name@.len() == 16,
                forall|j: int| 0 <= j < k ==> name@[j] == data@[base + 16 + j],
            decreases 16 - k,
        {
            name[k] = data[base + 16 + k];
            k = k + 1;
        }
        proof {
            assert(name@ =~= data@.subrange(base as int + 16, base as int + 32));
        }
        Ok(WadEntry { offset, dsize, size, entry_type, compression, dummy, name })
    }
}

/// Absolute byte offset of the directory, as the header declares it.
pub open spec fn dir_base(s: Seq<u8>) -> int {
    le_u32(s, 8) as int
}

/// How many directory records the header declares.
pub open spec fn dir_count(s: Seq<u8>) -> int {
    le_u32(s, 4) as int
}

/// Absolute byte offset of directory record `i`.
pub open spec fn entry_base(s: Seq<u8>, i: int) -> int {
    dir_base(s) + 32 * i
}

/// All declared directory records lie inside the buffer.
pub open spec fn dir_fits(s: Seq<u8>) -> bool {
    dir_base(s) + 32 * dir_count(s) <= s.len()
}

/// Every declared record's payload range lies inside the buffer.
pub open spec fn all_entries_valid(s: Seq<u8>) -> bool {
    forall|i: int| 0 <= i < dir_count(s) ==> entry_valid_at(s, #[trigger] entry_base(s, i))
}

/// The whole container structure checks out: header present, signature
/// right, directory inside the buffer, every payload range inside the
/// buffer.
pub open spec fn directory_valid(s: Seq<u8>) -> bool {
    &&& header_fits(s)
    &&& magic_ok(s)
    &&& dir_fits(s)
    &&& all_entries_valid(s)
}

/// Directory record `i` announces a palette payload.
pub open spec fn is_palette_at(s: Seq<u8>, i: int) -> bool {
    kind_of(s[entry_base(s, i) + 12]) == EntryType::Palette
}

/// The index of the first palette record at or after `i`, or `dir_count`
/// when there is none.
pub open spec fn first_palette_from(s: Seq<u8>, i: int) -> int
    decreases dir_count(s) - i,
{
    if i < 0 || i >= dir_count(s) {
        dir_count(s)
    } else if is_palette_at(s, i) {
        i
    } else {
        first_palette_from(s, i + 1)
    }
}

/// The index of the first palette record of the directory, or `dir_count`
/// when the archive carries none.  When several palette records exist the
/// first in directory order wins; later ones are ignored.
pub open spec fn first_palette(s: Seq<u8>) -> int {
    first_palette_from(s, 0)
}

/// The archive carries at least one palette record.
pub open spec fn has_palette(s: Seq<u8>) -> bool {
    first_palette(s) < dir_count(s)
}

/// A whole archive loaded into memory; immutable for the lifetime of
/// decoding.  Every derived value is computed on demand from this buffer.
#[derive(Clone)]
pub struct WadFile {
    data: Vec<u8>,
}

impl View for WadFile {
    type V = Seq<u8>;

    closed spec fn view(&self) -> Seq<u8> {
        self.data@
    }
}

impl WadFile {
    /// Wraps a fully loaded archive buffer.
    pub fn new(data: Vec<u8>) -> (w: WadFile)
        ensures
            w@ == data@,
    {
        WadFile { data }
    }

    /// Walks the directory: starting at the header's directory offset,
    /// reads exactly the declared number of consecutive 32-byte records,
    /// in directory order.  The walk is bounded by the declared count,
    /// never by scanning to the end of the buffer.  A directory that
    /// leaves the buffer fails fast with `TruncatedDirectory` before any
    /// record is read; a record whose payload range leaves the buffer
    /// aborts the whole walk with `TruncatedDirectoryEntry`.
    pub fn enumerate_entries(&self) -> (r: Result<Vec<WadEntry>, WadError>)
        ensures
            !header_fits(self@) ==> r == Err::<Vec<WadEntry>, WadError>(WadError::TruncatedHeader),
            header_fits(self@) && !magic_ok(self@) ==> r == Err::<Vec<WadEntry>, WadError>(
                WadError::InvalidMagic,
            ),
            header_fits(self@) && magic_ok(self@) && !dir_fits(self@) ==> r == Err::<
                Vec<WadEntry>,
                WadError,
            >(WadError::TruncatedDirectory),
            header_fits(self@) && magic_ok(self@) && dir_fits(self@) && !all_entries_valid(self@)
                ==> r == Err::<Vec<WadEntry>, WadError>(WadError::TruncatedDirectoryEntry),
            directory_valid(self@) ==> (r matches Ok(es) && es@.len() == dir_count(self@)
                && forall|i: int|
                0 <= i < dir_count(self@) ==> entry_matches(
                    self@,
                    #[trigger] entry_base(self@, i),
                    es@[i],
                )),
    {
        let data = self.data.as_slice();
        let n = data.len();
        let header = match WadHeader::read(data) {
            Ok(h) => h,
            Err(e) => { return Err(e) },
        };
        let count = header.numentries;
        let base = header.diroffset;
        if (base as u64) + 32u64 * (count as u64) > (n as u64) {
            return Err(WadError::TruncatedDirectory);
        }
        let ghost s = self@;
        let mut entries: Vec<WadEntry> = Vec::new();
        let mut i: u32 = 0;
        while i < count
            invariant
                0 <= i <= count,
                data@ == s,
                s == self@,
                n == s.len() <= usize::MAX,
                header_fits(s),
                magic_ok(s),
                base == le_u32(s, 8),
                count == le_u32(s, 4),
                dir_base(s) + 32 * dir_count(s) <= n,
                entries@.len() == i,
                forall|j: int| 0 <= j < i ==> entry_valid_at(s, #[trigger] entry_base(s, j)),
                forall|j: int|
                    0 <= j < i ==> entry_matches(s, #[trigger] entry_base(s, j), entries@[j]),
            decreases count - i,
        {
            let eb = (base as usize) + 32 * (i as usize);
            proof {
                assert(eb as int == entry_base(s, i as int));
            }
            match WadEntry::read(data, eb) {
                Ok(e) => { entries.push(e) },
                Err(err) => {
                    proof {
                        assert(!entry_valid_at(s, entry_base(s, i as int)));
                        assert(!all_entries_valid(s));
                    }
                    return Err(err);
                },
            }
            i = i + 1;
        }
        Ok(entries)
    }

    /// Resolves the archive's palette: the first directory record of kind
    /// `Palette` wins, and the 768 bytes at its payload offset become the
    /// table.  An archive without a palette record yields `Ok(None)`; one
    /// whose palette payload has fewer than 768 bytes left in the buffer
    /// fails with `InvalidPaletteSize`.
    pub fn get_palette(&self) -> (r: Result<Option<Palette>, WadError>)
        ensures
            !header_fits(self@) ==> r == Err::<Option<Palette>, WadError>(
                WadError::TruncatedHeader,
            ),
            header_fits(self@) && !magic_ok(self@) ==> r == Err::<Option<Palette>, WadError>(
                WadError::InvalidMagic,
            ),
            header_fits(self@) && magic_ok(self@) && !dir_fits(self@) ==> r == Err::<
                Option<Palette>,
                WadError,
            >(WadError::TruncatedDirectory),
            header_fits(self@) && magic_ok(self@) && dir_fits(self@) && !all_entries_valid(self@)
                ==> r == Err::<Option<Palette>, WadError>(WadError::TruncatedDirectoryEntry),
            directory_valid(self@) && !has_palette(self@) ==> r == Ok::<Option<Palette>, WadError>(
                None,
            ),
            directory_valid(self@) && has_palette(self@) && le_u32(
                self@,
                entry_base(self@, first_palette(self@)),
            ) + 768 > self@.len() ==> r == Err::<Option<Palette>, WadError>(
                WadError::InvalidPaletteSize,
            ),
            directory_valid(self@) && has_palette(self@) && le_u32(
                self@,
                entry_base(self@, first_palette(self@)),
            ) + 768 <= self@.len() ==> (r matches Ok(op) && op matches Some(p) && p.wf()
                && forall|k: int|
                0 <= k < 256 ==> p@[k] == rgb_at(
                    self@,
                    le_u32(self@, entry_base(self@, first_palette(self@))) + 3 * k,
                )),
    {
        let entries = match self.enumerate_entries() {
            Ok(es) => es,
            Err(e) => { return Err(e) },
        };
        let ghost s = self@;
        let n = self.data.len();
        let count = entries.len();
        let mut i: usize = 0;
        while i < count
            invariant
                0 <= i <= count,
                s == self@,
                directory_valid(s),
                n == s.len() <= usize::MAX,
                count == dir_count(s),
                entries@.len() == count,
                forall|j: int|
                    0 <= j < count ==> entry_matches(s, #[trigger] entry_base(s, j), entries@[j]),
                first_palette(s) == first_palette_from(s, i as int),
            decreases count - i,
        {
            if entries[i].entry_type == EntryType::Palette {
                proof {
                    assert(is_palette_at(s, i as int));
                    assert(first_palette_from(s, i as int) == i);
                }
                let off = entries[i].offset;
                if (off as u64) + 768u64 > (n as u64) {
                    return Err(WadError::InvalidPaletteSize);
                }
                let off_us = off as usize;
                let data = self.data.as_slice();
                let block = &data[off_us..off_us + 768];
                let p = Palette::from_data(block);
                proof {
                    assert forall|k: int| 0 <= k < 256 implies p@[k] == rgb_at(
                        s,
                        le_u32(s, entry_base(s, first_palette(s))) + 3 * k,
                    ) by {
                        assert(p@[k] == rgb_at(block@, 3 * k));
                        assert(block@[3 * k] == s[off + 3 * k]);
                        assert(block@[3 * k + 1] == s[off + 3 * k + 1]);
                        assert(block@[3 * k + 2] == s[off + 3 * k + 2]);
                    }
                }
                return Ok(Some(p));
            }
            proof {
                assert(!is_palette_at(s, i as int));
                assert(first_palette_from(s, i as int) == first_palette_from(s, i as int + 1));
            }
            i = i + 1;
        }
        proof {
            assert(first_palette_from(s, count as int) == dir_count(s));
        }
        Ok(None)
    }

    /// Decodes one texture entry end to end: reads and validates the mip
    /// record at the entry's payload offset, maps the level-0 indexed
    /// pixels through the palette, and sanitizes the name into a
    /// filename stem.  A failure here is terminal for this entry only; a
    /// caller walking many entries reports it and goes on with the rest.
    pub fn decode_texture(&self, entry: &WadEntry, pal: &Palette) -> (r: Result<
        DecodedTexture,
        WadError,
    >)
        requires
            pal.wf(),
        ensures
            !mip_record_fits(self@, entry.offset as int) ==> r == Err::<DecodedTexture, WadError>(
                WadError::TruncatedPixelData,
            ),
            mip_record_fits(self@, entry.offset as int) && !dims_valid(
                mip_width(self@, entry.offset as int),
                mip_height(self@, entry.offset as int),
            ) ==> r == Err::<DecodedTexture, WadError>(WadError::InvalidTextureDimensions),
            mip_record_fits(self@, entry.offset as int) && dims_valid(
                mip_width(self@, entry.offset as int),
                mip_height(self@, entry.offset as int),
            ) && !all_levels_fit(self@, entry.offset as int) ==> r == Err::<
                DecodedTexture,
                WadError,
            >(WadError::TruncatedPixelData),
            mip_valid(self@, entry.offset as int) ==> (r matches Ok(d) && decoded_matches(
                self@,
                entry.offset as int,
                pal@,
                d,
            )),
    {
        let t = match MipTexture::read(self.data.as_slice(), entry.offset as usize) {
            Ok(t) => t,
            Err(e) => { return Err(e) },
        };
        let rgb = t.to_rgb_image(pal);
        let name = export_name(&t.name);
        proof {
            let s = self@;
            let base = entry.offset as int;
            if mip_valid(s, base) {
                assert(mip_matches(s, base, t));
                let w = mip_width(s, base);
                let h = mip_height(s, base);
                let px = s.subrange(
                    base + mip_offset(s, base, 0),
                    base + mip_offset(s, base, 0) + w * h,
                );
                assert(t.image1@ == px);
                assert(3 * ((w as int) * (h as int)) == 3 * (w as int) * (h as int))
                    by (nonlinear_arith);
                assert(rgb@.len() == 3 * (w * h));
                assert forall|i: int| 0 <= i < w * h implies rgb_at(rgb@, 3 * i) == pal@[px[i] as int]
                by {
                    assert(rgb_at(rgb@, 3 * i) == pal@[t.image1@[i] as int]);
                }
            }
        }
        Ok(DecodedTexture { name, width: t.width, height: t.height, rgb })
    }
}

} // verus!
