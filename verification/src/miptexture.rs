//! Mip texture records: a 40-byte fixed record — name(0:16), width(16:4),
//! height(20:4), then four little-endian mip level offsets (24:4 each) —
//! followed, at those offsets relative to the record start, by four
//! indexed pixel buffers at progressively halved resolutions.

use crate::error::WadError;
use crate::lebytes::{le_u32, read_u32_le};
use crate::names::{export_chars, get_entry_name, trimmed_name};
use crate::palette::{decode_indexed_image, rgb_at, Palette};
use vstd::prelude::*;
use vstd::slice::slice_to_vec;

verus! {

/// The 40-byte record at offset `base` fits in the buffer.
pub open spec fn mip_record_fits(s: Seq<u8>, base: int) -> bool {
    base + 40 <= s.len()
}

/// The texture width the record at `base` declares.
pub open spec fn mip_width(s: Seq<u8>, base: int) -> u32 {
    le_u32(s, base + 16)
}

/// The texture height the record at `base` declares.
pub open spec fn mip_height(s: Seq<u8>, base: int) -> u32 {
    le_u32(s, base + 20)
}

/// The pixel offset of mip level `l` (relative to the record start) the
/// record at `base` declares.
pub open spec fn mip_offset(s: Seq<u8>, base: int, l: int) -> u32 {
    le_u32(s, base + 24 + 4 * l)
}

/// Texture dimensions must be non-zero multiples of 8.
pub open spec fn dims_valid(w: u32, h: u32) -> bool {
    w != 0 && h != 0 && w % 8 == 0 && h % 8 == 0
}

/// The halving factor of mip level `l`: level 0 is full size, each level
/// after it halves both dimensions.
pub open spec fn level_scale(l: int) -> int {
    if l == 0 {
        1
    } else if l == 1 {
        2
    } else if l == 2 {
        4
    } else {
        8
    }
}

/// How many pixel bytes mip level `l` of a `w` by `h` texture holds.
pub open spec fn level_size(w: u32, h: u32, l: int) -> int {
    (w as int / level_scale(l)) * (h as int / level_scale(l))
}

/// The pixel range of mip level `l` of the record at `base` lies inside
/// the buffer.
pub open spec fn level_fits(s: Seq<u8>, base: int, l: int) -> bool {
    base + mip_offset(s, base, l) + level_size(mip_width(s, base), mip_height(s, base), l)
        <= s.len()
}

/// All four mip levels' pixel ranges lie inside the buffer.  Levels 1-3
/// are optional for export, but a record whose ranges leave the buffer is
/// structurally invalid and rejected whole.
pub open spec fn all_levels_fit(s: Seq<u8>, base: int) -> bool {
    forall|l: int| 0 <= l < 4 ==> #[trigger] level_fits(s, base, l)
}

/// The record at `base` checks out entirely: it fits, its dimensions are
/// valid, and every mip level's pixel range lies inside the buffer.
pub open spec fn mip_valid(s: Seq<u8>, base: int) -> bool {
    &&& mip_record_fits(s, base)
    &&& dims_valid(mip_width(s, base), mip_height(s, base))
    &&& all_levels_fit(s, base)
}

/// `t` holds exactly the fields of the record at `base` of `s`, with the
/// level-0 pixel bytes copied out.
pub open spec fn mip_matches(s: Seq<u8>, base: int, t: MipTexture) -> bool {
    &&& t.name@ == s.subrange(base, base + 16)
    &&& t.width == mip_width(s, base)
    &&& t.height == mip_height(s, base)
    &&& t.offset1 == mip_offset(s, base, 0)
    &&& t.offset2 == mip_offset(s, base, 1)
    &&& t.offset4 == mip_offset(s, base, 2)
    &&& t.offset8 == mip_offset(s, base, 3)
    &&& t.image1@ == s.subrange(
        base + mip_offset(s, base, 0),
        base + mip_offset(s, base, 0) + t.width * t.height,
    )
}

/// One texture resource: its validated metadata and the raw indexed
/// pixels of its level-0 (full resolution) image, copied out of the
/// archive buffer.
pub struct MipTexture {
    /// 16 raw name bytes, text up to the first zero.
    pub name: [u8; 16],
    /// Pixel width of the level-0 image; non-zero multiple of 8.
    pub width: u32,
    /// Pixel height of the level-0 image; non-zero multiple of 8.
    pub height: u32,
    /// Byte offset of the level-0 pixels, relative to the record start.
    pub offset1: u32,
    /// Byte offset of the half-size level-1 pixels.
    pub offset2: u32,
    /// Byte offset of the quarter-size level-2 pixels.
    pub offset4: u32,
    /// Byte offset of the eighth-size level-3 pixels.
    pub offset8: u32,
    /// The level-0 indexed pixels, row-major, one byte per pixel.
    pub image1: Vec<u8>,
}

/// `base + off + w_l * h_l <= n`, computed without overflow.
fn level_fits_check(n: usize, base: usize, off_l: u32, w_l: u32, h_l: u32) -> (b: bool)
    ensures
        b == (base + off_l + (w_l as int) * (h_l as int) <= n),
{
    proof {
        vstd::arithmetic::mul::lemma_mul_upper_bound(
            w_l as int,
            u32::MAX as int,
            h_l as int,
            u32::MAX as int,
        );
    }
    let size = (w_l as u64) * (h_l as u64);
    let avail = n as u64;
    if (base as u64) > avail {
        return false;
    }
    let rem = avail - (base as u64);
    if (off_l as u64) > rem {
        return false;
    }
    size <= rem - (off_l as u64)
}

impl MipTexture {
    /// The texture's metadata agrees with its pixel buffer: valid
    /// dimensions and exactly `width * height` level-0 pixel bytes.
    pub open spec fn wf(&self) -> bool {
        &&& dims_valid(self.width, self.height)
        &&& self.image1@.len() == self.width * self.height
    }

    /// Parses the 40-byte record at `offset`, validates the dimensions
    /// and the pixel ranges of all four mip levels against the buffer,
    /// and copies the level-0 pixels out.  A record that leaves the
    /// buffer — the record bytes themselves or any level's pixels — is
    /// `TruncatedPixelData`; bad dimensions are
    /// `InvalidTextureDimensions`.
    pub fn read(data: &[u8], offset: usize) -> (r: Result<MipTexture, WadError>)
        ensures
            !mip_record_fits(data@, offset as int) ==> r == Err::<MipTexture, WadError>(
                WadError::TruncatedPixelData,
            ),
            mip_record_fits(data@, offset as int) && !dims_valid(
                mip_width(data@, offset as int),
                mip_height(data@, offset as int),
            ) ==> r == Err::<MipTexture, WadError>(WadError::InvalidTextureDimensions),
            mip_record_fits(data@, offset as int) && dims_valid(
                mip_width(data@, offset as int),
                mip_height(data@, offset as int),
            ) && !all_levels_fit(data@, offset as int) ==> r == Err::<MipTexture, WadError>(
                WadError::TruncatedPixelData,
            ),
            mip_valid(data@, offset as int) ==> (r matches Ok(t) && mip_matches(
                data@,
                offset as int,
                t,
            ) && t.wf()),
    {
        let ghost s = data@;
        let ghost base = offset as int;
        let n = data.len();
        if offset > n || n - offset < 40 {
            return Err(WadError::TruncatedPixelData);
        }
        let width = read_u32_le(data, offset + 16);
        let height = read_u32_le(data, offset + 20);
        if width == 0 || height == 0 || width % 8 != 0 || height % 8 != 0 {
            return Err(WadError::InvalidTextureDimensions);
        }
        let offset1 = read_u32_le(data, offset + 24);
        let offset2 = read_u32_le(data, offset + 28);
        let offset4 = read_u32_le(data, offset + 32);
        let offset8 = read_u32_le(data, offset + 36);
        let fit0 = level_fits_check(n, offset, offset1, width, height);
        let fit1 = level_fits_check(n, offset, offset2, width / 2, height / 2);
        let fit2 = level_fits_check(n, offset, offset4, width / 4, height / 4);
        let fit3 = level_fits_check(n, offset, offset8, width / 8, height / 8);
        proof {
            assert(fit0 == level_fits(s, base, 0));
            assert(fit1 == level_fits(s, base, 1));
            assert(fit2 == level_fits(s, base, 2));
            assert(fit3 == level_fits(s, base, 3));
        }
        if !fit0 || !fit1 || !fit2 || !fit3 {
            proof {
                assert(!all_levels_fit(s, base));
            }
            return Err(WadError::TruncatedPixelData);
        }
        proof {
            assert forall|l: int| 0 <= l < 4 implies #[trigger] level_fits(s, base, l) by {
                if l == 0 {
                } else if l == 1 {
                } else if l == 2 {
                } else {
                    assert(l == 3);
                }
            }
            assert((width as int) * (height as int) >= 1) by (nonlinear_arith)
                requires
                    width >= 1,
                    height >= 1,
            ;
        }
        let px_start = offset + (offset1 as usize);
        let count = ((width as u64) * (height as u64)) as usize;
        let px = &data[px_start..px_start + count];
        let image1 = slice_to_vec(px);
        Ok(MipTexture { name: read_name(data, offset), width, height, offset1, offset2, offset4,
            offset8, image1 })
    }

    /// The texture's display name: the raw name bytes up to the first
    /// zero, each as a character.
    pub fn name(&self) -> (r: String)
        ensures
            r@ == trimmed_name(self.name@),
    {
        get_entry_name(&self.name)
    }

    /// Decodes the level-0 image through the palette to an interleaved
    /// RGB buffer, row-major, three bytes per pixel, orientation kept.
    pub fn to_rgb_image(&self, pal: &Palette) -> (r: Vec<u8>)
        requires
            self.wf(),
            pal.wf(),
        ensures
            r@.len() == 3 * self.image1@.len(),
            forall|i: int|
                0 <= i < self.image1@.len() ==> rgb_at(r@, 3 * i) == pal@[self.image1@[i] as int],
    {
        match decode_indexed_image(self.image1.as_slice(), self.width, self.height, pal) {
            Ok(rgb) => rgb,
            Err(_) => {
                proof {
                    assert(false);
                }
                Vec::new()
            },
        }
    }
}

/// Copies the 16 name bytes at `base` into a fixed array.
fn read_name(data: &[u8], base: usize) -> (name: [u8; 16])
    requires
        base + 16 <= data@.len(),
    ensures
        name@ == data@.subrange(base as int, base as int + 16),
{
    let n = data.len();
    let mut name: [u8; 16] = [0; 16];
    let mut k: usize = 0;
    while k < 16
        invariant
            0 <= k <= 16,
            base + 16 <= data@.len() <= usize::MAX,
            name@.len() == 16,
            forall|j: int| 0 <= j < k ==> name@[j] == data@[base + j],
        decreases 16 - k,
    {
        name[k] = data[base + k];
        k = k + 1;
    }
    proof {
        assert(name@ =~= data@.subrange(base as int, base as int + 16));
    }
    name
}

/// A texture decoded to true color, ready for an image sink: the
/// sanitized name, the dimensions, and the interleaved RGB pixels.
pub struct DecodedTexture {
    /// Filename stem: the texture name with every `*` replaced by `#`.
    pub name: String,
    /// Pixel width.
    pub width: u32,
    /// Pixel height.
    pub height: u32,
    /// Interleaved RGB bytes, `3 * width * height` of them, row-major.
    pub rgb: Vec<u8>,
}

/// `d` is the true-color export of the mip texture record at `base` of
/// `s`, decoded through `pal`.
pub open spec fn decoded_matches(s: Seq<u8>, base: int, pal: Seq<crate::palette::Rgb>,
    d: DecodedTexture) -> bool {
    let w = mip_width(s, base);
    let h = mip_height(s, base);
    let px = s.subrange(base + mip_offset(s, base, 0), base + mip_offset(s, base, 0) + w * h);
    &&& d.name@ == export_chars(s.subrange(base, base + 16))
    &&& d.width == w
    &&& d.height == h
    &&& d.rgb@.len() == 3 * w * h
    &&& forall|i: int| 0 <= i < w * h ==> rgb_at(d.rgb@, 3 * i) == pal[px[i] as int]
}

} // verus!
