//! The 256-entry RGB lookup table that indexed pixels resolve against,
//! and the decoder that maps an indexed pixel buffer through it to an
//! interleaved RGB buffer.

use crate::error::WadError;
use vstd::prelude::*;

verus! {

/// One true-color pixel: red, green and blue, 8 bits each.
#[derive(Clone, Copy, Debug, PartialEq, Eq, Structural)]
pub struct Rgb {
    pub r: u8,
    pub g: u8,
    pub b: u8,
}

/// The RGB triple stored at byte offset `off` of `s`.
pub open spec fn rgb_at(s: Seq<u8>, off: int) -> Rgb
    recommends
        0 <= off,
        off + 3 <= s.len(),
{
    Rgb { r: s[off], g: s[off + 1], b: s[off + 2] }
}

/// An ordered table of exactly 256 RGB triples; index `i` of the table
/// corresponds exactly to indexed-pixel byte value `i`.  Once resolved it
/// is immutable and reused for every texture decode of the same archive.
pub struct Palette {
    entries: Vec<Rgb>,
}

impl View for Palette {
    type V = Seq<Rgb>;

    closed spec fn view(&self) -> Seq<Rgb> {
        self.entries@
    }
}

impl Palette {
    /// A palette holds exactly 256 entries.
    pub open spec fn wf(&self) -> bool {
        self@.len() == 256
    }

    /// Builds the table from a 768-byte palette block: entry `i` is the
    /// triple at bytes `3*i .. 3*i + 3`.
    pub fn from_data(data: &[u8]) -> (p: Palette)
        requires
            data@.len() == 768,
        ensures
            p.wf(),
            forall|i: int| 0 <= i < 256 ==> p@[i] == rgb_at(data@, 3 * i),
    {
        let mut entries: Vec<Rgb> = Vec::new();
        let mut i: usize = 0;
        while i < 256
            invariant
                0 <= i <= 256,
                data@.len() == 768,
                entries@.len() == i,
                forall|j: int| 0 <= j < i ==> entries@[j] == rgb_at(data@, 3 * j),
            decreases 256 - i,
        {
            entries.push(Rgb { r: data[3 * i], g: data[3 * i + 1], b: data[3 * i + 2] });
            i = i + 1;
        }
        Palette { entries }
    }

    /// How many entries the table holds; 256 for a well-formed palette.
    pub fn len(&self) -> (n: usize)
        ensures
            n == self@.len(),
    {
        self.entries.len()
    }

    /// The color that indexed pixel value `index` resolves to.
    pub fn index(&self, index: u8) -> (c: Rgb)
        requires
            self.wf(),
        ensures
            c == self@[index as int],
    {
        self.entries[index as usize]
    }

    /// The table as one interleaved RGB byte buffer of 768 bytes, laid
    /// out exactly as a palette block: entry `i` at bytes `3*i .. 3*i + 3`.
    pub fn to_image(&self) -> (r: Vec<u8>)
        requires
            self.wf(),
        ensures
            r@.len() == 768,
            forall|i: int| 0 <= i < 256 ==> rgb_at(r@, 3 * i) == self@[i],
    {
        let mut out: Vec<u8> = Vec::new();
        let mut i: usize = 0;
        while i < 256
            invariant
                0 <= i <= 256,
                self.wf(),
                out@.len() == 3 * i,
                forall|j: int| 0 <= j < i ==> rgb_at(out@, 3 * j) == self@[j],
            decreases 256 - i,
        {
            let c = self.entries[i];
            out.push(c.r);
            out.push(c.g);
            out.push(c.b);
            i = i + 1;
        }
        out
    }
}

/// Maps each indexed pixel byte to its palette color, in order.
pub fn indexed_to_rgb(image: &[u8], palette: &Palette) -> (r: Vec<Rgb>)
    requires
        palette.wf(),
    ensures
        r@.len() == image@.len(),
        forall|i: int| 0 <= i < image@.len() ==> r@[i] == palette@[image@[i] as int],
{
    let n = image.len();
    let mut rgb_image: Vec<Rgb> = Vec::new();
    let mut i: usize = 0;
    while i < n
        invariant
            0 <= i <= n,
            n == image@.len(),
            palette.wf(),
            rgb_image@.len() == i,
            forall|j: int| 0 <= j < i ==> rgb_image@[j] == palette@[image@[j] as int],
        decreases n - i,
    {
        rgb_image.push(palette.index(image[i]));
        i = i + 1;
    }
    rgb_image
}

/// Decodes an indexed pixel buffer of row-major `width * height` bytes to
/// an interleaved RGB buffer of `width * height * 3` bytes, pixel `i` of
/// the output being the palette color of input byte `i`.  Row order and
/// orientation are kept unchanged.  Fails with `PixelCountMismatch` when
/// the input length is not exactly `width * height`.
pub fn decode_indexed_image(image: &[u8], width: u32, height: u32, palette: &Palette) -> (r:
    Result<Vec<u8>, WadError>)
    requires
        palette.wf(),
    ensures
        image@.len() != width * height ==> r == Err::<Vec<u8>, WadError>(
            WadError::PixelCountMismatch,
        ),
        image@.len() == width * height ==> (r matches Ok(rgb) && rgb@.len() == 3 * image@.len()
            && forall|i: int|
            0 <= i < image@.len() ==> rgb_at(rgb@, 3 * i) == palette@[image@[i] as int]),
{
    let n = image.len();
    proof {
        vstd::arithmetic::mul::lemma_mul_upper_bound(
            width as int,
            u32::MAX as int,
            height as int,
            u32::MAX as int,
        );
    }
    if (n as u64) != (width as u64) * (height as u64) {
        return Err(WadError::PixelCountMismatch);
    }
    let mut out: Vec<u8> = Vec::new();
    let mut i: usize = 0;
    while i < n
        invariant
            0 <= i <= n,
            n == image@.len(),
            palette.wf(),
            out@.len() == 3 * i,
            forall|j: int| 0 <= j < i ==> rgb_at(out@, 3 * j) == palette@[image@[j] as int],
        decreases n - i,
    {
        let c = palette.index(image[i]);
        out.push(c.r);
        out.push(c.g);
        out.push(c.b);
        i = i + 1;
    }
    Ok(out)
}

} // verus!
