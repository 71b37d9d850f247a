use vstd::prelude::*;
use vstd::slice::slice_subrange;

use crate::error::FarbfeldErr;
use crate::pixel::channel;
use crate::pixel::lemma_pixel_ext;
use crate::pixel::Pixel;
use crate::wire::be32;
use crate::wire::check_magic;
use crate::wire::get_dimensions;
use crate::wire::is_magic;
use crate::wire::lemma_is_magic_iff;
use crate::wire::load_pixels;
use crate::wire::magic_seq;
use crate::wire::pixel_matches;

verus! {

/// What decoding the byte sequence `s` fails with, or `None` when `s`
/// is a well-formed stream. The checks run in stream order and the
/// first failed one names the error.
pub open spec fn decode_failure(s: Seq<u8>) -> Option<FarbfeldErr> {
    if s.len() < 8 {
        Some(FarbfeldErr::TruncatedHeader { read: s.len() as usize })
    } else if !is_magic(s.subrange(0, 8)) {
        Some(FarbfeldErr::InvalidMagic)
    } else if s.len() < 16 {
        Some(FarbfeldErr::TruncatedDimensions { read: (s.len() - 8) as usize })
    } else if (s.len() - 16) % 8 != 0 {
        Some(FarbfeldErr::TruncatedPixelRecord { read: ((s.len() - 16) % 8) as usize })
    } else if (s.len() - 16) / 8 != be32(s, 8) * be32(s, 12) {
        Some(FarbfeldErr::DimensionMismatch)
    } else {
        None
    }
}

/// Holds when `img` carries exactly what the stream `s` declares: the
/// two big-endian dimension fields, one pixel per 8-byte record of the
/// pixel data, in stream order.
pub open spec fn decodes_to(s: Seq<u8>, img: Farbfeld) -> bool {
    &&& img.spec_width() == be32(s, 8)
    &&& img.spec_height() == be32(s, 12)
    &&& img@.len() == (s.len() - 16) / 8
    &&& forall|i: int| 0 <= i < img@.len() ==> pixel_matches(#[trigger] img@[i], s, 16 + 8 * i)
}

/// Holds when `s` is a complete well-formed farbfeld stream: the magic
/// tag, both dimension fields, a whole number of pixel records, and
/// exactly `width * height` of them.
pub open spec fn valid_stream(s: Seq<u8>) -> bool {
    &&& s.len() >= 16
    &&& is_magic(s.subrange(0, 8))
    &&& (s.len() - 16) % 8 == 0
    &&& (s.len() - 16) / 8 == be32(s, 8) * be32(s, 12)
}

/// A decoded image: `width`, `height`, and the pixels in row-major
/// order. A successfully constructed image always holds exactly
/// `width * height` pixels; logical position `(x, y)` lives at linear
/// index `y * width + x`.
#[derive(Debug)]
pub struct Farbfeld {
    pixels: Vec<Pixel>,
    width: u32,
    height: u32,
}

impl View for Farbfeld {
    type V = Seq<Pixel>;

    /// The pixel sequence, in row-major order.
    closed spec fn view(&self) -> Seq<Pixel> {
        self.pixels@
    }
}

impl Farbfeld {
    /// The width, as specifications see it.
    pub closed spec fn spec_width(&self) -> u32 {
        self.width
    }

    /// The height, as specifications see it.
    pub closed spec fn spec_height(&self) -> u32 {
        self.height
    }

    /// The container invariant: the pixel count equals `width * height`.
    /// Every constructor establishes it and every method preserves it.
    pub open spec fn wf(&self) -> bool {
        self@.len() == self.spec_width() * self.spec_height()
    }

    /// The validating constructor: accepts the pixel sequence exactly
    /// when its length is `width * height`, and fails with
    /// `DimensionMismatch` otherwise.
    pub fn new(width: u32, height: u32, pixels: Vec<Pixel>) -> (r: Result<Farbfeld, FarbfeldErr>)
        ensures
            pixels@.len() == width * height ==> {
                &&& r matches Ok(img)
                &&& img@ == pixels@
                &&& img.spec_width() == width
                &&& img.spec_height() == height
                &&& img.wf()
            },
            pixels@.len() != width * height ==> (r matches Err(e) && e
                == FarbfeldErr::DimensionMismatch),
    {
        proof {
            assert((width as int) * (height as int) <= u64::MAX) by (nonlinear_arith)
                requires
                    0 <= width <= u32::MAX,
                    0 <= height <= u32::MAX,
            ;
        }
        let expected: u64 = (width as u64) * (height as u64);
        if pixels.len() as u64 == expected {
            Ok(Farbfeld { pixels, width, height })
        } else {
            Err(FarbfeldErr::DimensionMismatch)
        }
    }

    /// The decode pipeline, and the sole entry point from bytes to a
    /// validated image: header validation, dimension parsing, pixel
    /// stream decoding, and the validating constructor, in strict
    /// sequence, short-circuiting on the first error.
    pub fn load(bytes: &[u8]) -> (r: Result<Farbfeld, FarbfeldErr>)
        ensures
            match r {
                Ok(img) => decode_failure(bytes@) is None && decodes_to(bytes@, img) && img.wf(),
                Err(e) => decode_failure(bytes@) == Some(e),
            },
    {
        let n: usize = bytes.len();
        if n < 8 {
            return Err(FarbfeldErr::TruncatedHeader { read: n });
        }
        let header: [u8; 8] = [
            bytes[0],
            bytes[1],
            bytes[2],
            bytes[3],
            bytes[4],
            bytes[5],
            bytes[6],
            bytes[7],
        ];
        proof {
            assert(header@ =~= bytes@.subrange(0, 8));
        }
        if let Some(err) = check_magic(&header) {
            return Err(err);
        }
        if n < 16 {
            return Err(FarbfeldErr::TruncatedDimensions { read: n - 8 });
        }
        let dims: [u8; 8] = [
            bytes[8],
            bytes[9],
            bytes[10],
            bytes[11],
            bytes[12],
            bytes[13],
            bytes[14],
            bytes[15],
        ];
        proof {
            assert(dims@ =~= bytes@.subrange(8, 16));
        }
        let parsed: (u32, u32) = match get_dimensions(&dims) {
            Ok(d) => d,
            Err(e) => {
                return Err(e);
            },
        };
        let width: u32 = parsed.0;
        let height: u32 = parsed.1;
        proof {
            assert(width == be32(bytes@, 8));
            assert(height == be32(bytes@, 12));
        }
        let rest: &[u8] = slice_subrange(bytes, 16, n);
        let pixels: Vec<Pixel> = match load_pixels(rest) {
            Ok(p) => p,
            Err(e) => {
                return Err(e);
            },
        };
        proof {
            assert forall|i: int| 0 <= i < pixels@.len() implies pixel_matches(
                #[trigger] pixels@[i],
                bytes@,
                16 + 8 * i,
            ) by {
                assert(pixel_matches(pixels@[i], rest@, 8 * i));
            }
        }
        match Farbfeld::new(width, height, pixels) {
            Ok(img) => Ok(img),
            Err(e) => Err(e),
        }
    }

    /// The width in pixels.
    pub fn width(&self) -> (w: u32)
        ensures
            w == self.spec_width(),
    {
        self.width
    }

    /// The height in pixels.
    pub fn height(&self) -> (h: u32)
        ensures
            h == self.spec_height(),
    {
        self.height
    }

    /// All pixels, in row-major order.
    pub fn pixels(&self) -> (p: &[Pixel])
        ensures
            p@ == self@,
    {
        self.pixels.as_slice()
    }

    /// The pixel at linear index `index`, or `None` when the index is
    /// out of range.
    pub fn get(&self, index: usize) -> (r: Option<&Pixel>)
        ensures
            index < self@.len() ==> (r matches Some(p) && *p == self@[index as int]),
            index >= self@.len() ==> r is None,
    {
        if index < self.pixels.len() {
            Some(&self.pixels[index])
        } else {
            None
        }
    }

    /// The pixel at coordinate `pos == [x, y]`, stored at linear index
    /// `y * width + x`, or `None` when the coordinate lies outside the
    /// grid or that index is out of range.
    pub fn get_pos(&self, pos: [u32; 2]) -> (r: Option<&Pixel>)
        ensures
            ({
                let idx = pos[1] * self.spec_width() + pos[0];
                if pos[0] < self.spec_width() && pos[1] < self.spec_height() && idx < self@.len() {
                    r matches Some(p) && *p == self@[idx]
                } else {
                    r is None
                }
            }),
    {
        let x: u32 = pos[0];
        let y: u32 = pos[1];
        if x < self.width && y < self.height {
            proof {
                assert((y as int) * (self.spec_width() as int) + (x as int) < u64::MAX)
                    by (nonlinear_arith)
                    requires
                        0 <= x <= u32::MAX,
                        0 <= y <= u32::MAX,
                        0 <= self.spec_width() <= u32::MAX,
                ;
            }
            let idx: u64 = (y as u64) * (self.width as u64) + (x as u64);
            if idx < self.pixels.len() as u64 {
                self.get(idx as usize)
            } else {
                None
            }
        } else {
            None
        }
    }

    /// Write access to the pixel at linear index `index`, or `None` when
    /// the index is out of range. Only the addressed pixel can change.
    pub fn get_mut(&mut self, index: usize) -> (r: Option<&mut Pixel>)
        ensures
            index < old(self)@.len() ==> {
                &&& r is Some
                &&& *r.unwrap() == old(self)@[index as int]
                &&& final(self)@ == old(self)@.update(index as int, *final(r.unwrap()))
                &&& final(self).spec_width() == old(self).spec_width()
                &&& final(self).spec_height() == old(self).spec_height()
            },
            index >= old(self)@.len() ==> r is None && *final(self) == *old(self),
    {
        if index < self.pixels.len() {
            Some(&mut self.pixels[index])
        } else {
            None
        }
    }

    /// Write access to the pixel at coordinate `pos == [x, y]`, stored at
    /// linear index `y * width + x`, or `None` when the coordinate lies
    /// outside the grid or that index is out of range. Only the addressed
    /// pixel can change.
    pub fn get_pos_mut(&mut self, pos: [u32; 2]) -> (r: Option<&mut Pixel>)
        ensures
            ({
                let idx = pos[1] * old(self).spec_width() + pos[0];
                if pos[0] < old(self).spec_width() && pos[1] < old(self).spec_height() && idx
                    < old(self)@.len() {
                    &&& r is Some
                    &&& *r.unwrap() == old(self)@[idx]
                    &&& final(self)@ == old(self)@.update(idx, *final(r.unwrap()))
                    &&& final(self).spec_width() == old(self).spec_width()
                    &&& final(self).spec_height() == old(self).spec_height()
                } else {
                    r is None && *final(self) == *old(self)
                }
            }),
    {
        let x: u32 = pos[0];
        let y: u32 = pos[1];
        if x < self.width && y < self.height {
            proof {
                assert((y as int) * (self.spec_width() as int) + (x as int) < u64::MAX)
                    by (nonlinear_arith)
                    requires
                        0 <= x <= u32::MAX,
                        0 <= y <= u32::MAX,
                        0 <= self.spec_width() <= u32::MAX,
                ;
            }
            let idx: u64 = (y as u64) * (self.width as u64) + (x as u64);
            if idx < self.pixels.len() as u64 {
                self.get_mut(idx as usize)
            } else {
                None
            }
        } else {
            None
        }
    }

    /// Flattens the image into its raw channel values: four 16-bit values
    /// per pixel, pixels in row-major order, channels in wire order.
    pub fn into_raw(self) -> (r: Vec<u16>)
        ensures
            r@.len() == 4 * self@.len(),
            forall|k: int| 0 <= k < r@.len() ==> #[trigger] r@[k] == channel(self@[k / 4], k % 4),
    {
        let count: usize = self.pixels.len();
        let mut raw: Vec<u16> = Vec::with_capacity(count);
        let mut i: usize = 0;
        while i < count
            invariant
                count == self@.len(),
                self@ == self.pixels@,
                i <= count,
                raw@.len() == 4 * i,
                forall|k: int| 0 <= k < raw@.len() ==> #[trigger] raw@[k] == channel(
                    self@[k / 4],
                    k % 4,
                ),
            decreases count - i,
        {
            let px: Pixel = self.pixels[i];
            raw.push(*px.red());
            raw.push(*px.green());
            raw.push(*px.blue());
            raw.push(*px.alpha());
            i = i + 1;
        }
        raw
    }
}

/// Inside a well-formed image, every coordinate of the grid addresses a
/// pixel: `x < width` and `y < height` put `y * width + x` in range.
pub proof fn lemma_grid_index_in_range(img: Farbfeld, x: u32, y: u32)
    requires
        img.wf(),
        x < img.spec_width(),
        y < img.spec_height(),
    ensures
        y * img.spec_width() + x < img@.len(),
{
    assert((y as int) * (img.spec_width() as int) + (x as int) < (img.spec_width() as int) * (
    img.spec_height() as int)) by (nonlinear_arith)
        requires
            0 <= x < img.spec_width(),
            0 <= y < img.spec_height(),
    ;
}

/// Decoding succeeds exactly on well-formed streams.
pub proof fn lemma_decode_succeeds_iff_valid(s: Seq<u8>)
    ensures
        decode_failure(s) is None <==> valid_stream(s),
{
}

/// Any buffer shorter than the 8-byte magic tag is rejected as a
/// truncated header carrying the number of bytes present.
pub proof fn lemma_short_buffer_truncated_header(s: Seq<u8>)
    requires
        s.len() < 8,
    ensures
        decode_failure(s) == Some(FarbfeldErr::TruncatedHeader { read: s.len() as usize }),
{
}

/// Whatever bytes follow, a buffer whose first 8 bytes are not the
/// magic tag is rejected as `InvalidMagic`.
pub proof fn lemma_wrong_magic_rejected(s: Seq<u8>)
    requires
        s.len() >= 8,
        s.subrange(0, 8) != magic_seq(),
    ensures
        decode_failure(s) == Some(FarbfeldErr::InvalidMagic),
{
    lemma_is_magic_iff(s.subrange(0, 8));
}

/// A valid magic tag followed by fewer than 8 further bytes is rejected
/// as truncated dimensions carrying the number of bytes that followed
/// the tag.
pub proof fn lemma_short_dimensions_rejected(s: Seq<u8>)
    requires
        8 <= s.len() < 16,
        s.subrange(0, 8) == magic_seq(),
    ensures
        decode_failure(s) == Some(FarbfeldErr::TruncatedDimensions { read: (s.len() - 8) as usize }),
{
    lemma_is_magic_iff(s.subrange(0, 8));
}

/// On a well-formed stream, the image that decoding yields stores the
/// `(y * width + x)`-th encoded record at coordinate `(x, y)`, for every
/// coordinate of the declared grid.
pub proof fn lemma_decoded_pixel_at(s: Seq<u8>, img: Farbfeld, x: u32, y: u32)
    requires
        valid_stream(s),
        decodes_to(s, img),
        x < img.spec_width(),
        y < img.spec_height(),
    ensures
        y * img.spec_width() + x < img@.len(),
        pixel_matches(
            img@[y * img.spec_width() + x],
            s,
            16 + 8 * (y * img.spec_width() + x),
        ),
{
    assert(img.wf());
    lemma_grid_index_in_range(img, x, y);
}

/// Decoding is a function of the byte buffer alone: two images decoded
/// from the same bytes agree in width, height, and every pixel.
pub proof fn lemma_decode_deterministic(s: Seq<u8>, a: Farbfeld, b: Farbfeld)
    requires
        decodes_to(s, a),
        decodes_to(s, b),
    ensures
        a.spec_width() == b.spec_width(),
        a.spec_height() == b.spec_height(),
        a@ == b@,
{
    assert forall|i: int| 0 <= i < a@.len() implies a@[i] == b@[i] by {
        lemma_pixel_ext(a@[i], b@[i]);
    }
    assert(a@ =~= b@);
}

} // verus!
