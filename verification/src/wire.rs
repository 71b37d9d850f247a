use vstd::prelude::*;

use crate::error::FarbfeldErr;
use crate::pixel::Pixel;

verus! {

/// The fixed 8-byte magic tag that opens every farbfeld stream:
/// the ASCII bytes `farbfeld`.
pub open spec fn magic_seq() -> Seq<u8> {
    seq![0x66u8, 0x61u8, 0x72u8, 0x62u8, 0x66u8, 0x65u8, 0x6cu8, 0x64u8]
}

/// Holds when `s` is exactly the 8-byte magic tag.
pub open spec fn is_magic(s: Seq<u8>) -> bool {
    &&& s.len() == 8
    &&& s[0] == 0x66u8
    &&& s[1] == 0x61u8
    &&& s[2] == 0x72u8
    &&& s[3] == 0x62u8
    &&& s[4] == 0x66u8
    &&& s[5] == 0x65u8
    &&& s[6] == 0x6cu8
    &&& s[7] == 0x64u8
}

/// `is_magic` singles out exactly the magic tag itself.
pub proof fn lemma_is_magic_iff(s: Seq<u8>)
    ensures
        is_magic(s) <==> s == magic_seq(),
{
    if is_magic(s) {
        assert(s =~= magic_seq());
    }
    if s == magic_seq() {
        assert(magic_seq()[0] == 0x66u8);
    }
}

/// The unsigned 16-bit integer stored big-endian at offset `off` of `s`.
pub open spec fn be16(s: Seq<u8>, off: int) -> u16
    recommends
        0 <= off,
        off + 2 <= s.len(),
{
    (s[off] * 0x100 + s[off + 1]) as u16
}

/// The unsigned 32-bit integer stored big-endian at offset `off` of `s`.
pub open spec fn be32(s: Seq<u8>, off: int) -> u32
    recommends
        0 <= off,
        off + 4 <= s.len(),
{
    (s[off] * 0x1000000 + s[off + 1] * 0x10000 + s[off + 2] * 0x100 + s[off + 3]) as u32
}

/// Holds when the four channels of `p` are the four big-endian 16-bit
/// integers of the 8-byte record at offset `off` of `s`, in the wire
/// order red, green, blue, alpha.
pub open spec fn pixel_matches(p: Pixel, s: Seq<u8>, off: int) -> bool
    recommends
        0 <= off,
        off + 8 <= s.len(),
{
    &&& p.spec_red() == be16(s, off)
    &&& p.spec_green() == be16(s, off + 2)
    &&& p.spec_blue() == be16(s, off + 4)
    &&& p.spec_alpha() == be16(s, off + 6)
}

/// Reads the big-endian 16-bit integer at offset `off` of `bytes`.
fn be16_at(bytes: &[u8], off: usize) -> (r: u16)
    requires
        off + 2 <= bytes@.len(),
    ensures
        r == be16(bytes@, off as int),
{
    let hi: u8 = bytes[off];
    let lo: u8 = bytes[off + 1];
    (hi as u16) * 0x100 + (lo as u16)
}

/// Reads the big-endian 32-bit integer at offset `off` of `bytes`.
fn be32_at(bytes: &[u8], off: usize) -> (r: u32)
    requires
        off + 4 <= bytes@.len(),
    ensures
        r == be32(bytes@, off as int),
{
    let b0: u8 = bytes[off];
    let b1: u8 = bytes[off + 1];
    let b2: u8 = bytes[off + 2];
    let b3: u8 = bytes[off + 3];
    (b0 as u32) * 0x1000000 + (b1 as u32) * 0x10000 + (b2 as u32) * 0x100 + (b3 as u32)
}

/// Header validation: `None` exactly when `buff` is the magic tag,
/// `InvalidMagic` otherwise.
pub fn check_magic(buff: &[u8; 8]) -> (r: Option<FarbfeldErr>)
    ensures
        r is None <==> is_magic(buff@),
        r is Some ==> r == Some(FarbfeldErr::InvalidMagic),
{
    if buff[0] == 0x66 && buff[1] == 0x61 && buff[2] == 0x72 && buff[3] == 0x62 && buff[4] == 0x66
        && buff[5] == 0x65 && buff[6] == 0x6c && buff[7] == 0x64 {
        None
    } else {
        Some(FarbfeldErr::InvalidMagic)
    }
}

/// Dimension parsing: bytes `[0, 4)` of `buff` are the big-endian width,
/// bytes `[4, 8)` the big-endian height. Never fails on a full 8-byte
/// buffer; any 32-bit value, zero included, is a legal dimension.
pub fn get_dimensions(buff: &[u8; 8]) -> (r: Result<(u32, u32), FarbfeldErr>)
    ensures
        r matches Ok(d) && d.0 == be32(buff@, 0) && d.1 == be32(buff@, 4),
{
    let width: u32 = be32_at(buff.as_slice(), 0);
    let height: u32 = be32_at(buff.as_slice(), 4);
    Ok((width, height))
}

/// Pixel stream decoding: splits `bytes` into consecutive 8-byte records
/// and parses each into a pixel. Succeeds exactly when `bytes` holds a
/// whole number of records; a trailing partial record of 1 to 7 bytes
/// yields `TruncatedPixelRecord` carrying that partial count.
pub fn load_pixels(bytes: &[u8]) -> (r: Result<Vec<Pixel>, FarbfeldErr>)
    ensures
        match r {
            Ok(pixels) => {
                &&& bytes@.len() % 8 == 0
                &&& pixels@.len() == bytes@.len() / 8
                &&& forall|i: int|
                    0 <= i < pixels@.len() ==> pixel_matches(#[trigger] pixels@[i], bytes@, 8 * i)
            },
            Err(e) => {
                &&& bytes@.len() % 8 != 0
                &&& e == (FarbfeldErr::TruncatedPixelRecord { read: (bytes@.len() % 8) as usize })
            },
        },
{
    let n: usize = bytes.len();
    if n % 8 != 0 {
        return Err(FarbfeldErr::TruncatedPixelRecord { read: n % 8 });
    }
    let count: usize = n / 8;
    let mut pixels: Vec<Pixel> = Vec::with_capacity(count);
    let mut i: usize = 0;
    while i < count
        invariant
            bytes@.len() == n,
            n % 8 == 0,
            count == n / 8,
            i <= count,
            pixels@.len() == i,
            forall|j: int| 0 <= j < i ==> pixel_matches(#[trigger] pixels@[j], bytes@, 8 * j),
        decreases count - i,
    {
        let off: usize = i * 8;
        assert(off + 8 <= n);
        let red: u16 = be16_at(bytes, off);
        let green: u16 = be16_at(bytes, off + 2);
        let blue: u16 = be16_at(bytes, off + 4);
        let alpha: u16 = be16_at(bytes, off + 6);
        pixels.push(Pixel::new(red, green, blue, alpha));
        i = i + 1;
    }
    Ok(pixels)
}

} // verus!
