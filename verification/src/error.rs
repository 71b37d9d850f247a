use vstd::prelude::*;

verus! {

/// Why a decode attempt failed. A tagged value, not a message string:
/// callers branch on the kind.
///
/// The truncation kinds carry the number of bytes actually read for the
/// piece that came up short, so a caller can build a diagnostic.
#[derive(Clone, Copy, Debug, Hash, PartialEq, Eq, Structural)]
pub enum FarbfeldErr {
    /// The underlying byte source failed. The decoder itself works on a
    /// fully read buffer and never produces this kind; readers that feed
    /// the decoder map their failures to it.
    IoError,
    /// The stream ended before the 8-byte magic tag was complete.
    TruncatedHeader { read: usize },
    /// The first 8 bytes are not the magic tag: not a farbfeld stream.
    InvalidMagic,
    /// The stream ended before the two 4-byte dimension fields were complete.
    TruncatedDimensions { read: usize },
    /// The stream ended inside a pixel record: 1 to 7 trailing bytes.
    TruncatedPixelRecord { read: usize },
    /// The number of whole pixel records disagrees with `width * height`.
    DimensionMismatch,
}

} // verus!
