//! Decoder for the farbfeld raster image format: an 8-byte magic tag,
//! two 32-bit big-endian dimension fields, then one 8-byte record per
//! pixel, each record holding four 16-bit big-endian color channels.
//!
//! The decode pipeline turns a byte buffer into a validated [`Farbfeld`]
//! image container or a tagged [`FarbfeldErr`]; the container enforces
//! that the number of pixels equals `width * height` and offers
//! bounds-checked access in row-major order.

mod error;
mod image;
mod pixel;
mod wire;

pub use error::FarbfeldErr;
pub use image::decode_failure;
pub use image::decodes_to;
pub use image::lemma_decode_deterministic;
pub use image::lemma_decode_succeeds_iff_valid;
pub use image::lemma_decoded_pixel_at;
pub use image::lemma_grid_index_in_range;
pub use image::lemma_short_buffer_truncated_header;
pub use image::lemma_short_dimensions_rejected;
pub use image::lemma_wrong_magic_rejected;
pub use image::valid_stream;
pub use image::Farbfeld;
pub use pixel::channel;
pub use pixel::lemma_pixel_ext;
pub use pixel::Pixel;
pub use pixel::PixelIter;
pub use wire::be16;
pub use wire::be32;
pub use wire::check_magic;
pub use wire::get_dimensions;
pub use wire::is_magic;
pub use wire::lemma_is_magic_iff;
pub use wire::load_pixels;
pub use wire::magic_seq;
pub use wire::pixel_matches;
