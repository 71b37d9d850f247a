use ruff::check_magic;
use ruff::get_dimensions;
use ruff::load_pixels;
use ruff::Farbfeld;
use ruff::FarbfeldErr;
use ruff::Pixel;

const MAGIC: [u8; 8] = [0x66, 0x61, 0x72, 0x62, 0x66, 0x65, 0x6c, 0x64];

fn stream(width: u32, height: u32, records: &[[u16; 4]]) -> Vec<u8> {
    let mut bytes = Vec::new();
    bytes.extend_from_slice(&MAGIC);
    bytes.extend_from_slice(&width.to_be_bytes());
    bytes.extend_from_slice(&height.to_be_bytes());
    for record in records {
        for channel in record {
            bytes.extend_from_slice(&channel.to_be_bytes());
        }
    }
    bytes
}

#[test]
fn test_fail_check_magic() {
    assert!(check_magic(&[0x66, 0x61, 0x72, 0x62, 0x66, 0x65, 0x6c, 0x65]).is_some());
}

#[test]
fn check_magic_accepts_the_tag() {
    assert!(check_magic(&MAGIC).is_none());
}

#[test]
fn check_magic_names_invalid_magic() {
    assert_eq!(check_magic(&[0; 8]), Some(FarbfeldErr::InvalidMagic));
}

#[test]
fn test_fail_get_dimensions() {
    assert!(get_dimensions(&[0x11, 0x12, 0x13, 0x14, 0x15, 0x16, 0x17, 0x18])
        .unwrap() != (286397204, 353769241));
}

#[test]
fn get_dimensions_reads_big_endian_fields() {
    let dims = get_dimensions(&[0x11, 0x12, 0x13, 0x14, 0x15, 0x16, 0x17, 0x18]).unwrap();
    assert_eq!(dims, (0x11121314, 0x15161718));
}

#[test]
fn get_dimensions_allows_zero() {
    assert_eq!(get_dimensions(&[0; 8]).unwrap(), (0, 0));
}

#[test]
fn load_pixels_parses_whole_records() {
    let bytes = [0x00, 0x01, 0x00, 0x02, 0x00, 0x03, 0x00, 0x04, 0xff, 0xff, 0x00, 0x00, 0x12,
        0x34, 0xab, 0xcd];
    let pixels = load_pixels(&bytes).unwrap();
    assert_eq!(pixels.len(), 2);
    assert_eq!(pixels[0], Pixel::new(1, 2, 3, 4));
    assert_eq!(pixels[1], Pixel::new(0xffff, 0x0000, 0x1234, 0xabcd));
}

#[test]
fn load_pixels_rejects_a_partial_record() {
    let bytes = [0x00, 0x01, 0x00];
    assert_eq!(load_pixels(&bytes).unwrap_err(), FarbfeldErr::TruncatedPixelRecord { read: 3 });
}

#[test]
fn load_pixels_accepts_an_empty_stream() {
    assert_eq!(load_pixels(&[]).unwrap().len(), 0);
}

#[test]
fn empty_buffer_is_a_truncated_header() {
    assert_eq!(Farbfeld::load(&[]).unwrap_err(), FarbfeldErr::TruncatedHeader { read: 0 });
}

#[test]
fn short_buffer_is_a_truncated_header() {
    assert_eq!(
        Farbfeld::load(&MAGIC[..7]).unwrap_err(),
        FarbfeldErr::TruncatedHeader { read: 7 },
    );
}

#[test]
fn wrong_magic_is_rejected_whatever_follows() {
    let mut bytes = stream(1, 1, &[[1, 2, 3, 4]]);
    bytes[7] = 0x65;
    assert_eq!(Farbfeld::load(&bytes).unwrap_err(), FarbfeldErr::InvalidMagic);
}

#[test]
fn header_alone_is_truncated_dimensions() {
    assert_eq!(
        Farbfeld::load(&MAGIC).unwrap_err(),
        FarbfeldErr::TruncatedDimensions { read: 0 },
    );
}

#[test]
fn partial_dimensions_are_truncated_dimensions() {
    let mut bytes = Vec::new();
    bytes.extend_from_slice(&MAGIC);
    bytes.extend_from_slice(&[0x00, 0x00, 0x00]);
    assert_eq!(
        Farbfeld::load(&bytes).unwrap_err(),
        FarbfeldErr::TruncatedDimensions { read: 3 },
    );
}

#[test]
fn one_trailing_byte_is_a_truncated_pixel_record() {
    let mut bytes = stream(2, 1, &[]);
    bytes.push(0xff);
    assert_eq!(
        Farbfeld::load(&bytes).unwrap_err(),
        FarbfeldErr::TruncatedPixelRecord { read: 1 },
    );
}

#[test]
fn missing_records_are_a_dimension_mismatch() {
    let bytes = stream(2, 2, &[[1, 1, 1, 1], [2, 2, 2, 2], [3, 3, 3, 3]]);
    assert_eq!(Farbfeld::load(&bytes).unwrap_err(), FarbfeldErr::DimensionMismatch);
}

#[test]
fn extra_records_are_a_dimension_mismatch() {
    let bytes = stream(1, 1, &[[1, 1, 1, 1], [2, 2, 2, 2]]);
    assert_eq!(Farbfeld::load(&bytes).unwrap_err(), FarbfeldErr::DimensionMismatch);
}

#[test]
fn single_pixel_image_decodes() {
    let bytes = stream(1, 1, &[[1, 2, 3, 4]]);
    let img = Farbfeld::load(&bytes).unwrap();
    assert_eq!(img.width(), 1);
    assert_eq!(img.height(), 1);
    assert_eq!(img.get(0), Some(&Pixel::new(1, 2, 3, 4)));
}

#[test]
fn decoded_pixels_sit_in_row_major_order() {
    let bytes = stream(2, 2, &[[10, 0, 0, 0], [20, 0, 0, 0], [30, 0, 0, 0], [40, 0, 0, 0]]);
    let img = Farbfeld::load(&bytes).unwrap();
    assert_eq!(img.width(), 2);
    assert_eq!(img.height(), 2);
    for y in 0..2u32 {
        for x in 0..2u32 {
            let expected = Pixel::new(((y * 2 + x + 1) * 10) as u16, 0, 0, 0);
            assert_eq!(img.get_pos([x, y]), Some(&expected));
            assert_eq!(img.get((y * 2 + x) as usize), Some(&expected));
        }
    }
}

#[test]
fn zero_dimensions_decode_to_an_empty_image() {
    let bytes = stream(0, 0, &[]);
    let img = Farbfeld::load(&bytes).unwrap();
    assert_eq!(img.width(), 0);
    assert_eq!(img.height(), 0);
    assert_eq!(img.pixels().len(), 0);
    assert_eq!(img.get(0), None);
}

#[test]
fn zero_width_tolerates_no_records() {
    let bytes = stream(0, 5, &[[1, 1, 1, 1]]);
    assert_eq!(Farbfeld::load(&bytes).unwrap_err(), FarbfeldErr::DimensionMismatch);
}

#[test]
fn decoding_twice_yields_structurally_equal_images() {
    let bytes = stream(2, 1, &[[1, 2, 3, 4], [5, 6, 7, 8]]);
    let a = Farbfeld::load(&bytes).unwrap();
    let b = Farbfeld::load(&bytes).unwrap();
    assert_eq!(a.width(), b.width());
    assert_eq!(a.height(), b.height());
    assert_eq!(a.pixels().len(), b.pixels().len());
    for i in 0..a.pixels().len() {
        assert_eq!(a.get(i), b.get(i));
    }
}
