//! Normalization of raw page buffers.

use rswebtwain::scanner::raw::normalize;
use rswebtwain::scanner::ScanError;

fn complaint(r: Result<Vec<u8>, ScanError>) -> String {
    match r {
        Err(ScanError::ImageConversion(m)) => m,
        other => panic!("expected a conversion error, got {other:?}"),
    }
}

#[test]
fn strips_row_padding_8bpp() {
    // 3px wide, 2 rows, but the source pads each row to 4 bytes.
    let raw = vec![1, 2, 3, 0xAA, 4, 5, 6, 0xAA];
    let out = normalize(&raw, 3, 2, 8, 4).unwrap();
    assert_eq!(out, vec![1, 2, 3, 4, 5, 6]);
}

#[test]
fn strips_row_padding_24bpp() {
    // 2px wide RGB = 6 bytes of pixels, padded to an 8-byte stride.
    let raw = vec![1, 2, 3, 4, 5, 6, 0xAA, 0xAA, 7, 8, 9, 10, 11, 12, 0xAA, 0xAA];
    let out = normalize(&raw, 2, 2, 24, 8).unwrap();
    assert_eq!(out, vec![1, 2, 3, 4, 5, 6, 7, 8, 9, 10, 11, 12]);
}

#[test]
fn expands_1bpp_to_8bpp_msb_first() {
    // 16px wide, 2 rows, tightly packed at 2 bytes per row.
    // TWPF_CHOCOLATE: a 0 bit is black (0x00), a 1 bit is white (0xFF).
    let raw = vec![0b1010_1010, 0b1100_1100, 0b1111_0000, 0b0000_1111];
    let out = normalize(&raw, 16, 2, 1, 2).unwrap();

    let w = 0xFFu8;
    let b = 0x00u8;
    assert_eq!(
        out,
        vec![
            w, b, w, b, w, b, w, b, w, w, b, b, w, w, b, b,
            w, w, w, w, b, b, b, b, b, b, b, b, w, w, w, w,
        ]
    );
}

#[test]
fn truncated_buffer_errors_instead_of_panicking() {
    // Two rows promised, only one row's worth of bytes delivered.
    let raw = vec![1, 2, 3, 0xAA];
    assert!(normalize(&raw, 3, 2, 8, 4).is_err());
}

#[test]
fn rejects_unsupported_bit_depth() {
    let raw = vec![0u8; 64];
    assert!(normalize(&raw, 4, 2, 4, 4).is_err());
    assert!(normalize(&raw, 4, 2, 16, 8).is_err());
}

#[test]
fn rejects_stride_smaller_than_a_row() {
    // A 4px 24bpp row needs 12 bytes; the source claims 8.
    let raw = vec![0u8; 64];
    assert!(normalize(&raw, 4, 2, 24, 8).is_err());
}

#[test]
fn expands_1bpp_with_row_padding() {
    // 9px wide needs 2 bytes, but the source pads the row to 4.
    let raw = vec![
        0b1010_1010, 0b1000_0000, 0xAA, 0xAA,
        0b0101_0101, 0b0000_0000, 0xAA, 0xAA,
    ];
    let out = normalize(&raw, 9, 2, 1, 4).unwrap();
    let w = 0xFFu8;
    let b = 0x00u8;
    assert_eq!(
        out,
        vec![w, b, w, b, w, b, w, b, w, b, w, b, w, b, w, b, w, b]
    );
}

#[test]
fn strips_row_padding_32bpp() {
    // Two rows, so the padded stride is actually traversed.
    let raw = vec![
        1, 2, 3, 4, 5, 6, 7, 8, 0xAA, 0xAA,
        9, 10, 11, 12, 13, 14, 15, 16, 0xAA, 0xAA,
    ];
    let out = normalize(&raw, 2, 2, 32, 10).unwrap();
    assert_eq!(out, vec![1, 2, 3, 4, 5, 6, 7, 8, 9, 10, 11, 12, 13, 14, 15, 16]);
}

#[test]
fn handles_letter_size_24bpp_with_dword_padded_rows() {
    // 8.5in @ 300dpi = 2550px. A 24bpp row is 7650 bytes, which most
    // sources pad to the next DWORD boundary: 7652. This geometry is
    // what panicked before normalization existed.
    let width = 2550u32;
    let height = 4u32;
    let min_row = width as usize * 3;
    let stride = 7652usize;
    assert_ne!(stride, min_row, "test is pointless without real padding");

    let mut raw = vec![0u8; stride * height as usize];
    for y in 0..height as usize {
        raw[y * stride] = (y + 1) as u8;
    }

    let out = normalize(&raw, width, height, 24, stride as u32).unwrap();
    assert_eq!(out.len(), min_row * height as usize);
    for y in 0..height as usize {
        assert_eq!(out[y * min_row], (y + 1) as u8, "row {} misaligned", y);
    }
}

#[test]
fn final_row_needs_no_padding() {
    let raw = vec![1, 2, 3, 0xAA, 4, 5, 6];
    assert_eq!(normalize(&raw, 3, 2, 8, 4).unwrap(), vec![1, 2, 3, 4, 5, 6]);
    assert!(normalize(&raw[..6], 3, 2, 8, 4).is_err());
}

#[test]
fn complaints_name_what_is_wrong() {
    assert_eq!(
        complaint(normalize(&[0; 4], 0, 2, 8, 4)),
        "Empty image geometry: 0x2"
    );
    assert_eq!(
        complaint(normalize(&[0; 64], 4, 2, 16, 8)),
        "Unsupported bit depth: 16"
    );
    assert_eq!(
        complaint(normalize(&[0; 64], 4, 2, 24, 8)),
        "BytesPerRow 8 is smaller than a 24bpp row of 4 pixels (12 bytes)"
    );
    assert_eq!(
        complaint(normalize(&[1, 2, 3, 0xAA], 3, 2, 8, 4)),
        "Truncated image buffer: got 4 bytes, need 7 for 3x2 at 8bpp"
    );
    assert_eq!(
        complaint(normalize(&[0; 8], 9, 1, 1, 1)),
        "BytesPerRow 1 is smaller than a 1bpp row of 9 pixels (2 bytes)"
    );
}

#[test]
fn largest_geometry_is_refused_as_truncated() {
    // Rows of 4 GiB, as many as can be counted.
    assert_eq!(
        complaint(normalize(&[0; 8], 1_073_741_823, u32::MAX, 32, u32::MAX)),
        "Truncated image buffer: got 8 bytes, need 18446744065119617022 for 1073741823x4294967295 at 32bpp"
    );
}
