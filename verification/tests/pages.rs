//! Pages into image files.

use rswebtwain::scanner::encode::{encoded, PixelLayout};
use rswebtwain::scanner::twain_ffi::TW_FIX32;
use rswebtwain::scanner::{PageData, Resolution, ScanError};

fn padded_24bpp_page(width: u32, height: u32, stride: u32) -> PageData {
    PageData {
        page_number: 1,
        width,
        height,
        bits_per_pixel: 24,
        dpi_x: Resolution::Whole(300),
        dpi_y: Resolution::Whole(300),
        bytes_per_row: stride,
        raw_data: vec![0x40; stride as usize * height as usize],
    }
}

#[test]
fn to_png_handles_dword_padded_rows() {
    // 2550px @ 24bpp is a 7650-byte row, padded to 7652 by most sources.
    let page = padded_24bpp_page(2550, 4, 7652);
    assert!(page.to_png().is_ok());
}

#[test]
fn to_jpeg_handles_dword_padded_rows() {
    let page = padded_24bpp_page(2550, 4, 7652);
    assert!(page.to_jpeg(85).is_ok());
}

#[test]
fn to_png_converts_1bpp_black_and_white() {
    let page = PageData {
        page_number: 1,
        width: 16,
        height: 2,
        bits_per_pixel: 1,
        dpi_x: Resolution::Whole(300),
        dpi_y: Resolution::Whole(300),
        bytes_per_row: 4,
        raw_data: vec![
            0b1010_1010, 0b1100_1100, 0xAA, 0xAA, 0b1111_0000, 0b0000_1111, 0xAA, 0xAA,
        ],
    };
    assert!(page.to_png().is_ok());
}

#[test]
fn to_png_reports_error_rather_than_panicking_on_truncated_data() {
    let mut page = padded_24bpp_page(2550, 4, 7652);
    page.raw_data.truncate(100);
    assert!(page.to_png().is_err());
}

#[test]
fn png_holds_the_pixels() {
    let mut page = padded_24bpp_page(2, 2, 8);
    page.raw_data = vec![1, 2, 3, 4, 5, 6, 0, 0, 7, 8, 9, 10, 11, 12, 0, 0];
    let png = page.to_png().unwrap();
    let img = image::load_from_memory(&png).unwrap().to_rgb8();
    assert_eq!(img.dimensions(), (2, 2));
    assert_eq!(img.into_raw(), vec![1, 2, 3, 4, 5, 6, 7, 8, 9, 10, 11, 12]);
    assert_eq!(page.normalized().unwrap(), vec![1, 2, 3, 4, 5, 6, 7, 8, 9, 10, 11, 12]);
}

#[test]
fn png_keeps_alpha_and_jpeg_refuses_it() {
    let page = PageData {
        page_number: 1,
        width: 1,
        height: 1,
        bits_per_pixel: 32,
        dpi_x: Resolution::Whole(300),
        dpi_y: Resolution::Whole(300),
        bytes_per_row: 4,
        raw_data: vec![1, 2, 3, 4],
    };
    let png = page.to_png().unwrap();
    assert_eq!(image::load_from_memory(&png).unwrap().to_rgba8().into_raw(), vec![1, 2, 3, 4]);
    match page.to_jpeg(85) {
        Err(ScanError::ImageConversion(m)) => assert_eq!(m, "JPEG unsupported for 32 bpp"),
        other => panic!("unexpected {other:?}"),
    }
}

#[test]
fn jpeg_is_a_jpeg_of_the_page() {
    let page = padded_24bpp_page(40, 30, 120);
    let jpeg = page.to_jpeg(85).unwrap();
    assert_eq!(&jpeg[..2], &[0xFF, 0xD8]);
    let img = image::load_from_memory(&jpeg).unwrap().to_rgb8();
    assert_eq!(img.dimensions(), (40, 30));
    assert!(img.pixels().all(|p| p.0.iter().all(|c| (0x3C..=0x44).contains(c))));
}

#[test]
fn jpeg_edges_have_to_fit_sixteen_bits() {
    let mut page = padded_24bpp_page(65536, 1, 65536);
    page.bits_per_pixel = 8;
    match page.to_jpeg(85) {
        Err(ScanError::ImageConversion(m)) => assert!(m.contains("65536 x 1")),
        other => panic!("unexpected {other:?}"),
    }
    page.width = 65535;
    assert!(page.to_jpeg(85).is_ok());
}

#[test]
fn grayscale_jpegs_have_one_component() {
    let mut page = padded_24bpp_page(8, 8, 8);
    page.bits_per_pixel = 8;
    let jpeg = page.to_jpeg(85).unwrap();
    let img = image::load_from_memory(&jpeg).unwrap();
    assert_eq!(img.color(), image::ColorType::L8);
}

#[test]
fn encoder_complaints_become_conversion_errors() {
    assert_eq!(encoded(Ok(vec![7])).unwrap(), vec![7]);
    match encoded(Err("no".to_string())) {
        Err(e) => assert_eq!(e.message(), "Image conversion error: no"),
        other => panic!("unexpected {other:?}"),
    }
    assert_eq!(PixelLayout::Rgba.samples(), 4);
}

#[test]
fn nonpositive_resolutions_fall_back_to_the_default() {
    let fallback = Resolution::Whole(300);
    assert_eq!(Resolution::Whole(0).effective(), fallback);
    assert_eq!(Resolution::Whole(1).effective(), Resolution::Whole(1));
    let fixed = |whole: i16, frac: u16| Resolution::Fixed(TW_FIX32 { Whole: whole, Frac: frac });
    assert_eq!(fixed(0, 0).effective(), fallback);
    assert_eq!(fixed(-1, 65535).effective(), fallback);
    assert_eq!(fixed(0, 1).effective(), fixed(0, 1));
    assert_eq!(fixed(200, 0).effective(), fixed(200, 0));
}
