//! Page previews.

use rswebtwain::scanner::thumbnail::{drop_alpha, thumbnail_jpeg, THUMBNAIL_MAX_EDGE};
use rswebtwain::scanner::ScanError;

fn solid(width: u32, height: u32, channels: u8) -> Vec<u8> {
    vec![0x80; (width * height * channels as u32) as usize]
}

/// Decode the produced JPEG so assertions are about the real image, not
/// about our own arithmetic.
fn decoded_size(jpeg: &[u8]) -> (u32, u32) {
    let img = image::load_from_memory(jpeg).expect("thumbnail must be a decodable JPEG");
    (img.width(), img.height())
}

#[test]
fn portrait_page_is_capped_on_its_long_edge() {
    // 2550x3300 is a 300dpi letter page.
    let jpeg = thumbnail_jpeg(&solid(2550, 3300, 3), 2550, 3300, 3).unwrap();
    let (w, h) = decoded_size(&jpeg);
    assert_eq!(h, THUMBNAIL_MAX_EDGE, "long edge should be the cap");
    assert!(w < h, "portrait aspect must be preserved");
    let ratio = w as f64 / h as f64;
    let expected = 2550.0 / 3300.0;
    assert!((ratio - expected).abs() < 0.02, "aspect drifted: {ratio} vs {expected}");
}

#[test]
fn landscape_page_is_capped_on_its_long_edge() {
    let jpeg = thumbnail_jpeg(&solid(3300, 2550, 3), 3300, 2550, 3).unwrap();
    let (w, h) = decoded_size(&jpeg);
    assert_eq!(w, THUMBNAIL_MAX_EDGE);
    assert!(h < w, "landscape aspect must be preserved");
}

#[test]
fn grayscale_pages_are_supported() {
    let jpeg = thumbnail_jpeg(&solid(600, 800, 1), 600, 800, 1).unwrap();
    let (_, h) = decoded_size(&jpeg);
    assert_eq!(h, THUMBNAIL_MAX_EDGE);
}

#[test]
fn rgba_pages_drop_alpha_rather_than_failing() {
    // JPEG has no alpha channel; the thumbnail must still be produced.
    let jpeg = thumbnail_jpeg(&solid(400, 400, 4), 400, 400, 4).unwrap();
    let (w, h) = decoded_size(&jpeg);
    assert_eq!((w, h), (THUMBNAIL_MAX_EDGE, THUMBNAIL_MAX_EDGE));
}

#[test]
fn smaller_than_the_cap_is_not_upscaled() {
    let jpeg = thumbnail_jpeg(&solid(100, 120, 3), 100, 120, 3).unwrap();
    assert_eq!(decoded_size(&jpeg), (100, 120));
}

#[test]
fn thumbnail_unsupported_channel_count_errors() {
    assert!(thumbnail_jpeg(&solid(10, 10, 3), 10, 10, 2).is_err());
}

#[test]
fn truncated_pixel_buffer_errors_rather_than_panicking() {
    assert!(thumbnail_jpeg(&[0u8; 10], 100, 100, 3).is_err());
}

#[test]
fn thumbnail_complaints_name_what_is_wrong() {
    match thumbnail_jpeg(&[0u8; 10], 100, 100, 3) {
        Err(ScanError::ImageConversion(m)) => assert_eq!(
            m,
            "Thumbnail source too small: got 10 bytes, need 30000 for 100x100 at 3 channels"
        ),
        other => panic!("unexpected {other:?}"),
    }
    match thumbnail_jpeg(&solid(10, 10, 3), 10, 10, 2) {
        Err(ScanError::ImageConversion(m)) => {
            assert_eq!(m, "Unsupported channel count for thumbnail: 2")
        }
        other => panic!("unexpected {other:?}"),
    }
    match thumbnail_jpeg(&[], u32::MAX, u32::MAX, 4) {
        Err(ScanError::ImageConversion(m)) => assert_eq!(m, "Thumbnail geometry overflows"),
        other => panic!("unexpected {other:?}"),
    }
}

#[test]
fn an_empty_page_has_no_thumbnail() {
    assert!(matches!(thumbnail_jpeg(&[], 0, 10, 3), Err(ScanError::ImageConversion(_))));
}

#[test]
fn a_page_without_width_still_shrinks_to_a_preview() {
    let jpeg = thumbnail_jpeg(&[], 0, 900, 3).unwrap();
    assert_eq!(decoded_size(&jpeg), (1, 300));
}

#[test]
fn very_long_pages_keep_one_pixel_of_width() {
    let jpeg = thumbnail_jpeg(&solid(2, 3000, 1), 2, 3000, 1).unwrap();
    assert_eq!(decoded_size(&jpeg), (1, 300));
}

#[test]
fn pages_longer_than_the_format_allows_have_thumbnails() {
    // 70000 pixels fit no JPEG, but the thumbnail does.
    let jpeg = thumbnail_jpeg(&solid(70000, 70, 3), 70000, 70, 3).unwrap();
    assert_eq!(decoded_size(&jpeg), (300, 1));
    let jpeg = thumbnail_jpeg(&solid(8, 1000000, 1), 8, 1000000, 1);
    assert_eq!(decoded_size(&jpeg.unwrap()), (1, 300));
}

#[test]
fn rows_too_wide_to_count_are_refused() {
    // Without rows there is nothing to be too short.
    let r = thumbnail_jpeg(&[], u32::MAX, 0, 3);
    if usize::BITS == 32 {
        match r {
            Err(ScanError::ImageConversion(m)) => {
                assert_eq!(m, "Thumbnail buffer rejected by decoder")
            }
            other => panic!("unexpected {other:?}"),
        }
    } else {
        assert_eq!(decoded_size(&r.unwrap()), (300, 1));
    }
}

#[test]
fn bytes_beyond_the_pixels_make_no_difference() {
    let mut pixels = solid(400, 200, 3);
    let jpeg = thumbnail_jpeg(&pixels, 400, 200, 3).unwrap();
    pixels.extend([9, 9, 9]);
    assert_eq!(thumbnail_jpeg(&pixels, 400, 200, 3).unwrap(), jpeg);
}

#[test]
fn aspect_is_kept_to_the_nearest_pixel() {
    // 601 / 2 is 300.5 times smaller than the cap allows: 400 * 300 / 601 = 199.67.
    let jpeg = thumbnail_jpeg(&solid(400, 601, 3), 400, 601, 3).unwrap();
    assert_eq!(decoded_size(&jpeg), (200, 300));
}

#[test]
fn shrinking_averages_the_page() {
    // Left half black, right half white.
    let mut pixels = Vec::new();
    for _ in 0..400 {
        pixels.extend(vec![0u8; 300]);
        pixels.extend(vec![255u8; 300]);
    }
    let jpeg = thumbnail_jpeg(&pixels, 600, 400, 1).unwrap();
    let img = image::load_from_memory(&jpeg).unwrap().to_luma8();
    assert_eq!(img.dimensions(), (300, 200));
    assert!(img.get_pixel(20, 100)[0] < 16);
    assert!(img.get_pixel(280, 100)[0] > 240);
}

#[test]
fn alpha_is_dropped_sample_by_sample() {
    assert_eq!(drop_alpha(&vec![1, 2, 3, 9, 4, 5, 6, 9]), vec![1, 2, 3, 4, 5, 6]);
    assert_eq!(drop_alpha(&vec![]), Vec::<u8>::new());
}
