//! PDF documents.

use rswebtwain::pdf::{PageSpec, PdfError, PdfWriter};
use rswebtwain::scanner::Resolution;

/// A 1x1 JPEG. Content is irrelevant to structure; only its length matters.
fn tiny_jpeg() -> Vec<u8> {
    let img = image::RgbImage::from_raw(1, 1, vec![0u8, 0, 0]).unwrap();
    let mut buf = Vec::new();
    image::DynamicImage::ImageRgb8(img)
        .write_to(&mut std::io::Cursor::new(&mut buf), image::ImageFormat::Jpeg)
        .unwrap();
    buf
}

/// Hundredths of a point that so many pixels take at a resolution.
fn hundredths(px: u32, dpi: u32) -> u64 {
    let dpi = match Resolution::Whole(dpi).effective() {
        Resolution::Whole(n) => n as f32,
        Resolution::Fixed(f) => f.Whole as f32 + f.Frac as f32 / 65536.0,
    };
    format!("{:.2}", px as f64 * 72.0 / dpi as f64).replace('.', "").parse().unwrap()
}

fn page(jpeg: &[u8], width_px: u32, height_px: u32, dpi: u32, channels: u8) -> PageSpec<'_> {
    PageSpec {
        jpeg,
        width_px,
        height_px,
        width_pt: hundredths(width_px, dpi),
        height_pt: hundredths(height_px, dpi),
        channels,
    }
}

fn write_bytes(pages: &[(u32, u32, u32, u8)]) -> Vec<u8> {
    let jpeg = tiny_jpeg();
    let (mut w, mut bytes) = PdfWriter::create();
    for &(width_px, height_px, dpi, channels) in pages {
        bytes.extend(w.add_page(page(&jpeg, width_px, height_px, dpi, channels)).unwrap());
    }
    let (end, written) = w.finish().unwrap();
    bytes.extend(end);
    assert_eq!(written, bytes.len() as u64);
    bytes
}

fn write_doc(pages: &[(u32, u32, u32, u8)]) -> String {
    String::from_utf8_lossy(&write_bytes(pages)).into_owned()
}

/// The defect this replaces: pixels were written as PDF points, so a
/// 300dpi letter page claimed to be 35 inches wide.
#[test]
fn letter_page_at_300dpi_measures_612_by_792_points() {
    let text = write_doc(&[(2550, 3300, 300, 3)]);
    assert!(
        text.contains("/MediaBox [0 0 612.00 792.00]"),
        "expected US Letter in points, got:\n{}",
        text.lines().find(|l| l.contains("MediaBox")).unwrap_or("<none>")
    );
}

#[test]
fn nonpositive_dpi_falls_back_to_300_not_72() {
    let text = write_doc(&[(2550, 3300, 0, 3)]);
    assert!(
        text.contains("/MediaBox [0 0 612.00 792.00]"),
        "zero dpi must fall back to 300"
    );
}

#[test]
fn grayscale_pages_declare_devicegray() {
    let text = write_doc(&[(100, 100, 300, 1)]);
    assert!(text.contains("/ColorSpace /DeviceGray"), "grayscale must not claim RGB");
    assert!(!text.contains("/ColorSpace /DeviceRGB"));
}

#[test]
fn colour_pages_declare_devicergb() {
    let text = write_doc(&[(100, 100, 300, 3)]);
    assert!(text.contains("/ColorSpace /DeviceRGB"));
}

#[test]
fn pages_node_lists_every_page_object() {
    let text = write_doc(&[(100, 100, 300, 3); 4]);
    assert!(text.contains("/Count 4"), "page count wrong");
    for obj in [3, 6, 9, 12] {
        assert!(text.contains(&format!("{obj} 0 R")), "missing kid {obj}");
    }
}

/// The structural invariant that makes the document loadable: every xref
/// entry must point at the byte where that object actually starts.
#[test]
fn xref_offsets_point_at_their_objects() {
    let bytes = write_bytes(&[(100, 100, 300, 3); 3]);
    let text = String::from_utf8_lossy(&bytes);

    let xref_at = text.rfind("\nxref\n").expect("xref section") + 1;
    let after = &text[xref_at + 5..];
    let mut lines = after.lines();
    let header = lines.next().unwrap();
    let size: usize = header.split_whitespace().nth(1).unwrap().parse().unwrap();

    // Entry 0 is the free head; entries 1..size are real objects.
    let entries: Vec<&str> = lines.take(size).collect();
    assert_eq!(entries.len(), size);
    assert!(entries[0].starts_with("0000000000 65535 f"));

    for (i, entry) in entries.iter().enumerate().skip(1) {
        let offset: usize = entry.split_whitespace().next().unwrap().parse().unwrap();
        let expected = format!("{i} 0 obj");
        assert!(
            bytes[offset..].starts_with(expected.as_bytes()),
            "xref entry {i} points at offset {offset}, which is not '{expected}'"
        );
    }
}

#[test]
fn page_count_tracks_added_pages() {
    let jpeg = tiny_jpeg();
    let (mut w, _) = PdfWriter::create();
    assert_eq!(w.page_count(), 0);
    w.add_page(page(&jpeg, 100, 100, 300, 3)).unwrap();
    assert_eq!(w.page_count(), 1);
}

#[test]
fn pdf_unsupported_channel_count_errors() {
    let jpeg = tiny_jpeg();
    let (mut w, _) = PdfWriter::create();
    let result = w.add_page(page(&jpeg, 10, 10, 300, 2));
    assert!(result.is_err());
}

#[test]
fn unsupported_channels_leave_the_document_alone() {
    let (mut w, _) = PdfWriter::create();
    match w.add_page(page(&[1], 10, 10, 300, 4)) {
        Err(e) => assert_eq!(
            e.message(),
            "Image encode error: Unsupported channel count for PDF embedding: 4"
        ),
        Ok(_) => panic!("four channels must be refused"),
    }
    assert_eq!(w.page_count(), 0);
}

#[test]
fn a_one_page_document_byte_for_byte() {
    let (mut w, mut bytes) = PdfWriter::create();
    assert_eq!(bytes, b"%PDF-1.4\n%\xE2\xE3\xCF\xD3\n");
    let spec = PageSpec {
        jpeg: &[7, 8, 9],
        width_px: 100,
        height_px: 50,
        width_pt: 2405,
        height_pt: 1200,
        channels: 1,
    };
    bytes.extend(w.add_page(spec).unwrap());
    let (end, written) = w.finish().unwrap();
    bytes.extend(end);
    assert_eq!(written, bytes.len() as u64);

    let mut expected: Vec<u8> = b"%PDF-1.4\n%\xE2\xE3\xCF\xD3\n".to_vec();
    let mut offsets = Vec::new();
    offsets.push(expected.len());
    expected.extend_from_slice(
        b"3 0 obj\n<< /Type /Page /Parent 2 0 R /MediaBox [0 0 24.05 12.00] /Contents 4 0 R /Resources << /XObject << /Img 5 0 R >> >> >>\nendobj\n",
    );
    offsets.push(expected.len());
    expected.extend_from_slice(b"4 0 obj\n<< /Length 35 >>\nstream\nq\n24.05 0 0 12.00 0 0 cm\n/Img Do\nQ\nendstream\nendobj\n");
    offsets.push(expected.len());
    expected.extend_from_slice(b"5 0 obj\n<< /Type /XObject /Subtype /Image /Width 100 /Height 50 /ColorSpace /DeviceGray /BitsPerComponent 8 /Filter /DCTDecode /Length 3 >>\nstream\n\x07\x08\x09\nendstream\nendobj\n");
    let catalog = expected.len();
    expected.extend_from_slice(b"1 0 obj\n<< /Type /Catalog /Pages 2 0 R >>\nendobj\n");
    let list = expected.len();
    expected.extend_from_slice(b"2 0 obj\n<< /Type /Pages /Kids [ 3 0 R ] /Count 1 >>\nendobj\n");
    let xref = expected.len();
    let mut table = format!("xref\n0 6\n0000000000 65535 f \n{catalog:010} 00000 n \n{list:010} 00000 n \n");
    for offset in offsets {
        table.push_str(&format!("{offset:010} 00000 n \n"));
    }
    table.push_str(&format!("trailer\n<< /Size 6 /Root 1 0 R >>\nstartxref\n{xref}\n%%EOF\n"));
    expected.extend_from_slice(table.as_bytes());
    assert_eq!(String::from_utf8_lossy(&bytes), String::from_utf8_lossy(&expected));
    assert_eq!(bytes, expected);
}

#[test]
fn a_document_without_pages_closes_too() {
    let (w, _) = PdfWriter::create();
    let (end, _) = w.finish().unwrap();
    let text = String::from_utf8_lossy(&end).into_owned();
    assert!(text.contains("/Kids [ ] /Count 0"));
    assert!(text.contains("xref\n0 3\n"));
}

#[test]
fn pdf_errors_describe_themselves() {
    assert_eq!(PdfError::NoPages.message(), "No pages to generate PDF from");
    assert_eq!(PdfError::ImageDecode("x".into()).message(), "Image decode error: x");
    assert_eq!(PdfError::WriteError("x".into()).message(), "PDF write error: x");
}
