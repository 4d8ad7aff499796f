//! Scans, as clients see them.

use std::sync::mpsc::{sync_channel, TrySendError};

use rswebtwain::protocol::{AgentMessage, OutputFormat, ScanStatus};
use rswebtwain::scanner::delivery::{Delivery, DeliveryAction, DeliveryEvent, SendOutcome};
use rswebtwain::scanner::run::{
    producer_verdict, until_cancelled, DocumentFault, PaperSize, ProducerEnd, ScanRun,
};
use rswebtwain::scanner::twain::TwainError;
use rswebtwain::scanner::{PageData, Resolution, ScanError, ScannerSource};
use rswebtwain::ws_server::{
    send_binary, OutgoingMessage, CHUNK_BYTES, RESPONSE_CHANNEL_CAPACITY,
};

const SIZE: PaperSize = PaperSize { width_pt: 61200, height_pt: 79200 };

fn page(number: u32, width: u32, height: u32, stride: u32, bits_per_pixel: u16) -> PageData {
    PageData {
        page_number: number,
        width,
        height,
        bits_per_pixel,
        dpi_x: Resolution::Whole(300),
        dpi_y: Resolution::Whole(300),
        bytes_per_row: stride,
        raw_data: vec![0x55; (stride * height) as usize],
    }
}

fn begin(format: OutputFormat) -> (ScanRun, Option<Vec<u8>>) {
    ScanRun::begin("req-1".to_string(), "scan-1".to_string(), format)
}

fn announced(m: AgentMessage) -> (String, Option<u32>, String, usize) {
    match m {
        AgentMessage::BinaryStart { id, scan_id, kind, page, mime, total_bytes } => {
            assert_eq!((id.as_str(), scan_id.as_str()), ("req-1", "scan-1"));
            (kind, page, mime, total_bytes)
        }
        other => panic!("unexpected {other:?}"),
    }
}

fn progress(m: AgentMessage) -> (u32, ScanStatus) {
    match m {
        AgentMessage::ScanProgress { id, scan_id, page, status } => {
            assert_eq!((id.as_str(), scan_id.as_str()), ("req-1", "scan-1"));
            (page, status)
        }
        other => panic!("unexpected {other:?}"),
    }
}

fn total_pages(m: AgentMessage) -> u32 {
    match m {
        AgentMessage::ScanComplete { id, scan_id, total_pages } => {
            assert_eq!((id.as_str(), scan_id.as_str()), ("req-1", "scan-1"));
            total_pages
        }
        other => panic!("unexpected {other:?}"),
    }
}

#[test]
fn sidecar_pages_with_padded_rows_reach_the_client() {
    let (mut run, header) = begin(OutputFormat::Png);
    assert!(header.is_none());
    for number in 1..=2u32 {
        assert_eq!(progress(run.begin_page()), (number, ScanStatus::Scanning));
        let rendered = run.render_page(&page(number, 15, 16, 48, 24), SIZE).unwrap();
        assert!(rendered.document.is_empty());
        let (kind, page, mime, total) = announced(rendered.announcement);
        assert_eq!(kind, "page", "PNG output must send full pages");
        assert_eq!(page, Some(number), "pages arrived out of order");
        assert_eq!(mime, "image/png");
        assert_eq!(total, rendered.payload.len());
        let img = image::load_from_memory(&rendered.payload).expect("must decode as PNG");
        assert_eq!((img.width(), img.height()), (15, 16));
    }
    assert!(run.conclude(Ok(()), false).unwrap().is_none());
    assert_eq!(total_pages(run.complete()), 2);
}

#[test]
fn a_sixty_page_batch_streams_to_completion() {
    let (mut run, header) = begin(OutputFormat::Pdf);
    let mut pdf = header.expect("a document begins with its header");
    for number in 1..=60u32 {
        assert_eq!(progress(run.begin_page()), (number, ScanStatus::Scanning));
        let rendered = run.render_page(&page(number, 20, 30, 20, 8), SIZE).unwrap();
        pdf.extend(rendered.document);
        let (kind, page, mime, total) = announced(rendered.announcement);
        assert_eq!((kind.as_str(), page), ("thumbnail", Some(number)));
        assert_eq!(mime, "image/jpeg");
        assert_eq!(total, rendered.payload.len());
        assert!(image::load_from_memory(&rendered.payload).is_ok());
    }
    let closing = run.conclude(Ok(()), false).unwrap().expect("a document is closed");
    assert_eq!(progress(closing), (60, ScanStatus::Processing));
    pdf.extend(run.finish_document().unwrap());
    let (kind, page, mime, total) = announced(run.announce_document(pdf.len()));
    assert_eq!((kind.as_str(), page, mime.as_str()), ("pdf", None, "application/pdf"));
    assert_eq!(total, pdf.len());
    assert_eq!(total_pages(run.complete()), 60, "scan_complete should report 60 pages");
    let text = String::from_utf8_lossy(&pdf);
    assert!(text.starts_with("%PDF-1.4"), "reassembled bytes are not a PDF");
    assert!(text.contains("/Count 60"), "PDF should declare 60 pages");
    assert!(text.trim_end().ends_with("%%EOF"), "PDF was never closed");
}

#[test]
fn a_run_that_dropped_pages_ends_as_cancelled() {
    let (mut run, _) = begin(OutputFormat::Png);
    run.begin_page();
    assert!(matches!(run.conclude(Ok(()), true), Err(ScanError::Cancelled)));
    let failed = Err(ScanError::Twain(TwainError::PaperJam));
    assert!(matches!(
        run.conclude(failed, true),
        Err(ScanError::Twain(TwainError::PaperJam))
    ));
}

#[test]
fn a_document_without_pages_is_not_sent() {
    let (run, header) = begin(OutputFormat::Pdf);
    assert!(header.is_some());
    assert!(run.conclude(Ok(()), false).unwrap().is_none());
    assert_eq!(run.page_count(), 0);
    assert_eq!(total_pages(run.complete()), 0);
}

#[test]
fn a_send_blocked_on_a_full_queue_still_observes_cancellation() {
    // Nobody reads the queue, so once it is full every further send waits.
    let (tx, _rx) = sync_channel::<OutgoingMessage>(RESPONSE_CHANNEL_CAPACITY);
    for _ in 0..RESPONSE_CHANNEL_CAPACITY {
        tx.try_send(OutgoingMessage::Binary(vec![0])).unwrap();
    }
    let (delivery, action) = Delivery::begin(
        "req-1".to_string(),
        "scan-1".to_string(),
        OutputFormat::Png,
        ScannerSource::Native,
    );
    assert!(matches!(action, DeliveryAction::Receive));
    let page = DeliveryEvent::Page { page: page(1, 8, 8, 8, 8), size: SIZE, cancelled: false };
    let (delivery, action) = delivery.advance(page);
    let DeliveryAction::Send(mut waiting) = action else { panic!("unexpected {action:?}") };

    // The flag is raised while the send waits.
    let mut looks = 0;
    let result = loop {
        looks += 1;
        if let Err(e) = until_cancelled(looks > 3) {
            break Err(e);
        }
        match tx.try_send(waiting) {
            Err(TrySendError::Full(back)) => waiting = back,
            other => break Ok(other.is_ok()),
        }
    };
    assert_eq!(looks, 4);
    assert!(matches!(result, Err(ScanError::Cancelled)), "expected Cancelled, got {result:?}");
    match delivery.advance(DeliveryEvent::Sent(SendOutcome::Cancelled)).1 {
        DeliveryAction::Finished(Err(ScanError::Cancelled)) => {}
        other => panic!("unexpected {other:?}"),
    }
}

#[test]
fn an_uncancelled_transfer_announces_and_delivers_every_byte() {
    let (run, _) = begin(OutputFormat::Png);
    let payload = vec![3u8; CHUNK_BYTES * 2 + 1];
    let message = run.announce("page", Some(1), "image/png", payload.len());
    let (kind, page, mime, total) = announced(message);
    assert_eq!((kind.as_str(), total), ("page", payload.len()));
    assert_eq!((page, mime.as_str()), (Some(1), "image/png"));
    let mut bytes = Vec::new();
    while let Some(frame) = send_binary(&payload, bytes.len()) {
        bytes.extend(frame);
    }
    assert_eq!(bytes, payload, "the transfer lost or reordered bytes");
}

#[test]
fn jpeg_pages_are_sent_as_they_are() {
    let (mut run, header) = begin(OutputFormat::Jpeg);
    assert!(header.is_none());
    run.begin_page();
    let rendered = run.render_page(&page(1, 40, 20, 40, 8), SIZE).unwrap();
    let (kind, page_number, mime, _) = announced(rendered.announcement);
    assert_eq!((kind.as_str(), page_number, mime.as_str()), ("page", Some(1), "image/jpeg"));
    let img = image::load_from_memory(&rendered.payload).unwrap();
    assert_eq!((img.width(), img.height()), (40, 20));
}

#[test]
fn black_and_white_pages_are_embedded_in_gray() {
    let (mut run, header) = begin(OutputFormat::Pdf);
    let mut pdf = header.unwrap();
    run.begin_page();
    pdf.extend(run.render_page(&page(1, 16, 4, 4, 1), SIZE).unwrap().document);
    run.begin_page();
    pdf.extend(run.render_page(&page(2, 16, 4, 48, 24), SIZE).unwrap().document);
    let text = String::from_utf8_lossy(&pdf);
    assert!(text.contains("/ColorSpace /DeviceGray"));
    assert!(text.contains("/ColorSpace /DeviceRGB"));
    assert!(text.contains("/MediaBox [0 0 612.00 792.00]"));
}

#[test]
fn pages_that_cannot_be_rendered_are_errors() {
    let (mut run, _) = begin(OutputFormat::Pdf);
    run.begin_page();
    let text = |r: Result<_, ScanError>| match r {
        Err(ScanError::ImageConversion(m)) => m,
        Err(other) => panic!("unexpected {other:?}"),
        Ok(()) => panic!("must fail"),
    };
    assert_eq!(
        text(run.render_page(&page(1, 4, 4, 64, 16), SIZE).map(|_| ())),
        "Unsupported bit depth: 16"
    );
    assert_eq!(
        text(run.render_page(&page(1, 4, 4, 16, 32), SIZE).map(|_| ())),
        "JPEG unsupported for 32 bpp"
    );
    let mut short = page(1, 4, 4, 4, 8);
    short.raw_data.truncate(3);
    assert_eq!(
        text(run.render_page(&short, SIZE).map(|_| ())),
        "Truncated image buffer: got 3 bytes, need 16 for 4x4 at 8bpp"
    );
    let (mut png, _) = begin(OutputFormat::Png);
    png.begin_page();
    assert!(png.render_page(&page(1, 4, 4, 16, 32), SIZE).is_ok());
}

#[test]
fn thumbnails_are_small_versions_of_their_page() {
    let (mut run, _) = begin(OutputFormat::Pdf);
    run.begin_page();
    let rendered = run.render_page(&page(1, 900, 600, 900, 8), SIZE).unwrap();
    let img = image::load_from_memory(&rendered.payload).unwrap();
    assert_eq!((img.width(), img.height()), (300, 200));
}

#[test]
fn producers_that_panic_fail_the_scan() {
    assert!(matches!(
        producer_verdict(ProducerEnd::Panicked, ScannerSource::Native),
        Err(ScanError::Twain(TwainError::InvalidState))
    ));
    let e = producer_verdict(ProducerEnd::Panicked, ScannerSource::Sidecar).unwrap_err();
    assert_eq!(e.message(), "Sidecar error: Sidecar task panicked");
    assert!(producer_verdict(ProducerEnd::Finished(Ok(())), ScannerSource::Native).is_ok());
}

#[test]
fn faults_of_the_document_file_are_pdf_errors() {
    let e = || "e".to_string();
    let text = |fault: DocumentFault| fault.into_scan_error().message();
    assert_eq!(text(DocumentFault::TempDir(e())), "PDF generation error: temp dir: e");
    assert_eq!(text(DocumentFault::Write(e())), "PDF generation error: PDF write error: e");
    assert_eq!(text(DocumentFault::ReadBack(e())), "PDF generation error: read back: e");
}
