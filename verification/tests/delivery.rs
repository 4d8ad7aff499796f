//! Whole scans on their way to a client.

use rswebtwain::agent::ScanState;
use rswebtwain::protocol::{AgentMessage, ErrorCode, OutputFormat, ScanStatus};
use rswebtwain::scanner::delivery::{Delivery, DeliveryAction, DeliveryEvent, SendOutcome};
use rswebtwain::scanner::run::{DocumentFault, PaperSize, ProducerEnd};
use rswebtwain::scanner::sidecar::{
    RelayAction, RelayEvent, RelayPhase, SidecarResponse, SidecarScan,
};
use rswebtwain::scanner::twain::TwainError;
use rswebtwain::scanner::{PageData, Resolution, ScanError, ScannerSource};
use rswebtwain::ws_server::{OutgoingMessage, CHUNK_BYTES};

const SIZE: PaperSize = PaperSize { width_pt: 61200, height_pt: 79200 };

fn page(width: u32, height: u32) -> PageData {
    let mut raw_data = Vec::new();
    let mut x: u32 = 12345;
    for _ in 0..width * height * 3 {
        x = x.wrapping_mul(1664525).wrapping_add(1013904223);
        raw_data.push((x >> 24) as u8);
    }
    PageData {
        page_number: 1,
        width,
        height,
        bits_per_pixel: 24,
        dpi_x: Resolution::Whole(300),
        dpi_y: Resolution::Whole(300),
        bytes_per_row: width * 3,
        raw_data,
    }
}

/// What a client and the file system saw of a scan.
struct Seen {
    messages: Vec<AgentMessage>,
    /// Each payload, with the kind and length it was announced with.
    payloads: Vec<(String, usize, Vec<u8>)>,
    file: Vec<u8>,
    verdict: Result<(), ScanError>,
}

/// Deliver a scan of so many pages, whose producer ends like this. The outcome of
/// each send is up to `outcome`, by the number of the send.
fn deliver(
    format: OutputFormat,
    pages: u32,
    size: (u32, u32),
    end: ProducerEnd,
    cancelled_at: Option<u32>,
    outcome: impl Fn(usize) -> SendOutcome,
) -> Seen {
    let mut seen = Seen {
        messages: Vec::new(),
        payloads: Vec::new(),
        file: Vec::new(),
        verdict: Ok(()),
    };
    let mut end = Some(end);
    let mut received = 0;
    let mut sends = 0;
    let (mut delivery, mut action) = Delivery::begin(
        "req-1".to_string(),
        "scan-1".to_string(),
        format,
        ScannerSource::Sidecar,
    );
    loop {
        let event = match action {
            DeliveryAction::Create(bytes) | DeliveryAction::Append(bytes) => {
                seen.file.extend(bytes);
                DeliveryEvent::Written(Ok(()))
            }
            DeliveryAction::Receive => {
                received += 1;
                if received <= pages {
                    DeliveryEvent::Page {
                        page: page(size.0, size.1),
                        size: SIZE,
                        cancelled: cancelled_at == Some(received),
                    }
                } else {
                    DeliveryEvent::NoMorePages
                }
            }
            DeliveryAction::Send(message) => {
                sends += 1;
                match message {
                    OutgoingMessage::Json(m) => {
                        if let AgentMessage::BinaryStart { kind, total_bytes, .. } = &m {
                            seen.payloads.push((kind.clone(), *total_bytes, Vec::new()));
                        }
                        seen.messages.push(m);
                    }
                    OutgoingMessage::Binary(frame) => {
                        assert!(!frame.is_empty() && frame.len() <= CHUNK_BYTES);
                        seen.payloads.last_mut().expect("announced").2.extend(frame);
                    }
                }
                DeliveryEvent::Sent(outcome(sends))
            }
            DeliveryAction::Close(bytes) => {
                seen.file.extend(bytes);
                DeliveryEvent::ReadBack(Ok(seen.file.clone()))
            }
            DeliveryAction::Join => DeliveryEvent::Joined(end.take().expect("joined once")),
            DeliveryAction::Finished(verdict) => {
                seen.verdict = verdict;
                return seen;
            }
        };
        let (next, next_action) = delivery.advance(event);
        delivery = next;
        action = next_action;
    }
}

fn delivered(_: usize) -> SendOutcome {
    SendOutcome::Delivered
}

fn ok() -> ProducerEnd {
    ProducerEnd::Finished(Ok(()))
}

fn statuses(seen: &Seen) -> Vec<(u32, ScanStatus)> {
    seen.messages
        .iter()
        .filter_map(|m| match m {
            AgentMessage::ScanProgress { page, status, .. } => Some((*page, *status)),
            _ => None,
        })
        .collect()
}

fn completed(seen: &Seen) -> Option<u32> {
    seen.messages.iter().find_map(|m| match m {
        AgentMessage::ScanComplete { total_pages, .. } => Some(*total_pages),
        _ => None,
    })
}

#[test]
fn a_batch_becomes_thumbnails_and_one_document() {
    let seen = deliver(OutputFormat::Pdf, 60, (20, 30), ok(), None, delivered);
    assert!(seen.verdict.is_ok());
    assert_eq!(completed(&seen), Some(60));
    assert_eq!(seen.payloads.len(), 61);
    for (i, (kind, total, bytes)) in seen.payloads.iter().enumerate() {
        assert_eq!(kind, if i < 60 { "thumbnail" } else { "pdf" });
        assert_eq!(*total, bytes.len());
    }
    assert_eq!(seen.payloads[60].2, seen.file);
    assert!(seen.file.starts_with(b"%PDF-1.4"));
    assert!(seen.file.ends_with(b"%%EOF\n"));
    let statuses = statuses(&seen);
    assert_eq!(statuses.len(), 61);
    assert_eq!(statuses[59], (60, ScanStatus::Scanning));
    assert_eq!(statuses[60], (60, ScanStatus::Processing));
    assert!(matches!(seen.messages.last(), Some(AgentMessage::ScanComplete { .. })));
}

#[test]
fn large_pages_arrive_in_chunks() {
    // Noise does not compress, so this is more than one chunk.
    let seen = deliver(OutputFormat::Png, 2, (400, 300), ok(), None, delivered);
    assert!(seen.verdict.is_ok());
    assert_eq!(seen.payloads.len(), 2);
    for (kind, total, bytes) in &seen.payloads {
        assert_eq!(kind, "page");
        assert!(*total > CHUNK_BYTES);
        assert_eq!(*total, bytes.len());
        let img = image::load_from_memory(bytes).unwrap().to_rgb8();
        assert_eq!(img.into_raw(), page(400, 300).raw_data);
    }
    assert!(seen.file.is_empty());
}

#[test]
fn a_producer_that_fails_late_costs_the_document() {
    let end = ProducerEnd::Finished(Err(ScanError::Sidecar("late".to_string())));
    let seen = deliver(OutputFormat::Pdf, 3, (20, 30), end, None, delivered);
    assert!(matches!(seen.verdict, Err(ScanError::Sidecar(ref m)) if m == "late"));
    assert_eq!(completed(&seen), None);
    assert_eq!(seen.payloads.len(), 3);
    assert!(statuses(&seen).iter().all(|(_, status)| *status == ScanStatus::Scanning));
}

/// A producer that fails only after its last page has been handed over costs the
/// client neither a `Processing` message nor a document.
#[test]
fn a_late_producer_failure_finalizes_no_pdf() {
    let mut state = ScanState::new(None);
    let sidecar_page = |number: u32| {
        let (width, bits_per_pixel, bytes_per_row, data) = if number == 2 {
            (16, 1, 4, "qsyqqvAPqqo=")
        } else {
            (3, 24, 12, "AQIDBAUGBwgJqqqqCgsMDQ4PEBESqqqq")
        };
        SidecarResponse::ScanPage {
            page: number,
            width,
            height: 2,
            bits_per_pixel,
            bytes_per_row,
            data: data.to_string(),
        }
    };
    let mut responses = vec![
        SidecarResponse::ScanProgress { page: 1, status: "scanning".to_string() },
        sidecar_page(1),
        sidecar_page(2),
        sidecar_page(3),
        SidecarResponse::Error {
            message: "fake failure after the last page".to_string(),
            fault: None,
        },
    ]
    .into_iter();
    let mut pages = Vec::new();
    let mut scan = SidecarScan::new(300);
    loop {
        let event = match scan.action() {
            RelayAction::EnsureRunning | RelayAction::StartScan | RelayAction::SendCancel => {
                RelayEvent::Done(Ok(()))
            }
            RelayAction::CheckCancel => RelayEvent::Cancel(false),
            RelayAction::Read => RelayEvent::Response(Ok(responses.next().expect("a response"))),
            RelayAction::Shutdown => RelayEvent::ShutDown,
            RelayAction::Finished => break,
        };
        let (next, page) = scan.advance(event);
        scan = next;
        pages.extend(page);
    }
    let RelayPhase::Done(verdict) = scan.phase else { panic!("unexpected {:?}", scan.phase) };

    let mut pages = pages.into_iter();
    let mut verdict = Some(verdict);
    let (mut delivery, mut action) = Delivery::begin(
        "scan-late".to_string(),
        "scan-1".to_string(),
        OutputFormat::Pdf,
        ScannerSource::Sidecar,
    );
    let mut thumbnails = 0;
    let mut kinds = Vec::new();
    let mut statuses = Vec::new();
    let result = loop {
        let event = match action {
            DeliveryAction::Create(_) | DeliveryAction::Append(_) => DeliveryEvent::Written(Ok(())),
            DeliveryAction::Receive => match pages.next() {
                Some(page) => DeliveryEvent::Page { page, size: SIZE, cancelled: false },
                None => DeliveryEvent::NoMorePages,
            },
            DeliveryAction::Send(message) => {
                match message {
                    OutgoingMessage::Json(AgentMessage::BinaryStart { kind, .. }) => {
                        kinds.push(kind)
                    }
                    OutgoingMessage::Json(AgentMessage::ScanProgress { status, .. }) => {
                        statuses.push(status)
                    }
                    OutgoingMessage::Json(other) => {
                        panic!("a failed scan must not report completion: {other:?}")
                    }
                    OutgoingMessage::Binary(_) => thumbnails += 1,
                }
                DeliveryEvent::Sent(SendOutcome::Delivered)
            }
            DeliveryAction::Close(_) => panic!("the document is finished for nothing"),
            DeliveryAction::Join => {
                DeliveryEvent::Joined(ProducerEnd::Finished(verdict.take().expect("joined once")))
            }
            DeliveryAction::Finished(result) => break result,
        };
        let (next, next_action) = delivery.advance(event);
        delivery = next;
        action = next_action;
    };
    match state.finish_scan("scan-late".to_string(), result) {
        Some(AgentMessage::Error { id, code, message }) => {
            assert_eq!((id.as_str(), code), ("scan-late", ErrorCode::InternalError));
            assert_eq!(message, "Sidecar error: fake failure after the last page");
        }
        other => panic!("the scan never reported the producer's failure: {other:?}"),
    }
    assert_eq!(thumbnails, 3, "every page should still have been previewed");
    assert!(kinds.iter().all(|kind| kind == "thumbnail"), "a document was sent: {kinds:?}");
    assert!(statuses.iter().all(|status| *status == ScanStatus::Scanning), "{statuses:?}");
}

#[test]
fn a_scan_has_one_final_message() {
    let jam = || ProducerEnd::Finished(Err(ScanError::Twain(TwainError::PaperJam)));
    for format in [OutputFormat::Pdf, OutputFormat::Png] {
        let seen = deliver(format, 2, (20, 30), jam(), None, delivered);
        assert_eq!(completed(&seen), None);
        let mut state = ScanState::new(None);
        match state.finish_scan("req-1".to_string(), seen.verdict) {
            Some(AgentMessage::Error { id, code, message }) => {
                assert_eq!((id.as_str(), code), ("req-1", ErrorCode::PaperJam));
                assert_eq!(message, "TWAIN error: Scanner paper jam detected");
            }
            other => panic!("unexpected {other:?}"),
        }
        let seen = deliver(format, 2, (20, 30), ok(), None, delivered);
        let ends = |m: &&AgentMessage| matches!(m, AgentMessage::ScanComplete { .. });
        assert_eq!(seen.messages.iter().filter(ends).count(), 1);
        assert!(state.finish_scan("req-1".to_string(), seen.verdict).is_none());
    }
}

#[test]
fn a_producer_that_panics_fails_the_delivery() {
    let seen = deliver(OutputFormat::Png, 0, (1, 1), ProducerEnd::Panicked, None, delivered);
    assert_eq!(
        seen.verdict.unwrap_err().message(),
        "Sidecar error: Sidecar task panicked"
    );
}

#[test]
fn no_page_is_taken_after_a_cancel() {
    let end = ProducerEnd::Finished(Err(ScanError::Cancelled));
    let seen = deliver(OutputFormat::Pdf, 5, (20, 30), end, Some(3), delivered);
    assert!(matches!(seen.verdict, Err(ScanError::Cancelled)));
    assert_eq!(seen.payloads.len(), 2);
}

#[test]
fn a_cancel_is_not_forgotten_where_the_producer_succeeds() {
    for format in [OutputFormat::Pdf, OutputFormat::Png, OutputFormat::Jpeg] {
        let seen = deliver(format, 5, (20, 30), ok(), Some(3), delivered);
        assert!(matches!(seen.verdict, Err(ScanError::Cancelled)));
        assert_eq!(completed(&seen), None);
        assert_eq!(seen.payloads.len(), 2);
        assert!(statuses(&seen).iter().all(|(_, status)| *status == ScanStatus::Scanning));

        // The client is told so.
        let mut state = ScanState::new(None);
        match state.finish_scan("req-1".to_string(), seen.verdict) {
            Some(AgentMessage::Error { id, code, message }) => {
                assert_eq!((id.as_str(), code), ("req-1", ErrorCode::ScanCancelled));
                assert_eq!(message, "Scan cancelled");
            }
            other => panic!("unexpected {other:?}"),
        }
    }
    let end = ProducerEnd::Finished(Err(ScanError::Twain(TwainError::PaperJam)));
    let seen = deliver(OutputFormat::Png, 5, (20, 30), end, Some(1), delivered);
    assert!(matches!(seen.verdict, Err(ScanError::Twain(TwainError::PaperJam))));
    assert!(seen.messages.is_empty());
}

#[test]
fn payloads_are_whole_before_anything_follows() {
    for format in [OutputFormat::Pdf, OutputFormat::Png, OutputFormat::Jpeg] {
        let (mut delivery, mut action) = Delivery::begin(
            "req-1".to_string(),
            "scan-1".to_string(),
            format,
            ScannerSource::Native,
        );
        let mut owed = 0;
        let mut left = 2;
        let mut file = Vec::new();
        loop {
            if !matches!(
                action,
                DeliveryAction::Send(OutgoingMessage::Binary(_)) | DeliveryAction::Finished(_)
            ) {
                assert_eq!(owed, 0, "{action:?} came too early");
            }
            let event = match action {
                DeliveryAction::Create(bytes) | DeliveryAction::Append(bytes) => {
                    file.extend(bytes);
                    DeliveryEvent::Written(Ok(()))
                }
                DeliveryAction::Receive if left > 0 => {
                    left -= 1;
                    DeliveryEvent::Page { page: page(200, 150), size: SIZE, cancelled: false }
                }
                DeliveryAction::Receive => DeliveryEvent::NoMorePages,
                DeliveryAction::Send(OutgoingMessage::Json(m)) => {
                    if let AgentMessage::BinaryStart { id, total_bytes, .. } = m {
                        assert_eq!(id, "req-1");
                        owed = total_bytes;
                    }
                    DeliveryEvent::Sent(SendOutcome::Delivered)
                }
                DeliveryAction::Send(OutgoingMessage::Binary(frame)) => {
                    assert!(!frame.is_empty() && frame.len() <= owed);
                    owed -= frame.len();
                    DeliveryEvent::Sent(SendOutcome::Delivered)
                }
                DeliveryAction::Close(bytes) => {
                    file.extend(bytes);
                    DeliveryEvent::ReadBack(Ok(file.clone()))
                }
                DeliveryAction::Join => DeliveryEvent::Joined(ok()),
                DeliveryAction::Finished(verdict) => {
                    assert!(verdict.is_ok() && owed == 0);
                    break;
                }
            };
            let (next, next_action) = delivery.advance(event);
            delivery = next;
            action = next_action;
        }
    }
}

#[test]
fn a_cancelled_send_ends_the_scan() {
    for n in 1..10 {
        let seen = deliver(OutputFormat::Pdf, 2, (20, 30), ok(), None, |send| {
            if send == n {
                SendOutcome::Cancelled
            } else {
                SendOutcome::Delivered
            }
        });
        if completed(&seen).is_some() {
            assert!(seen.verdict.is_ok(), "the last message is not waited for");
        } else {
            assert!(matches!(seen.verdict, Err(ScanError::Cancelled)));
        }
    }
}

#[test]
fn a_client_that_leaves_mid_transfer_ends_the_scan() {
    // Sends are progress, announcement, frame: messages are not missed, frames are.
    let seen = deliver(OutputFormat::Jpeg, 2, (20, 30), ok(), None, |send| {
        if send <= 2 {
            SendOutcome::Gone
        } else {
            SendOutcome::Delivered
        }
    });
    assert!(seen.verdict.is_ok());
    let seen = deliver(OutputFormat::Jpeg, 2, (20, 30), ok(), None, |_| SendOutcome::Gone);
    assert_eq!(
        seen.verdict.unwrap_err().message(),
        "Sidecar error: client disconnected during transfer"
    );
}

#[test]
fn empty_scans_complete() {
    for format in [OutputFormat::Pdf, OutputFormat::Png, OutputFormat::Jpeg] {
        let seen = deliver(format, 0, (1, 1), ok(), None, delivered);
        assert!(seen.verdict.is_ok());
        assert_eq!(completed(&seen), Some(0));
        assert_eq!(seen.messages.len(), 1);
    }
}

#[test]
fn faults_of_the_file_end_the_scan() {
    let (delivery, _) = Delivery::begin(
        "r".to_string(),
        "s".to_string(),
        OutputFormat::Pdf,
        ScannerSource::Native,
    );
    assert_eq!(delivery.pages(), 0);
    let fault = DocumentFault::TempDir("full".to_string());
    match delivery.advance(DeliveryEvent::Written(Err(fault))).1 {
        DeliveryAction::Finished(Err(ScanError::PdfGeneration(m))) => {
            assert_eq!(m, "temp dir: full")
        }
        other => panic!("unexpected {other:?}"),
    }
}

#[test]
fn events_that_answer_nothing_are_refused() {
    let (delivery, _) = Delivery::begin(
        "r".to_string(),
        "s".to_string(),
        OutputFormat::Png,
        ScannerSource::Native,
    );
    assert!(matches!(
        delivery.advance(DeliveryEvent::Sent(SendOutcome::Delivered)).1,
        DeliveryAction::Finished(Err(ScanError::Twain(TwainError::InvalidState)))
    ));
}
