//! The driver process, against a scripted manager.

use rswebtwain::driver::{
    cancels_scan, command_step, handle_list_scanners, CommandStep, DriverEffect,
    DriverScan, ScanJob,
};
use rswebtwain::scanner::session::{SessionAction, SessionEvent, SourceListing};
use rswebtwain::scanner::sidecar::{DeviceFault, SidecarCommand, SidecarResponse};
use rswebtwain::scanner::twain::{DsmReply, LoadFailure, Operation, PumpEvent, ScannedPage};
use rswebtwain::scanner::twain_ffi::{
    str_to_tw_str32, ICAP_XRESOLUTION, MSG_CLOSEDSOK, MSG_XFERREADY, TWCC_BUMMER,
    TWCC_CAPUNSUPPORTED, TWCC_PAPERJAM, TWRC_DSEVENT, TWRC_ENDOFLIST, TWRC_FAILURE,
    TWRC_SUCCESS, TWRC_XFERDONE, TW_FIX32, TW_IDENTITY, TW_IMAGEINFO, TW_PENDINGXFERS,
    TW_SETUPMEMXFER,
};

const OK: DsmReply = DsmReply { rc: TWRC_SUCCESS, cc: 0 };
const FAILED: DsmReply = DsmReply { rc: TWRC_FAILURE, cc: 1 };
const END: DsmReply = DsmReply { rc: TWRC_ENDOFLIST, cc: 0 };

fn job() -> ScanJob {
    ScanJob {
        scanner_name: "Fake Scanner".to_string(),
        resolution: 300,
        color_mode: "grayscale".to_string(),
        duplex: false,
        use_adf: true,
        show_ui: true,
    }
}

fn source(name: &str) -> TW_IDENTITY {
    let mut identity = TW_IDENTITY::default();
    identity.Id = 1;
    identity.ProductName = str_to_tw_str32(name);
    identity
}

struct Outcome {
    calls: Vec<Operation>,
    responses: Vec<SidecarResponse>,
    pages: Vec<ScannedPage>,
}

/// Scan from a feeder with this many pages, cancelled after some of them; this
/// operation fails.
fn scan(pages: u16, cancel_after: Option<u32>, fail: Option<Operation>) -> Outcome {
    let mut left = pages;
    let mut scan = DriverScan::new(job());
    let mut out = Outcome { calls: Vec::new(), responses: Vec::new(), pages: Vec::new() };
    let reply = |op: Operation| if fail == Some(op) { FAILED } else { OK };
    loop {
        let event = match scan.action() {
            SessionAction::Finished => return out,
            SessionAction::LoadDsm => SessionEvent::Loaded(Ok(())),
            SessionAction::CreateWindow => SessionEvent::Window(Ok(1)),
            SessionAction::OpenSource(identity) => {
                out.calls.push(Operation::OpenSource);
                SessionEvent::Identity { reply: reply(Operation::OpenSource), identity }
            }
            SessionAction::SetCapability(setting) => SessionEvent::Reply(DsmReply {
                rc: TWRC_FAILURE,
                cc: if fail == Some(Operation::SetCapability) && setting.cap == ICAP_XRESOLUTION {
                    TWCC_CAPUNSUPPORTED
                } else {
                    TWCC_BUMMER
                },
            }),
            SessionAction::Enable { show_ui } => {
                assert!(show_ui);
                out.calls.push(Operation::EnableSource);
                SessionEvent::Reply(reply(Operation::EnableSource))
            }
            SessionAction::Pump => SessionEvent::Pumped(PumpEvent::Processed {
                rc: TWRC_DSEVENT,
                message: if left > 0 { MSG_XFERREADY } else { MSG_CLOSEDSOK },
            }),
            SessionAction::CheckCancel => SessionEvent::Cancel(cancel_after == Some(scan.pages())),
            SessionAction::Transfer { buffer_len } => SessionEvent::Strip {
                reply: if fail == Some(Operation::MemoryTransfer) {
                    DsmReply { rc: TWRC_FAILURE, cc: TWCC_PAPERJAM }
                } else {
                    DsmReply { rc: TWRC_XFERDONE, cc: 0 }
                },
                bytes_per_row: 2,
                bytes_written: buffer_len,
                buffer: vec![scan.pages() as u8; buffer_len as usize],
            },
            SessionAction::Call(op) => {
                out.calls.push(op);
                match op {
                    Operation::FirstSource => {
                        SessionEvent::Identity { reply: OK, identity: source("Other") }
                    }
                    Operation::NextSource => SessionEvent::Identity {
                        reply: if fail == Some(op) { END } else { OK },
                        identity: source("Fake Scanner"),
                    },
                    Operation::ImageInfo => SessionEvent::Info {
                        reply: reply(op),
                        info: TW_IMAGEINFO {
                            XResolution: TW_FIX32 { Whole: 300, Frac: 0 },
                            ImageWidth: 2,
                            ImageLength: 1,
                            BitsPerPixel: 8,
                            ..TW_IMAGEINFO::default()
                        },
                    },
                    Operation::TransferSetup => SessionEvent::Setup {
                        reply: reply(op),
                        setup: TW_SETUPMEMXFER { MinBufSize: 2, MaxBufSize: 2, Preferred: 2 },
                    },
                    Operation::EndTransfer => {
                        left -= 1;
                        SessionEvent::Pending {
                            reply: reply(op),
                            pending: TW_PENDINGXFERS { Count: left, EOJ: 0 },
                        }
                    }
                    _ => SessionEvent::Reply(reply(op)),
                }
            }
        };
        let (next, effect) = scan.advance(event);
        scan = next;
        match effect {
            DriverEffect::Respond(response) => out.responses.push(response),
            DriverEffect::Page(page) => out.pages.push(page),
            DriverEffect::Nothing | DriverEffect::Sleep | DriverEffect::Dispatch => {}
        }
    }
}

fn complaint(out: &Outcome) -> &str {
    match out.responses.last() {
        Some(SidecarResponse::Error { message, .. }) => message,
        other => panic!("unexpected {other:?}"),
    }
}

fn fault(out: &Outcome) -> Option<&DeviceFault> {
    match out.responses.last() {
        Some(SidecarResponse::Error { fault, .. }) => fault.as_ref(),
        other => panic!("unexpected {other:?}"),
    }
}

fn total(out: &Outcome) -> u32 {
    match out.responses.last() {
        Some(SidecarResponse::ScanComplete { total_pages }) => *total_pages,
        other => panic!("unexpected {other:?}"),
    }
}

const CLOSING: [Operation; 3] =
    [Operation::DisableSource, Operation::CloseSource, Operation::CloseDsm];

#[test]
fn a_batch_is_announced_sent_and_completed() {
    let out = scan(3, None, None);
    assert_eq!(total(&out), 3);
    assert_eq!(out.pages.len(), 3);
    for (i, page) in out.pages.iter().enumerate() {
        assert_eq!(page.page_number, i as u32 + 1);
        assert_eq!(page.data, vec![i as u8 + 1; 2]);
        assert_eq!((page.width, page.height, page.bits_per_pixel), (2, 1, 8));
        assert_eq!(page.bytes_per_row, 2);
    }
    let announced: Vec<u32> = out
        .responses
        .iter()
        .filter_map(|r| match r {
            SidecarResponse::ScanProgress { page, status } => {
                assert_eq!(status, "scanning");
                Some(*page)
            }
            _ => None,
        })
        .collect();
    assert_eq!(announced, vec![1, 2, 3]);
    assert_eq!(out.calls[out.calls.len() - 3..], CLOSING);
}

#[test]
fn a_cancelled_batch_completes_with_what_it_has() {
    let out = scan(5, Some(2), None);
    assert_eq!(total(&out), 2);
    assert_eq!(out.pages.len(), 2);
    let n = out.calls.len();
    assert_eq!(out.calls[n - 4], Operation::ResetTransfers);
    assert_eq!(out.calls[n - 3..], CLOSING);
}

#[test]
fn an_empty_feeder_completes_without_pages() {
    let out = scan(0, None, None);
    assert_eq!(total(&out), 0);
    assert_eq!(out.calls[out.calls.len() - 3..], CLOSING);
}

#[test]
fn driver_failures_close_what_is_open() {
    let out = scan(1, None, Some(Operation::OpenDsm));
    assert_eq!(complaint(&out), "Failed to open DSM: rc=1");
    assert_eq!(out.calls, vec![Operation::OpenDsm]);

    let out = scan(1, None, Some(Operation::NextSource));
    assert_eq!(complaint(&out), "Scanner not found: Fake Scanner");
    assert_eq!(out.calls.last(), Some(&Operation::CloseDsm));

    let out = scan(1, None, Some(Operation::OpenSource));
    assert_eq!(complaint(&out), "Failed to open scanner: rc=1");
    assert_eq!(out.calls.last(), Some(&Operation::CloseDsm));

    let out = scan(1, None, Some(Operation::EnableSource));
    assert_eq!(complaint(&out), "Failed to enable scanner: rc=1");
    assert_eq!(out.calls[out.calls.len() - 2..], [Operation::CloseSource, Operation::CloseDsm]);
}

#[test]
fn rejected_capabilities_and_lost_strips_are_complaints() {
    let out = scan(1, None, Some(Operation::SetCapability));
    assert_eq!(complaint(&out), "Capability not supported: 0x1118");
    assert!(matches!(fault(&out), Some(DeviceFault::CapabilityNotSupported(0x1118))));
    assert_eq!(out.responses.len(), 1);
    assert_eq!(out.calls[out.calls.len() - 2..], [Operation::CloseSource, Operation::CloseDsm]);

    let out = scan(2, None, Some(Operation::MemoryTransfer));
    assert_eq!(complaint(&out), "Scanner paper jam detected");
    assert!(matches!(fault(&out), Some(DeviceFault::PaperJam)));
    assert!(out.pages.is_empty());
    assert_eq!(out.calls[out.calls.len() - 3..], CLOSING);
}

#[test]
fn a_jam_is_told_from_other_failures_at_every_step() {
    let jam = DsmReply { rc: TWRC_FAILURE, cc: TWCC_PAPERJAM };
    let mut scan = DriverScan::new(job());
    for event in [
        SessionEvent::Loaded(Ok(())),
        SessionEvent::Window(Ok(1)),
        SessionEvent::Reply(OK),
        SessionEvent::Identity { reply: OK, identity: source("Fake Scanner") },
        SessionEvent::Identity { reply: OK, identity: source("Fake Scanner") },
    ] {
        scan = scan.advance(event).0;
    }
    while let SessionAction::SetCapability(_) = scan.action() {
        scan = scan.advance(SessionEvent::Reply(OK)).0;
    }
    assert!(matches!(scan.action(), SessionAction::Enable { .. }));
    scan = scan.advance(SessionEvent::Reply(jam)).0;
    assert!(matches!(scan.action(), SessionAction::Call(Operation::CloseSource)));
    scan = scan.advance(SessionEvent::Reply(OK)).0;
    match scan.advance(SessionEvent::Reply(OK)).1 {
        DriverEffect::Respond(SidecarResponse::Error {
            message,
            fault: Some(DeviceFault::PaperJam),
        }) => assert_eq!(message, "Failed to enable scanner: rc=1"),
        other => panic!("unexpected {other:?}"),
    }
    let failed = SessionEvent::Loaded(Err(LoadFailure::Library("x".to_string())));
    match DriverScan::new(job()).advance(failed).1 {
        DriverEffect::Respond(SidecarResponse::Error {
            fault: Some(DeviceFault::DsmLoadFailed(e)),
            ..
        }) => assert_eq!(e, "x"),
        other => panic!("unexpected {other:?}"),
    }
}

#[test]
fn a_scan_is_answered_once() {
    let ops = [
        None,
        Some(Operation::OpenDsm),
        Some(Operation::SetCapability),
        Some(Operation::EnableSource),
        Some(Operation::MemoryTransfer),
        Some(Operation::EndTransfer),
    ];
    for fail in ops {
        let out = scan(3, None, fail);
        let ends = out
            .responses
            .iter()
            .filter(|r| !matches!(r, SidecarResponse::ScanProgress { .. }))
            .count();
        assert_eq!(ends, 1, "{fail:?}");
    }
}

#[test]
fn transfers_that_fail_end_the_batch() {
    for op in [Operation::ImageInfo, Operation::TransferSetup] {
        let out = scan(2, None, Some(op));
        let t = op.triplet();
        assert_eq!(
            complaint(&out),
            format!(
                "TWAIN operation failed: DG=0x{:04X} DAT=0x{:04X} MSG=0x0001 RC=1 CC=1",
                t.dg, t.dat
            )
        );
        assert!(fault(&out).is_none());
        assert!(out.pages.is_empty());
        assert_eq!(out.calls[out.calls.len() - 3..], CLOSING);
    }
    let out = scan(2, None, Some(Operation::EndTransfer));
    assert_eq!(total(&out), 1);
    assert_eq!(out.pages.len(), 1);
}

#[test]
fn a_driver_without_manager_says_so() {
    let scan = DriverScan::new(job());
    let failed = SessionEvent::Loaded(Err(LoadFailure::Library("x".to_string())));
    match scan.advance(failed).1 {
        DriverEffect::Respond(SidecarResponse::Error { message, .. }) => {
            assert_eq!(message, "Failed to load 32-bit TWAINDSM.dll: x")
        }
        other => panic!("unexpected {other:?}"),
    }
    let scan = DriverScan::new(job());
    let (scan, _) = scan.advance(SessionEvent::Loaded(Ok(())));
    match scan.advance(SessionEvent::Window(Err("y".to_string()))).1 {
        DriverEffect::Respond(SidecarResponse::Error { message, .. }) => {
            assert_eq!(message, "Failed to create hidden window: y")
        }
        other => panic!("unexpected {other:?}"),
    }
}

#[test]
fn commands_are_told_apart() {
    assert!(matches!(
        command_step(Ok(SidecarCommand::ListScanners)),
        CommandStep::ListScanners
    ));
    assert!(matches!(command_step(Ok(SidecarCommand::Cancel)), CommandStep::Ignore));
    assert!(matches!(
        command_step(Ok(SidecarCommand::Shutdown)),
        CommandStep::Exit(SidecarResponse::Shutdown)
    ));
    match command_step(Err("eof".to_string())) {
        CommandStep::Answer(SidecarResponse::Error { message, .. }) => {
            assert_eq!(message, "Invalid command: eof")
        }
        other => panic!("unexpected {other:?}"),
    }
    let command = SidecarCommand::Scan {
        scanner_name: "S".to_string(),
        resolution: 100,
        color_mode: "bw".to_string(),
        duplex: true,
        use_adf: false,
        show_ui: false,
    };
    match command_step(Ok(command)) {
        CommandStep::Scan(job) => {
            assert_eq!((job.scanner_name.as_str(), job.resolution, job.duplex), ("S", 100, true))
        }
        other => panic!("unexpected {other:?}"),
    }
    assert!(cancels_scan(&Ok(SidecarCommand::Cancel)));
    assert!(!cancels_scan(&Ok(SidecarCommand::Shutdown)));
    assert!(!cancels_scan(&Err("eof".to_string())));
}

#[test]
fn listings_become_responses() {
    let mut listing = SourceListing::new();
    for event in [
        SessionEvent::Loaded(Ok(())),
        SessionEvent::Window(Ok(1)),
        SessionEvent::Reply(OK),
        SessionEvent::Identity { reply: OK, identity: source("Fake Scanner") },
        SessionEvent::Identity { reply: END, identity: source("") },
        SessionEvent::Reply(OK),
    ] {
        listing = listing.advance(event);
    }
    match handle_list_scanners(listing) {
        SidecarResponse::ScannerList { scanners } => {
            assert_eq!(scanners.len(), 1);
            assert_eq!((scanners[0].id.as_str(), scanners[0].name.as_str()), ("1", "Fake Scanner"));
        }
        other => panic!("unexpected {other:?}"),
    }
    let failing = |events: Vec<SessionEvent>| {
        let mut listing = SourceListing::new();
        for event in events {
            listing = listing.advance(event);
        }
        match handle_list_scanners(listing) {
            SidecarResponse::Error { message, .. } => message,
            other => panic!("unexpected {other:?}"),
        }
    };
    assert_eq!(
        failing(vec![SessionEvent::Loaded(Err(LoadFailure::EntryPoint("z".to_string())))]),
        "DSM_Entry not found: z"
    );
    assert_eq!(
        failing(vec![
            SessionEvent::Loaded(Ok(())),
            SessionEvent::Window(Ok(1)),
            SessionEvent::Reply(DsmReply { rc: 12, cc: 0 })
        ]),
        "Failed to open DSM: rc=12"
    );
    assert_eq!(failing(vec![]), "Invalid state transition");
}
