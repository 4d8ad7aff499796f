//! Native sessions, against a scripted manager.

use rswebtwain::scanner::session::{
    ListingPhase, NativeScan, SessionAction, SessionEffect, SessionEvent, SourceListing,
};
use rswebtwain::scanner::twain::{
    DsmReply, LoadFailure, Operation, PumpEvent, ScanOptions, TwainError,
};
use rswebtwain::scanner::twain_ffi::{
    str_to_tw_str32, tw_str32_to_string, CAP_XFERCOUNT, ICAP_COMPRESSION, ICAP_PIXELTYPE,
    ICAP_XRESOLUTION, ICAP_YRESOLUTION, MSG_CLOSEDSREQ, MSG_XFERREADY, TWCC_BADCAP, TWCC_BADVALUE,
    TWCC_CAPBADOPERATION, TWCC_CAPUNSUPPORTED, TWCC_LOWMEMORY, TWCC_PAPERDOUBLEFEED, TWCC_PAPERJAM,
    TWRC_DSEVENT, TWRC_ENDOFLIST, TWRC_FAILURE, TWRC_SUCCESS, TWRC_XFERDONE, TW_FIX32, TW_IDENTITY,
    TW_IMAGEINFO, TW_PENDINGXFERS, TW_SETUPMEMXFER,
};
use rswebtwain::scanner::{PageData, Resolution, ScanError, ScannerSource};

const OK: DsmReply = DsmReply { rc: TWRC_SUCCESS, cc: 0 };
const FAILED: DsmReply = DsmReply { rc: TWRC_FAILURE, cc: 1 };
const END: DsmReply = DsmReply { rc: TWRC_ENDOFLIST, cc: 0 };

fn source(id: u32, name: &str) -> TW_IDENTITY {
    let mut identity = TW_IDENTITY::default();
    identity.Id = id;
    identity.ProductName = str_to_tw_str32(name);
    identity
}

/// A manager with two sources, the second of which has some pages.
struct Manager {
    pages_left: u16,
    cancel_before_page: Option<u32>,
    cancel_while_waiting: bool,
    fail: Option<Operation>,
    /// The capability that the source rejects, and why.
    rejects: Option<(u16, u16)>,
    /// Why the second strip is not delivered.
    strip_fails: Option<u16>,
    listed: usize,
    strips: usize,
    calls: Vec<Operation>,
    opened: Vec<String>,
    ui: Option<bool>,
}

impl Manager {
    fn with_pages(pages: u16) -> Manager {
        Manager {
            pages_left: pages,
            cancel_before_page: None,
            cancel_while_waiting: false,
            fail: None,
            rejects: None,
            strip_fails: None,
            listed: 0,
            strips: 0,
            calls: Vec::new(),
            opened: Vec::new(),
            ui: None,
        }
    }

    fn reply(&self, op: Operation) -> DsmReply {
        if self.fail == Some(op) {
            FAILED
        } else {
            OK
        }
    }

    fn perform(&mut self, action: SessionAction, pages: u32) -> SessionEvent {
        match action {
            SessionAction::LoadDsm => SessionEvent::Loaded(Ok(())),
            SessionAction::CreateWindow => SessionEvent::Window(Ok(5)),
            SessionAction::OpenSource(identity) => {
                self.opened.push(tw_str32_to_string(&identity.ProductName));
                SessionEvent::Identity { reply: self.reply(Operation::OpenSource), identity }
            }
            SessionAction::SetCapability(setting) => SessionEvent::Reply(match self.rejects {
                Some((cap, cc)) if cap == setting.cap => DsmReply { rc: TWRC_FAILURE, cc },
                _ => FAILED,
            }),
            SessionAction::Enable { show_ui } => {
                self.ui = Some(show_ui);
                SessionEvent::Reply(self.reply(Operation::EnableSource))
            }
            SessionAction::Pump if self.cancel_while_waiting => {
                SessionEvent::Pumped(PumpEvent::Cancelled)
            }
            SessionAction::Pump => SessionEvent::Pumped(PumpEvent::Processed {
                rc: TWRC_DSEVENT,
                message: if self.pages_left > 0 { MSG_XFERREADY } else { MSG_CLOSEDSREQ },
            }),
            SessionAction::CheckCancel => {
                SessionEvent::Cancel(self.cancel_before_page == Some(pages + 1))
            }
            SessionAction::Transfer { buffer_len } => {
                assert_eq!(buffer_len, 4);
                self.strips += 1;
                SessionEvent::Strip {
                    reply: match self.strip_fails {
                        Some(cc) if self.strips == 2 => DsmReply { rc: TWRC_FAILURE, cc },
                        _ if self.strips % 2 == 0 => DsmReply { rc: TWRC_XFERDONE, cc: 0 },
                        _ => OK,
                    },
                    bytes_per_row: 4,
                    bytes_written: 4,
                    buffer: vec![self.strips as u8; 4],
                }
            }
            SessionAction::Call(op) => {
                self.calls.push(op);
                match op {
                    Operation::FirstSource | Operation::NextSource => {
                        self.listed += 1;
                        match self.listed {
                            1 => SessionEvent::Identity { reply: OK, identity: source(1, "A") },
                            2 => SessionEvent::Identity { reply: OK, identity: source(2, "B") },
                            _ => SessionEvent::Identity { reply: END, identity: source(0, "") },
                        }
                    }
                    Operation::ImageInfo => SessionEvent::Info {
                        reply: self.reply(op),
                        info: TW_IMAGEINFO {
                            XResolution: TW_FIX32 { Whole: 200, Frac: 0 },
                            YResolution: TW_FIX32 { Whole: 100, Frac: 0 },
                            ImageWidth: 3,
                            ImageLength: 2,
                            BitsPerPixel: 8,
                            ..TW_IMAGEINFO::default()
                        },
                    },
                    Operation::TransferSetup => SessionEvent::Setup {
                        reply: self.reply(op),
                        setup: TW_SETUPMEMXFER { MinBufSize: 1, MaxBufSize: 9, Preferred: 4 },
                    },
                    Operation::EndTransfer => {
                        self.pages_left -= 1;
                        SessionEvent::Pending {
                            reply: self.reply(op),
                            pending: TW_PENDINGXFERS { Count: self.pages_left, EOJ: 0 },
                        }
                    }
                    _ => SessionEvent::Reply(self.reply(op)),
                }
            }
            SessionAction::Finished => panic!("nothing is left to do"),
        }
    }

    fn scan(&mut self, name: &str) -> (Vec<PageData>, Result<(), ScanError>) {
        let mut scan = NativeScan::new(name.to_string(), ScanOptions::default());
        let mut pages = Vec::new();
        loop {
            let action = scan.action();
            if matches!(action, SessionAction::Finished) {
                break;
            }
            let event = self.perform(action, scan.pages());
            let (next, effect) = scan.advance(event);
            scan = next;
            if let SessionEffect::Page(page) = effect {
                pages.push(page);
            }
        }
        (pages, scan.verdict().expect("the scan is over"))
    }
}

#[test]
fn a_native_scan_hands_on_every_page() {
    let mut manager = Manager::with_pages(2);
    let (pages, verdict) = manager.scan("B");
    assert!(verdict.is_ok());
    assert_eq!(manager.opened, vec!["B".to_string()]);
    assert_eq!(manager.ui, Some(false));
    assert_eq!(pages.len(), 2);
    assert_eq!((pages[0].page_number, pages[1].page_number), (1, 2));
    assert_eq!(pages[0].raw_data, vec![1, 1, 1, 1, 2, 2, 2, 2]);
    assert_eq!(pages[1].raw_data, vec![3, 3, 3, 3, 4, 4, 4, 4]);
    assert_eq!((pages[0].width, pages[0].height, pages[0].bits_per_pixel), (3, 2, 8));
    assert_eq!(pages[0].bytes_per_row, 4);
    assert_eq!(pages[0].dpi_x, Resolution::Fixed(TW_FIX32 { Whole: 200, Frac: 0 }));
    assert_eq!(pages[0].dpi_y, Resolution::Fixed(TW_FIX32 { Whole: 100, Frac: 0 }));
    let n = manager.calls.len();
    assert_eq!(manager.calls[n - 2..], [Operation::CloseSource, Operation::CloseDsm]);
}

#[test]
fn a_source_that_closes_itself_ends_the_scan() {
    let mut manager = Manager::with_pages(0);
    let (pages, verdict) = manager.scan("A");
    assert!(pages.is_empty());
    assert!(verdict.is_ok());
    let n = manager.calls.len();
    assert_eq!(
        manager.calls[n - 3..],
        [Operation::DisableSource, Operation::CloseSource, Operation::CloseDsm]
    );
}

#[test]
fn a_cancelled_native_scan_drops_what_is_pending() {
    let mut manager = Manager::with_pages(5);
    manager.cancel_before_page = Some(3);
    let (pages, verdict) = manager.scan("B");
    assert_eq!(pages.len(), 2);
    assert!(matches!(verdict, Err(ScanError::Cancelled)));
    let n = manager.calls.len();
    assert_eq!(
        manager.calls[n - 3..],
        [Operation::ResetTransfers, Operation::CloseSource, Operation::CloseDsm]
    );
}

#[test]
fn a_scan_cancelled_before_its_first_page_ends_as_cancelled() {
    let mut manager = Manager::with_pages(2);
    manager.cancel_while_waiting = true;
    let (pages, verdict) = manager.scan("B");
    assert!(pages.is_empty());
    assert!(matches!(verdict, Err(ScanError::Cancelled)));
    let n = manager.calls.len();
    assert_eq!(
        manager.calls[n - 3..],
        [Operation::DisableSource, Operation::CloseSource, Operation::CloseDsm]
    );
}

#[test]
fn a_rejected_capability_ends_the_scan() {
    for cc in [TWCC_CAPUNSUPPORTED, TWCC_BADCAP, TWCC_BADVALUE, TWCC_CAPBADOPERATION] {
        for cap in [ICAP_PIXELTYPE, ICAP_XRESOLUTION, ICAP_YRESOLUTION] {
            let mut manager = Manager::with_pages(2);
            manager.rejects = Some((cap, cc));
            let (pages, verdict) = manager.scan("B");
            assert!(pages.is_empty());
            assert!(matches!(
                verdict,
                Err(ScanError::Twain(TwainError::CapabilityNotSupported(c))) if c == cap
            ));
            let n = manager.calls.len();
            assert_eq!(manager.calls[n - 2..], [Operation::CloseSource, Operation::CloseDsm]);
            assert_eq!(manager.ui, None, "the source is not enabled");
        }
    }
    // What no request asks for keeps the source's own value.
    for cap in [ICAP_COMPRESSION, CAP_XFERCOUNT] {
        let mut manager = Manager::with_pages(2);
        manager.rejects = Some((cap, TWCC_CAPUNSUPPORTED));
        let (pages, verdict) = manager.scan("B");
        assert_eq!(pages.len(), 2);
        assert!(verdict.is_ok());
    }
}

#[test]
fn a_jam_in_mid_page_is_reported_as_one() {
    let strip = |cc: u16| {
        let mut manager = Manager::with_pages(2);
        manager.strip_fails = Some(cc);
        let (pages, verdict) = manager.scan("B");
        assert!(pages.is_empty(), "no part of a page is handed on");
        let n = manager.calls.len();
        assert_eq!(
            manager.calls[n - 4..],
            [
                Operation::ResetTransfers,
                Operation::DisableSource,
                Operation::CloseSource,
                Operation::CloseDsm
            ]
        );
        verdict
    };
    assert!(matches!(
        strip(TWCC_PAPERJAM),
        Err(ScanError::Twain(TwainError::PaperJam))
    ));
    assert!(matches!(
        strip(TWCC_PAPERDOUBLEFEED),
        Err(ScanError::Twain(TwainError::PaperDoubleFeed))
    ));
    assert!(matches!(
        strip(TWCC_LOWMEMORY),
        Err(ScanError::Twain(TwainError::OperationFailed { dat: 0x0103, rc: 1, cc: 2, .. }))
    ));
}

#[test]
fn an_unknown_source_closes_the_manager() {
    let mut manager = Manager::with_pages(1);
    let (_, verdict) = manager.scan("C");
    assert!(matches!(verdict, Err(ScanError::Twain(TwainError::NoSources))));
    assert_eq!(manager.calls.last(), Some(&Operation::CloseDsm));
}

#[test]
fn failures_between_pages_tear_everything_down() {
    for op in [Operation::ImageInfo, Operation::TransferSetup, Operation::EndTransfer] {
        let mut manager = Manager::with_pages(2);
        manager.fail = Some(op);
        let (pages, verdict) = manager.scan("B");
        assert!(pages.is_empty());
        match verdict {
            Err(ScanError::Twain(TwainError::OperationFailed { dat, rc, cc, .. })) => {
                assert_eq!((dat, rc, cc), (op.triplet().dat, 1, 1))
            }
            other => panic!("unexpected {other:?}"),
        }
        let n = manager.calls.len();
        assert_eq!(
            manager.calls[n - 4..],
            [
                Operation::ResetTransfers,
                Operation::DisableSource,
                Operation::CloseSource,
                Operation::CloseDsm
            ]
        );
    }
}

#[test]
fn failures_to_open_end_the_scan() {
    for op in [Operation::OpenDsm, Operation::OpenSource, Operation::EnableSource] {
        let mut manager = Manager::with_pages(2);
        manager.fail = Some(op);
        let (pages, verdict) = manager.scan("B");
        assert!(pages.is_empty());
        assert!(matches!(
            verdict,
            Err(ScanError::Twain(TwainError::OperationFailed { msg, .. })) if msg == op.triplet().msg
        ));
    }
}

#[test]
fn a_native_scan_needs_the_manager() {
    let scan = NativeScan::new("A".to_string(), ScanOptions::default());
    let failed = SessionEvent::Loaded(Err(LoadFailure::Library("not found".to_string())));
    let (scan, _) = scan.advance(failed);
    assert!(matches!(
        scan.verdict(),
        Some(Err(ScanError::Twain(TwainError::DsmLoadFailed(m)))) if m == "not found"
    ));
}

#[test]
fn events_out_of_order_are_refused() {
    let scan = NativeScan::new("A".to_string(), ScanOptions::default());
    let (scan, _) = scan.advance(SessionEvent::Cancel(true));
    assert!(matches!(
        scan.verdict(),
        Some(Err(ScanError::Twain(TwainError::InvalidState)))
    ));
    let scan = NativeScan::new("A".to_string(), ScanOptions::default());
    assert!(scan.verdict().is_none());
}

#[test]
fn sources_are_listed_one_by_one() {
    let mut manager = Manager::with_pages(0);
    let mut listing = SourceListing::new();
    while !matches!(listing.phase, ListingPhase::Done(_)) {
        let event = manager.perform(listing.action(), 0);
        listing = listing.advance(event);
    }
    assert_eq!(
        manager.calls,
        vec![
            Operation::OpenDsm,
            Operation::FirstSource,
            Operation::NextSource,
            Operation::NextSource,
            Operation::CloseDsm
        ]
    );
    let scanners = listing.discover_native_scanners().unwrap();
    assert_eq!(scanners.len(), 2);
    assert_eq!((scanners[1].id.as_str(), scanners[1].name.as_str()), ("2", "B"));
    assert_eq!(scanners[1].source, ScannerSource::Native);
}

#[test]
fn a_failed_listing_says_why() {
    let step = |events: Vec<SessionEvent>| {
        let mut listing = SourceListing::new();
        for event in events {
            listing = listing.advance(event);
        }
        listing.discover_native_scanners().unwrap_err().message()
    };
    assert_eq!(
        step(vec![SessionEvent::Loaded(Err(LoadFailure::Library("x".to_string())))]),
        "TWAIN error: Failed to load TWAINDSM.dll: x"
    );
    assert_eq!(
        step(vec![SessionEvent::Loaded(Err(LoadFailure::EntryPoint("x".to_string())))]),
        "TWAIN error: DSM_Entry symbol not found in TWAINDSM.dll"
    );
    assert_eq!(
        step(vec![SessionEvent::Loaded(Ok(())), SessionEvent::Window(Err("w".to_string()))]),
        "TWAIN error: Hidden window creation failed: w"
    );
    assert_eq!(
        step(vec![
            SessionEvent::Loaded(Ok(())),
            SessionEvent::Window(Ok(1)),
            SessionEvent::Reply(FAILED)
        ]),
        "TWAIN error: TWAIN operation failed: DG=0x0001 DAT=0x0004 MSG=0x0301 RC=1 CC=1"
    );
    assert_eq!(step(vec![]), "TWAIN error: Invalid state transition");
}
