//! Requests, and the scanners they are for.

use rswebtwain::agent::{error_to_code, scanner_list, Discovery, RequestStep, ScanState};
use rswebtwain::protocol::{
    AgentMessage, ClientMessage, ErrorCode, OutputFormat, ScanRequestOptions, ScanStatus,
    ScannerListEntry,
};
use rswebtwain::scanner::sidecar::SidecarCommand;
use rswebtwain::scanner::twain::{ColorMode, SourceInfo, TwainError};
use rswebtwain::scanner::{ScanError, ScanOrchestrator, ScannerInfo, ScannerSource};

fn scanner(id: &str, name: &str, source: ScannerSource) -> ScannerInfo {
    ScannerInfo {
        id: id.to_string(),
        name: name.to_string(),
        manufacturer: "Acme".to_string(),
        source,
    }
}

fn on(name: Option<&str>) -> ScanRequestOptions {
    ScanRequestOptions { scanner_id: name.map(|n| n.to_string()), ..ScanRequestOptions::default() }
}

fn start(id: &str, name: Option<&str>) -> ClientMessage {
    ClientMessage::StartScan { id: id.to_string(), options: on(name) }
}

/// An agent that knows a native and a sidecar scanner.
fn agent() -> ScanState {
    let mut state = ScanState::new(Some("sidecar.exe".to_string()));
    let found = state.discover_scanners(
        Ok(vec![scanner("1", "Native One", ScannerSource::Native)]),
        Ok(vec![scanner("9", "Fake Scanner", ScannerSource::Sidecar)]),
    );
    assert_eq!(found.unwrap().len(), 2);
    state
}

fn error(step: RequestStep) -> (String, ErrorCode, String) {
    match step {
        RequestStep::Answer(AgentMessage::Error { id, code, message }) => (id, code, message),
        other => panic!("unexpected {other:?}"),
    }
}

#[test]
fn ping_pong() {
    match agent().handle_command(ClientMessage::Ping { id: "test-1".to_string() }) {
        RequestStep::Answer(AgentMessage::Pong { id }) => assert_eq!(id, "test-1"),
        other => panic!("unexpected {other:?}"),
    }
}

#[test]
fn list_scanners_returns_valid_response() {
    match agent().handle_command(ClientMessage::ListScanners { id: "ls-1".to_string() }) {
        RequestStep::Discover { id } => assert_eq!(id, "ls-1"),
        other => panic!("unexpected {other:?}"),
    }
    let found = vec![scanner("1", "Native One", ScannerSource::Native)];
    match scanner_list("ls-1".to_string(), Discovery::Finished(Ok(found))) {
        AgentMessage::ScannerList { id, scanners } => {
            assert_eq!(id, "ls-1");
            assert_eq!(scanners.len(), 1);
            assert_eq!((scanners[0].id.as_str(), scanners[0].name.as_str()), ("1", "Native One"));
            assert_eq!(scanners[0].manufacturer, "Acme");
        }
        other => panic!("unexpected {other:?}"),
    }
}

#[test]
fn discovery_that_fails_is_an_error() {
    let answer = |discovery: Discovery| match scanner_list("ls".to_string(), discovery) {
        AgentMessage::Error { id, code, message } => {
            assert_eq!(id, "ls");
            (code, message)
        }
        other => panic!("unexpected {other:?}"),
    };
    assert_eq!(
        answer(Discovery::TimedOut),
        (ErrorCode::DiscoveryTimeout, "Scanner discovery timed out".to_string())
    );
    assert_eq!(
        answer(Discovery::Panicked),
        (ErrorCode::InternalError, "Scanner discovery task failed".to_string())
    );
    assert_eq!(
        answer(Discovery::Finished(Err(ScanError::NoScanners))),
        (ErrorCode::NoScannersAvailable, "No scanners found".to_string())
    );
}

#[test]
fn cancel_unknown_scan_returns_error() {
    let message = ClientMessage::CancelScan {
        id: "cancel-1".to_string(),
        scan_id: "nonexistent".to_string(),
    };
    assert_eq!(
        error(agent().handle_command(message)),
        (
            "cancel-1".to_string(),
            ErrorCode::InvalidRequest,
            "No active scan with id: nonexistent".to_string()
        )
    );
}

#[test]
fn concurrent_start_scan_returns_busy() {
    let mut state = agent();
    let plan = match state.handle_command(start("scan-1", Some("Fake Scanner"))) {
        RequestStep::Scan(plan) => plan,
        other => panic!("unexpected {other:?}"),
    };
    assert_eq!(plan.request_id, "scan-1");
    assert_eq!(
        error(state.handle_command(start("scan-2", Some("Fake Scanner")))),
        (
            "scan-2".to_string(),
            ErrorCode::ScannerBusy,
            "A scan is already in progress".to_string()
        )
    );
    assert!(state.finish_scan("scan-1".to_string(), Ok(())).is_none());
    assert!(matches!(
        state.handle_command(start("scan-3", Some("Fake Scanner"))),
        RequestStep::Scan(_)
    ));
}

#[test]
fn the_running_scan_can_be_cancelled() {
    let mut state = agent();
    let scan_id = match state.handle_command(start("s", None)) {
        RequestStep::Scan(plan) => plan.scan_id,
        other => panic!("unexpected {other:?}"),
    };
    let cancel = ClientMessage::CancelScan { id: "c".to_string(), scan_id: scan_id.clone() };
    match state.handle_command(cancel) {
        RequestStep::Cancel(AgentMessage::ScanProgress { id, scan_id: s, page, status }) => {
            assert_eq!((id.as_str(), s, page), ("c", scan_id, 0));
            assert_eq!(status, ScanStatus::Complete);
        }
        other => panic!("unexpected {other:?}"),
    }
    match state.finish_scan("s".to_string(), Err(ScanError::Cancelled)) {
        Some(AgentMessage::Error { id, code, message }) => {
            assert_eq!(id, "s");
            assert_eq!(code, ErrorCode::ScanCancelled);
            assert_eq!(message, "Scan cancelled");
        }
        other => panic!("unexpected {other:?}"),
    }
}

#[test]
fn scan_ids_are_random_uuids() {
    let mut ids = Vec::new();
    for _ in 0..20 {
        match agent().handle_command(start("s", None)) {
            RequestStep::Scan(plan) => ids.push(plan.scan_id),
            other => panic!("unexpected {other:?}"),
        }
    }
    for id in &ids {
        assert_eq!(id.len(), 36);
        let bytes = id.as_bytes();
        for (i, &b) in bytes.iter().enumerate() {
            if [8, 13, 18, 23].contains(&i) {
                assert_eq!(b, b'-');
            } else {
                assert!(b.is_ascii_digit() || (b'a'..=b'f').contains(&b));
            }
        }
        assert_eq!(bytes[14], b'4');
        assert!(b"89ab".contains(&bytes[19]));
    }
    ids.sort();
    ids.dedup();
    assert_eq!(ids.len(), 20);
}

#[test]
fn scans_go_where_their_scanner_is() {
    let mut state = agent();
    match state.start_scan("a".to_string(), on(Some("9")), "id-1".to_string()) {
        RequestStep::Scan(plan) => {
            assert_eq!(plan.scanner.source, ScannerSource::Sidecar);
            assert_eq!(plan.sidecar_path, Some("sidecar.exe".to_string()));
            assert_eq!(plan.scan_id, "id-1");
            match plan.sidecar_command() {
                SidecarCommand::Scan { scanner_name, resolution, color_mode, .. } => {
                    assert_eq!(scanner_name, "Fake Scanner");
                    assert_eq!((resolution, color_mode.as_str()), (300, "color"));
                }
                other => panic!("unexpected {other:?}"),
            }
        }
        other => panic!("unexpected {other:?}"),
    }
    let mut state = agent();
    match state.start_scan("a".to_string(), on(None), "id-2".to_string()) {
        RequestStep::Scan(plan) => {
            assert_eq!(plan.scanner.name, "Native One");
            assert_eq!(plan.sidecar_path, None);
            assert_eq!(plan.native_options().color_mode, ColorMode::Color);
        }
        other => panic!("unexpected {other:?}"),
    }
}

#[test]
fn refused_scans_leave_the_agent_idle() {
    let mut state = agent();
    assert_eq!(
        error(state.handle_command(start("s", Some("Nobody")))),
        (
            "s".to_string(),
            ErrorCode::ScannerNotFound,
            "Scanner not found: Nobody".to_string()
        )
    );
    assert!(matches!(state.handle_command(start("t", None)), RequestStep::Scan(_)));

    let mut empty = ScanState::new(None);
    assert_eq!(error(empty.handle_command(start("s", None))).1, ErrorCode::NoScannersAvailable);
    assert_eq!(
        error(empty.handle_command(start("s", Some("Any")))).1,
        ErrorCode::ScannerNotFound
    );
}

#[test]
fn sidecar_scanners_need_a_sidecar() {
    let mut state = ScanState::new(None);
    let _ = state.discover_scanners(
        Ok(Vec::new()),
        Ok(vec![scanner("9", "Fake Scanner", ScannerSource::Sidecar)]),
    );
    assert_eq!(
        error(state.handle_command(start("s", Some("Fake Scanner")))),
        (
            "s".to_string(),
            ErrorCode::InternalError,
            "Sidecar error: Sidecar not available".to_string()
        )
    );
    assert_eq!(state.sidecar_path(), None);
}

#[test]
fn scanners_are_merged_by_name() {
    let mut orchestrator = ScanOrchestrator::new(None);
    let all = orchestrator
        .discover_scanners(
            Ok(vec![
                scanner("1", "A", ScannerSource::Native),
                scanner("2", "B", ScannerSource::Native),
            ]),
            Ok(vec![
                scanner("3", "B", ScannerSource::Sidecar),
                scanner("4", "C", ScannerSource::Sidecar),
                scanner("5", "C", ScannerSource::Sidecar),
            ]),
        )
        .unwrap();
    let names: Vec<&str> = all.iter().map(|s| s.name.as_str()).collect();
    assert_eq!(names, vec!["A", "B", "C"]);
    assert_eq!(all[1].source, ScannerSource::Native);
    assert_eq!(all[2].id, "4");
}

#[test]
fn a_backend_that_fails_contributes_no_scanners() {
    let mut orchestrator = ScanOrchestrator::new(None);
    let all = orchestrator
        .discover_scanners(
            Err(ScanError::NoScanners),
            Ok(vec![scanner("3", "B", ScannerSource::Sidecar)]),
        )
        .unwrap();
    assert_eq!(all.len(), 1);
    let none = orchestrator
        .discover_scanners(Err(ScanError::NoScanners), Err(ScanError::NoScanners))
        .unwrap();
    assert!(none.is_empty());
    assert!(matches!(
        orchestrator.resolve_scanner(&on(None)),
        Err(ScanError::NoScanners)
    ));
}

#[test]
fn scanners_are_found_by_name_or_id() {
    let mut orchestrator = ScanOrchestrator::new(None);
    let _ = orchestrator.discover_scanners(
        Ok(vec![
            scanner("1", "A", ScannerSource::Native),
            scanner("A", "B", ScannerSource::Native),
        ]),
        Ok(Vec::new()),
    );
    assert_eq!(orchestrator.resolve_scanner(&on(Some("B"))).unwrap().id, "A");
    assert_eq!(orchestrator.resolve_scanner(&on(Some("A"))).unwrap().id, "1");
    assert_eq!(orchestrator.resolve_scanner(&on(Some("1"))).unwrap().name, "A");
    assert_eq!(orchestrator.resolve_scanner(&on(Some(""))).unwrap().id, "1");
}

#[test]
fn every_error_has_its_code() {
    let code = |e: ScanError| error_to_code(&e);
    let twain = |e: TwainError| error_to_code(&ScanError::Twain(e));
    let s = String::new;
    assert_eq!(code(ScanError::NoScanners), ErrorCode::NoScannersAvailable);
    assert_eq!(code(ScanError::ScannerNotFound(s())), ErrorCode::ScannerNotFound);
    assert_eq!(code(ScanError::Cancelled), ErrorCode::ScanCancelled);
    assert_eq!(code(ScanError::ImageConversion(s())), ErrorCode::ImageConversionError);
    assert_eq!(code(ScanError::PdfGeneration(s())), ErrorCode::PdfGenerationError);
    assert_eq!(code(ScanError::Sidecar(s())), ErrorCode::InternalError);
    assert_eq!(twain(TwainError::PaperJam), ErrorCode::PaperJam);
    assert_eq!(twain(TwainError::PaperDoubleFeed), ErrorCode::PaperDoubleFeed);
    assert_eq!(twain(TwainError::DsmLoadFailed(s())), ErrorCode::TwainNotInstalled);
    assert_eq!(
        twain(TwainError::CapabilityNotSupported(1)),
        ErrorCode::CapabilityNotSupported
    );
    assert_eq!(twain(TwainError::InvalidState), ErrorCode::InternalError);
}

#[test]
fn requests_have_defaults() {
    let options = ScanRequestOptions::default();
    assert!(options.scanner_id.is_none());
    assert_eq!(options.resolution, 300);
    assert_eq!(options.color_mode, ColorMode::Color);
    assert_eq!(options.format, OutputFormat::Pdf);
    assert!(!options.duplex && !options.use_adf && !options.show_scanner_ui);
}

#[test]
fn native_sources_are_listed_by_id() {
    let entry = ScannerListEntry::from_source(SourceInfo {
        id: 42,
        name: "N".to_string(),
        manufacturer: "M".to_string(),
        product_family: "F".to_string(),
        version: "1.0".to_string(),
    });
    assert_eq!((entry.id.as_str(), entry.name.as_str(), entry.manufacturer.as_str()), ("42", "N", "M"));
}
