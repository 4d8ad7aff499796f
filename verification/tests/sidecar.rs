//! The sidecar, seen from the agent.

use std::cell::{Cell, RefCell};

use rswebtwain::agent::error_to_code;
use rswebtwain::driver::page_response;
use rswebtwain::protocol::ErrorCode;
use rswebtwain::scanner::sidecar::{
    device_fault, is_sidecar_terminal, read_response, relay_page, scan_failure, startup_verdict,
    with_spawn_retry, DeviceFault, ProcessStatus, ReadOutcome, RelayAction, RelayEvent, RelayPhase,
    RunningStep, ShutdownStep, SidecarCommand, SidecarFault, SidecarManager, SidecarResponse,
    SidecarScan, SidecarScannerEntry, SpawnFailure, SPAWN_RETRY_ATTEMPTS,
};
use rswebtwain::scanner::twain::{ScannedPage, TwainError};
use rswebtwain::scanner::twain_ffi::TW_FIX32;
use rswebtwain::scanner::{PageData, Resolution, ScanError, ScannerSource};

#[test]
fn with_env_appends_overrides_in_order() {
    let m = SidecarManager::new("/nonexistent/path".to_string())
        .with_env("KEY1".to_string(), "val1".to_string())
        .with_env("KEY2".to_string(), "val2".to_string());
    assert_eq!(
        m.env_overrides,
        vec![
            ("KEY1".to_string(), "val1".to_string()),
            ("KEY2".to_string(), "val2".to_string()),
        ]
    );
}

fn manager() -> SidecarManager {
    SidecarManager::new("/nonexistent/path".to_string())
}

fn no_pause(_ms: u64) {}

#[test]
fn with_spawn_retry_succeeds_on_first_attempt() {
    let calls = Cell::new(0u32);
    let result = with_spawn_retry(
        |_attempt| {
            calls.set(calls.get() + 1);
            Ok::<_, SpawnFailure>(42)
        },
        no_pause,
    );
    assert_eq!(result.unwrap(), 42);
    assert_eq!(calls.get(), 1);
}

#[test]
fn with_spawn_retry_succeeds_after_one_retryable_failure() {
    let calls = Cell::new(0u32);
    let result = with_spawn_retry(
        |_attempt| {
            let n = calls.get();
            calls.set(n + 1);
            if n == 0 {
                Err(SpawnFailure::Retryable(ScanError::Sidecar("transient".into())))
            } else {
                Ok(7)
            }
        },
        no_pause,
    );
    assert_eq!(result.unwrap(), 7);
    assert_eq!(calls.get(), 2);
}

#[test]
fn with_spawn_retry_exhausts_attempts_on_repeated_retryable() {
    let calls = Cell::new(0u32);
    let result: Result<(), ScanError> = with_spawn_retry(
        |_attempt| {
            calls.set(calls.get() + 1);
            Err(SpawnFailure::Retryable(ScanError::Sidecar("never works".into())))
        },
        no_pause,
    );
    assert!(matches!(result, Err(ScanError::Sidecar(ref m)) if m.contains("never works")));
    assert_eq!(calls.get(), SPAWN_RETRY_ATTEMPTS);
}

#[test]
fn with_spawn_retry_fails_fast_on_permanent() {
    let calls = Cell::new(0u32);
    let result: Result<(), ScanError> = with_spawn_retry(
        |_attempt| {
            calls.set(calls.get() + 1);
            Err(SpawnFailure::Permanent(ScanError::Sidecar("broken".into())))
        },
        no_pause,
    );
    assert!(matches!(result, Err(ScanError::Sidecar(ref m)) if m.contains("broken")));
    assert_eq!(calls.get(), 1, "should not retry on permanent");
}

#[test]
fn with_spawn_retry_passes_attempt_numbers() {
    let seen = RefCell::new(Vec::new());
    let result: Result<(), ScanError> = with_spawn_retry(
        |attempt| {
            seen.borrow_mut().push(attempt);
            Err(SpawnFailure::Retryable(ScanError::Sidecar("again".into())))
        },
        no_pause,
    );
    assert!(result.is_err());
    assert_eq!(*seen.borrow(), vec![1, 2, 3]);
}

#[test]
fn retries_pause_longer_each_time() {
    let pauses = RefCell::new(Vec::new());
    let result: Result<(), ScanError> = with_spawn_retry(
        |_attempt| Err(SpawnFailure::Retryable(ScanError::Sidecar("again".into()))),
        |ms| pauses.borrow_mut().push(ms),
    );
    assert!(result.is_err());
    assert_eq!(*pauses.borrow(), vec![250, 1000]);
}

fn page_message(data: &str) -> SidecarResponse {
    SidecarResponse::ScanPage {
        page: 2,
        width: 4,
        height: 1,
        bits_per_pixel: 8,
        bytes_per_row: 4,
        data: data.to_string(),
    }
}

/// A scan that is about to read a response.
fn reading(resolution: u32) -> SidecarScan {
    let scan = SidecarScan::new(resolution);
    assert!(matches!(scan.action(), RelayAction::EnsureRunning));
    let (scan, _) = scan.advance(RelayEvent::Done(Ok(())));
    assert!(matches!(scan.action(), RelayAction::StartScan));
    let (scan, _) = scan.advance(RelayEvent::Done(Ok(())));
    assert!(matches!(scan.action(), RelayAction::CheckCancel));
    let (scan, page) = scan.advance(RelayEvent::Cancel(false));
    assert!(matches!(scan.action(), RelayAction::Read));
    assert!(page.is_none());
    scan
}

fn respond(scan: SidecarScan, response: SidecarResponse) -> (SidecarScan, Option<PageData>) {
    scan.advance(RelayEvent::Response(Ok(response)))
}

#[test]
fn pages_are_decoded_and_handed_on() {
    let (scan, page) = respond(reading(150), page_message("AQIDBA=="));
    let page = page.expect("a page");
    assert_eq!(page.raw_data, vec![1, 2, 3, 4]);
    assert_eq!(page.page_number, 2);
    assert_eq!((page.width, page.height, page.bits_per_pixel), (4, 1, 8));
    assert_eq!(page.bytes_per_row, 4);
    assert_eq!(page.dpi_x, Resolution::Whole(150));
    assert_eq!(page.dpi_y, Resolution::Whole(150));
    assert!(matches!(scan.action(), RelayAction::CheckCancel));
}

#[test]
fn bad_base64_ends_the_scan() {
    let (scan, page) = respond(reading(300), page_message("AQIDBA"));
    assert!(page.is_none());
    match &scan.phase {
        RelayPhase::Shutdown(Err(ScanError::Sidecar(m))) => {
            assert_eq!(m, "Base64 decode error: Invalid padding")
        }
        other => panic!("unexpected {other:?}"),
    }
    let (scan, _) = scan.advance(RelayEvent::ShutDown);
    assert!(matches!(scan.phase, RelayPhase::Done(Err(ScanError::Sidecar(_)))));
    assert!(matches!(scan.action(), RelayAction::Finished));
}

#[test]
fn pages_survive_the_way_through_the_pipe() {
    let bytes: Vec<u8> = (0..=255u8).chain(0..100u8).collect();
    for len in [0, 1, 2, 3, 4, 255, 356] {
        let page = ScannedPage {
            page_number: 7,
            width: 10,
            height: 20,
            bits_per_pixel: 24,
            x_resolution: TW_FIX32 { Whole: 300, Frac: 0 },
            y_resolution: TW_FIX32 { Whole: 300, Frac: 0 },
            bytes_per_row: 32,
            data: bytes[..len].to_vec(),
        };
        let (_, received) = respond(reading(300), page_response(page));
        let received = received.expect("the page arrives");
        assert_eq!(received.raw_data, bytes[..len].to_vec());
        assert_eq!(received.page_number, 7);
        assert_eq!(received.bytes_per_row, 32);
    }
}

#[test]
fn page_bytes_travel_as_standard_base64() {
    let page = ScannedPage {
        page_number: 1,
        width: 1,
        height: 1,
        bits_per_pixel: 24,
        x_resolution: TW_FIX32 { Whole: 300, Frac: 0 },
        y_resolution: TW_FIX32 { Whole: 300, Frac: 0 },
        bytes_per_row: 4,
        data: vec![0xFB, 0xFF, 0xFE, 0x00],
    };
    match page_response(page) {
        SidecarResponse::ScanPage { data, .. } => assert_eq!(data, "+//+AA=="),
        other => panic!("unexpected {other:?}"),
    }
}

#[test]
fn progress_is_read_past() {
    let progress = SidecarResponse::ScanProgress { page: 1, status: "scanning".to_string() };
    let (scan, page) = respond(reading(300), progress);
    assert!(page.is_none());
    assert!(matches!(scan.phase, RelayPhase::CheckCancel));
}

#[test]
fn completion_shuts_the_sidecar_down() {
    let (scan, _) = respond(reading(300), SidecarResponse::ScanComplete { total_pages: 3 });
    assert!(matches!(scan.action(), RelayAction::Shutdown));
    let (scan, _) = scan.advance(RelayEvent::ShutDown);
    assert!(matches!(scan.phase, RelayPhase::Done(Ok(()))));
}

fn complaint(message: &str) -> SidecarResponse {
    SidecarResponse::Error { message: message.to_string(), fault: None }
}

#[test]
fn errors_of_the_sidecar_end_the_scan() {
    let (scan, _) = respond(reading(300), complaint("jam"));
    let (scan, _) = scan.advance(RelayEvent::ShutDown);
    assert!(matches!(scan.phase, RelayPhase::Done(Err(ScanError::Sidecar(ref m))) if m == "jam"));
    let (scan, _) = reading(300).advance(RelayEvent::Response(Err(ScanError::NoScanners)));
    assert!(matches!(scan.phase, RelayPhase::Shutdown(Err(ScanError::NoScanners))));
}

#[test]
fn faults_in_the_sidecar_are_errors_of_their_own() {
    let relayed = |fault: DeviceFault| {
        let message = "words".to_string();
        let response = SidecarResponse::Error { message, fault: Some(fault) };
        match respond(reading(300), response).0.phase {
            RelayPhase::Shutdown(Err(e)) => (error_to_code(&e), e.message()),
            other => panic!("unexpected {other:?}"),
        }
    };
    assert_eq!(
        relayed(DeviceFault::PaperJam),
        (ErrorCode::PaperJam, "TWAIN error: Scanner paper jam detected".to_string())
    );
    assert_eq!(
        relayed(DeviceFault::PaperDoubleFeed),
        (
            ErrorCode::PaperDoubleFeed,
            "TWAIN error: Scanner paper double feed detected".to_string()
        )
    );
    assert_eq!(
        relayed(DeviceFault::CapabilityNotSupported(0x1118)),
        (
            ErrorCode::CapabilityNotSupported,
            "TWAIN error: Capability not supported: 0x1118".to_string()
        )
    );
    assert_eq!(
        relayed(DeviceFault::DsmLoadFailed("x".to_string())),
        (
            ErrorCode::TwainNotInstalled,
            "TWAIN error: Failed to load TWAINDSM.dll: x".to_string()
        )
    );
}

#[test]
fn errors_know_whether_they_are_faults() {
    assert!(matches!(device_fault(TwainError::PaperJam), Some(DeviceFault::PaperJam)));
    assert!(matches!(
        device_fault(TwainError::CapabilityNotSupported(7)),
        Some(DeviceFault::CapabilityNotSupported(7))
    ));
    assert!(device_fault(TwainError::InvalidState).is_none());
    assert!(device_fault(TwainError::Cancelled).is_none());
    assert!(matches!(
        scan_failure("words".to_string(), None),
        ScanError::Sidecar(m) if m == "words"
    ));
}

#[test]
fn a_sidecar_that_does_not_start_is_shut_down() {
    let scan = SidecarScan::new(300);
    let (scan, _) = scan.advance(RelayEvent::Done(Err(ScanError::Sidecar("gone".to_string()))));
    assert!(matches!(scan.action(), RelayAction::Shutdown));
}

#[test]
fn a_cancelled_scan_drains_the_sidecar() {
    let (scan, _) = respond(reading(300), page_message("AQIDBA=="));
    let (scan, _) = scan.advance(RelayEvent::Cancel(true));
    assert!(matches!(scan.action(), RelayAction::SendCancel));
    let (scan, _) = scan.advance(RelayEvent::Done(Ok(())));
    let (scan, page) = respond(scan, page_message("AQIDBA=="));
    assert!(page.is_none(), "no page after a cancel");
    assert!(matches!(scan.action(), RelayAction::Read));
    let (scan, _) = respond(scan, SidecarResponse::ScanComplete { total_pages: 2 });
    let (scan, _) = scan.advance(RelayEvent::ShutDown);
    assert!(matches!(scan.phase, RelayPhase::Done(Err(ScanError::Cancelled))));
}

#[test]
fn decoded_pages_take_the_requested_resolution() {
    let page = relay_page(1, 2, 3, 8, 4, 600, Ok(vec![9])).unwrap();
    assert_eq!(page.dpi_x, Resolution::Whole(600));
    let e = relay_page(1, 2, 3, 8, 4, 600, Err("x".to_string())).unwrap_err();
    assert_eq!(e.message(), "Sidecar error: Base64 decode error: x");
}

#[test]
fn scanner_lists_become_scanners() {
    let entry = SidecarScannerEntry {
        id: "5".to_string(),
        name: "Fake Scanner".to_string(),
        manufacturer: "Fake".to_string(),
    };
    let scanners =
        manager().list_scanners(SidecarResponse::ScannerList { scanners: vec![entry] }).unwrap();
    assert_eq!(scanners.len(), 1);
    assert_eq!(scanners[0].name, "Fake Scanner");
    assert_eq!(scanners[0].source, ScannerSource::Sidecar);
    let e = manager().list_scanners(complaint("no")).unwrap_err();
    assert_eq!(e.message(), "Sidecar error: no");
    let e = manager().list_scanners(SidecarResponse::Ready).unwrap_err();
    assert_eq!(e.message(), "Sidecar error: Unexpected response");
}

#[test]
fn ensure_running_succeeds_on_ready_sidecar() {
    assert_eq!(manager().ensure_running(ProcessStatus::Absent), RunningStep::Spawn);
    assert!(startup_verdict(SidecarResponse::Ready).is_ok());
    assert_eq!(manager().ensure_running(ProcessStatus::Running), RunningStep::Keep);
}

#[test]
fn dead_sidecars_are_spawned_anew() {
    assert_eq!(manager().ensure_running(ProcessStatus::Exited), RunningStep::Respawn);
    assert_eq!(manager().ensure_running(ProcessStatus::Unknown), RunningStep::Respawn);
}

#[test]
fn startup_failures_are_told_apart() {
    let e = startup_verdict(complaint("no dsm")).unwrap_err();
    assert_eq!(e.message(), "Sidecar error: Sidecar startup error: no dsm");
    let e = startup_verdict(SidecarResponse::Shutdown).unwrap_err();
    assert_eq!(e.message(), "Sidecar error: Unexpected sidecar response");
}

#[test]
fn sidecars_get_five_seconds_to_exit() {
    assert_eq!(manager().shutdown(ProcessStatus::Running, 0), ShutdownStep::Wait { ms: 50 });
    assert_eq!(manager().shutdown(ProcessStatus::Running, 4999), ShutdownStep::Wait { ms: 50 });
    assert_eq!(manager().shutdown(ProcessStatus::Running, 5000), ShutdownStep::Kill);
    assert_eq!(manager().shutdown(ProcessStatus::Exited, 0), ShutdownStep::Gone);
    assert_eq!(manager().shutdown(ProcessStatus::Unknown, 0), ShutdownStep::Kill);
}

#[test]
fn terminal_responses_end_a_scan() {
    assert!(is_sidecar_terminal(&SidecarResponse::ScanComplete { total_pages: 1 }));
    assert!(is_sidecar_terminal(&complaint("")));
    assert!(is_sidecar_terminal(&SidecarResponse::Shutdown));
    assert!(!is_sidecar_terminal(&SidecarResponse::Ready));
    assert!(!is_sidecar_terminal(&page_message("")));
}

#[test]
fn scan_commands_carry_their_options() {
    let m = SidecarManager::new("sidecar".to_string());
    match m.start_scan("S".to_string(), 200, "bw".to_string(), true, false, true) {
        SidecarCommand::Scan { scanner_name, resolution, color_mode, duplex, use_adf, show_ui } => {
            assert_eq!((scanner_name.as_str(), resolution, color_mode.as_str()), ("S", 200, "bw"));
            assert_eq!((duplex, use_adf, show_ui), (true, false, true));
        }
        other => panic!("unexpected {other:?}"),
    }
}

#[test]
fn faults_describe_themselves() {
    let text = |fault: SidecarFault| match fault.into_scan_error() {
        ScanError::Sidecar(m) => m,
        other => panic!("unexpected {other:?}"),
    };
    let e = || "e".to_string();
    assert_eq!(text(SidecarFault::Spawn(e())), "Failed to spawn sidecar: e");
    assert_eq!(text(SidecarFault::NoStdout), "Sidecar stdout not available");
    assert_eq!(text(SidecarFault::ReaderThread(e())), "Failed to spawn reader thread: e");
    assert_eq!(text(SidecarFault::NotRunning), "Sidecar not running");
    assert_eq!(text(SidecarFault::NoStdin), "Sidecar stdin not available");
    assert_eq!(text(SidecarFault::Serialize(e())), "Serialization error: e");
    assert_eq!(text(SidecarFault::Write(e())), "Failed to write to sidecar: e");
    assert_eq!(text(SidecarFault::Flush(e())), "Failed to flush sidecar stdin: e");
    assert_eq!(text(SidecarFault::NoReader), "Sidecar stdout reader not available");
    assert_eq!(
        text(SidecarFault::TimedOut { secs: 120 }),
        "Sidecar response timed out after 120s"
    );
    assert_eq!(
        text(SidecarFault::Disconnected),
        "Sidecar reader disconnected (process likely crashed)"
    );
    assert_eq!(text(SidecarFault::Closed), "Sidecar closed stdout (process exited)");
    assert_eq!(text(SidecarFault::Read(e())), "Failed to read from sidecar: e");
    assert_eq!(text(SidecarFault::Malformed(e())), "Invalid sidecar response: e");
}

#[test]
fn responses_are_read_or_say_why_not() {
    let read = |outcome: ReadOutcome| match read_response(outcome) {
        (Err(ScanError::Sidecar(m)), kill) => (m, kill),
        other => panic!("unexpected {other:?}"),
    };
    assert!(matches!(
        read_response(ReadOutcome::Line(Ok(SidecarResponse::Ready))),
        (Ok(SidecarResponse::Ready), false)
    ));
    assert_eq!(
        read(ReadOutcome::Line(Err("eof".to_string()))),
        ("Invalid sidecar response: eof".to_string(), false)
    );
    assert_eq!(
        read(ReadOutcome::Failed(SidecarFault::Closed)),
        ("Sidecar closed stdout (process exited)".to_string(), false)
    );
    assert_eq!(
        read(ReadOutcome::TimedOut { secs: 10 }),
        ("Sidecar response timed out after 10s".to_string(), true)
    );
    assert!(!read(ReadOutcome::Disconnected).1);
    assert!(!read(ReadOutcome::NoReader).1);
}

#[test]
fn managers_command_the_sidecar() {
    assert!(matches!(manager().send_cancel(), SidecarCommand::Cancel));
}
