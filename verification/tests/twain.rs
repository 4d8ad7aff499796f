//! TWAIN values, capabilities and errors.

use rswebtwain::driver::{DriverScan, ScanJob};
use rswebtwain::scanner::session::{NativeScan, SessionAction, SessionEvent};
use rswebtwain::scanner::twain::{
    call_checked, check_capability, create_hidden_hwnd, needs_condition, pump_step,
    scan_capabilities, CapabilitySetting, ColorMode, DsmReply, LoadFailure, Operation, PreSession,
    PumpEvent, PumpStep, ScanOptions, SourceInfo, TwainError,
};
use rswebtwain::scanner::twain_ffi::{
    application_identity, str_to_tw_str255, str_to_tw_str32, tw_str255_to_string,
    tw_str32_to_string, CAP_AUTOFEED, CAP_DUPLEXENABLED, CAP_FEEDERENABLED, CAP_XFERCOUNT,
    ICAP_BITORDER, ICAP_COMPRESSION, ICAP_PIXELFLAVOR, ICAP_PIXELTYPE, ICAP_XFERMECH,
    ICAP_XRESOLUTION, ICAP_YRESOLUTION, MSG_CLOSEDSOK, MSG_CLOSEDSREQ, MSG_XFERREADY, TWBO_MSBFIRST,
    TWCP_NONE, TWPF_CHOCOLATE, TWRC_CANCEL, TWRC_DSEVENT, TWRC_ENDOFLIST, TWRC_FAILURE,
    TWRC_NOTDSEVENT, TWRC_SUCCESS, TWRC_XFERDONE, TWSX_MEMORY, TWTY_FIX32, TWTY_INT16, TWTY_UINT16,
    TW_FIX32, TW_IDENTITY,
};

const OK: DsmReply = DsmReply { rc: TWRC_SUCCESS, cc: 0 };
const END: DsmReply = DsmReply { rc: TWRC_ENDOFLIST, cc: 0 };

fn source(id: u32, name: &str) -> TW_IDENTITY {
    let mut identity = TW_IDENTITY::default();
    identity.Id = id;
    identity.ProductName = str_to_tw_str32(name);
    identity
}

/// The capabilities that a native scan sets.
fn native_plan(options: ScanOptions) -> Vec<CapabilitySetting> {
    let mut scan = NativeScan::new("S".to_string(), options);
    for event in [
        SessionEvent::Loaded(Ok(())),
        SessionEvent::Window(Ok(1)),
        SessionEvent::Reply(OK),
        SessionEvent::Identity { reply: OK, identity: source(1, "S") },
        SessionEvent::Identity { reply: END, identity: TW_IDENTITY::default() },
        SessionEvent::Identity { reply: OK, identity: source(1, "S") },
    ] {
        scan = scan.advance(event).0;
    }
    let mut plan = Vec::new();
    while let SessionAction::SetCapability(setting) = scan.action() {
        plan.push(setting);
        scan = scan.advance(SessionEvent::Reply(OK)).0;
    }
    plan
}

/// The capabilities that a scan of the driver process sets.
fn driver_plan(options: ScanOptions) -> Vec<CapabilitySetting> {
    let mut scan = DriverScan::new(ScanJob {
        scanner_name: "S".to_string(),
        resolution: options.resolution,
        color_mode: options.color_mode.name(),
        duplex: options.duplex,
        use_adf: options.use_adf,
        show_ui: options.show_scanner_ui,
    });
    for event in [
        SessionEvent::Loaded(Ok(())),
        SessionEvent::Window(Ok(1)),
        SessionEvent::Reply(OK),
        SessionEvent::Identity { reply: OK, identity: source(1, "S") },
        SessionEvent::Identity { reply: OK, identity: source(1, "S") },
    ] {
        scan = scan.advance(event).0;
    }
    let mut plan = Vec::new();
    while let SessionAction::SetCapability(setting) = scan.action() {
        plan.push(setting);
        scan = scan.advance(SessionEvent::Reply(OK)).0;
    }
    plan
}

fn all_options() -> Vec<ScanOptions> {
    let mut all = Vec::new();
    for color_mode in [ColorMode::Color, ColorMode::Grayscale, ColorMode::BlackWhite] {
        for duplex in [false, true] {
            for use_adf in [false, true] {
                let mut options = ScanOptions::default();
                options.color_mode = color_mode;
                options.duplex = duplex;
                options.use_adf = use_adf;
                all.push(options);
            }
        }
    }
    all
}

#[test]
fn both_scan_paths_negotiate_the_same_capabilities() {
    for options in all_options() {
        assert_eq!(native_plan(options), driver_plan(options), "{options:?}");
    }
}

/// The capabilities whose absence caused real defects. Pinned by name so that
/// deleting one from both paths still fails rather than quietly passing the
/// parity check above.
#[test]
fn both_paths_pin_the_decoding_assumptions() {
    for options in all_options() {
        for (label, plan) in
            [("native", native_plan(options)), ("driver", driver_plan(options))]
        {
            for (required, value) in [
                (ICAP_XFERMECH, TWSX_MEMORY),
                (ICAP_COMPRESSION, TWCP_NONE),
                (ICAP_PIXELFLAVOR, TWPF_CHOCOLATE),
                (ICAP_BITORDER, TWBO_MSBFIRST),
            ] {
                assert!(
                    plan.iter().any(|s| s.cap == required
                        && s.value.ItemType == TWTY_UINT16
                        && s.value.Item == value as u32),
                    "{label} does not negotiate {required:#06x}; the decode path assumes it"
                );
            }
        }
    }
}

#[test]
fn capabilities_in_order() {
    let summary = |plan: Vec<CapabilitySetting>| -> Vec<(u16, u16, u32)> {
        plan.iter().map(|s| (s.cap, s.value.ItemType, s.value.Item)).collect()
    };
    assert_eq!(
        summary(scan_capabilities(2, 300, true, true)),
        vec![
            (ICAP_PIXELTYPE, TWTY_UINT16, 2),
            (ICAP_XRESOLUTION, TWTY_FIX32, 300),
            (ICAP_YRESOLUTION, TWTY_FIX32, 300),
            (ICAP_XFERMECH, TWTY_UINT16, 2),
            (ICAP_COMPRESSION, TWTY_UINT16, 0),
            (ICAP_PIXELFLAVOR, TWTY_UINT16, 0),
            (ICAP_BITORDER, TWTY_UINT16, 1),
            (CAP_FEEDERENABLED, TWTY_UINT16, 1),
            (CAP_AUTOFEED, TWTY_UINT16, 1),
            (CAP_XFERCOUNT, TWTY_INT16, 0xFFFF),
            (CAP_DUPLEXENABLED, TWTY_UINT16, 1),
        ]
    );
    let plain = summary(scan_capabilities(0, 75, false, false));
    assert_eq!(plain.len(), 8);
    assert_eq!(plain[7], (CAP_XFERCOUNT, TWTY_INT16, 1));
}

#[test]
fn resolutions_become_fixed_point() {
    assert_eq!(TW_FIX32::from_resolution(300), TW_FIX32 { Whole: 300, Frac: 0 });
    assert_eq!(TW_FIX32::from_resolution(32767), TW_FIX32 { Whole: 32767, Frac: 0 });
    assert_eq!(TW_FIX32::from_resolution(32768), TW_FIX32 { Whole: 32767, Frac: 65535 });
    assert_eq!(TW_FIX32::from_resolution(u32::MAX), TW_FIX32 { Whole: 32767, Frac: 65535 });
    assert_eq!(TW_FIX32 { Whole: -1, Frac: 2 }.to_item(), 0x0002_FFFF);
}

#[test]
fn fields_hold_texts() {
    assert_eq!(tw_str32_to_string(&str_to_tw_str32("ScanSnap iX500")), "ScanSnap iX500");
    let long = "x".repeat(40);
    assert_eq!(tw_str32_to_string(&str_to_tw_str32(&long)), "x".repeat(33));
    let longer = "y".repeat(300);
    assert_eq!(tw_str255_to_string(&str_to_tw_str255(&longer)), "y".repeat(255));
    assert_eq!(tw_str32_to_string(&str_to_tw_str32("a\0b")), "a");
    // Cells are read one by one, as Latin-1 codes.
    assert_eq!(tw_str32_to_string(&str_to_tw_str32("\u{e9}")), "\u{c3}\u{a9}");
}

#[test]
fn the_agent_introduces_itself() {
    let id = application_identity("RSWebTWAIN");
    assert_eq!(tw_str32_to_string(&id.ProductName), "RSWebTWAIN");
    assert_eq!(tw_str32_to_string(&id.Manufacturer), "RSWebTWAIN");
    assert_eq!(tw_str32_to_string(&id.ProductFamily), "Scanner");
    assert_eq!(tw_str32_to_string(&id.Version.Info), "0.1.0");
    assert_eq!((id.ProtocolMajor, id.ProtocolMinor, id.SupportedGroups), (2, 3, 3));
}

#[test]
fn sources_describe_themselves() {
    let mut id = source(9, "Scanner A");
    id.Manufacturer = str_to_tw_str32("Acme");
    id.ProductFamily = str_to_tw_str32("Flatbed");
    id.Version.MajorNum = 2;
    id.Version.MinorNum = 10;
    let info = SourceInfo::from_identity(&id);
    assert_eq!(info.id, 9);
    assert_eq!(info.name, "Scanner A");
    assert_eq!(info.manufacturer, "Acme");
    assert_eq!(info.product_family, "Flatbed");
    assert_eq!(info.version, "2.10");
}

#[test]
fn replies_become_errors() {
    let fail = |cc: u16| call_checked(Operation::ImageInfo, DsmReply { rc: TWRC_FAILURE, cc });
    assert!(call_checked(Operation::ImageInfo, OK).is_ok());
    assert!(matches!(fail(16), Err(TwainError::PaperJam)));
    assert!(matches!(fail(17), Err(TwainError::PaperDoubleFeed)));
    assert!(matches!(fail(13), Err(TwainError::CapabilityNotSupported(0x0101))));
    assert!(matches!(
        call_checked(Operation::ImageInfo, DsmReply { rc: TWRC_CANCEL, cc: 16 }),
        Err(TwainError::Cancelled)
    ));
    assert_eq!(
        fail(9).unwrap_err().message(),
        "TWAIN operation failed: DG=0x0002 DAT=0x0101 MSG=0x0001 RC=1 CC=9"
    );
    assert_eq!(fail(13).unwrap_err().message(), "Capability not supported: 0x0101");
    assert!(needs_condition(Operation::OpenSource, TWRC_FAILURE));
    assert!(!needs_condition(Operation::OpenSource, TWRC_CANCEL));
    assert!(!needs_condition(Operation::OpenSource, TWRC_SUCCESS));
    assert!(!needs_condition(Operation::NextSource, TWRC_FAILURE));
    assert!(needs_condition(Operation::SetCapability, TWRC_FAILURE));
    assert!(needs_condition(Operation::MemoryTransfer, TWRC_FAILURE));
    assert!(!needs_condition(Operation::MemoryTransfer, TWRC_XFERDONE));
}

#[test]
fn rejections_of_what_is_asked_for_are_errors() {
    let plan = scan_capabilities(2, 300, true, true);
    let rejected = DsmReply { rc: TWRC_FAILURE, cc: 13 };
    let errors: Vec<u16> = plan
        .iter()
        .filter_map(|setting| match check_capability(setting, rejected) {
            Err(TwainError::CapabilityNotSupported(cap)) => Some(cap),
            _ => None,
        })
        .collect();
    assert_eq!(
        errors,
        vec![
            ICAP_PIXELTYPE,
            ICAP_XRESOLUTION,
            ICAP_YRESOLUTION,
            CAP_FEEDERENABLED,
            CAP_DUPLEXENABLED
        ]
    );
    for reply in [OK, DsmReply { rc: TWRC_FAILURE, cc: 1 }, DsmReply { rc: TWRC_CANCEL, cc: 13 }] {
        assert!(plan.iter().all(|setting| check_capability(setting, reply).is_ok()));
    }
}

#[test]
fn errors_describe_themselves() {
    let e = || "e".to_string();
    assert_eq!(TwainError::DsmLoadFailed(e()).message(), "Failed to load TWAINDSM.dll: e");
    assert_eq!(
        TwainError::EntryPointNotFound.message(),
        "DSM_Entry symbol not found in TWAINDSM.dll"
    );
    assert_eq!(TwainError::Cancelled.message(), "TWAIN operation cancelled by user");
    assert_eq!(TwainError::NoSources.message(), "No TWAIN data sources available");
    assert_eq!(TwainError::PaperJam.message(), "Scanner paper jam detected");
    assert_eq!(TwainError::PaperDoubleFeed.message(), "Scanner paper double feed detected");
    assert_eq!(TwainError::InvalidState.message(), "Invalid state transition");
    assert_eq!(TwainError::MemoryError.message(), "Memory allocation failed");
    assert_eq!(
        TwainError::WindowCreationFailed(e()).message(),
        "Hidden window creation failed: e"
    );
}

#[test]
fn operations_have_their_triplets() {
    let t = |op: Operation| {
        let t = op.triplet();
        (t.dg, t.dat, t.msg)
    };
    assert_eq!(t(Operation::OpenDsm), (1, 0x0004, 0x0301));
    assert_eq!(t(Operation::CloseDsm), (1, 0x0004, 0x0302));
    assert_eq!(t(Operation::OpenSource), (1, 0x0003, 0x0401));
    assert_eq!(t(Operation::MemoryTransfer), (2, 0x0103, 0x0001));
    assert_eq!(t(Operation::EndTransfer), (1, 0x0005, 0x0701));
    assert_eq!(t(Operation::ResetTransfers), (1, 0x0005, 0x0007));
    assert_eq!(t(Operation::GetStatus), (1, 0x0008, 0x0001));
}

#[test]
fn color_modes_have_names_and_pixel_types() {
    assert_eq!(ColorMode::Color.name(), "color");
    assert_eq!(ColorMode::Grayscale.name(), "grayscale");
    assert_eq!(ColorMode::BlackWhite.name(), "bw");
    assert_eq!(ColorMode::BlackWhite.to_twain_pixel_type(), 0);
    assert_eq!(ColorMode::Grayscale.to_twain_pixel_type(), 1);
    assert_eq!(ColorMode::Color.to_twain_pixel_type(), 2);
}

#[test]
fn the_pump_waits_for_pages() {
    let event = |rc: u16, message: u16| pump_step(PumpEvent::Processed { rc, message });
    assert_eq!(event(TWRC_DSEVENT, MSG_XFERREADY), PumpStep::Ready);
    assert_eq!(event(TWRC_DSEVENT, MSG_CLOSEDSREQ), PumpStep::Disable);
    assert_eq!(event(TWRC_DSEVENT, MSG_CLOSEDSOK), PumpStep::Disable);
    assert_eq!(event(TWRC_DSEVENT, 0), PumpStep::Again);
    assert_eq!(event(TWRC_NOTDSEVENT, MSG_XFERREADY), PumpStep::Dispatch);
    assert_eq!(pump_step(PumpEvent::Idle), PumpStep::Sleep);
    assert_eq!(pump_step(PumpEvent::Cancelled), PumpStep::Disable);
}

#[test]
fn sessions_go_from_state_to_state() {
    let loaded = PreSession::new().load_dsm(Ok(())).map_err(|e| e.message()).ok().unwrap();
    let opened = loaded.open_dsm(7, OK).map_err(|e| e.message()).ok().unwrap();
    assert_eq!(opened.session().hwnd, 7);
    assert_eq!(opened.teardown(), vec![Operation::CloseDsm]);
    let (sources, more) = opened.list_sources(Vec::new(), &source(3, "A"), OK);
    assert!(more && sources.len() == 1);
    let end = DsmReply { rc: TWRC_FAILURE, cc: 0 };
    let (sources, more) = opened.list_sources(sources, &source(4, "B"), end);
    assert!(!more && sources.len() == 1);
    let selected = opened.select_source(&sources, "A").unwrap();
    assert_eq!(selected.Id, 3);
    assert!(matches!(opened.select_source(&sources, "B"), Err(TwainError::NoSources)));
    let source = opened.open_source(selected, OK).map_err(|e| e.message()).ok().unwrap();
    assert_eq!(source.identity().Id, 3);
    assert_eq!(source.teardown(), vec![Operation::CloseSource, Operation::CloseDsm]);
    let enabled = source.enable(OK).map_err(|e| e.message()).ok().unwrap();
    assert_eq!(enabled.teardown().len(), 3);
    let source = enabled.disable(OK).map_err(|e| e.message()).ok().unwrap();
    let opened = source.close(OK).map_err(|e| e.message()).ok().unwrap();
    assert!(opened.close_dsm(OK).is_ok());
}

#[test]
fn sessions_do_not_begin_without_a_manager() {
    let library = PreSession::new().load_dsm(Err(LoadFailure::Library("x".to_string())));
    assert!(matches!(library.err(), Some(TwainError::DsmLoadFailed(m)) if m == "x"));
    let entry = PreSession::new().load_dsm(Err(LoadFailure::EntryPoint("x".to_string())));
    assert!(matches!(entry.err(), Some(TwainError::EntryPointNotFound)));
    assert_eq!(create_hidden_hwnd(Ok(3)).unwrap(), 3);
    assert!(matches!(
        create_hidden_hwnd(Err("no".to_string())),
        Err(TwainError::WindowCreationFailed(_))
    ));
}

#[test]
fn the_default_source_can_be_opened() {
    let opened = || {
        let loaded = PreSession::new().load_dsm(Ok(())).map_err(|e| e.message()).ok().unwrap();
        loaded.open_dsm(1, OK).map_err(|e| e.message()).ok().unwrap()
    };
    let default = opened().get_default_source(source(4, "D"), OK);
    assert_eq!(default.as_ref().unwrap().Id, 4);
    let source_opened = opened().open_default_source(default, source(4, "D"), OK);
    assert_eq!(source_opened.ok().unwrap().identity().Id, 4);
    let none = opened().get_default_source(source(0, ""), DsmReply { rc: TWRC_FAILURE, cc: 3 });
    assert!(opened().open_default_source(none, source(0, ""), OK).is_err());
}
