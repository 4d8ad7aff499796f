//! Driving the data source manager, one call at a time.
//!
//! Calls into the manager, the message pump and the clock are made by the caller.
//! A machine of this module says what to do next (`action`), and is told what came
//! of it (`advance`).

use vstd::prelude::*;
use vstd::string::*;
use vstd::utf8::*;

use crate::scanner::twain::{
    capability_plan, check_capability, create_hidden_hwnd, failed_call, failure, first_named,
    is_rejection, is_requested, law_teardown_closes, only_named, page_of, spec_pump_step,
    state_after_all, strip_delivered, teardown_from, CapabilitySetting, DsmLoaded, DsmOpened,
    DsmReply, LoadFailure, Operation, PageTransfer, PreSession, PumpEvent, PumpStep, ScanOptions,
    ScannedPage, Session, SourceEnabled, SourceInfo, SourceOpened, TransferReady, TransferResult,
    TwainError, WaitResult,
};
use crate::scanner::twain_ffi::{
    field_of, field_text, is_application_identity, TWRC_SUCCESS, TWRC_XFERDONE, TW_IDENTITY,
    TW_IMAGEINFO, TW_PENDINGXFERS, TW_SETUPMEMXFER,
};
use crate::scanner::{PageData, Resolution, ScanError, ScannerInfo, ScannerSource};
use crate::text::{decimal, decimal_string, law_numerals_read_back, reads_as};

verus! {

/// The next thing to do in a session.
#[derive(Debug, Clone, Copy)]
pub enum SessionAction {
    /// Load the manager library and find its entry point.
    LoadDsm,
    /// Create the hidden window of the message pump.
    CreateWindow,
    /// Call the manager.
    Call(Operation),
    /// Open this source.
    OpenSource(TW_IDENTITY),
    /// Set one capability of the open source.
    SetCapability(CapabilitySetting),
    /// Enable the open source, with or without its user interface.
    Enable { show_ui: bool },
    /// Take one turn of the message pump.
    Pump,
    /// See whether the scan was cancelled.
    CheckCancel,
    /// Ask for the next strip of the page, with a buffer of this length.
    Transfer { buffer_len: u32 },
    /// The session is over.
    Finished,
}

/// What came of an action.
#[derive(Debug)]
pub enum SessionEvent {
    /// Of `LoadDsm`.
    Loaded(Result<(), LoadFailure>),
    /// Of `CreateWindow`.
    Window(Result<isize, String>),
    /// Of a call that answers with no more than a reply.
    Reply(DsmReply),
    /// Of a call that fills in an identity.
    Identity { reply: DsmReply, identity: TW_IDENTITY },
    /// Of `Pump`.
    Pumped(PumpEvent),
    /// Of `CheckCancel`.
    Cancel(bool),
    /// Of `Operation::ImageInfo`.
    Info { reply: DsmReply, info: TW_IMAGEINFO },
    /// Of `Operation::TransferSetup`.
    Setup { reply: DsmReply, setup: TW_SETUPMEMXFER },
    /// Of `Transfer`.
    Strip { reply: DsmReply, bytes_per_row: u32, bytes_written: u32, buffer: Vec<u8> },
    /// Of `Operation::EndTransfer`.
    Pending { reply: DsmReply, pending: TW_PENDINGXFERS },
}

impl SessionEvent {
    /// Whether a strip fits the buffer it was written to.
    pub open spec fn in_bounds(self) -> bool {
        self matches SessionEvent::Strip { reply, bytes_written, buffer, .. } ==> strip_delivered(
            reply.rc,
        ) ==> bytes_written <= buffer@.len()
    }
}

/// What to do besides the next action.
#[derive(Debug)]
pub enum SessionEffect {
    Nothing,
    /// Let the pump rest for a moment.
    Sleep,
    /// Dispatch the message that was not for the source.
    Dispatch,
    /// Hand this page on.
    Page(PageData),
}

// ---------------------------------------------------------------------------
// Listing the sources
// ---------------------------------------------------------------------------
/// Why the sources could not be listed.
#[derive(Debug)]
pub enum ListingFailure {
    Load(LoadFailure),
    Window(String),
    Open(DsmReply),
    /// The caller reported an event that answers another action.
    OutOfOrder,
}

/// Where a listing stands.
#[derive(Debug)]
pub enum ListingPhase {
    Load,
    Window,
    Open,
    First,
    Next,
    Close,
    Done(Result<(), ListingFailure>),
}

/// Lists the sources of a manager: opens it, asks for one source after the
/// other, and closes it.
#[derive(Debug)]
pub struct SourceListing {
    pub phase: ListingPhase,
    pub sources: Vec<SourceInfo>,
}

/// The next phase of a listing.
pub open spec fn listing_phase(phase: ListingPhase, event: SessionEvent) -> ListingPhase {
    match (phase, event) {
        (ListingPhase::Done(r), _) => ListingPhase::Done(r),
        (ListingPhase::Load, SessionEvent::Loaded(Ok(()))) => ListingPhase::Window,
        (ListingPhase::Load, SessionEvent::Loaded(Err(e))) => ListingPhase::Done(
            Err(ListingFailure::Load(e)),
        ),
        (ListingPhase::Window, SessionEvent::Window(Ok(_))) => ListingPhase::Open,
        (ListingPhase::Window, SessionEvent::Window(Err(e))) => ListingPhase::Done(
            Err(ListingFailure::Window(e)),
        ),
        (ListingPhase::Open, SessionEvent::Reply(reply)) => if reply.rc == TWRC_SUCCESS {
            ListingPhase::First
        } else {
            ListingPhase::Done(Err(ListingFailure::Open(reply)))
        },
        (ListingPhase::First | ListingPhase::Next, SessionEvent::Identity { reply, .. }) =>
        if reply.rc == TWRC_SUCCESS {
            ListingPhase::Next
        } else {
            ListingPhase::Close
        },
        (ListingPhase::Close, SessionEvent::Reply(_)) => ListingPhase::Done(Ok(())),
        _ => ListingPhase::Done(Err(ListingFailure::OutOfOrder)),
    }
}

/// Whether the event reports one more source in this phase.
pub open spec fn lists_source(phase: ListingPhase, event: SessionEvent) -> Option<TW_IDENTITY> {
    match (phase, event) {
        (ListingPhase::First | ListingPhase::Next, SessionEvent::Identity { reply, identity }) =>
        if reply.rc == TWRC_SUCCESS {
            Some(identity)
        } else {
            None
        },
        _ => None,
    }
}

impl SourceListing {
    pub fn new() -> (s: SourceListing)
        ensures
            s.phase == ListingPhase::Load,
            s.sources@ == Seq::<SourceInfo>::empty(),
    {
        SourceListing { phase: ListingPhase::Load, sources: Vec::new() }
    }

    pub open spec fn spec_action(self) -> SessionAction {
        match self.phase {
            ListingPhase::Load => SessionAction::LoadDsm,
            ListingPhase::Window => SessionAction::CreateWindow,
            ListingPhase::Open => SessionAction::Call(Operation::OpenDsm),
            ListingPhase::First => SessionAction::Call(Operation::FirstSource),
            ListingPhase::Next => SessionAction::Call(Operation::NextSource),
            ListingPhase::Close => SessionAction::Call(Operation::CloseDsm),
            ListingPhase::Done(_) => SessionAction::Finished,
        }
    }

    /// What to do next.
    pub fn action(&self) -> (r: SessionAction)
        ensures
            r == self.spec_action(),
    {
        match &self.phase {
            ListingPhase::Load => SessionAction::LoadDsm,
            ListingPhase::Window => SessionAction::CreateWindow,
            ListingPhase::Open => SessionAction::Call(Operation::OpenDsm),
            ListingPhase::First => SessionAction::Call(Operation::FirstSource),
            ListingPhase::Next => SessionAction::Call(Operation::NextSource),
            ListingPhase::Close => SessionAction::Call(Operation::CloseDsm),
            ListingPhase::Done(_) => SessionAction::Finished,
        }
    }

    /// Take in what came of the action.
    pub fn advance(self, event: SessionEvent) -> (r: SourceListing)
        ensures
            r.phase == listing_phase(self.phase, event),
            match lists_source(self.phase, event) {
                Some(identity) => {
                    &&& r.sources@.len() == self.sources@.len() + 1
                    &&& r.sources@.drop_last() == self.sources@
                    &&& r.sources@.last().describes(identity)
                },
                None => r.sources == self.sources,
            },
    {
        let mut sources = self.sources;
        let phase = match (self.phase, event) {
            (ListingPhase::Done(r), _) => ListingPhase::Done(r),
            (ListingPhase::Load, SessionEvent::Loaded(Ok(()))) => ListingPhase::Window,
            (ListingPhase::Load, SessionEvent::Loaded(Err(e))) => ListingPhase::Done(
                Err(ListingFailure::Load(e)),
            ),
            (ListingPhase::Window, SessionEvent::Window(Ok(_))) => ListingPhase::Open,
            (ListingPhase::Window, SessionEvent::Window(Err(e))) => ListingPhase::Done(
                Err(ListingFailure::Window(e)),
            ),
            (ListingPhase::Open, SessionEvent::Reply(reply)) => if reply.rc == TWRC_SUCCESS {
                ListingPhase::First
            } else {
                ListingPhase::Done(Err(ListingFailure::Open(reply)))
            },
            (
                ListingPhase::First | ListingPhase::Next,
                SessionEvent::Identity { reply, identity },
            ) => if reply.rc == TWRC_SUCCESS {
                let ghost before = sources@;
                sources.push(SourceInfo::from_identity(&identity));
                proof {
                    assert(sources@.drop_last() =~= before);
                }
                ListingPhase::Next
            } else {
                ListingPhase::Close
            },
            (ListingPhase::Close, SessionEvent::Reply(_)) => ListingPhase::Done(Ok(())),
            _ => ListingPhase::Done(Err(ListingFailure::OutOfOrder)),
        };
        SourceListing { phase, sources }
    }
}

/// The scan error that a failed listing of native sources stands for.
pub open spec fn spec_listing_error(failed: ListingFailure) -> ScanError {
    ScanError::Twain(
        match failed {
            ListingFailure::Load(LoadFailure::Library(e)) => TwainError::DsmLoadFailed(e),
            ListingFailure::Load(LoadFailure::EntryPoint(_)) => TwainError::EntryPointNotFound,
            ListingFailure::Window(e) => TwainError::WindowCreationFailed(e),
            ListingFailure::Open(reply) => failure(Operation::OpenDsm, reply),
            ListingFailure::OutOfOrder => TwainError::InvalidState,
        },
    )
}

fn listing_error(failed: ListingFailure) -> (r: ScanError)
    ensures
        r == spec_listing_error(failed),
{
    ScanError::Twain(
        match failed {
            ListingFailure::Load(LoadFailure::Library(e)) => TwainError::DsmLoadFailed(e),
            ListingFailure::Load(LoadFailure::EntryPoint(_)) => TwainError::EntryPointNotFound,
            ListingFailure::Window(e) => TwainError::WindowCreationFailed(e),
            ListingFailure::Open(reply) => failed_call(Operation::OpenDsm, reply),
            ListingFailure::OutOfOrder => TwainError::InvalidState,
        },
    )
}

/// Whether `info` presents the native source `source`.
pub open spec fn presents(info: ScannerInfo, source: SourceInfo) -> bool {
    &&& info.id@ == decimal(source.id as nat)
    &&& info.name@ == source.name@
    &&& info.manufacturer@ == source.manufacturer@
    &&& info.source == ScannerSource::Native
}

impl SourceListing {
    /// The listed sources as native scanners, once the listing is done.
    pub fn discover_native_scanners(self) -> (r: Result<Vec<ScannerInfo>, ScanError>)
        ensures
            match self.phase {
                ListingPhase::Done(Ok(())) => r matches Ok(scanners) && scanners@.len()
                    == self.sources@.len() && forall|i: int|
                    0 <= i < scanners@.len() ==> presents(
                        #[trigger] scanners@[i],
                        self.sources@[i],
                    ),
                ListingPhase::Done(Err(e)) => r == Err::<Vec<ScannerInfo>, ScanError>(
                    spec_listing_error(e),
                ),
                _ => r == Err::<Vec<ScannerInfo>, ScanError>(
                    ScanError::Twain(TwainError::InvalidState),
                ),
            },
    {
        match self.phase {
            ListingPhase::Done(Err(e)) => Err(listing_error(e)),
            ListingPhase::Done(Ok(())) => {
                let mut scanners: Vec<ScannerInfo> = Vec::new();
                let mut i: usize = 0;
                while i < self.sources.len()
                    invariant
                        i <= self.sources@.len(),
                        scanners@.len() == i,
                        forall|j: int|
                            0 <= j < i ==> presents(#[trigger] scanners@[j], self.sources@[j]),
                    decreases self.sources.len() - i,
                {
                    let source = &self.sources[i];
                    scanners.push(
                        ScannerInfo {
                            id: decimal_string(source.id as u64),
                            name: source.name.clone(),
                            manufacturer: source.manufacturer.clone(),
                            source: ScannerSource::Native,
                        },
                    );
                    i += 1;
                }
                Ok(scanners)
            },
            _ => Err(ScanError::Twain(TwainError::InvalidState)),
        }
    }
}

// ---------------------------------------------------------------------------
// Scanning
// ---------------------------------------------------------------------------
/// Where a native scan stands, with the session in the state it is in.
pub enum NativePhase {
    Load(PreSession),
    Window(DsmLoaded),
    OpenDsm(DsmLoaded, isize),
    /// Listing sources, those so far included; whether the first was asked for.
    List(DsmOpened, Vec<SourceInfo>, bool),
    OpenSource(DsmOpened, TW_IDENTITY),
    /// Setting capabilities, of which this many are set.
    Configure(SourceOpened, Vec<CapabilitySetting>, usize),
    Enable(SourceOpened),
    Wait(SourceEnabled),
    /// Disabling the source; whether the scan was cancelled.
    Disable(SourceEnabled, bool),
    /// Between pages.
    CheckCancel(TransferReady),
    Describe(TransferReady),
    Setup(TransferReady, TW_IMAGEINFO),
    Transfer(TransferReady, PageTransfer, u32),
    EndTransfer(TransferReady, PageTransfer),
    /// Cancelled: dropping the pages still pending.
    Reset(TransferReady),
    /// Closing the source; whether the scan was cancelled.
    CloseSource(SourceOpened, bool),
    /// Closing the manager; whether the scan was cancelled.
    CloseDsm(DsmOpened, bool),
    /// Undoing what is open after an error, of which this many steps are done.
    TearDown(Vec<Operation>, usize, TwainError),
    Done(Result<(), ScanError>),
}

/// One scan with the native manager.
pub struct NativeScan {
    scanner_name: String,
    options: ScanOptions,
    /// Pages handed on so far.
    pages: u32,
    phase: NativePhase,
}

/// How a scan ends once the manager is closed.
pub open spec fn scan_verdict(cancelled: bool) -> Result<(), ScanError> {
    if cancelled {
        Err(ScanError::Cancelled)
    } else {
        Ok(())
    }
}

/// Whether `data` is the scanned page `page` under a number.
pub open spec fn numbered(data: PageData, page: ScannedPage, number: u32) -> bool {
    &&& data.page_number == number
    &&& data.width == page.width
    &&& data.height == page.height
    &&& data.bits_per_pixel == page.bits_per_pixel
    &&& data.dpi_x == Resolution::Fixed(page.x_resolution)
    &&& data.dpi_y == Resolution::Fixed(page.y_resolution)
    &&& data.bytes_per_row == page.bytes_per_row
    &&& data.raw_data == page.data
}

fn number_page(page: ScannedPage, number: u32) -> (data: PageData)
    ensures
        numbered(data, page, number),
{
    PageData {
        page_number: number,
        width: page.width,
        height: page.height,
        bits_per_pixel: page.bits_per_pixel,
        dpi_x: Resolution::Fixed(page.x_resolution),
        dpi_y: Resolution::Fixed(page.y_resolution),
        bytes_per_row: page.bytes_per_row,
        raw_data: page.data,
    }
}

/// The end of a scan on an error of the session.
pub open spec fn failed_with(e: TwainError) -> NativePhase {
    NativePhase::Done(Err(ScanError::Twain(e)))
}

/// Whether `next` undoes, from this state on, what is open, and then fails.
pub open spec fn tears_down(next: NativePhase, state: int, e: TwainError) -> bool {
    next matches NativePhase::TearDown(ops, done, error) && ops@ == teardown_from(state) && done
        == 0 && error == e
}

impl NativeScan {
    pub closed spec fn spec_name(self) -> Seq<char> {
        self.scanner_name@
    }

    pub closed spec fn spec_options(self) -> ScanOptions {
        self.options
    }

    pub closed spec fn spec_pages(self) -> u32 {
        self.pages
    }

    pub closed spec fn spec_phase(self) -> NativePhase {
        self.phase
    }

    /// What remains to be done in a phase is never empty.
    pub open spec fn wf(self) -> bool {
        match self.spec_phase() {
            NativePhase::Configure(_, plan, set) => set < plan@.len(),
            NativePhase::TearDown(ops, done, _) => done < ops@.len(),
            _ => true,
        }
    }

    /// Scan from the source with this name.
    pub fn new(scanner_name: String, options: ScanOptions) -> (s: NativeScan)
        ensures
            s.wf(),
            s.spec_name() == scanner_name@,
            s.spec_options() == options,
            s.spec_pages() == 0,
            s.spec_phase() == NativePhase::Load(PreSession),
    {
        NativeScan { scanner_name, options, pages: 0, phase: NativePhase::Load(PreSession::new()) }
    }

    /// Pages handed on so far.
    pub fn pages(&self) -> (n: u32)
        ensures
            n == self.spec_pages(),
    {
        self.pages
    }

    /// How the scan ended, once it has.
    pub fn verdict(self) -> (r: Option<Result<(), ScanError>>)
        ensures
            r == (match self.spec_phase() {
                NativePhase::Done(verdict) => Some(verdict),
                _ => None,
            }),
    {
        match self.phase {
            NativePhase::Done(verdict) => Some(verdict),
            _ => None,
        }
    }

    pub open spec fn spec_action(self) -> SessionAction {
        match self.spec_phase() {
            NativePhase::Load(_) => SessionAction::LoadDsm,
            NativePhase::Window(_) => SessionAction::CreateWindow,
            NativePhase::OpenDsm(_, _) => SessionAction::Call(Operation::OpenDsm),
            NativePhase::List(_, _, started) => SessionAction::Call(
                if started {
                    Operation::NextSource
                } else {
                    Operation::FirstSource
                },
            ),
            NativePhase::OpenSource(_, identity) => SessionAction::OpenSource(identity),
            NativePhase::Configure(_, plan, set) => SessionAction::SetCapability(plan@[set as int]),
            NativePhase::Enable(_) => SessionAction::Enable {
                show_ui: self.spec_options().show_scanner_ui,
            },
            NativePhase::Wait(_) => SessionAction::Pump,
            NativePhase::Disable(_, _) => SessionAction::Call(Operation::DisableSource),
            NativePhase::CheckCancel(_) => SessionAction::CheckCancel,
            NativePhase::Describe(_) => SessionAction::Call(Operation::ImageInfo),
            NativePhase::Setup(_, _) => SessionAction::Call(Operation::TransferSetup),
            NativePhase::Transfer(_, _, buffer_len) => SessionAction::Transfer { buffer_len },
            NativePhase::EndTransfer(_, _) => SessionAction::Call(Operation::EndTransfer),
            NativePhase::Reset(_) => SessionAction::Call(Operation::ResetTransfers),
            NativePhase::CloseSource(_, _) => SessionAction::Call(Operation::CloseSource),
            NativePhase::CloseDsm(_, _) => SessionAction::Call(Operation::CloseDsm),
            NativePhase::TearDown(ops, done, _) => SessionAction::Call(ops@[done as int]),
            NativePhase::Done(_) => SessionAction::Finished,
        }
    }

    /// What to do next.
    pub fn action(&self) -> (r: SessionAction)
        requires
            self.wf(),
        ensures
            r == self.spec_action(),
    {
        match &self.phase {
            NativePhase::Load(_) => SessionAction::LoadDsm,
            NativePhase::Window(_) => SessionAction::CreateWindow,
            NativePhase::OpenDsm(_, _) => SessionAction::Call(Operation::OpenDsm),
            NativePhase::List(_, _, started) => SessionAction::Call(
                if *started {
                    Operation::NextSource
                } else {
                    Operation::FirstSource
                },
            ),
            NativePhase::OpenSource(_, identity) => SessionAction::OpenSource(*identity),
            NativePhase::Configure(_, plan, set) => SessionAction::SetCapability(plan[*set]),
            NativePhase::Enable(_) => SessionAction::Enable {
                show_ui: self.options.show_scanner_ui,
            },
            NativePhase::Wait(_) => SessionAction::Pump,
            NativePhase::Disable(_, _) => SessionAction::Call(Operation::DisableSource),
            NativePhase::CheckCancel(_) => SessionAction::CheckCancel,
            NativePhase::Describe(_) => SessionAction::Call(Operation::ImageInfo),
            NativePhase::Setup(_, _) => SessionAction::Call(Operation::TransferSetup),
            NativePhase::Transfer(_, _, buffer_len) => SessionAction::Transfer {
                buffer_len: *buffer_len,
            },
            NativePhase::EndTransfer(_, _) => SessionAction::Call(Operation::EndTransfer),
            NativePhase::Reset(_) => SessionAction::Call(Operation::ResetTransfers),
            NativePhase::CloseSource(_, _) => SessionAction::Call(Operation::CloseSource),
            NativePhase::CloseDsm(_, _) => SessionAction::Call(Operation::CloseDsm),
            NativePhase::TearDown(ops, done, _) => SessionAction::Call(ops[*done]),
            NativePhase::Done(_) => SessionAction::Finished,
        }
    }

    /// Take in what came of the action.
    pub fn advance(self, event: SessionEvent) -> (r: (NativeScan, SessionEffect))
        requires
            self.wf(),
            event.in_bounds(),
            self.spec_pages() < u32::MAX,
        ensures
            r.0.wf(),
            r.0.spec_name() == self.spec_name(),
            r.0.spec_options() == self.spec_options(),
            native_step(
                self.spec_phase(),
                event,
                self.spec_name(),
                self.spec_options(),
                r.0.spec_phase(),
            ),
            native_effect(self.spec_phase(), event, self.spec_pages(), r.1),
            r.0.spec_pages() == self.spec_pages() + (if r.1 is Page { 1int } else { 0 }),
    {
        let NativeScan { scanner_name, options, pages, phase } = self;
        let mut pages = pages;
        let mut effect = SessionEffect::Nothing;
        let next = match (phase, event) {
            (NativePhase::Done(verdict), _) => NativePhase::Done(verdict),
            (NativePhase::Load(pre), SessionEvent::Loaded(loaded)) => match pre.load_dsm(loaded) {
                Ok(dsm) => NativePhase::Window(dsm),
                Err(e) => NativePhase::Done(Err(ScanError::Twain(e))),
            },
            (NativePhase::Window(dsm), SessionEvent::Window(created)) => match create_hidden_hwnd(
                created,
            ) {
                Ok(hwnd) => NativePhase::OpenDsm(dsm, hwnd),
                Err(e) => NativePhase::Done(Err(ScanError::Twain(e))),
            },
            (NativePhase::OpenDsm(dsm, hwnd), SessionEvent::Reply(reply)) => match dsm.open_dsm(
                hwnd,
                reply,
            ) {
                Ok(opened) => NativePhase::List(opened, Vec::new(), false),
                Err(e) => NativePhase::Done(Err(ScanError::Twain(e))),
            },
            (
                NativePhase::List(dsm, listed, _),
                SessionEvent::Identity { reply, identity },
            ) => {
                let (listed, more) = dsm.list_sources(listed, &identity, reply);
                if more {
                    NativePhase::List(dsm, listed, true)
                } else {
                    match dsm.select_source(&listed, scanner_name.as_str()) {
                        Ok(selected) => NativePhase::OpenSource(dsm, selected),
                        Err(e) => NativePhase::TearDown(dsm.teardown(), 0, e),
                    }
                }
            },
            (
                NativePhase::OpenSource(dsm, _),
                SessionEvent::Identity { reply, identity },
            ) => match dsm.open_source(identity, reply) {
                Ok(source) => {
                    let plan = source.configure(&options);
                    NativePhase::Configure(source, plan, 0)
                },
                Err(e) => NativePhase::Done(Err(ScanError::Twain(e))),
            },
            (NativePhase::Configure(source, plan, set), SessionEvent::Reply(reply)) => {
                match check_capability(&plan[set], reply) {
                    Ok(()) => if set < plan.len() - 1 {
                        NativePhase::Configure(source, plan, set + 1)
                    } else {
                        NativePhase::Enable(source)
                    },
                    Err(e) => NativePhase::TearDown(source.teardown(), 0, e),
                }
            },
            (NativePhase::Enable(source), SessionEvent::Reply(reply)) => match source.enable(
                reply,
            ) {
                Ok(enabled) => NativePhase::Wait(enabled),
                Err(e) => NativePhase::Done(Err(ScanError::Twain(e))),
            },
            (NativePhase::Wait(enabled), SessionEvent::Pumped(pumped)) => {
                let cancelled = pumped == PumpEvent::Cancelled;
                match enabled.wait_for_transfer(pumped) {
                    WaitResult::TransferReady(ready) => NativePhase::CheckCancel(ready),
                    WaitResult::CloseRequested(enabled) => NativePhase::Disable(enabled, cancelled),
                    WaitResult::Waiting(enabled, step) => {
                        effect = match step {
                            PumpStep::Sleep => SessionEffect::Sleep,
                            PumpStep::Dispatch => SessionEffect::Dispatch,
                            _ => SessionEffect::Nothing,
                        };
                        NativePhase::Wait(enabled)
                    },
                }
            },
            (NativePhase::Disable(enabled, cancelled), SessionEvent::Reply(reply)) => {
                match enabled.disable(reply) {
                    Ok(source) => NativePhase::CloseSource(source, cancelled),
                    Err(e) => NativePhase::Done(Err(ScanError::Twain(e))),
                }
            },
            (NativePhase::CheckCancel(ready), SessionEvent::Cancel(cancelled)) => if cancelled {
                NativePhase::Reset(ready)
            } else {
                NativePhase::Describe(ready)
            },
            (NativePhase::Describe(ready), SessionEvent::Info { reply, info }) => {
                match ready.get_image_info(info, reply) {
                    Ok(info) => NativePhase::Setup(ready, info),
                    Err(e) => NativePhase::TearDown(ready.teardown(), 0, e),
                }
            },
            (NativePhase::Setup(ready, info), SessionEvent::Setup { reply, setup }) => {
                match ready.buffer_len(setup, reply) {
                    Ok(len) => NativePhase::Transfer(ready, PageTransfer::begin(info), len),
                    Err(e) => NativePhase::TearDown(ready.teardown(), 0, e),
                }
            },
            (
                NativePhase::Transfer(ready, transfer, len),
                SessionEvent::Strip { reply, bytes_per_row, bytes_written, buffer },
            ) => {
                let mut transfer = transfer;
                match transfer.strip(reply, bytes_per_row, bytes_written, &buffer) {
                    Ok(true) => NativePhase::EndTransfer(ready, transfer),
                    Ok(false) => NativePhase::Transfer(ready, transfer, len),
                    Err(e) => NativePhase::TearDown(ready.teardown(), 0, e),
                }
            },
            (
                NativePhase::EndTransfer(ready, transfer),
                SessionEvent::Pending { reply, pending },
            ) => match ready.end_transfer(reply) {
                Ok(()) => {
                    pages = pages + 1;
                    match ready.transfer_memory(transfer, pending) {
                        TransferResult::MorePages { page, next } => {
                            effect = SessionEffect::Page(number_page(page, pages));
                            NativePhase::CheckCancel(next)
                        },
                        TransferResult::Done { page, source } => {
                            effect = SessionEffect::Page(number_page(page, pages));
                            NativePhase::CloseSource(source, false)
                        },
                    }
                },
                Err(e) => NativePhase::TearDown(ready.teardown(), 0, e),
            },
            (NativePhase::Reset(ready), SessionEvent::Reply(reply)) => match ready.cancel(reply) {
                Ok(source) => NativePhase::CloseSource(source, true),
                Err(e) => NativePhase::Done(Err(ScanError::Twain(e))),
            },
            (NativePhase::CloseSource(source, cancelled), SessionEvent::Reply(reply)) => {
                match source.close(reply) {
                    Ok(dsm) => NativePhase::CloseDsm(dsm, cancelled),
                    Err(e) => NativePhase::Done(Err(ScanError::Twain(e))),
                }
            },
            (NativePhase::CloseDsm(_, cancelled), SessionEvent::Reply(_)) => NativePhase::Done(
                if cancelled {
                    Err(ScanError::Cancelled)
                } else {
                    Ok(())
                },
            ),
            (NativePhase::TearDown(ops, done, e), SessionEvent::Reply(_)) => if done < ops.len()
                - 1 {
                NativePhase::TearDown(ops, done + 1, e)
            } else {
                NativePhase::Done(Err(ScanError::Twain(e)))
            },
            _ => NativePhase::Done(Err(ScanError::Twain(TwainError::InvalidState))),
        };
        (NativeScan { scanner_name, options, pages, phase: next }, effect)
    }
}

/// Where a native scan goes from a phase when `event` is what came of its action.
pub open spec fn native_step(
    phase: NativePhase,
    event: SessionEvent,
    name: Seq<char>,
    options: ScanOptions,
    next: NativePhase,
) -> bool {
    match (phase, event) {
        (NativePhase::Done(verdict), _) => next == NativePhase::Done(verdict),
        (NativePhase::Load(_), SessionEvent::Loaded(Ok(()))) => next matches NativePhase::Window(
            dsm,
        ) && is_application_identity(dsm.spec_app_identity(), "RSWebTWAIN"),
        (NativePhase::Load(_), SessionEvent::Loaded(Err(LoadFailure::Library(e)))) => next
            == failed_with(TwainError::DsmLoadFailed(e)),
        (NativePhase::Load(_), SessionEvent::Loaded(Err(LoadFailure::EntryPoint(_)))) => next
            == failed_with(TwainError::EntryPointNotFound),
        (NativePhase::Window(dsm), SessionEvent::Window(Ok(hwnd))) => next == NativePhase::OpenDsm(
            dsm,
            hwnd,
        ),
        (NativePhase::Window(_), SessionEvent::Window(Err(e))) => next == failed_with(
            TwainError::WindowCreationFailed(e),
        ),
        (NativePhase::OpenDsm(dsm, hwnd), SessionEvent::Reply(reply)) => if reply.rc
            == TWRC_SUCCESS {
            next matches NativePhase::List(opened, listed, started) && opened.spec_session() == (
            Session { hwnd, app_identity: dsm.spec_app_identity() }) && listed@.len() == 0
                && !started
        } else {
            next == failed_with(failure(Operation::OpenDsm, reply))
        },
        (NativePhase::List(dsm, listed, _), SessionEvent::Identity { reply, identity }) => {
            if reply.rc == TWRC_SUCCESS {
                next matches NativePhase::List(same, more, started) && same == dsm && started
                    && more@.len() == listed@.len() + 1 && more@.drop_last() == listed@
                    && more@.last().describes(identity)
            } else if exists|i: int| first_named(listed@, name, i) {
                next matches NativePhase::OpenSource(same, selected) && same == dsm && only_named(
                    selected,
                ) && selected.ProductName@ == field_of(encode_utf8(name), 34) && exists|i: int|
                    #[trigger] first_named(listed@, name, i) && selected.Id == listed@[i].id
            } else {
                tears_down(next, 3, TwainError::NoSources)
            }
        },
        (NativePhase::OpenSource(dsm, _), SessionEvent::Identity { reply, identity }) => {
            if reply.rc == TWRC_SUCCESS {
                next matches NativePhase::Configure(source, plan, set) && source.spec_session()
                    == dsm.spec_session() && source.spec_identity() == identity && set == 0
                    && plan@ == capability_plan(
                    options.color_mode.pixel_type(),
                    options.resolution,
                    options.duplex,
                    options.use_adf,
                )
            } else {
                next == failed_with(failure(Operation::OpenSource, reply))
            }
        },
        (NativePhase::Configure(source, plan, set), SessionEvent::Reply(reply)) => if is_requested(
            plan@[set as int].cap,
        ) && is_rejection(reply) {
            tears_down(next, 4, TwainError::CapabilityNotSupported(plan@[set as int].cap))
        } else if set + 1 < plan@.len() {
            next == NativePhase::Configure(source, plan, (set + 1) as usize)
        } else {
            next == NativePhase::Enable(source)
        },
        (NativePhase::Enable(source), SessionEvent::Reply(reply)) => if reply.rc == TWRC_SUCCESS {
            next matches NativePhase::Wait(enabled) && enabled.spec_session()
                == source.spec_session() && enabled.spec_identity() == source.spec_identity()
        } else {
            next == failed_with(failure(Operation::EnableSource, reply))
        },
        (NativePhase::Wait(enabled), SessionEvent::Pumped(pumped)) => {
            match spec_pump_step(pumped) {
                PumpStep::Ready => next matches NativePhase::CheckCancel(ready)
                    && ready.spec_session() == enabled.spec_session() && ready.spec_identity()
                    == enabled.spec_identity(),
                PumpStep::Disable => next == NativePhase::Disable(
                    enabled,
                    pumped == PumpEvent::Cancelled,
                ),
                _ => next == NativePhase::Wait(enabled),
            }
        },
        (NativePhase::Disable(enabled, cancelled), SessionEvent::Reply(reply)) => if reply.rc
            == TWRC_SUCCESS {
            next matches NativePhase::CloseSource(source, same) && source.spec_session()
                == enabled.spec_session() && source.spec_identity() == enabled.spec_identity()
                && same == cancelled
        } else {
            next == failed_with(failure(Operation::DisableSource, reply))
        },
        (NativePhase::CheckCancel(ready), SessionEvent::Cancel(cancelled)) => next == (
        if cancelled {
            NativePhase::Reset(ready)
        } else {
            NativePhase::Describe(ready)
        }),
        (NativePhase::Describe(ready), SessionEvent::Info { reply, info }) => if reply.rc
            == TWRC_SUCCESS {
            next == NativePhase::Setup(ready, info)
        } else {
            tears_down(next, 6, failure(Operation::ImageInfo, reply))
        },
        (NativePhase::Setup(ready, info), SessionEvent::Setup { reply, setup }) => if reply.rc
            == TWRC_SUCCESS {
            next matches NativePhase::Transfer(same, transfer, len) && same == ready
                && transfer.spec_info() == info && transfer.stride() == 0
                && transfer.collected().len() == 0 && len == setup.Preferred
        } else {
            tears_down(next, 6, failure(Operation::TransferSetup, reply))
        },
        (
            NativePhase::Transfer(ready, transfer, len),
            SessionEvent::Strip { reply, bytes_per_row, bytes_written, buffer },
        ) => if strip_delivered(reply.rc) {
            let more = match next {
                NativePhase::Transfer(same, more, same_len) => if reply.rc == TWRC_SUCCESS && same
                    == ready && same_len == len {
                    Some(more)
                } else {
                    None
                },
                NativePhase::EndTransfer(same, more) => if reply.rc == TWRC_XFERDONE && same
                    == ready {
                    Some(more)
                } else {
                    None
                },
                _ => None,
            };
            more matches Some(more) && more.spec_info() == transfer.spec_info() && more.stride()
                == bytes_per_row && more.collected() == transfer.collected() + buffer@.take(
                bytes_written as int,
            )
        } else {
            tears_down(next, 6, failure(Operation::MemoryTransfer, reply))
        },
        (NativePhase::EndTransfer(ready, _), SessionEvent::Pending { reply, pending }) => {
            if reply.rc != TWRC_SUCCESS {
                tears_down(next, 6, failure(Operation::EndTransfer, reply))
            } else if pending.Count == 0 {
                next matches NativePhase::CloseSource(source, cancelled) && source.spec_session()
                    == ready.spec_session() && source.spec_identity() == ready.spec_identity()
                    && !cancelled
            } else {
                next == NativePhase::CheckCancel(ready)
            }
        },
        (NativePhase::Reset(ready), SessionEvent::Reply(reply)) => if reply.rc == TWRC_SUCCESS {
            next matches NativePhase::CloseSource(source, cancelled) && source.spec_session()
                == ready.spec_session() && source.spec_identity() == ready.spec_identity()
                && cancelled
        } else {
            next == failed_with(failure(Operation::ResetTransfers, reply))
        },
        (NativePhase::CloseSource(source, cancelled), SessionEvent::Reply(reply)) => if reply.rc
            == TWRC_SUCCESS {
            next matches NativePhase::CloseDsm(dsm, same) && dsm.spec_session()
                == source.spec_session() && same == cancelled
        } else {
            next == failed_with(failure(Operation::CloseSource, reply))
        },
        (NativePhase::CloseDsm(_, cancelled), SessionEvent::Reply(_)) => next == NativePhase::Done(
            scan_verdict(cancelled),
        ),
        (NativePhase::TearDown(ops, done, e), SessionEvent::Reply(_)) => if done + 1 < ops@.len() {
            next == NativePhase::TearDown(ops, (done + 1) as usize, e)
        } else {
            next == failed_with(e)
        },
        _ => next == failed_with(TwainError::InvalidState),
    }
}

/// What a native scan does besides, when `event` is what came of its action: it
/// hands on a page once its transfer has ended, numbered from one.
pub open spec fn native_effect(
    phase: NativePhase,
    event: SessionEvent,
    pages: u32,
    effect: SessionEffect,
) -> bool {
    match (phase, event) {
        (NativePhase::Wait(_), SessionEvent::Pumped(pumped)) => effect == (match spec_pump_step(
            pumped,
        ) {
            PumpStep::Sleep => SessionEffect::Sleep,
            PumpStep::Dispatch => SessionEffect::Dispatch,
            _ => SessionEffect::Nothing,
        }),
        (NativePhase::EndTransfer(_, transfer), SessionEvent::Pending { reply, .. }) => if reply.rc
            == TWRC_SUCCESS {
            effect matches SessionEffect::Page(data) && exists|page: ScannedPage|
                #[trigger] page_of(page, transfer) && numbered(data, page, (pages + 1) as u32)
        } else {
            effect == SessionEffect::Nothing
        },
        _ => effect == SessionEffect::Nothing,
    }
}

/// Law: a native scan that succeeds, or ends as cancelled, has closed its source
/// and its manager: it ends in the reply to closing the manager, and gets there
/// only by closing the source.
pub proof fn law_native_scan_closes(
    phase: NativePhase,
    event: SessionEvent,
    name: Seq<char>,
    options: ScanOptions,
    next: NativePhase,
)
    requires
        native_step(phase, event, name, options, next),
    ensures
        next matches NativePhase::Done(verdict) ==> verdict is Ok || verdict == Err::<
            (),
            ScanError,
        >(ScanError::Cancelled) ==> phase == next || (phase is CloseDsm && event is Reply),
        next is CloseDsm ==> phase is CloseSource && event is Reply,
{
}

/// Whether a native scan learns from `event` that it was cancelled.
pub open spec fn learns_of_cancel(phase: NativePhase, event: SessionEvent) -> bool {
    match (phase, event) {
        (NativePhase::Wait(_), SessionEvent::Pumped(pumped)) => pumped == PumpEvent::Cancelled,
        (NativePhase::CheckCancel(_), SessionEvent::Cancel(cancelled)) => cancelled,
        _ => false,
    }
}

/// Whether a native scan is closing what is open because it was cancelled.
pub open spec fn is_cancelling(phase: NativePhase) -> bool {
    match phase {
        NativePhase::Reset(_) => true,
        NativePhase::Disable(_, cancelled) => cancelled,
        NativePhase::CloseSource(_, cancelled) => cancelled,
        NativePhase::CloseDsm(_, cancelled) => cancelled,
        _ => false,
    }
}

/// Whether the manager did what it was asked to.
pub open spec fn is_done(event: SessionEvent) -> bool {
    event matches SessionEvent::Reply(reply) && reply.rc == TWRC_SUCCESS
}

/// Law: a native scan that learns that it was cancelled closes what is open, and
/// ends as cancelled unless the manager fails to close it; it never succeeds.
pub proof fn law_cancelled_native_scan_ends_so(
    phase: NativePhase,
    event: SessionEvent,
    name: Seq<char>,
    options: ScanOptions,
    next: NativePhase,
)
    requires
        native_step(phase, event, name, options, next),
    ensures
        learns_of_cancel(phase, event) ==> is_cancelling(next),
        is_cancelling(phase) ==> is_cancelling(next) || (next matches NativePhase::Done(
            verdict,
        ) && verdict is Err),
        is_cancelling(phase) && is_done(event) ==> is_cancelling(next) || next
            == NativePhase::Done(Err(ScanError::Cancelled)),
{
}

/// Law: from where it learns that it was cancelled, a native scan goes on to close
/// what is open, and then stays ended; where the manager closes all of it, as
/// cancelled.
pub proof fn law_cancelled_native_scan_stays_so(
    phases: Seq<NativePhase>,
    events: Seq<SessionEvent>,
    name: Seq<char>,
    options: ScanOptions,
    n: int,
)
    requires
        phases.len() == events.len() + 1,
        forall|i: int|
            0 <= i < events.len() ==> native_step(
                phases[i],
                #[trigger] events[i],
                name,
                options,
                phases[i + 1],
            ),
        events.len() > 0,
        learns_of_cancel(phases[0], events[0]),
        0 < n <= events.len(),
    ensures
        is_cancelling(phases[n]) || (phases[n] matches NativePhase::Done(verdict)
            && verdict is Err),
        (forall|i: int| 0 < i < n ==> is_done(#[trigger] events[i])) ==> is_cancelling(phases[n])
            || phases[n] == NativePhase::Done(Err(ScanError::Cancelled)),
    decreases n,
{
    assert(native_step(phases[n - 1], events[n - 1], name, options, phases[n - 1 + 1]));
    if n > 1 {
        law_cancelled_native_scan_stays_so(phases, events, name, options, n - 1);
    }
    law_cancelled_native_scan_ends_so(phases[n - 1], events[n - 1], name, options, phases[n]);
}

/// Law: a native scan that is torn down after an error undoes everything that is
/// open, and then fails with that error.
pub proof fn law_native_teardown_is_complete(
    phase: NativePhase,
    event: SessionEvent,
    name: Seq<char>,
    options: ScanOptions,
    next: NativePhase,
)
    requires
        native_step(phase, event, name, options, next),
        !(phase is TearDown),
        next is TearDown,
    ensures
        next matches NativePhase::TearDown(ops, done, _) && done == 0 && state_after_all(
            if phase is List {
                3
            } else if phase is Configure {
                4
            } else {
                6
            },
            ops@,
        ) == 2,
{
    law_teardown_closes(3);
    law_teardown_closes(4);
    law_teardown_closes(6);
}

// ---------------------------------------------------------------------------
// Whole scans
// ---------------------------------------------------------------------------
/// Whether a native scan becomes `after`, and does `effect` besides, when `event` is what
/// came of its action.
pub open spec fn goes_on(
    scan: NativeScan,
    event: SessionEvent,
    after: NativeScan,
    effect: SessionEffect,
) -> bool {
    &&& scan.wf()
    &&& after.wf()
    &&& after.spec_name() == scan.spec_name()
    &&& after.spec_options() == scan.spec_options()
    &&& native_step(
        scan.spec_phase(),
        event,
        scan.spec_name(),
        scan.spec_options(),
        after.spec_phase(),
    )
    &&& native_effect(scan.spec_phase(), event, scan.spec_pages(), effect)
    &&& after.spec_pages() == scan.spec_pages() + (if effect is Page {
        1int
    } else {
        0
    })
}

/// Whether a native scan went this way: `events` is what came of its actions, and
/// `effects` what it did besides.
pub open spec fn is_native_run(
    scans: Seq<NativeScan>,
    events: Seq<SessionEvent>,
    effects: Seq<SessionEffect>,
    name: Seq<char>,
    options: ScanOptions,
) -> bool {
    &&& scans.len() == events.len() + 1
    &&& effects.len() == events.len()
    &&& scans[0].spec_name() == name
    &&& scans[0].spec_options() == options
    &&& scans[0].spec_pages() == 0
    &&& scans[0].spec_phase() is Load
    &&& forall|i: int|
        0 <= i < events.len() ==> goes_on(
            scans[i],
            #[trigger] events[i],
            scans[i + 1],
            effects[i],
        )
}

/// How many pages the effects hand on.
pub open spec fn handed_on(effects: Seq<SessionEffect>) -> nat
    decreases effects.len(),
{
    if effects.len() == 0 {
        0
    } else {
        handed_on(effects.drop_last()) + (if effects.last() is Page {
            1nat
        } else {
            0
        })
    }
}

/// How the source described a page last.
pub open spec fn described(events: Seq<SessionEvent>) -> Option<TW_IMAGEINFO>
    decreases events.len(),
{
    if events.len() == 0 {
        None
    } else {
        match events.last() {
            SessionEvent::Info { info, .. } => Some(info),
            _ => described(events.drop_last()),
        }
    }
}

/// The bytes of the strips since the last transfer was set up.
pub open spec fn strips(events: Seq<SessionEvent>) -> Seq<u8>
    decreases events.len(),
{
    if events.len() == 0 {
        Seq::empty()
    } else {
        match events.last() {
            SessionEvent::Setup { .. } => Seq::empty(),
            SessionEvent::Strip { bytes_written, buffer, .. } => strips(events.drop_last())
                + buffer@.take(bytes_written as int),
            _ => strips(events.drop_last()),
        }
    }
}

/// The stride of the last strip since the last transfer was set up.
pub open spec fn last_stride(events: Seq<SessionEvent>) -> u32
    decreases events.len(),
{
    if events.len() == 0 {
        0
    } else {
        match events.last() {
            SessionEvent::Setup { .. } => 0,
            SessionEvent::Strip { bytes_per_row, .. } => bytes_per_row,
            _ => last_stride(events.drop_last()),
        }
    }
}

/// What a native scan has to have done to be where it is.
#[verifier::rlimit(50)]
proof fn lemma_native_run(
    scans: Seq<NativeScan>,
    events: Seq<SessionEvent>,
    effects: Seq<SessionEffect>,
    name: Seq<char>,
    options: ScanOptions,
    n: int,
)
    requires
        is_native_run(scans, events, effects, name, options),
        0 <= n <= events.len(),
    ensures
        scans[n].spec_name() == name,
        scans[n].spec_options() == options,
        scans[n].spec_pages() == handed_on(effects.take(n)),
        ({
            let wanted = capability_plan(
                options.color_mode.pixel_type(),
                options.resolution,
                options.duplex,
                options.use_adf,
            );
            match scans[n].spec_phase() {
                NativePhase::Configure(_, plan, set) => {
                    &&& plan@ == wanted
                    &&& set < wanted.len()
                    &&& set <= n
                    &&& forall|k: int|
                        n - set <= k <= n ==> (#[trigger] scans[k]).spec_action()
                            == SessionAction::SetCapability(wanted[k - (n - set)])
                },
                NativePhase::Enable(_) => {
                    &&& wanted.len() <= n
                    &&& forall|k: int|
                        n - wanted.len() <= k < n ==> (#[trigger] scans[k]).spec_action()
                            == SessionAction::SetCapability(wanted[k - (n - wanted.len())])
                },
                NativePhase::Setup(_, info) => described(events.take(n)) == Some(info),
                NativePhase::Transfer(_, transfer, _) | NativePhase::EndTransfer(_, transfer) => {
                    &&& described(events.take(n)) == Some(transfer.spec_info())
                    &&& transfer.collected() == strips(events.take(n))
                    &&& transfer.stride() == last_stride(events.take(n))
                },
                _ => true,
            }
        }),
    decreases n,
{
    if n == 0 {
        assert(effects.take(0).len() == 0);
    } else {
        lemma_native_run(scans, events, effects, name, options, n - 1);
        assert(goes_on(scans[n - 1], events[n - 1], scans[n - 1 + 1], effects[n - 1]));
        assert(effects.take(n).drop_last() =~= effects.take(n - 1));
        assert(effects.take(n).last() == effects[n - 1]);
        assert(events.take(n).drop_last() =~= events.take(n - 1));
        assert(events.take(n).last() == events[n - 1]);
        if let NativePhase::Transfer(_, transfer, _) = scans[n].spec_phase() {
            if scans[n - 1].spec_phase() is Setup {
                assert(transfer.collected() =~= strips(events.take(n)));
            }
        }
    }
}

/// Law: the pages of a native scan are handed on under consecutive numbers, from one on.
pub proof fn law_native_pages_are_numbered(
    scans: Seq<NativeScan>,
    events: Seq<SessionEvent>,
    effects: Seq<SessionEffect>,
    name: Seq<char>,
    options: ScanOptions,
    n: int,
)
    requires
        is_native_run(scans, events, effects, name, options),
        0 <= n < events.len(),
        scans[n].spec_pages() < u32::MAX,
    ensures
        effects[n] matches SessionEffect::Page(data) ==> data.page_number == handed_on(
            effects.take(n),
        ) + 1,
{
    lemma_native_run(scans, events, effects, name, options, n);
    assert(goes_on(scans[n], events[n], scans[n + 1], effects[n]));
}

/// Law: a page is handed on as the source described and transferred it: with the size,
/// depth and resolutions of its description, the stride of its last strip, and the bytes
/// of all its strips, in order. It is handed on once the source has ended its transfer.
pub proof fn law_native_pages_are_their_strips(
    scans: Seq<NativeScan>,
    events: Seq<SessionEvent>,
    effects: Seq<SessionEffect>,
    name: Seq<char>,
    options: ScanOptions,
    n: int,
)
    requires
        is_native_run(scans, events, effects, name, options),
        0 <= n < events.len(),
    ensures
        effects[n] matches SessionEffect::Page(data) ==> {
            &&& described(events.take(n)) matches Some(info) && data.width
                == info.ImageWidth as u32 && data.height == info.ImageLength as u32
                && data.bits_per_pixel == info.BitsPerPixel as u16 && data.dpi_x
                == Resolution::Fixed(info.XResolution) && data.dpi_y == Resolution::Fixed(
                info.YResolution,
            )
            &&& data.bytes_per_row == last_stride(events.take(n))
            &&& data.raw_data@ == strips(events.take(n))
        },
        scans[n].spec_phase() is EndTransfer ==> (events[n] matches SessionEvent::Pending {
            reply,
            ..
        } ==> (effects[n] is Page <==> reply.rc == 0)),
        effects[n] is Page ==> scans[n].spec_phase() is EndTransfer && events[n] is Pending,
{
    lemma_native_run(scans, events, effects, name, options, n);
    assert(goes_on(scans[n], events[n], scans[n + 1], effects[n]));
}

/// Law: before it is enabled, a source is sent every setting that the options ask for,
/// one after the other and none of them twice, right before.
pub proof fn law_native_settings_are_all_sent(
    scans: Seq<NativeScan>,
    events: Seq<SessionEvent>,
    effects: Seq<SessionEffect>,
    name: Seq<char>,
    options: ScanOptions,
    n: int,
    k: int,
)
    requires
        is_native_run(scans, events, effects, name, options),
        0 <= n <= events.len(),
        scans[n].spec_phase() is Enable,
        0 <= k < capability_plan(
            options.color_mode.pixel_type(),
            options.resolution,
            options.duplex,
            options.use_adf,
        ).len(),
    ensures
        ({
            let wanted = capability_plan(
                options.color_mode.pixel_type(),
                options.resolution,
                options.duplex,
                options.use_adf,
            );
            &&& wanted.len() <= n
            &&& scans[n - wanted.len() + k].spec_action() == SessionAction::SetCapability(wanted[k])
            &&& scans[n].spec_action() == (SessionAction::Enable {
                show_ui: options.show_scanner_ui,
            })
        }),
{
    lemma_native_run(scans, events, effects, name, options, n);
}

/// Law: of the sources that the manager has listed, the first of the name asked for is
/// opened, by its id and that name; where there is none, that is the error.
pub proof fn law_native_scan_opens_the_source_named(
    phase: NativePhase,
    reply: DsmReply,
    identity: TW_IDENTITY,
    name: Seq<char>,
    options: ScanOptions,
    next: NativePhase,
    k: int,
)
    requires
        native_step(phase, SessionEvent::Identity { reply, identity }, name, options, next),
        phase is List,
        reply.rc != 0,
    ensures
        phase matches NativePhase::List(_, listed, _) ==> {
            &&& 0 <= k < listed@.len() && listed@[k].name@ == name && (forall|j: int|
                0 <= j < k ==> (#[trigger] listed@[j]).name@ != name) ==> (
            next matches NativePhase::OpenSource(_, selected) && selected.Id == listed@[k].id
                && selected.ProductName@ == field_of(encode_utf8(name), 34)
                && selected.SupportedGroups == 0)
            &&& (forall|j: int| 0 <= j < listed@.len() ==> (#[trigger] listed@[j]).name@ != name)
                ==> (next matches NativePhase::TearDown(_, _, e) && e == TwainError::NoSources)
        },
{
    if let NativePhase::List(_, listed, _) = phase {
        if 0 <= k < listed@.len() && listed@[k].name@ == name && (forall|j: int|
            0 <= j < k ==> (#[trigger] listed@[j]).name@ != name) {
            assert(first_named(listed@, name, k));
            if let NativePhase::OpenSource(_, selected) = next {
                let i = choose|i: int|
                    #[trigger] first_named(listed@, name, i) && selected.Id == listed@[i].id;
                if i < k {
                    assert(listed@[i].name@ != name);
                }
                if k < i {
                    assert(listed@[k].name@ != name);
                }
            }
        }
        if forall|j: int| 0 <= j < listed@.len() ==> (#[trigger] listed@[j]).name@ != name {
            assert forall|i: int| !first_named(listed@, name, i) by {
                if first_named(listed@, name, i) {
                    assert(listed@[i].name@ != name);
                }
            }
        }
    }
}

/// Law: every source that the manager names is taken in, after those before it.
pub proof fn law_native_scan_lists_every_source(
    phase: NativePhase,
    reply: DsmReply,
    identity: TW_IDENTITY,
    name: Seq<char>,
    options: ScanOptions,
    next: NativePhase,
)
    requires
        native_step(phase, SessionEvent::Identity { reply, identity }, name, options, next),
        phase is List,
        reply.rc == 0,
    ensures
        phase matches NativePhase::List(_, listed, _) ==> (next matches NativePhase::List(
            _,
            more,
            started,
        ) && started && more@.len() == listed@.len() + 1 && more@.last().name@ == field_text(
            identity.ProductName@,
        ) && more@.last().id == identity.Id && forall|j: int|
            0 <= j < listed@.len() ==> #[trigger] more@[j] == listed@[j]),
{
    if let (NativePhase::List(_, listed, _), NativePhase::List(_, more, _)) = (phase, next) {
        assert forall|j: int| 0 <= j < listed@.len() implies #[trigger] more@[j]
            == listed@[j] by {
            assert(more@.drop_last()[j] == more@[j]);
        }
    }
}

/// The error that a scan is about to end in, or has ended in.
pub open spec fn failing_with(phase: NativePhase) -> Option<TwainError> {
    match phase {
        NativePhase::TearDown(_, _, e) => Some(e),
        NativePhase::Done(Err(ScanError::Twain(e))) => Some(e),
        _ => None,
    }
}

/// Law: an operation that the manager does not carry out ends the scan in the error that
/// its reply stands for.
pub proof fn law_native_scan_fails_as_replied(
    scan: NativeScan,
    event: SessionEvent,
    after: NativeScan,
    effect: SessionEffect,
    op: Operation,
    reply: DsmReply,
)
    requires
        goes_on(scan, event, after, effect),
        reply.rc != 0,
        match scan.spec_phase() {
            NativePhase::OpenDsm(_, _) => op == Operation::OpenDsm && event == SessionEvent::Reply(
                reply,
            ),
            NativePhase::OpenSource(_, _) => op == Operation::OpenSource && (
            event matches SessionEvent::Identity { reply: r, .. } && r == reply),
            NativePhase::Enable(_) => op == Operation::EnableSource && event == SessionEvent::Reply(
                reply,
            ),
            NativePhase::Disable(_, _) => op == Operation::DisableSource && event
                == SessionEvent::Reply(reply),
            NativePhase::Describe(_) => op == Operation::ImageInfo && (
            event matches SessionEvent::Info { reply: r, .. } && r == reply),
            NativePhase::Setup(_, _) => op == Operation::TransferSetup && (
            event matches SessionEvent::Setup { reply: r, .. } && r == reply),
            NativePhase::Transfer(_, _, _) => op == Operation::MemoryTransfer && reply.rc != 6 && (
            event matches SessionEvent::Strip { reply: r, .. } && r == reply),
            NativePhase::EndTransfer(_, _) => op == Operation::EndTransfer && (
            event matches SessionEvent::Pending { reply: r, .. } && r == reply),
            NativePhase::Reset(_) => op == Operation::ResetTransfers && event
                == SessionEvent::Reply(reply),
            NativePhase::CloseSource(_, _) => op == Operation::CloseSource && event
                == SessionEvent::Reply(reply),
            _ => false,
        },
    ensures
        failing_with(after.spec_phase()) == Some(failure(op, reply)),
        effect is Nothing,
{
}

/// Law: a native scan does one thing after the other, as long as each succeeds: it loads
/// the manager, opens it and the source, configures and enables that, and waits; of every
/// page it asks for the description, the setup and the strips, and ends the transfer; and
/// after the last it closes the source and the manager, and is done.
pub proof fn law_native_scan_goes_on(
    scan: NativeScan,
    event: SessionEvent,
    after: NativeScan,
    effect: SessionEffect,
)
    requires
        goes_on(scan, event, after, effect),
    ensures
        ({
            let (phase, next) = (scan.spec_phase(), after.spec_phase());
            &&& phase is Load && (event matches SessionEvent::Loaded(Ok(()))) ==> next is Window
            &&& phase is Window && (event matches SessionEvent::Window(Ok(_))) ==> next is OpenDsm
            &&& phase is OpenDsm && is_done(event) ==> (next matches NativePhase::List(
                _,
                listed,
                started,
            ) && listed@.len() == 0 && !started)
            &&& phase is OpenSource && (event matches SessionEvent::Identity { reply, .. }
                && reply.rc == 0) ==> next is Configure
            &&& phase is Enable && is_done(event) ==> next is Wait
            &&& phase is Wait && event == SessionEvent::Pumped(
                PumpEvent::Processed { rc: 4, message: 0x0101 },
            ) ==> next is CheckCancel
            &&& phase is CheckCancel && event == SessionEvent::Cancel(false) ==> next is Describe
            &&& phase is CheckCancel && event == SessionEvent::Cancel(true) ==> next is Reset
            &&& phase is Describe && (event matches SessionEvent::Info { reply, .. } && reply.rc
                == 0) ==> next is Setup
            &&& phase is Setup && (event matches SessionEvent::Setup { reply, .. } && reply.rc == 0)
                ==> (next matches NativePhase::Transfer(_, _, len) && event->setup.Preferred == len)
            &&& phase is Transfer && (event matches SessionEvent::Strip { reply, .. } && reply.rc
                == 0) ==> next is Transfer
            &&& phase is Transfer && (event matches SessionEvent::Strip { reply, .. } && reply.rc
                == 6) ==> next is EndTransfer
            &&& phase is EndTransfer && (event matches SessionEvent::Pending { reply, pending }
                && reply.rc == 0 && pending.Count != 0) ==> next is CheckCancel
            &&& phase is EndTransfer && (event matches SessionEvent::Pending { reply, pending }
                && reply.rc == 0 && pending.Count == 0) ==> (
            next matches NativePhase::CloseSource(_, cancelled) && !cancelled)
            &&& phase is CloseSource && is_done(event) ==> next is CloseDsm
            &&& phase matches NativePhase::CloseDsm(_, cancelled) ==> event is Reply ==> next
                == NativePhase::Done(
                if cancelled {
                    Err(ScanError::Cancelled)
                } else {
                    Ok(())
                },
            )
        }),
{
}

/// Law: what a native scan does next is what its phase is for, with what it holds: the
/// identity of the source, the setting that is next, the user interface as asked for, a
/// buffer as long as the source prefers.
pub proof fn law_native_scan_acts_by_its_phase(scan: NativeScan)
    ensures
        scan.spec_phase() is Load <==> scan.spec_action() is LoadDsm,
        scan.spec_phase() is Window <==> scan.spec_action() is CreateWindow,
        scan.spec_phase() is Wait <==> scan.spec_action() is Pump,
        scan.spec_phase() is CheckCancel <==> scan.spec_action() is CheckCancel,
        scan.spec_phase() is Done <==> scan.spec_action() is Finished,
        scan.spec_phase() is OpenDsm ==> scan.spec_action() == SessionAction::Call(
            Operation::OpenDsm,
        ),
        scan.spec_phase() matches NativePhase::List(_, _, started) ==> scan.spec_action()
            == SessionAction::Call(
            if started {
                Operation::NextSource
            } else {
                Operation::FirstSource
            },
        ),
        scan.spec_phase() matches NativePhase::OpenSource(_, identity) ==> scan.spec_action()
            == SessionAction::OpenSource(identity),
        scan.spec_phase() matches NativePhase::Configure(_, plan, set) ==> scan.spec_action()
            == SessionAction::SetCapability(plan@[set as int]),
        scan.spec_phase() is Enable ==> scan.spec_action() == (SessionAction::Enable {
            show_ui: scan.spec_options().show_scanner_ui,
        }),
        scan.spec_phase() is Disable ==> scan.spec_action() == SessionAction::Call(
            Operation::DisableSource,
        ),
        scan.spec_phase() is Describe ==> scan.spec_action() == SessionAction::Call(
            Operation::ImageInfo,
        ),
        scan.spec_phase() is Setup ==> scan.spec_action() == SessionAction::Call(
            Operation::TransferSetup,
        ),
        scan.spec_phase() matches NativePhase::Transfer(_, _, len) ==> scan.spec_action() == (
        SessionAction::Transfer { buffer_len: len }),
        scan.spec_phase() is EndTransfer ==> scan.spec_action() == SessionAction::Call(
            Operation::EndTransfer,
        ),
        scan.spec_phase() is Reset ==> scan.spec_action() == SessionAction::Call(
            Operation::ResetTransfers,
        ),
        scan.spec_phase() is CloseSource ==> scan.spec_action() == SessionAction::Call(
            Operation::CloseSource,
        ),
        scan.spec_phase() is CloseDsm ==> scan.spec_action() == SessionAction::Call(
            Operation::CloseDsm,
        ),
        scan.spec_phase() matches NativePhase::TearDown(ops, done, _) ==> scan.spec_action()
            == SessionAction::Call(ops@[done as int]),
{
}

/// Law: a setting that the source rejects although it was requested ends the scan for
/// that capability; whatever else the source replies, the next setting follows, and after
/// the last the source is enabled.
pub proof fn law_native_settings_decide(
    scan: NativeScan,
    reply: DsmReply,
    after: NativeScan,
    effect: SessionEffect,
)
    requires
        goes_on(scan, SessionEvent::Reply(reply), after, effect),
        scan.spec_phase() is Configure,
    ensures
        scan.spec_phase() matches NativePhase::Configure(_, plan, set) ==> {
            let cap = plan@[set as int].cap;
            if is_requested(cap) && is_rejection(reply) {
                failing_with(after.spec_phase()) == Some(TwainError::CapabilityNotSupported(cap))
            } else if set + 1 < plan@.len() {
                after.spec_phase() matches NativePhase::Configure(_, same, more) && same == plan
                    && more == set + 1
            } else {
                after.spec_phase() is Enable
            }
        },
{
    if let NativePhase::Configure(_, plan, _) = scan.spec_phase() {
        assert(plan@.len() == plan.len());
    }
}

/// Law: while it waits, a scan rests where nothing came in, and dispatches what is not the
/// source's.
pub proof fn law_waiting_scan_rests(
    scan: NativeScan,
    pumped: PumpEvent,
    after: NativeScan,
    effect: SessionEffect,
)
    requires
        goes_on(scan, SessionEvent::Pumped(pumped), after, effect),
        scan.spec_phase() is Wait,
    ensures
        effect is Sleep <==> pumped == PumpEvent::Idle,
        effect is Dispatch <==> (pumped matches PumpEvent::Processed { rc, .. } && rc != 4),
        !(effect is Page),
        pumped == PumpEvent::Idle ==> after.spec_phase() == scan.spec_phase(),
        pumped == PumpEvent::Cancelled ==> (after.spec_phase() matches NativePhase::Disable(
            _,
            cancelled,
        ) && cancelled),
{
}

/// Law: while it is torn down, a scan takes one step after the other, whatever the manager
/// replies, and keeps its error.
pub proof fn law_teardown_goes_on(
    scan: NativeScan,
    reply: DsmReply,
    after: NativeScan,
    effect: SessionEffect,
)
    requires
        goes_on(scan, SessionEvent::Reply(reply), after, effect),
        scan.spec_phase() is TearDown,
    ensures
        failing_with(after.spec_phase()) == failing_with(scan.spec_phase()),
        scan.spec_phase() matches NativePhase::TearDown(ops, done, _) ==> (
        after.spec_phase() is Done <==> done + 1 == ops@.len()),
        scan.spec_phase() matches NativePhase::TearDown(ops, done, _) ==> (
        after.spec_phase() matches NativePhase::TearDown(same, more, _) ==> same == ops && more
            == done + 1),
{
    if let NativePhase::TearDown(ops, _, _) = scan.spec_phase() {
        assert(ops@.len() == ops.len());
    }
}

/// Law: a native source is presented as a scanner under its own id, name and maker.
pub proof fn law_sources_are_presented(info: ScannerInfo, source: SourceInfo)
    requires
        presents(info, source),
    ensures
        reads_as(info.id@, 10) == Some(source.id as nat),
        info.name@ == source.name@,
        info.manufacturer@ == source.manufacturer@,
        info.source == ScannerSource::Native,
{
    law_numerals_read_back(source.id as nat, 10, 1);
}

/// Law: a listing that fails is reported as what went wrong.
pub proof fn law_listings_fail_as_they_did(words: String, reply: DsmReply)
    ensures
        spec_listing_error(ListingFailure::Load(LoadFailure::Library(words))) == ScanError::Twain(
            TwainError::DsmLoadFailed(words),
        ),
        spec_listing_error(ListingFailure::Load(LoadFailure::EntryPoint(words)))
            == ScanError::Twain(TwainError::EntryPointNotFound),
        spec_listing_error(ListingFailure::Window(words)) == ScanError::Twain(
            TwainError::WindowCreationFailed(words),
        ),
        spec_listing_error(ListingFailure::Open(reply)) == ScanError::Twain(
            failure(Operation::OpenDsm, reply),
        ),
{
}

/// Whether a listing becomes `after` when `event` is what came of its action.
pub open spec fn lists_on(
    listing: SourceListing,
    event: SessionEvent,
    after: SourceListing,
) -> bool {
    &&& after.phase == listing_phase(listing.phase, event)
    &&& match lists_source(listing.phase, event) {
        Some(identity) => {
            &&& after.sources@.len() == listing.sources@.len() + 1
            &&& after.sources@.drop_last() == listing.sources@
            &&& after.sources@.last().describes(identity)
        },
        None => after.sources == listing.sources,
    }
}

/// The sources that the manager named.
pub open spec fn named_sources(events: Seq<SessionEvent>) -> Seq<TW_IDENTITY>
    decreases events.len(),
{
    if events.len() == 0 {
        Seq::empty()
    } else {
        match events.last() {
            SessionEvent::Identity { reply, identity } => if reply.rc == 0 {
                named_sources(events.drop_last()).push(identity)
            } else {
                named_sources(events.drop_last())
            },
            _ => named_sources(events.drop_last()),
        }
    }
}

/// Law: a listing holds every source that the manager named, in order, until the manager
/// names no more; then it closes the manager and is done.
pub proof fn law_listing_holds_every_source(
    listings: Seq<SourceListing>,
    events: Seq<SessionEvent>,
    n: int,
)
    requires
        listings.len() == events.len() + 1,
        listings[0].phase is Load,
        listings[0].sources@.len() == 0,
        forall|i: int|
            0 <= i < events.len() ==> lists_on(listings[i], #[trigger] events[i], listings[i + 1]),
        0 <= n <= events.len(),
    ensures
        ({
            let phase = listings[n].phase;
            let named = named_sources(events.take(n));
            &&& phase is Load || phase is Window || phase is Open ==> named.len() == 0
                && listings[n].sources@.len() == 0
            &&& phase is First || phase is Next || phase is Close ==> listings[n].sources@.len()
                == named.len() && forall|k: int|
                0 <= k < named.len() ==> (#[trigger] listings[n].sources@[k]).describes(named[k])
            &&& n < events.len() && phase is Close && events[n] is Reply ==> listings[n + 1].phase
                == ListingPhase::Done(Ok(())) && listings[n + 1].sources == listings[n].sources
        }),
    decreases n,
{
    if n < events.len() {
        assert(lists_on(listings[n], events[n], listings[n + 1]));
    }
    if n == 0 {
        assert(events.take(0).len() == 0);
    } else {
        law_listing_holds_every_source(listings, events, n - 1);
        assert(lists_on(listings[n - 1], events[n - 1], listings[n - 1 + 1]));
        assert(events.take(n).drop_last() =~= events.take(n - 1));
        assert(events.take(n).last() == events[n - 1]);
        let before = listings[n - 1].sources@;
        let now = listings[n].sources@;
        assert forall|k: int| 0 <= k < before.len() && before.len() <= now.len() implies (
        lists_source(listings[n - 1].phase, events[n - 1]) is Some ==> #[trigger] now[k]
            == before[k]) by {
            if lists_source(listings[n - 1].phase, events[n - 1]) is Some {
                assert(now.drop_last()[k] == now[k]);
            }
        }
    }
}

/// Law: a listing asks for the first source, and then, as long as the manager names one,
/// for the next; what it does next is what its phase is for.
pub proof fn law_listing_acts_by_its_phase(listing: SourceListing)
    ensures
        listing.phase is Load ==> listing.spec_action() is LoadDsm,
        listing.phase is Window ==> listing.spec_action() is CreateWindow,
        listing.phase is Open ==> listing.spec_action() == SessionAction::Call(Operation::OpenDsm),
        listing.phase is First ==> listing.spec_action() == SessionAction::Call(
            Operation::FirstSource,
        ),
        listing.phase is Next ==> listing.spec_action() == SessionAction::Call(
            Operation::NextSource,
        ),
        listing.phase is Close ==> listing.spec_action() == SessionAction::Call(
            Operation::CloseDsm,
        ),
        listing.phase is Done ==> listing.spec_action() is Finished,
{
}

/// Law: a listing goes on as long as the manager does what it is asked to, and otherwise
/// ends with what went wrong.
pub proof fn law_listing_goes_on(phase: ListingPhase, event: SessionEvent)
    ensures
        phase is Load && (event matches SessionEvent::Loaded(Ok(()))) ==> listing_phase(
            phase,
            event,
        ) is Window,
        phase is Window && (event matches SessionEvent::Window(Ok(_))) ==> listing_phase(
            phase,
            event,
        ) is Open,
        phase is Open && is_done(event) ==> listing_phase(phase, event) is First,
        phase is First || phase is Next ==> (event matches SessionEvent::Identity { reply, .. }
            ==> listing_phase(phase, event) == (if reply.rc == 0 {
            ListingPhase::Next
        } else {
            ListingPhase::Close
        })),
        phase is Load ==> (event matches SessionEvent::Loaded(Err(e)) ==> listing_phase(
            phase,
            event,
        ) == ListingPhase::Done(Err(ListingFailure::Load(e)))),
        phase is Window ==> (event matches SessionEvent::Window(Err(e)) ==> listing_phase(
            phase,
            event,
        ) == ListingPhase::Done(Err(ListingFailure::Window(e)))),
        phase is Open ==> (event matches SessionEvent::Reply(reply) ==> (reply.rc != 0
            ==> listing_phase(phase, event) == ListingPhase::Done(
            Err(ListingFailure::Open(reply)),
        ))),
{
}

} // verus!
