//! The 32-bit driver process behind the agent.
//!
//! A 64-bit process cannot load 32-bit drivers, and many scanners ship only
//! those, so a small 32-bit process runs them. It reads commands, one per line,
//! and answers with responses, one per line. This module decides what it does;
//! the calls into the data source manager, and the lines, are the caller's part.

use vstd::prelude::*;
use vstd::string::*;

use crate::scanner::session::{
    described, last_stride, strips, ListingFailure, ListingPhase, SessionAction, SessionEvent,
    SourceListing,
};
use crate::scanner::sidecar::{
    base64_bytes, base64_encode, base64_text, device_fault, fault_of, is_relayed, is_terminal,
    relay_step, DeviceFault, RelayEvent, RelayPhase, SidecarCommand, SidecarResponse,
    SidecarScannerEntry,
};
use crate::scanner::twain::{
    capability_plan, check_capability, failed_call, failure, is_rejection, is_requested, page_of,
    pump_step, scan_capabilities, spec_pump_step, strip_delivered, teardown_from, CapabilitySetting,
    ColorMode, DsmReply, LoadFailure, Operation, PageTransfer, PumpEvent, PumpStep, ScannedPage,
    SourceInfo, TwainError,
};
use crate::scanner::twain_ffi::{
    field_text, tw_str32_to_string, TWPT_BW, TWPT_GRAY, TWPT_RGB, TWRC_SUCCESS, TW_IDENTITY,
    TW_IMAGEINFO,
};
use crate::scanner::{PageData, Resolution};
use crate::text::{
    decimal, decimal_string, join, join_decimal, law_numerals_read_back, reads_as, same_text,
};

verus! {

// ---------------------------------------------------------------------------
// Commands
// ---------------------------------------------------------------------------
/// What one scan is asked to do.
#[derive(Debug)]
pub struct ScanJob {
    pub scanner_name: String,
    pub resolution: u32,
    pub color_mode: String,
    pub duplex: bool,
    pub use_adf: bool,
    pub show_ui: bool,
}

/// What to do about a line that came in.
#[derive(Debug)]
pub enum CommandStep {
    ListScanners,
    Scan(ScanJob),
    /// Nothing: a cancel that comes while no scan runs.
    Ignore,
    /// Answer, and go on.
    Answer(SidecarResponse),
    /// Answer, and exit.
    Exit(SidecarResponse),
}

/// Whether a response complains in these words, and of this fault, if it is one.
pub open spec fn complains_of(
    response: SidecarResponse,
    words: Seq<char>,
    fault: Option<DeviceFault>,
) -> bool {
    response matches SidecarResponse::Error { message, fault: complained } && message@ == words
        && complained == fault
}

/// Whether a response complains in these words, of nothing in particular.
pub open spec fn complains(response: SidecarResponse, words: Seq<char>) -> bool {
    complains_of(response, words, None)
}

fn complaint(message: String) -> (r: SidecarResponse)
    ensures
        complains(r, message@),
{
    SidecarResponse::Error { message, fault: None }
}

/// What to do about a line, given the command it holds, or why it holds none.
pub fn command_step(line: Result<SidecarCommand, String>) -> (r: CommandStep)
    ensures
        match line {
            Ok(SidecarCommand::ListScanners) => r == CommandStep::ListScanners,
            Ok(
                SidecarCommand::Scan {
                    scanner_name,
                    resolution,
                    color_mode,
                    duplex,
                    use_adf,
                    show_ui,
                },
            ) => r == CommandStep::Scan(
                ScanJob { scanner_name, resolution, color_mode, duplex, use_adf, show_ui },
            ),
            Ok(SidecarCommand::Cancel) => r == CommandStep::Ignore,
            Ok(SidecarCommand::Shutdown) => r == CommandStep::Exit(SidecarResponse::Shutdown),
            Err(e) => r matches CommandStep::Answer(response) && complains(
                response,
                "Invalid command: "@ + e@,
            ),
        },
{
    match line {
        Ok(SidecarCommand::ListScanners) => CommandStep::ListScanners,
        Ok(
            SidecarCommand::Scan {
                scanner_name,
                resolution,
                color_mode,
                duplex,
                use_adf,
                show_ui,
            },
        ) => CommandStep::Scan(
            ScanJob { scanner_name, resolution, color_mode, duplex, use_adf, show_ui },
        ),
        Ok(SidecarCommand::Cancel) => CommandStep::Ignore,
        Ok(SidecarCommand::Shutdown) => CommandStep::Exit(SidecarResponse::Shutdown),
        Err(e) => CommandStep::Answer(complaint(join("Invalid command: ", e.as_str()))),
    }
}

/// Whether a line that comes in while a scan runs cancels it. Other lines that
/// come in meanwhile are dropped.
pub fn cancels_scan(line: &Result<SidecarCommand, String>) -> (r: bool)
    ensures
        r == (line matches Ok(SidecarCommand::Cancel)),
{
    match line {
        Ok(SidecarCommand::Cancel) => true,
        _ => false,
    }
}

// ---------------------------------------------------------------------------
// Listing
// ---------------------------------------------------------------------------
/// The words for an event that answers another action than was asked for.
pub open spec fn out_of_order() -> Seq<char> {
    TwainError::InvalidState.text()
}

/// The words for a manager library that could not be used.
pub open spec fn load_complaint(failed: LoadFailure) -> Seq<char> {
    match failed {
        LoadFailure::Library(e) => "Failed to load 32-bit TWAINDSM.dll: "@ + e@,
        LoadFailure::EntryPoint(e) => "DSM_Entry not found: "@ + e@,
    }
}

fn load_message(failed: &LoadFailure) -> (s: String)
    ensures
        s@ == load_complaint(*failed),
{
    match failed {
        LoadFailure::Library(e) => join("Failed to load 32-bit TWAINDSM.dll: ", e.as_str()),
        LoadFailure::EntryPoint(e) => join("DSM_Entry not found: ", e.as_str()),
    }
}

/// The fault that a manager library that could not be used is.
pub open spec fn load_fault(failed: LoadFailure) -> Option<DeviceFault> {
    match failed {
        LoadFailure::Library(e) => Some(DeviceFault::DsmLoadFailed(e)),
        LoadFailure::EntryPoint(_) => None,
    }
}

/// Whether an entry of the scanner list presents `source`.
pub open spec fn lists(entry: SidecarScannerEntry, source: SourceInfo) -> bool {
    &&& entry.id@ == decimal(source.id as nat)
    &&& entry.name@ == source.name@
    &&& entry.manufacturer@ == source.manufacturer@
}

/// The answer to a list command, once the listing is done.
pub fn handle_list_scanners(listing: SourceListing) -> (r: SidecarResponse)
    ensures
        match listing.phase {
            ListingPhase::Done(Ok(())) => r matches SidecarResponse::ScannerList { scanners }
                && scanners@.len() == listing.sources@.len() && forall|i: int|
                0 <= i < scanners@.len() ==> lists(#[trigger] scanners@[i], listing.sources@[i]),
            ListingPhase::Done(Err(ListingFailure::Load(e))) => complains(r, load_complaint(e)),
            ListingPhase::Done(Err(ListingFailure::Window(e))) => complains(
                r,
                "Failed to create hidden window: "@ + e@,
            ),
            ListingPhase::Done(Err(ListingFailure::Open(reply))) => complains(
                r,
                "Failed to open DSM: rc="@ + decimal(reply.rc as nat),
            ),
            _ => complains(r, out_of_order()),
        },
{
    match listing.phase {
        ListingPhase::Done(Ok(())) => {
            let sources = listing.sources;
            let mut scanners: Vec<SidecarScannerEntry> = Vec::new();
            let mut i: usize = 0;
            while i < sources.len()
                invariant
                    i <= sources@.len(),
                    scanners@.len() == i,
                    forall|j: int| 0 <= j < i ==> lists(#[trigger] scanners@[j], sources@[j]),
                decreases sources.len() - i,
            {
                let source = &sources[i];
                scanners.push(
                    SidecarScannerEntry {
                        id: decimal_string(source.id as u64),
                        name: source.name.clone(),
                        manufacturer: source.manufacturer.clone(),
                    },
                );
                i += 1;
            }
            SidecarResponse::ScannerList { scanners }
        },
        ListingPhase::Done(Err(ListingFailure::Load(e))) => complaint(load_message(&e)),
        ListingPhase::Done(Err(ListingFailure::Window(e))) => complaint(
            join("Failed to create hidden window: ", e.as_str()),
        ),
        ListingPhase::Done(Err(ListingFailure::Open(reply))) => complaint(
            join_decimal("Failed to open DSM: rc=", reply.rc as u64),
        ),
        _ => complaint(TwainError::InvalidState.message()),
    }
}

// ---------------------------------------------------------------------------
// Scanning
// ---------------------------------------------------------------------------
/// The pixel type that a color mode's name stands for; color where it stands
/// for none.
pub open spec fn spec_pixel_type(color_mode: Seq<char>) -> u16 {
    if color_mode == "grayscale"@ {
        TWPT_GRAY
    } else if color_mode == "bw"@ {
        TWPT_BW
    } else {
        TWPT_RGB
    }
}

fn pixel_type(color_mode: &str) -> (r: u16)
    ensures
        r == spec_pixel_type(color_mode@),
{
    if same_text(color_mode, "grayscale") {
        TWPT_GRAY
    } else if same_text(color_mode, "bw") {
        TWPT_BW
    } else {
        TWPT_RGB
    }
}

/// Where a scan stands.
pub enum DriverPhase {
    Load,
    Window,
    OpenDsm,
    /// Looking for the source; whether the first was asked for.
    Find(bool),
    OpenSource(TW_IDENTITY),
    /// Setting capabilities, of which this many are set.
    Configure(Vec<CapabilitySetting>, usize),
    Enable,
    Pump,
    Describe,
    Setup(TW_IMAGEINFO),
    Transfer(PageTransfer, u32),
    EndTransfer,
    /// Between pages.
    CheckCancel,
    /// Cancelled: dropping the pages still pending.
    Reset,
    /// Closing what is open, down from this state of the session, then answering.
    Close(u8, SidecarResponse),
    Done,
}

/// What to do besides the next action.
#[derive(Debug)]
pub enum DriverEffect {
    Nothing,
    Sleep,
    Dispatch,
    Respond(SidecarResponse),
    /// Send this page.
    Page(ScannedPage),
}

/// One scan of the driver process.
pub struct DriverScan {
    job: ScanJob,
    /// Pages begun so far.
    pages: u32,
    phase: DriverPhase,
}

/// How far a session is open in a phase: 3 with the manager open, 4 with a
/// source open in it, 5 with the source enabled.
pub open spec fn open_state(phase: DriverPhase) -> int {
    match phase {
        DriverPhase::Load | DriverPhase::Window | DriverPhase::OpenDsm | DriverPhase::Done => 2,
        DriverPhase::Find(_) | DriverPhase::OpenSource(_) => 3,
        DriverPhase::Configure(_, _) | DriverPhase::Enable => 4,
        DriverPhase::Close(state, _) => state as int,
        _ => 5,
    }
}

/// Whether the scan closes what is open from `state` down, and then complains
/// in these words, of this fault.
pub open spec fn closes_complaining(
    next: DriverPhase,
    effect: DriverEffect,
    state: int,
    words: Seq<char>,
    fault: Option<DeviceFault>,
) -> bool {
    if state <= 2 {
        effect matches DriverEffect::Respond(response) && next == DriverPhase::Done
            && complains_of(response, words, fault)
    } else {
        next matches DriverPhase::Close(from, response) && effect == DriverEffect::Nothing && from
            == state && complains_of(response, words, fault)
    }
}

/// Whether the scan closes what is open from `state` down, and then complains
/// of this error.
pub open spec fn closes_failing(
    next: DriverPhase,
    effect: DriverEffect,
    state: int,
    e: TwainError,
) -> bool {
    closes_complaining(next, effect, state, e.text(), fault_of(e))
}

/// Whether the scan closes everything, and then reports this many pages.
pub open spec fn closes_complete(next: DriverPhase, effect: DriverEffect, pages: u32) -> bool {
    &&& next == DriverPhase::Close(5, SidecarResponse::ScanComplete { total_pages: pages })
    &&& effect == DriverEffect::Nothing
}

/// Whether the scan turns to its next page, the `number`th.
pub open spec fn begins_page(next: DriverPhase, effect: DriverEffect, number: int) -> bool {
    effect matches DriverEffect::Respond(SidecarResponse::ScanProgress { page, status }) && next
        == DriverPhase::Describe && page == number && status@ == "scanning"@
}

/// Where a scan goes from a phase when `event` is what came of its action, and
/// what it does besides. `pages` counts the pages begun before.
pub open spec fn driver_step(
    job: ScanJob,
    pages: u32,
    phase: DriverPhase,
    event: SessionEvent,
    next: DriverPhase,
    effect: DriverEffect,
) -> bool {
    match (phase, event) {
        (DriverPhase::Done, _) => next == DriverPhase::Done && effect == DriverEffect::Nothing,
        (DriverPhase::Load, SessionEvent::Loaded(Ok(()))) => next == DriverPhase::Window && effect
            == DriverEffect::Nothing,
        (DriverPhase::Load, SessionEvent::Loaded(Err(e))) => closes_complaining(
            next,
            effect,
            2,
            load_complaint(e),
            load_fault(e),
        ),
        (DriverPhase::Window, SessionEvent::Window(Ok(_))) => next == DriverPhase::OpenDsm
            && effect == DriverEffect::Nothing,
        (DriverPhase::Window, SessionEvent::Window(Err(e))) => closes_complaining(
            next,
            effect,
            2,
            "Failed to create hidden window: "@ + e@,
            None,
        ),
        (DriverPhase::OpenDsm, SessionEvent::Reply(reply)) => if reply.rc == TWRC_SUCCESS {
            next == DriverPhase::Find(false) && effect == DriverEffect::Nothing
        } else {
            closes_complaining(
                next,
                effect,
                2,
                "Failed to open DSM: rc="@ + decimal(reply.rc as nat),
                fault_of(failure(Operation::OpenDsm, reply)),
            )
        },
        (DriverPhase::Find(_), SessionEvent::Identity { reply, identity }) => if reply.rc
            != TWRC_SUCCESS {
            closes_complaining(next, effect, 3, "Scanner not found: "@ + job.scanner_name@, None)
        } else if field_text(identity.ProductName@) == job.scanner_name@ {
            next == DriverPhase::OpenSource(identity) && effect == DriverEffect::Nothing
        } else {
            next == DriverPhase::Find(true) && effect == DriverEffect::Nothing
        },
        (DriverPhase::OpenSource(_), SessionEvent::Identity { reply, .. }) => if reply.rc
            == TWRC_SUCCESS {
            next matches DriverPhase::Configure(plan, set) && effect == DriverEffect::Nothing
                && set == 0 && plan@ == capability_plan(
                spec_pixel_type(job.color_mode@),
                job.resolution,
                job.duplex,
                job.use_adf,
            )
        } else {
            closes_complaining(
                next,
                effect,
                3,
                "Failed to open scanner: rc="@ + decimal(reply.rc as nat),
                fault_of(failure(Operation::OpenSource, reply)),
            )
        },
        (DriverPhase::Configure(plan, set), SessionEvent::Reply(reply)) => if is_requested(
            plan@[set as int].cap,
        ) && is_rejection(reply) {
            closes_failing(
                next,
                effect,
                4,
                TwainError::CapabilityNotSupported(plan@[set as int].cap),
            )
        } else {
            &&& effect == DriverEffect::Nothing
            &&& next == (if set + 1 < plan@.len() {
                DriverPhase::Configure(plan, (set + 1) as usize)
            } else {
                DriverPhase::Enable
            })
        },
        (DriverPhase::Enable, SessionEvent::Reply(reply)) => if reply.rc == TWRC_SUCCESS {
            next == DriverPhase::Pump && effect == DriverEffect::Nothing
        } else {
            closes_complaining(
                next,
                effect,
                4,
                "Failed to enable scanner: rc="@ + decimal(reply.rc as nat),
                fault_of(failure(Operation::EnableSource, reply)),
            )
        },
        (DriverPhase::Pump, SessionEvent::Pumped(pumped)) => match spec_pump_step(pumped) {
            PumpStep::Ready => begins_page(next, effect, pages + 1),
            PumpStep::Disable => closes_complete(next, effect, pages),
            PumpStep::Sleep => next == DriverPhase::Pump && effect == DriverEffect::Sleep,
            PumpStep::Dispatch => next == DriverPhase::Pump && effect == DriverEffect::Dispatch,
            PumpStep::Again => next == DriverPhase::Pump && effect == DriverEffect::Nothing,
        },
        (DriverPhase::Describe, SessionEvent::Info { reply, info }) => if reply.rc
            == TWRC_SUCCESS {
            next == DriverPhase::Setup(info) && effect == DriverEffect::Nothing
        } else {
            closes_failing(next, effect, 5, failure(Operation::ImageInfo, reply))
        },
        (DriverPhase::Setup(info), SessionEvent::Setup { reply, setup }) => if reply.rc
            == TWRC_SUCCESS {
            next matches DriverPhase::Transfer(transfer, len) && effect == DriverEffect::Nothing
                && transfer.spec_info() == info && transfer.stride() == 0
                && transfer.collected().len() == 0 && len == setup.Preferred
        } else {
            closes_failing(next, effect, 5, failure(Operation::TransferSetup, reply))
        },
        (
            DriverPhase::Transfer(transfer, len),
            SessionEvent::Strip { reply, bytes_per_row, bytes_written, buffer },
        ) => if !strip_delivered(reply.rc) {
            closes_failing(next, effect, 5, failure(Operation::MemoryTransfer, reply))
        } else {
            exists|more: PageTransfer|
                #![trigger more.spec_info()]
            {
                &&& more.spec_info() == transfer.spec_info()
                &&& more.stride() == bytes_per_row
                &&& more.collected() == transfer.collected() + buffer@.take(bytes_written as int)
                &&& if reply.rc == TWRC_SUCCESS {
                    next == DriverPhase::Transfer(more, len) && effect == DriverEffect::Nothing
                } else {
                    effect matches DriverEffect::Page(page) && next == DriverPhase::EndTransfer
                        && is_page(page, more, pages)
                }
            }
        },
        (DriverPhase::EndTransfer, SessionEvent::Pending { reply, pending }) => if reply.rc
            == TWRC_SUCCESS && pending.Count != 0 {
            next == DriverPhase::CheckCancel && effect == DriverEffect::Nothing
        } else {
            closes_complete(next, effect, pages)
        },
        (DriverPhase::CheckCancel, SessionEvent::Cancel(cancelled)) => if cancelled {
            next == DriverPhase::Reset && effect == DriverEffect::Nothing
        } else {
            begins_page(next, effect, pages + 1)
        },
        (DriverPhase::Reset, SessionEvent::Reply(_)) => closes_complete(next, effect, pages),
        (DriverPhase::Close(state, response), SessionEvent::Reply(_)) => if state > 3 {
            next == DriverPhase::Close((state - 1) as u8, response) && effect
                == DriverEffect::Nothing
        } else {
            next == DriverPhase::Done && effect == DriverEffect::Respond(response)
        },
        (DriverPhase::Close(state, response), _) => next == DriverPhase::Close(state, response)
            && effect == DriverEffect::Nothing,
        _ => closes_complaining(next, effect, open_state(phase), out_of_order(), None),
    }
}

/// Whether `page` is what `transfer` collected, under its number.
pub open spec fn is_page(page: ScannedPage, transfer: PageTransfer, number: u32) -> bool {
    page.page_number == number && page_of((ScannedPage { page_number: 0, ..page }), transfer)
}

/// The next phase and effect of a scan that is open this far and complains.
fn close_complaining(state: u8, message: String, fault: Option<DeviceFault>) -> (r: (
    DriverPhase,
    DriverEffect,
))
    ensures
        closes_complaining(r.0, r.1, state as int, message@, fault),
{
    let response = SidecarResponse::Error { message, fault };
    if state <= 2 {
        (DriverPhase::Done, DriverEffect::Respond(response))
    } else {
        (DriverPhase::Close(state, response), DriverEffect::Nothing)
    }
}

/// The next phase and effect of a scan that is open this far and fails.
fn close_failing(state: u8, e: TwainError) -> (r: (DriverPhase, DriverEffect))
    ensures
        closes_failing(r.0, r.1, state as int, e),
{
    let message = e.message();
    close_complaining(state, message, device_fault(e))
}

impl DriverScan {
    pub closed spec fn spec_job(self) -> ScanJob {
        self.job
    }

    pub closed spec fn spec_pages(self) -> u32 {
        self.pages
    }

    pub closed spec fn spec_phase(self) -> DriverPhase {
        self.phase
    }

    /// What remains to be done in a phase is never empty, and the answer that is
    /// held back until everything is closed ends the scan.
    pub open spec fn wf(self) -> bool {
        match self.spec_phase() {
            DriverPhase::Configure(plan, set) => set < plan@.len(),
            DriverPhase::Close(state, response) => 3 <= state <= 5 && is_terminal(response) && (
            response matches SidecarResponse::ScanComplete { total_pages } ==> total_pages
                == self.spec_pages()),
            _ => true,
        }
    }

    pub fn new(job: ScanJob) -> (s: DriverScan)
        ensures
            s.wf(),
            s.spec_job() == job,
            s.spec_pages() == 0,
            s.spec_phase() == DriverPhase::Load,
    {
        DriverScan { job, pages: 0, phase: DriverPhase::Load }
    }

    /// Pages begun so far.
    pub fn pages(&self) -> (n: u32)
        ensures
            n == self.spec_pages(),
    {
        self.pages
    }

    pub open spec fn spec_action(self) -> SessionAction {
        match self.spec_phase() {
            DriverPhase::Load => SessionAction::LoadDsm,
            DriverPhase::Window => SessionAction::CreateWindow,
            DriverPhase::OpenDsm => SessionAction::Call(Operation::OpenDsm),
            DriverPhase::Find(started) => SessionAction::Call(
                if started {
                    Operation::NextSource
                } else {
                    Operation::FirstSource
                },
            ),
            DriverPhase::OpenSource(identity) => SessionAction::OpenSource(identity),
            DriverPhase::Configure(plan, set) => SessionAction::SetCapability(plan@[set as int]),
            DriverPhase::Enable => SessionAction::Enable { show_ui: self.spec_job().show_ui },
            DriverPhase::Pump => SessionAction::Pump,
            DriverPhase::Describe => SessionAction::Call(Operation::ImageInfo),
            DriverPhase::Setup(_) => SessionAction::Call(Operation::TransferSetup),
            DriverPhase::Transfer(_, buffer_len) => SessionAction::Transfer { buffer_len },
            DriverPhase::EndTransfer => SessionAction::Call(Operation::EndTransfer),
            DriverPhase::CheckCancel => SessionAction::CheckCancel,
            DriverPhase::Reset => SessionAction::Call(Operation::ResetTransfers),
            DriverPhase::Close(state, _) => SessionAction::Call(teardown_from(state as int)[0]),
            DriverPhase::Done => SessionAction::Finished,
        }
    }

    /// What to do next.
    pub fn action(&self) -> (r: SessionAction)
        requires
            self.wf(),
        ensures
            r == self.spec_action(),
    {
        match &self.phase {
            DriverPhase::Load => SessionAction::LoadDsm,
            DriverPhase::Window => SessionAction::CreateWindow,
            DriverPhase::OpenDsm => SessionAction::Call(Operation::OpenDsm),
            DriverPhase::Find(started) => SessionAction::Call(
                if *started {
                    Operation::NextSource
                } else {
                    Operation::FirstSource
                },
            ),
            DriverPhase::OpenSource(identity) => SessionAction::OpenSource(*identity),
            DriverPhase::Configure(plan, set) => SessionAction::SetCapability(plan[*set]),
            DriverPhase::Enable => SessionAction::Enable { show_ui: self.job.show_ui },
            DriverPhase::Pump => SessionAction::Pump,
            DriverPhase::Describe => SessionAction::Call(Operation::ImageInfo),
            DriverPhase::Setup(_) => SessionAction::Call(Operation::TransferSetup),
            DriverPhase::Transfer(_, buffer_len) => SessionAction::Transfer {
                buffer_len: *buffer_len,
            },
            DriverPhase::EndTransfer => SessionAction::Call(Operation::EndTransfer),
            DriverPhase::CheckCancel => SessionAction::CheckCancel,
            DriverPhase::Reset => SessionAction::Call(Operation::ResetTransfers),
            DriverPhase::Close(state, _) => SessionAction::Call(
                if *state == 5 {
                    Operation::DisableSource
                } else if *state == 4 {
                    Operation::CloseSource
                } else {
                    Operation::CloseDsm
                },
            ),
            DriverPhase::Done => SessionAction::Finished,
        }
    }

    /// Take in what came of the action.
    pub fn advance(self, event: SessionEvent) -> (r: (DriverScan, DriverEffect))
        requires
            self.wf(),
            event.in_bounds(),
            self.spec_pages() < u32::MAX,
        ensures
            advances(self, event, r.0, r.1),
    {
        let DriverScan { job, pages, phase } = self;
        let state: u8 = match &phase {
            DriverPhase::Load | DriverPhase::Window | DriverPhase::OpenDsm | DriverPhase::Done => 2,
            DriverPhase::Find(_) | DriverPhase::OpenSource(_) => 3,
            DriverPhase::Configure(_, _) | DriverPhase::Enable => 4,
            DriverPhase::Close(state, _) => *state,
            _ => 5,
        };
        let complete = DriverPhase::Close(5, SidecarResponse::ScanComplete { total_pages: pages });
        let begun = SidecarResponse::ScanProgress {
            page: pages + 1,
            status: "scanning".to_owned(),
        };
        let mut next_pages = pages;
        let (next, effect): (DriverPhase, DriverEffect) = match (phase, event) {
            (DriverPhase::Done, _) => (DriverPhase::Done, DriverEffect::Nothing),
            (DriverPhase::Load, SessionEvent::Loaded(Ok(()))) => (
                DriverPhase::Window,
                DriverEffect::Nothing,
            ),
            (DriverPhase::Load, SessionEvent::Loaded(Err(failed))) => {
                let message = load_message(&failed);
                let fault = match failed {
                    LoadFailure::Library(e) => Some(DeviceFault::DsmLoadFailed(e)),
                    LoadFailure::EntryPoint(_) => None,
                };
                close_complaining(2, message, fault)
            },
            (DriverPhase::Window, SessionEvent::Window(Ok(_))) => (
                DriverPhase::OpenDsm,
                DriverEffect::Nothing,
            ),
            (DriverPhase::Window, SessionEvent::Window(Err(e))) => close_complaining(
                2,
                join("Failed to create hidden window: ", e.as_str()),
                None,
            ),
            (DriverPhase::OpenDsm, SessionEvent::Reply(reply)) => if reply.rc == TWRC_SUCCESS {
                (DriverPhase::Find(false), DriverEffect::Nothing)
            } else {
                close_complaining(
                    2,
                    join_decimal("Failed to open DSM: rc=", reply.rc as u64),
                    device_fault(failed_call(Operation::OpenDsm, reply)),
                )
            },
            (DriverPhase::Find(_), SessionEvent::Identity { reply, identity }) => if reply.rc
                != TWRC_SUCCESS {
                close_complaining(
                    3,
                    join("Scanner not found: ", job.scanner_name.as_str()),
                    None,
                )
            } else {
                let name = tw_str32_to_string(&identity.ProductName);
                if same_text(name.as_str(), job.scanner_name.as_str()) {
                    (DriverPhase::OpenSource(identity), DriverEffect::Nothing)
                } else {
                    (DriverPhase::Find(true), DriverEffect::Nothing)
                }
            },
            (DriverPhase::OpenSource(_), SessionEvent::Identity { reply, .. }) => if reply.rc
                == TWRC_SUCCESS {
                let plan = scan_capabilities(
                    pixel_type(job.color_mode.as_str()),
                    job.resolution,
                    job.duplex,
                    job.use_adf,
                );
                (DriverPhase::Configure(plan, 0), DriverEffect::Nothing)
            } else {
                close_complaining(
                    3,
                    join_decimal("Failed to open scanner: rc=", reply.rc as u64),
                    device_fault(failed_call(Operation::OpenSource, reply)),
                )
            },
            (DriverPhase::Configure(plan, set), SessionEvent::Reply(reply)) => {
                match check_capability(&plan[set], reply) {
                    Ok(()) => if set < plan.len() - 1 {
                        (DriverPhase::Configure(plan, set + 1), DriverEffect::Nothing)
                    } else {
                        (DriverPhase::Enable, DriverEffect::Nothing)
                    },
                    Err(e) => close_failing(4, e),
                }
            },
            (DriverPhase::Enable, SessionEvent::Reply(reply)) => if reply.rc == TWRC_SUCCESS {
                (DriverPhase::Pump, DriverEffect::Nothing)
            } else {
                close_complaining(
                    4,
                    join_decimal("Failed to enable scanner: rc=", reply.rc as u64),
                    device_fault(failed_call(Operation::EnableSource, reply)),
                )
            },
            (DriverPhase::Pump, SessionEvent::Pumped(pumped)) => match pump_step(pumped) {
                PumpStep::Ready => {
                    next_pages = pages + 1;
                    (DriverPhase::Describe, DriverEffect::Respond(begun))
                },
                PumpStep::Disable => (complete, DriverEffect::Nothing),
                PumpStep::Sleep => (DriverPhase::Pump, DriverEffect::Sleep),
                PumpStep::Dispatch => (DriverPhase::Pump, DriverEffect::Dispatch),
                PumpStep::Again => (DriverPhase::Pump, DriverEffect::Nothing),
            },
            (DriverPhase::Describe, SessionEvent::Info { reply, info }) => if reply.rc
                == TWRC_SUCCESS {
                (DriverPhase::Setup(info), DriverEffect::Nothing)
            } else {
                close_failing(5, failed_call(Operation::ImageInfo, reply))
            },
            (DriverPhase::Setup(info), SessionEvent::Setup { reply, setup }) => if reply.rc
                == TWRC_SUCCESS {
                (
                    DriverPhase::Transfer(PageTransfer::begin(info), setup.Preferred),
                    DriverEffect::Nothing,
                )
            } else {
                close_failing(5, failed_call(Operation::TransferSetup, reply))
            },
            (
                DriverPhase::Transfer(transfer, len),
                SessionEvent::Strip { reply, bytes_per_row, bytes_written, buffer },
            ) => {
                let mut more = transfer;
                match more.strip(reply, bytes_per_row, bytes_written, &buffer) {
                    Ok(true) => {
                        let mut page = more.page();
                        page.page_number = pages;
                        (DriverPhase::EndTransfer, DriverEffect::Page(page))
                    },
                    Ok(false) => (DriverPhase::Transfer(more, len), DriverEffect::Nothing),
                    Err(e) => close_failing(5, e),
                }
            },
            (DriverPhase::EndTransfer, SessionEvent::Pending { reply, pending }) => if reply.rc
                == TWRC_SUCCESS && pending.Count != 0 {
                (DriverPhase::CheckCancel, DriverEffect::Nothing)
            } else {
                (complete, DriverEffect::Nothing)
            },
            (DriverPhase::CheckCancel, SessionEvent::Cancel(cancelled)) => if cancelled {
                (DriverPhase::Reset, DriverEffect::Nothing)
            } else {
                next_pages = pages + 1;
                (DriverPhase::Describe, DriverEffect::Respond(begun))
            },
            (DriverPhase::Reset, SessionEvent::Reply(_)) => (complete, DriverEffect::Nothing),
            (DriverPhase::Close(state, response), SessionEvent::Reply(_)) => if state > 3 {
                (DriverPhase::Close(state - 1, response), DriverEffect::Nothing)
            } else {
                (DriverPhase::Done, DriverEffect::Respond(response))
            },
            (DriverPhase::Close(state, response), _) => (
                DriverPhase::Close(state, response),
                DriverEffect::Nothing,
            ),
            _ => close_complaining(state, TwainError::InvalidState.message(), None),
        };
        (DriverScan { job, pages: next_pages, phase: next }, effect)
    }
}

/// Whether an effect announces a page.
pub open spec fn is_progress(effect: DriverEffect) -> bool {
    effect matches DriverEffect::Respond(SidecarResponse::ScanProgress { .. })
}

/// Whether a scan becomes `after`, and does `effect` besides, when `event` is what
/// came of its action.
pub open spec fn advances(
    scan: DriverScan,
    event: SessionEvent,
    after: DriverScan,
    effect: DriverEffect,
) -> bool {
    &&& scan.wf()
    &&& after.wf()
    &&& after.spec_job() == scan.spec_job()
    &&& driver_step(
        scan.spec_job(),
        scan.spec_pages(),
        scan.spec_phase(),
        event,
        after.spec_phase(),
        effect,
    )
    &&& after.spec_pages() == scan.spec_pages() + (if is_progress(effect) {
        1int
    } else {
        0
    })
}

/// Whether a response carries `page`, its bytes in base64.
pub open spec fn carries(response: SidecarResponse, page: ScannedPage) -> bool {
    response matches SidecarResponse::ScanPage {
        page: number,
        width,
        height,
        bits_per_pixel,
        bytes_per_row,
        data,
    } && number == page.page_number && width == page.width && height == page.height
        && bits_per_pixel == page.bits_per_pixel && bytes_per_row == page.bytes_per_row && data@
        == base64_text(page.data@) && base64_bytes(data@) == Ok::<Seq<u8>, Seq<char>>(page.data@)
}

/// The response that sends a page. A page beyond the admitted size could not be
/// held in memory together with its base64 text.
pub fn page_response(page: ScannedPage) -> (r: SidecarResponse)
    requires
        page.data@.len() <= usize::MAX / 8 * 3,
    ensures
        carries(r, page),
{
    SidecarResponse::ScanPage {
        page: page.page_number,
        width: page.width,
        height: page.height,
        bits_per_pixel: page.bits_per_pixel,
        bytes_per_row: page.bytes_per_row,
        data: base64_encode(&page.data),
    }
}

// ---------------------------------------------------------------------------
// Laws
// ---------------------------------------------------------------------------
/// How far the session is open after an action that `event` came of, where it
/// was open as far as `state` before. What is closed counts as closed whatever
/// the manager replies.
pub open spec fn open_after(state: int, action: SessionAction, event: SessionEvent) -> int {
    match (action, event) {
        (SessionAction::Call(Operation::OpenDsm), SessionEvent::Reply(reply)) => if reply.rc
            == TWRC_SUCCESS {
            3
        } else {
            state
        },
        (SessionAction::OpenSource(_), SessionEvent::Identity { reply, .. }) => if reply.rc
            == TWRC_SUCCESS {
            4
        } else {
            state
        },
        (SessionAction::Enable { .. }, SessionEvent::Reply(reply)) => if reply.rc == TWRC_SUCCESS {
            5
        } else {
            state
        },
        (SessionAction::Call(Operation::DisableSource), SessionEvent::Reply(_)) => 4,
        (SessionAction::Call(Operation::CloseSource), SessionEvent::Reply(_)) => 3,
        (SessionAction::Call(Operation::CloseDsm), SessionEvent::Reply(_)) => 2,
        _ => state,
    }
}

/// Law: a scan keeps account of what it has open, and closes all of it, innermost
/// first, before it is done, whatever the manager replies.
pub proof fn law_scan_closes_what_it_opened(
    scan: DriverScan,
    event: SessionEvent,
    next: DriverPhase,
    effect: DriverEffect,
)
    requires
        scan.wf(),
        driver_step(scan.spec_job(), scan.spec_pages(), scan.spec_phase(), event, next, effect),
    ensures
        open_state(next) == open_after(open_state(scan.spec_phase()), scan.spec_action(), event),
        next is Done ==> open_state(next) == 2,
{
}

/// Whether an effect is a response that ends the scan.
pub open spec fn is_answer(effect: DriverEffect) -> bool {
    effect matches DriverEffect::Respond(response) && is_terminal(response)
}

/// Law: a scan answers with a response that ends it exactly as it becomes done.
pub proof fn law_scan_ends_with_its_answer(
    scan: DriverScan,
    event: SessionEvent,
    next: DriverPhase,
    effect: DriverEffect,
)
    requires
        scan.wf(),
        driver_step(scan.spec_job(), scan.spec_pages(), scan.spec_phase(), event, next, effect),
    ensures
        is_answer(effect) <==> next is Done && !(scan.spec_phase() is Done),
        scan.spec_phase() is Done ==> next is Done && effect == DriverEffect::Nothing,
{
}

/// Law: pages are announced and sent under consecutive numbers, from one on, and
/// the number of pages reported at the end is that of the pages announced.
pub proof fn law_scan_numbers_pages(
    scan: DriverScan,
    event: SessionEvent,
    next: DriverPhase,
    effect: DriverEffect,
)
    requires
        scan.wf(),
        driver_step(scan.spec_job(), scan.spec_pages(), scan.spec_phase(), event, next, effect),
    ensures
        effect matches DriverEffect::Respond(SidecarResponse::ScanProgress { page, .. }) ==> page
            == scan.spec_pages() + 1,
        effect matches DriverEffect::Page(page) ==> page.page_number == scan.spec_pages(),
        effect matches DriverEffect::Respond(SidecarResponse::ScanComplete { total_pages })
            ==> total_pages == scan.spec_pages(),
{
}

/// Whether a scan for `job` went this way: `events` is what came of its actions,
/// and `effects` what it did besides.
pub open spec fn is_scanned(
    scans: Seq<DriverScan>,
    events: Seq<SessionEvent>,
    effects: Seq<DriverEffect>,
    job: ScanJob,
) -> bool {
    &&& scans.len() == events.len() + 1
    &&& effects.len() == events.len()
    &&& scans[0].wf()
    &&& scans[0].spec_job() == job
    &&& scans[0].spec_pages() == 0
    &&& scans[0].spec_phase() == DriverPhase::Load
    &&& forall|i: int|
        0 <= i < events.len() ==> advances(
            scans[i],
            #[trigger] events[i],
            scans[i + 1],
            effects[i],
        )
}

/// How many of the effects end a scan.
pub open spec fn answers(effects: Seq<DriverEffect>) -> nat
    decreases effects.len(),
{
    if effects.len() == 0 {
        0
    } else {
        answers(effects.drop_last()) + (if is_answer(effects.last()) {
            1nat
        } else {
            0
        })
    }
}

/// How many pages the effects announce.
pub open spec fn announced(effects: Seq<DriverEffect>) -> nat
    decreases effects.len(),
{
    if effects.len() == 0 {
        0
    } else {
        announced(effects.drop_last()) + (if is_progress(effects.last()) {
            1nat
        } else {
            0
        })
    }
}

/// Law: a scan that is done has answered with exactly one response that ends it,
/// and one that is not has answered with none; a scan that is done stays so, and
/// answers nothing more.
pub proof fn law_scan_answers_once(
    scans: Seq<DriverScan>,
    events: Seq<SessionEvent>,
    effects: Seq<DriverEffect>,
    job: ScanJob,
    n: int,
)
    requires
        is_scanned(scans, events, effects, job),
        0 <= n <= events.len(),
    ensures
        answers(effects.take(n)) == (if scans[n].spec_phase() is Done {
            1int
        } else {
            0
        }),
        scans[n].spec_phase() is Done && n < events.len() ==> effects[n] == DriverEffect::Nothing
            && scans[n + 1].spec_phase() is Done,
    decreases n,
{
    if n < events.len() {
        assert(advances(scans[n], events[n], scans[n + 1], effects[n]));
    }
    if n == 0 {
        assert(effects.take(0).len() == 0);
    } else {
        law_scan_answers_once(scans, events, effects, job, n - 1);
        assert(advances(scans[n - 1], events[n - 1], scans[n - 1 + 1], effects[n - 1]));
        law_scan_ends_with_its_answer(
            scans[n - 1],
            events[n - 1],
            scans[n].spec_phase(),
            effects[n - 1],
        );
        assert(effects.take(n).drop_last() =~= effects.take(n - 1));
        assert(effects.take(n).last() == effects[n - 1]);
    }
}

/// Law: the pages of a scan are announced as its first, its second and so on; a
/// page is sent under the number last announced; and the number of pages reported
/// at the end is that of the pages announced.
pub proof fn law_scan_counts_its_pages(
    scans: Seq<DriverScan>,
    events: Seq<SessionEvent>,
    effects: Seq<DriverEffect>,
    job: ScanJob,
    n: int,
)
    requires
        is_scanned(scans, events, effects, job),
        0 <= n < events.len(),
    ensures
        scans[n].spec_pages() == announced(effects.take(n)),
        match effects[n] {
            DriverEffect::Respond(SidecarResponse::ScanProgress { page, .. }) => page == announced(
                effects.take(n),
            ) + 1,
            DriverEffect::Respond(SidecarResponse::ScanComplete { total_pages }) => total_pages
                == announced(effects.take(n)),
            DriverEffect::Page(page) => page.page_number == announced(effects.take(n)),
            _ => true,
        },
    decreases n,
{
    assert(advances(scans[n], events[n], scans[n + 1], effects[n]));
    law_scan_numbers_pages(scans[n], events[n], scans[n + 1].spec_phase(), effects[n]);
    if n == 0 {
        assert(effects.take(0).len() == 0);
    } else {
        law_scan_counts_its_pages(scans, events, effects, job, n - 1);
        assert(advances(scans[n - 1], events[n - 1], scans[n - 1 + 1], effects[n - 1]));
        assert(effects.take(n).drop_last() =~= effects.take(n - 1));
        assert(effects.take(n).last() == effects[n - 1]);
    }
}

/// Law: scanning natively and scanning through the driver process negotiate the
/// same capabilities for the same request.
pub proof fn law_capability_parity(mode: ColorMode, resolution: u32, duplex: bool, use_adf: bool)
    ensures
        capability_plan(mode.pixel_type(), resolution, duplex, use_adf) == capability_plan(
            spec_pixel_type(mode.spec_name()),
            resolution,
            duplex,
            use_adf,
        ),
{
    reveal_strlit("color");
    reveal_strlit("grayscale");
    reveal_strlit("bw");
    assert("color"@.len() == 5 && "grayscale"@.len() == 9 && "bw"@.len() == 2);
}

/// Law: the agent receives the bytes of a page as the driver process scanned them.
pub proof fn law_page_bytes_arrive(
    page: ScannedPage,
    response: SidecarResponse,
    resolution: u32,
    next: RelayPhase,
    received: Option<PageData>,
)
    requires
        carries(response, page),
        relay_step(
            RelayPhase::Read,
            RelayEvent::Response(Ok(response)),
            resolution,
            next,
            received,
        ),
    ensures
        next == RelayPhase::CheckCancel,
        received matches Some(data) && is_relayed(
            data,
            page.page_number,
            page.width,
            page.height,
            page.bits_per_pixel,
            page.bytes_per_row,
            resolution,
            page.data@,
        ),
{
}

/// What a scan has to have done to be where it is.
#[verifier::rlimit(50)]
proof fn lemma_scanned(
    scans: Seq<DriverScan>,
    events: Seq<SessionEvent>,
    effects: Seq<DriverEffect>,
    job: ScanJob,
    n: int,
)
    requires
        is_scanned(scans, events, effects, job),
        0 <= n <= events.len(),
    ensures
        scans[n].spec_job() == job,
        ({
            let wanted = capability_plan(
                spec_pixel_type(job.color_mode@),
                job.resolution,
                job.duplex,
                job.use_adf,
            );
            match scans[n].spec_phase() {
                DriverPhase::Configure(plan, set) => {
                    &&& plan@ == wanted
                    &&& set < wanted.len()
                    &&& set <= n
                    &&& forall|k: int|
                        n - set <= k <= n ==> (#[trigger] scans[k]).spec_action()
                            == SessionAction::SetCapability(wanted[k - (n - set)])
                },
                DriverPhase::Enable => {
                    &&& wanted.len() <= n
                    &&& forall|k: int|
                        n - wanted.len() <= k < n ==> (#[trigger] scans[k]).spec_action()
                            == SessionAction::SetCapability(wanted[k - (n - wanted.len())])
                },
                DriverPhase::Setup(info) => described(events.take(n)) == Some(info),
                DriverPhase::Transfer(transfer, _) => {
                    &&& described(events.take(n)) == Some(transfer.spec_info())
                    &&& transfer.collected() == strips(events.take(n))
                    &&& transfer.stride() == last_stride(events.take(n))
                },
                _ => true,
            }
        }),
    decreases n,
{
    if n > 0 {
        lemma_scanned(scans, events, effects, job, n - 1);
        assert(advances(scans[n - 1], events[n - 1], scans[n - 1 + 1], effects[n - 1]));
        assert(events.take(n).drop_last() =~= events.take(n - 1));
        assert(events.take(n).last() == events[n - 1]);
        if let DriverPhase::Transfer(transfer, _) = scans[n].spec_phase() {
            if scans[n - 1].spec_phase() is Setup {
                assert(transfer.collected() =~= strips(events.take(n)));
            }
        }
    }
}

/// Law: a page is sent as the source described and transferred it: with the size, depth
/// and resolutions of its description, the stride of its last strip, and the bytes of all
/// its strips, in order; and it is sent as its last strip comes in.
pub proof fn law_pages_are_their_strips(
    scans: Seq<DriverScan>,
    events: Seq<SessionEvent>,
    effects: Seq<DriverEffect>,
    job: ScanJob,
    n: int,
)
    requires
        is_scanned(scans, events, effects, job),
        0 <= n < events.len(),
    ensures
        effects[n] matches DriverEffect::Page(page) ==> {
            &&& described(events.take(n)) matches Some(info) && page.width
                == info.ImageWidth as u32 && page.height == info.ImageLength as u32
                && page.bits_per_pixel == info.BitsPerPixel as u16 && page.x_resolution
                == info.XResolution && page.y_resolution == info.YResolution
            &&& page.bytes_per_row == last_stride(events.take(n + 1))
            &&& page.data@ == strips(events.take(n + 1))
        },
        scans[n].spec_phase() is Transfer ==> (events[n] matches SessionEvent::Strip { reply, .. }
            ==> (effects[n] is Page <==> reply.rc == 6)),
        effects[n] is Page ==> scans[n].spec_phase() is Transfer && events[n] is Strip
            && scans[n + 1].spec_phase() is EndTransfer,
{
    lemma_scanned(scans, events, effects, job, n);
    assert(advances(scans[n], events[n], scans[n + 1], effects[n]));
    assert(events.take(n + 1).drop_last() =~= events.take(n));
    assert(events.take(n + 1).last() == events[n]);
}

/// Law: before it is enabled, a source is sent every setting that the job asks for, one
/// after the other and none of them twice, right before.
pub proof fn law_settings_are_all_sent(
    scans: Seq<DriverScan>,
    events: Seq<SessionEvent>,
    effects: Seq<DriverEffect>,
    job: ScanJob,
    n: int,
    k: int,
)
    requires
        is_scanned(scans, events, effects, job),
        0 <= n <= events.len(),
        scans[n].spec_phase() is Enable,
        0 <= k < capability_plan(
            spec_pixel_type(job.color_mode@),
            job.resolution,
            job.duplex,
            job.use_adf,
        ).len(),
    ensures
        ({
            let wanted = capability_plan(
                spec_pixel_type(job.color_mode@),
                job.resolution,
                job.duplex,
                job.use_adf,
            );
            &&& wanted.len() <= n
            &&& scans[n - wanted.len() + k].spec_action() == SessionAction::SetCapability(wanted[k])
            &&& scans[n].spec_action() == (SessionAction::Enable { show_ui: job.show_ui })
        }),
{
    lemma_scanned(scans, events, effects, job, n);
}

/// Law: gray pixels and black-and-white ones are asked for under their names, and color
/// under any other.
pub proof fn law_color_modes_by_name(color_mode: Seq<char>)
    ensures
        spec_pixel_type("grayscale"@) == 1,
        spec_pixel_type("bw"@) == 0,
        color_mode != "grayscale"@ && color_mode != "bw"@ ==> spec_pixel_type(color_mode) == 2,
{
    reveal_strlit("grayscale");
    reveal_strlit("bw");
    assert("grayscale"@.len() == 9 && "bw"@.len() == 2);
}

/// Law: the source that is opened is the first that the manager names as asked for; where
/// the manager names no more, that is the answer.
pub proof fn law_driver_opens_the_source_named(
    scan: DriverScan,
    reply: DsmReply,
    identity: TW_IDENTITY,
    after: DriverScan,
    effect: DriverEffect,
)
    requires
        advances(scan, SessionEvent::Identity { reply, identity }, after, effect),
        scan.spec_phase() is Find,
    ensures
        reply.rc == 0 && field_text(identity.ProductName@) == scan.spec_job().scanner_name@
            ==> after.spec_phase() == DriverPhase::OpenSource(identity),
        reply.rc == 0 && field_text(identity.ProductName@) != scan.spec_job().scanner_name@
            ==> after.spec_phase() == DriverPhase::Find(true),
        reply.rc != 0 ==> (after.spec_phase() matches DriverPhase::Close(
            3,
            SidecarResponse::Error { message, .. },
        ) && message@ == "Scanner not found: "@ + scan.spec_job().scanner_name@),
{
}

/// Law: a scan does one thing after the other, as long as each succeeds: it loads the
/// manager, opens it and the source, configures and enables that, and waits; of every page
/// it asks for the description, the setup and the strips, and ends the transfer; after the
/// last, or where it is cancelled or the source asks for it, it closes everything, and
/// reports its pages.
pub proof fn law_driver_goes_on(
    scan: DriverScan,
    event: SessionEvent,
    after: DriverScan,
    effect: DriverEffect,
)
    requires
        advances(scan, event, after, effect),
        scan.spec_pages() < u32::MAX,
    ensures
        ({
            let (phase, next) = (scan.spec_phase(), after.spec_phase());
            let done = DriverPhase::Close(
                5,
                SidecarResponse::ScanComplete { total_pages: scan.spec_pages() },
            );
            &&& phase is Load && (event matches SessionEvent::Loaded(Ok(()))) ==> next is Window
            &&& phase is Window && (event matches SessionEvent::Window(Ok(_))) ==> next is OpenDsm
            &&& phase is OpenDsm && (event matches SessionEvent::Reply(reply) && reply.rc == 0)
                ==> next == DriverPhase::Find(false)
            &&& phase is OpenSource && (event matches SessionEvent::Identity { reply, .. }
                && reply.rc == 0) ==> next is Configure
            &&& phase is Enable && (event matches SessionEvent::Reply(reply) && reply.rc == 0)
                ==> next is Pump
            &&& phase is Pump && event == SessionEvent::Pumped(
                PumpEvent::Processed { rc: 4, message: 0x0101 },
            ) ==> next is Describe && is_progress(effect)
            &&& phase is Pump && event == SessionEvent::Pumped(PumpEvent::Cancelled) ==> next
                == done
            &&& phase is Describe && (event matches SessionEvent::Info { reply, .. } && reply.rc
                == 0) ==> next is Setup
            &&& phase is Setup && (event matches SessionEvent::Setup { reply, .. } && reply.rc == 0)
                ==> (next matches DriverPhase::Transfer(_, len) && event->setup.Preferred == len)
            &&& phase is Transfer && (event matches SessionEvent::Strip { reply, .. } && reply.rc
                == 0) ==> next is Transfer
            &&& phase is EndTransfer && (event matches SessionEvent::Pending { reply, pending }
                && reply.rc == 0 && pending.Count != 0) ==> next is CheckCancel
            &&& phase is EndTransfer && (event matches SessionEvent::Pending { reply, pending } && (
            reply.rc != 0 || pending.Count == 0)) ==> next == done
            &&& phase is CheckCancel && event == SessionEvent::Cancel(false) ==> next is Describe
                && is_progress(effect)
            &&& phase is CheckCancel && event == SessionEvent::Cancel(true) ==> next is Reset
            &&& phase is Reset && event is Reply ==> next == done
            &&& is_progress(effect) ==> (effect matches DriverEffect::Respond(
                SidecarResponse::ScanProgress { status, .. },
            ) && status@ == "scanning"@)
        }),
{
}

/// Law: an operation that the manager does not carry out ends the scan in a complaint: of
/// the reply's code, where it came before there were pages, and in the words of the error
/// that it stands for, where a page was under way; of the fault that the error is.
pub proof fn law_driver_fails_as_replied(
    scan: DriverScan,
    event: SessionEvent,
    after: DriverScan,
    effect: DriverEffect,
    reply: DsmReply,
)
    requires
        advances(scan, event, after, effect),
        reply.rc != 0,
    ensures
        scan.spec_phase() is OpenDsm && event == SessionEvent::Reply(reply) ==> (
        effect matches DriverEffect::Respond(SidecarResponse::Error { message, fault }) && message@
            == "Failed to open DSM: rc="@ + decimal(reply.rc as nat) && fault == fault_of(
            failure(Operation::OpenDsm, reply),
        ) && after.spec_phase() is Done),
        scan.spec_phase() is OpenSource && (event matches SessionEvent::Identity { reply: r, .. }
            && r == reply) ==> (after.spec_phase() matches DriverPhase::Close(
            3,
            SidecarResponse::Error { message, fault },
        ) && message@ == "Failed to open scanner: rc="@ + decimal(reply.rc as nat) && fault
            == fault_of(failure(Operation::OpenSource, reply))),
        scan.spec_phase() is Enable && event == SessionEvent::Reply(reply) ==> (
        after.spec_phase() matches DriverPhase::Close(
            4,
            SidecarResponse::Error { message, fault },
        ) && message@ == "Failed to enable scanner: rc="@ + decimal(reply.rc as nat) && fault
            == fault_of(failure(Operation::EnableSource, reply))),
        scan.spec_phase() is Describe && (event matches SessionEvent::Info { reply: r, .. } && r
            == reply) ==> (after.spec_phase() matches DriverPhase::Close(
            5,
            SidecarResponse::Error { message, fault },
        ) && message@ == failure(Operation::ImageInfo, reply).text() && fault == fault_of(
            failure(Operation::ImageInfo, reply),
        )),
        scan.spec_phase() is Setup && (event matches SessionEvent::Setup { reply: r, .. } && r
            == reply) ==> (after.spec_phase() matches DriverPhase::Close(
            5,
            SidecarResponse::Error { message, fault },
        ) && message@ == failure(Operation::TransferSetup, reply).text() && fault == fault_of(
            failure(Operation::TransferSetup, reply),
        )),
        scan.spec_phase() is Transfer && reply.rc != 6 && (event matches SessionEvent::Strip {
            reply: r,
            ..
        } && r == reply) ==> (after.spec_phase() matches DriverPhase::Close(
            5,
            SidecarResponse::Error { message, fault },
        ) && message@ == failure(Operation::MemoryTransfer, reply).text() && fault == fault_of(
            failure(Operation::MemoryTransfer, reply),
        )),
{
}

/// Law: a manager that does not load is told of in the words of whoever tried, and as a
/// fault of its own; one without its entry point, and a window that cannot be had, in the
/// words alone.
pub proof fn law_driver_tells_what_it_lacks(
    scan: DriverScan,
    e: String,
    after: DriverScan,
    effect: DriverEffect,
)
    ensures
        scan.spec_phase() is Load && advances(
            scan,
            SessionEvent::Loaded(Err(LoadFailure::Library(e))),
            after,
            effect,
        ) ==> (effect matches DriverEffect::Respond(SidecarResponse::Error { message, fault })
            && message@ == "Failed to load 32-bit TWAINDSM.dll: "@ + e@ && fault == Some(
            DeviceFault::DsmLoadFailed(e),
        )),
        scan.spec_phase() is Load && advances(
            scan,
            SessionEvent::Loaded(Err(LoadFailure::EntryPoint(e))),
            after,
            effect,
        ) ==> (effect matches DriverEffect::Respond(SidecarResponse::Error { message, fault })
            && message@ == "DSM_Entry not found: "@ + e@ && fault is None),
        scan.spec_phase() is Window && advances(
            scan,
            SessionEvent::Window(Err(e)),
            after,
            effect,
        ) ==> (effect matches DriverEffect::Respond(SidecarResponse::Error { message, fault })
            && message@ == "Failed to create hidden window: "@ + e@ && fault is None),
{
}

/// Law: a setting that the source rejects although it was requested ends the scan for that
/// capability; whatever else the source replies, the next setting follows, and after the
/// last the source is enabled.
pub proof fn law_settings_decide(
    scan: DriverScan,
    reply: DsmReply,
    after: DriverScan,
    effect: DriverEffect,
)
    requires
        advances(scan, SessionEvent::Reply(reply), after, effect),
        scan.spec_phase() is Configure,
    ensures
        scan.spec_phase() matches DriverPhase::Configure(plan, set) ==> {
            let cap = plan@[set as int].cap;
            if is_requested(cap) && is_rejection(reply) {
                after.spec_phase() matches DriverPhase::Close(
                    4,
                    SidecarResponse::Error { message, fault },
                ) && message@ == TwainError::CapabilityNotSupported(cap).text() && fault == Some(
                    DeviceFault::CapabilityNotSupported(cap),
                )
            } else if set + 1 < plan@.len() {
                after.spec_phase() matches DriverPhase::Configure(same, more) && same == plan
                    && more == set + 1
            } else {
                after.spec_phase() is Enable
            }
        },
{
    if let DriverPhase::Configure(plan, _) = scan.spec_phase() {
        assert(plan@.len() == plan.len());
    }
}

/// Law: what a scan does next is what its phase is for, with what it holds; while it
/// closes, what is innermost of what is open.
pub proof fn law_driver_acts_by_its_phase(scan: DriverScan)
    requires
        scan.wf(),
    ensures
        scan.spec_phase() is Load ==> scan.spec_action() is LoadDsm,
        scan.spec_phase() is Window ==> scan.spec_action() is CreateWindow,
        scan.spec_phase() is Pump ==> scan.spec_action() is Pump,
        scan.spec_phase() is CheckCancel ==> scan.spec_action() is CheckCancel,
        scan.spec_phase() is Done <==> scan.spec_action() is Finished,
        scan.spec_phase() is OpenDsm ==> scan.spec_action() == SessionAction::Call(
            Operation::OpenDsm,
        ),
        scan.spec_phase() matches DriverPhase::Find(started) ==> scan.spec_action()
            == SessionAction::Call(
            if started {
                Operation::NextSource
            } else {
                Operation::FirstSource
            },
        ),
        scan.spec_phase() matches DriverPhase::OpenSource(identity) ==> scan.spec_action()
            == SessionAction::OpenSource(identity),
        scan.spec_phase() is Enable ==> scan.spec_action() == (SessionAction::Enable {
            show_ui: scan.spec_job().show_ui,
        }),
        scan.spec_phase() is Describe ==> scan.spec_action() == SessionAction::Call(
            Operation::ImageInfo,
        ),
        scan.spec_phase() is Setup ==> scan.spec_action() == SessionAction::Call(
            Operation::TransferSetup,
        ),
        scan.spec_phase() matches DriverPhase::Transfer(_, len) ==> scan.spec_action() == (
        SessionAction::Transfer { buffer_len: len }),
        scan.spec_phase() is EndTransfer ==> scan.spec_action() == SessionAction::Call(
            Operation::EndTransfer,
        ),
        scan.spec_phase() is Reset ==> scan.spec_action() == SessionAction::Call(
            Operation::ResetTransfers,
        ),
        scan.spec_phase() matches DriverPhase::Close(state, _) ==> scan.spec_action()
            == SessionAction::Call(
            if state == 5 {
                Operation::DisableSource
            } else if state == 4 {
                Operation::CloseSource
            } else {
                Operation::CloseDsm
            },
        ),
{
}

/// Law: a page is sent with its number, size, depth and stride, and its bytes such that
/// decoding gives them back; a source is listed under its own id, name and maker.
pub proof fn law_responses_carry_what_they_are_of(
    response: SidecarResponse,
    page: ScannedPage,
    entry: SidecarScannerEntry,
    source: SourceInfo,
)
    ensures
        carries(response, page) ==> (response matches SidecarResponse::ScanPage {
            page: number,
            width,
            height,
            bits_per_pixel,
            bytes_per_row,
            data,
        } && number == page.page_number && width == page.width && height == page.height
            && bits_per_pixel == page.bits_per_pixel && bytes_per_row == page.bytes_per_row
            && base64_bytes(data@) == Ok::<Seq<u8>, Seq<char>>(page.data@)),
        lists(entry, source) ==> reads_as(entry.id@, 10) == Some(source.id as nat) && entry.name@
            == source.name@ && entry.manufacturer@ == source.manufacturer@,
{
    law_numerals_read_back(source.id as nat, 10, 1);
}

/// Law: the agent's page of what the driver process scanned has the same number, size,
/// depth, stride and bytes.
pub proof fn law_relayed_pages_are_those_scanned(
    page: ScannedPage,
    response: SidecarResponse,
    resolution: u32,
    next: RelayPhase,
    received: Option<PageData>,
)
    requires
        carries(response, page),
        relay_step(
            RelayPhase::Read,
            RelayEvent::Response(Ok(response)),
            resolution,
            next,
            received,
        ),
    ensures
        received matches Some(data) && data.page_number == page.page_number && data.width
            == page.width && data.height == page.height && data.bits_per_pixel
            == page.bits_per_pixel && data.bytes_per_row == page.bytes_per_row && data.raw_data@
            == page.data@ && data.dpi_x == Resolution::Whole(resolution) && data.dpi_y
            == Resolution::Whole(resolution),
{
}

/// Law: a complaint has its words, and its fault where it is of one.
pub proof fn law_complaints_have_their_words(
    response: SidecarResponse,
    words: Seq<char>,
    fault: Option<DeviceFault>,
)
    ensures
        complains_of(response, words, fault) <==> (response matches SidecarResponse::Error {
            message,
            fault: of,
        } && message@ == words && of == fault),
        complains(response, words) <==> (response matches SidecarResponse::Error {
            message,
            fault: of,
        } && message@ == words && of is None),
        out_of_order() == "Invalid state transition"@,
{
}

} // verus!
