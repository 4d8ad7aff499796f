//! What the agent does about each request.
//!
//! Discovery, and the scans themselves, take their time and are run by the caller,
//! which holds on to this state meanwhile only for the moment of each decision.

use vstd::prelude::*;
use vstd::string::*;

use crate::address::option_view;
use crate::driver::complains_of;
use crate::protocol::{
    AgentMessage, ClientMessage, ErrorCode, OutputFormat, ScanRequestOptions, ScanStatus,
    ScannerListEntry,
};
use crate::scanner::delivery::{
    advances, is_completion, is_delivered, is_ordered, law_cancelled_delivery_ends_so,
    law_failed_delivery_never_completed, law_successful_delivery_completed_once,
    law_whole_delivery_echoes_its_request, learns_of_cancel, message_of, Delivery, DeliveryAction,
    DeliveryEvent,
};
use crate::scanner::run::ProducerEnd;
use crate::scanner::sidecar::{
    fault_of, relay_step, RelayEvent, RelayPhase, SidecarCommand, SidecarResponse,
};
use crate::scanner::twain::{ScanOptions, TwainError};
use crate::scanner::{
    first_known_as, law_listed_scanners_are_found, law_requests_name_their_scanner,
    law_unlisted_scanners_are_not_found, resolves, wanted_scanner, PageData, ScanError,
    ScanOrchestrator, ScannerInfo, ScannerSource,
};
use crate::text::{join, same_text};

verus! {

/// How long discovery may take, in seconds.
pub const DISCOVERY_TIMEOUT_SECS: u64 = 15;

/// The code under which an error is reported.
pub open spec fn code_of(e: ScanError) -> ErrorCode {
    match e {
        ScanError::NoScanners => ErrorCode::NoScannersAvailable,
        ScanError::ScannerNotFound(_) => ErrorCode::ScannerNotFound,
        ScanError::Cancelled => ErrorCode::ScanCancelled,
        ScanError::ImageConversion(_) => ErrorCode::ImageConversionError,
        ScanError::PdfGeneration(_) => ErrorCode::PdfGenerationError,
        ScanError::Twain(TwainError::PaperJam) => ErrorCode::PaperJam,
        ScanError::Twain(TwainError::PaperDoubleFeed) => ErrorCode::PaperDoubleFeed,
        ScanError::Twain(TwainError::DsmLoadFailed(_)) => ErrorCode::TwainNotInstalled,
        ScanError::Twain(TwainError::CapabilityNotSupported(_)) => {
            ErrorCode::CapabilityNotSupported
        },
        ScanError::Sidecar(_) => ErrorCode::InternalError,
        ScanError::Twain(_) => ErrorCode::InternalError,
    }
}

pub fn error_to_code(e: &ScanError) -> (r: ErrorCode)
    ensures
        r == code_of(*e),
{
    match e {
        ScanError::NoScanners => ErrorCode::NoScannersAvailable,
        ScanError::ScannerNotFound(_) => ErrorCode::ScannerNotFound,
        ScanError::Cancelled => ErrorCode::ScanCancelled,
        ScanError::ImageConversion(_) => ErrorCode::ImageConversionError,
        ScanError::PdfGeneration(_) => ErrorCode::PdfGenerationError,
        ScanError::Twain(TwainError::PaperJam) => ErrorCode::PaperJam,
        ScanError::Twain(TwainError::PaperDoubleFeed) => ErrorCode::PaperDoubleFeed,
        ScanError::Twain(TwainError::DsmLoadFailed(_)) => ErrorCode::TwainNotInstalled,
        ScanError::Twain(TwainError::CapabilityNotSupported(_)) => {
            ErrorCode::CapabilityNotSupported
        },
        ScanError::Sidecar(_) => ErrorCode::InternalError,
        ScanError::Twain(_) => ErrorCode::InternalError,
    }
}

/// Report an error in answer to a request.
pub fn error_message(id: String, e: &ScanError) -> (m: AgentMessage)
    ensures
        m.is_error(id@, code_of(*e), e.text()),
{
    AgentMessage::Error { id, code: error_to_code(e), message: e.message() }
}

/// How discovery went.
#[derive(Debug)]
pub enum Discovery {
    Finished(Result<Vec<ScannerInfo>, ScanError>),
    Panicked,
    TimedOut,
}

/// The answer to a request for the scanners, given how discovering them went.
pub fn scanner_list(id: String, discovery: Discovery) -> (m: AgentMessage)
    ensures
        match discovery {
            Discovery::Finished(Ok(found)) => m matches AgentMessage::ScannerList {
                id: echoed,
                scanners,
            } && echoed == id && scanners@ == found@.map_values(
                |scanner: ScannerInfo| ScannerListEntry::spec_from_scanner(scanner),
            ),
            Discovery::Finished(Err(e)) => m.is_error(id@, code_of(e), e.text()),
            Discovery::Panicked => m.is_error(
                id@,
                ErrorCode::InternalError,
                "Scanner discovery task failed"@,
            ),
            Discovery::TimedOut => m.is_error(
                id@,
                ErrorCode::DiscoveryTimeout,
                "Scanner discovery timed out"@,
            ),
        },
{
    match discovery {
        Discovery::Finished(Ok(found)) => {
            let mut scanners: Vec<ScannerListEntry> = Vec::new();
            let mut i: usize = 0;
            while i < found.len()
                invariant
                    i <= found@.len(),
                    scanners@.len() == i,
                    forall|j: int|
                        0 <= j < i ==> scanners@[j] == ScannerListEntry::spec_from_scanner(
                            found@[j],
                        ),
                decreases found.len() - i,
            {
                scanners.push(ScannerListEntry::from_scanner(&found[i]));
                i += 1;
            }
            proof {
                assert(scanners@ =~= found@.map_values(
                    |scanner: ScannerInfo| ScannerListEntry::spec_from_scanner(scanner),
                ));
            }
            AgentMessage::ScannerList { id, scanners }
        },
        Discovery::Finished(Err(e)) => error_message(id, &e),
        Discovery::Panicked => AgentMessage::Error {
            id,
            code: ErrorCode::InternalError,
            message: "Scanner discovery task failed".to_owned(),
        },
        Discovery::TimedOut => AgentMessage::Error {
            id,
            code: ErrorCode::DiscoveryTimeout,
            message: "Scanner discovery timed out".to_owned(),
        },
    }
}

// ---------------------------------------------------------------------------
// Scan ids
// ---------------------------------------------------------------------------
/// Whether a text has the form of a random UUID: lower-case hexadecimal digits in
/// five groups, with the version and the variant in their places.
pub open spec fn is_scan_id(text: Seq<char>) -> bool {
    &&& text.len() == 36
    &&& forall|i: int|
        0 <= i < 36 ==> if i == 8 || i == 13 || i == 18 || i == 23 {
            #[trigger] text[i] == '-'
        } else {
            ('0' <= text[i] && text[i] <= '9') || ('a' <= text[i] && text[i] <= 'f')
        }
    &&& text[14] == '4'
    &&& text[19] == '8' || text[19] == '9' || text[19] == 'a' || text[19] == 'b'
}

/// `uuid::Uuid::new_v4`, as `to_string` writes it. Which id comes is up to chance;
/// every one has this form.
#[verifier::external_body]
fn new_scan_id() -> (id: String)
    ensures
        is_scan_id(id@),
{
    uuid::Uuid::new_v4().to_string()
}

// ---------------------------------------------------------------------------
// Scans
// ---------------------------------------------------------------------------
/// A scan to be run.
#[derive(Debug)]
pub struct ScanPlan {
    pub request_id: String,
    pub scan_id: String,
    pub scanner: ScannerInfo,
    /// Path to the sidecar, where the scan goes through it.
    pub sidecar_path: Option<String>,
    pub options: ScanRequestOptions,
}

impl ScanPlan {
    /// What the native manager is asked to do.
    pub fn native_options(&self) -> (o: ScanOptions)
        ensures
            o.resolution == self.options.resolution,
            o.color_mode == self.options.color_mode,
            o.duplex == self.options.duplex,
            o.use_adf == self.options.use_adf,
            o.show_scanner_ui == self.options.show_scanner_ui,
    {
        ScanOptions {
            resolution: self.options.resolution,
            color_mode: self.options.color_mode,
            duplex: self.options.duplex,
            use_adf: self.options.use_adf,
            show_scanner_ui: self.options.show_scanner_ui,
        }
    }

    /// What the sidecar is asked to do.
    pub fn sidecar_command(&self) -> (c: SidecarCommand)
        ensures
            c matches SidecarCommand::Scan {
                scanner_name,
                resolution,
                color_mode,
                duplex,
                use_adf,
                show_ui,
            } && scanner_name@ == self.scanner.name@ && resolution == self.options.resolution
                && color_mode@ == self.options.color_mode.spec_name() && duplex
                == self.options.duplex && use_adf == self.options.use_adf && show_ui
                == self.options.show_scanner_ui,
    {
        SidecarCommand::Scan {
            scanner_name: self.scanner.name.clone(),
            resolution: self.options.resolution,
            color_mode: self.options.color_mode.name(),
            duplex: self.options.duplex,
            use_adf: self.options.use_adf,
            show_ui: self.options.show_scanner_ui,
        }
    }
}

/// What to do about a request.
#[derive(Debug)]
pub enum RequestStep {
    Answer(AgentMessage),
    /// Discover the scanners, and answer this request with them.
    Discover { id: String },
    /// Run this scan.
    Scan(ScanPlan),
    /// Raise the running scan's cancel flag, and answer.
    Cancel(AgentMessage),
}

/// The agent's state: the scanners it knows, and the scan that is running.
pub struct ScanState {
    orchestrator: ScanOrchestrator,
    active: Option<String>,
}

impl ScanState {
    pub closed spec fn spec_orchestrator(self) -> ScanOrchestrator {
        self.orchestrator
    }

    /// The id of the scan that is running.
    pub closed spec fn spec_active(self) -> Option<Seq<char>> {
        match self.active {
            Some(scan_id) => Some(scan_id@),
            None => None,
        }
    }

    pub fn new(sidecar_path: Option<String>) -> (s: ScanState)
        ensures
            s.spec_active() is None,
            s.spec_orchestrator().spec_scanners().len() == 0,
            s.spec_orchestrator().spec_sidecar_path() == sidecar_path,
    {
        ScanState { orchestrator: ScanOrchestrator::new(sidecar_path), active: None }
    }

    /// Path to the sidecar executable, if there is one.
    pub fn sidecar_path(&self) -> (r: Option<&str>)
        ensures
            match self.spec_orchestrator().spec_sidecar_path() {
                Some(path) => r matches Some(p) && p@ == path@,
                None => r is None,
            },
    {
        self.orchestrator.sidecar_path()
    }

    /// Take note of the scanners that both backends reported.
    pub fn discover_scanners(
        &mut self,
        native: Result<Vec<ScannerInfo>, ScanError>,
        sidecar: Result<Vec<ScannerInfo>, ScanError>,
    ) -> (r: Result<Vec<ScannerInfo>, ScanError>)
        ensures
            r matches Ok(all) && all@ == crate::scanner::merged(
                crate::scanner::reported(native),
                crate::scanner::reported(sidecar),
            ) && final(self).spec_orchestrator().spec_scanners() == all@,
            final(self).spec_orchestrator().spec_sidecar_path()
                == old(self).spec_orchestrator().spec_sidecar_path(),
            final(self).spec_active() == old(self).spec_active(),
    {
        self.orchestrator.discover_scanners(native, sidecar)
    }
}

/// Whether `m` answers a request to scan with this error.
pub open spec fn refuses(m: AgentMessage, id: Seq<char>, e: ScanError) -> bool {
    m.is_error(id, code_of(e), e.text())
}

/// Whether `r` is what the client is told of the end of its scan: a failure, or
/// nothing.
pub open spec fn reports(
    result: Result<(), ScanError>,
    id: Seq<char>,
    r: Option<AgentMessage>,
) -> bool {
    match result {
        Ok(()) => r is None,
        Err(e) => r matches Some(m) && refuses(m, id, e),
    }
}

/// Whether a scan ends: the agent is idle, and `r` is what its client is told.
pub open spec fn finishes(
    before: ScanState,
    after: ScanState,
    id: Seq<char>,
    result: Result<(), ScanError>,
    r: Option<AgentMessage>,
) -> bool {
    &&& after.spec_orchestrator() == before.spec_orchestrator()
    &&& after.spec_active() is None
    &&& reports(result, id, r)
}

/// Whether `r` is what becomes of a request to scan: it is refused while a scan runs,
/// and otherwise judged by its scanner, under a new scan id.
pub open spec fn answers_start(
    before: ScanState,
    after: ScanState,
    id: Seq<char>,
    options: ScanRequestOptions,
    r: RequestStep,
) -> bool {
    if before.spec_active() is Some {
        &&& r matches RequestStep::Answer(m) && m.is_error(
            id,
            ErrorCode::ScannerBusy,
            "A scan is already in progress"@,
        )
        &&& after.spec_active() == before.spec_active()
    } else {
        exists|scan_id: Seq<char>, resolved: Result<ScannerInfo, ScanError>|
            #![trigger is_scan_id(scan_id), is_resolved(
                before.spec_orchestrator().spec_scanners(),
                options,
                resolved,
            )]
            is_scan_id(scan_id) && is_resolved(
                before.spec_orchestrator().spec_scanners(),
                options,
                resolved,
            ) && starts(
                resolved,
                before.spec_orchestrator().spec_sidecar_path(),
                id,
                options,
                scan_id,
                r,
                after.spec_active(),
            )
    }
}

/// What becomes of a request to scan while no scan runs, given what its scanner
/// resolved to.
pub open spec fn starts(
    resolved: Result<ScannerInfo, ScanError>,
    sidecar_path: Option<String>,
    id: Seq<char>,
    options: ScanRequestOptions,
    scan_id: Seq<char>,
    r: RequestStep,
    active: Option<Seq<char>>,
) -> bool {
    match resolved {
        Err(e) => r matches RequestStep::Answer(m) && refuses(m, id, e) && active is None,
        Ok(scanner) => if scanner.source == ScannerSource::Sidecar && sidecar_path is None {
            r matches RequestStep::Answer(m) && m.is_error(
                id,
                ErrorCode::InternalError,
                "Sidecar error: "@ + "Sidecar not available"@,
            ) && active is None
        } else {
            r matches RequestStep::Scan(plan) && plan.request_id@ == id && plan.scan_id@ == scan_id
                && plan.scanner == scanner && plan.options == options && option_view(
                plan.sidecar_path,
            ) == (
            if scanner.source == ScannerSource::Sidecar {
                option_view(sidecar_path)
            } else {
                None
            }) && active == Some(scan_id)
        },
    }
}

/// Whether `r` is what resolving the scanner of a request gives.
pub open spec fn is_resolved(
    scanners: Seq<ScannerInfo>,
    options: ScanRequestOptions,
    r: Result<ScannerInfo, ScanError>,
) -> bool {
    match wanted_scanner(scanners, options) {
        None => r == Err::<ScannerInfo, ScanError>(ScanError::NoScanners),
        Some(wanted) => resolves(scanners, wanted, r),
    }
}

impl ScanState {
    /// Start a scan under this id, unless one is running. A request whose scanner
    /// cannot be had is refused, and leaves the agent idle.
    pub fn start_scan(&mut self, id: String, options: ScanRequestOptions, scan_id: String) -> (r:
        RequestStep)
        ensures
            final(self).spec_orchestrator() == old(self).spec_orchestrator(),
            if old(self).spec_active() is Some {
                r matches RequestStep::Answer(m) && m.is_error(
                    id@,
                    ErrorCode::ScannerBusy,
                    "A scan is already in progress"@,
                ) && final(self).spec_active() == old(self).spec_active()
            } else {
                exists|resolved: Result<ScannerInfo, ScanError>|
                    #[trigger] is_resolved(
                        old(self).spec_orchestrator().spec_scanners(),
                        options,
                        resolved,
                    ) && starts(
                        resolved,
                        old(self).spec_orchestrator().spec_sidecar_path(),
                        id@,
                        options,
                        scan_id@,
                        r,
                        final(self).spec_active(),
                    )
            },
    {
        if self.active.is_some() {
            return RequestStep::Answer(
                AgentMessage::Error {
                    id,
                    code: ErrorCode::ScannerBusy,
                    message: "A scan is already in progress".to_owned(),
                },
            );
        }
        let resolved = self.orchestrator.resolve_scanner(&options);
        let ghost outcome = resolved;
        assert(is_resolved(self.spec_orchestrator().spec_scanners(), options, outcome));
        let path = match self.orchestrator.sidecar_path() {
            Some(path) => Some(path.to_owned()),
            None => None,
        };
        match resolved {
            Err(e) => RequestStep::Answer(error_message(id, &e)),
            Ok(scanner) => match scanner.source {
                ScannerSource::Sidecar => {
                    if path.is_none() {
                        let e = ScanError::Sidecar("Sidecar not available".to_owned());
                        return RequestStep::Answer(error_message(id, &e));
                    }
                    self.active = Some(scan_id.clone());
                    RequestStep::Scan(
                        ScanPlan {
                            request_id: id,
                            scan_id,
                            scanner,
                            sidecar_path: path,
                            options,
                        },
                    )
                },
                ScannerSource::Native => {
                    self.active = Some(scan_id.clone());
                    RequestStep::Scan(
                        ScanPlan { request_id: id, scan_id, scanner, sidecar_path: None, options },
                    )
                },
            },
        }
    }

    /// Take note that the running scan has ended. The client is told of a failure
    /// here; of a success the scan itself has told it.
    pub fn finish_scan(&mut self, id: String, result: Result<(), ScanError>) -> (r: Option<
        AgentMessage,
    >)
        ensures
            finishes(*old(self), *final(self), id@, result, r),
    {
        self.active = None;
        match result {
            Ok(()) => None,
            Err(e) => Some(error_message(id, &e)),
        }
    }

    /// Cancel the running scan, if it is the one meant. The answer says that the
    /// request was taken, not that the scan has stopped.
    pub fn cancel_scan(&self, id: String, scan_id: String) -> (r: RequestStep)
        ensures
            if self.spec_active() == Some(scan_id@) {
                r matches RequestStep::Cancel(m) && m.is_progress(
                    id@,
                    scan_id@,
                    0,
                    ScanStatus::Complete,
                )
            } else {
                r matches RequestStep::Answer(m) && m.is_error(
                    id@,
                    ErrorCode::InvalidRequest,
                    "No active scan with id: "@ + scan_id@,
                )
            },
    {
        let meant = match &self.active {
            Some(active) => same_text(active.as_str(), scan_id.as_str()),
            None => false,
        };
        if meant {
            RequestStep::Cancel(
                AgentMessage::ScanProgress { id, scan_id, page: 0, status: ScanStatus::Complete },
            )
        } else {
            let message = join("No active scan with id: ", scan_id.as_str());
            RequestStep::Answer(
                AgentMessage::Error { id, code: ErrorCode::InvalidRequest, message },
            )
        }
    }

    /// What to do about a request. A scan gets an id of its own.
    pub fn handle_command(&mut self, message: ClientMessage) -> (r: RequestStep)
        ensures
            final(self).spec_orchestrator() == old(self).spec_orchestrator(),
            // Every answer echoes the id of its request.
            r matches RequestStep::Answer(m) ==> m.answers() == Some(request_id(message)),
            r matches RequestStep::Cancel(m) ==> m.answers() == Some(request_id(message)),
            r matches RequestStep::Scan(plan) ==> plan.request_id@ == request_id(message),
            match message {
                ClientMessage::Ping { id } => {
                    &&& r == RequestStep::Answer(AgentMessage::Pong { id })
                    &&& final(self).spec_active() == old(self).spec_active()
                },
                ClientMessage::ListScanners { id } => {
                    &&& r == RequestStep::Discover { id }
                    &&& final(self).spec_active() == old(self).spec_active()
                },
                ClientMessage::StartScan { id, options } => answers_start(
                    *old(self),
                    *final(self),
                    id@,
                    options,
                    r,
                ),
                ClientMessage::CancelScan { id, scan_id } => {
                    &&& final(self).spec_active() == old(self).spec_active()
                    &&& if old(self).spec_active() == Some(scan_id@) {
                        r matches RequestStep::Cancel(m) && m.is_progress(
                            id@,
                            scan_id@,
                            0,
                            ScanStatus::Complete,
                        )
                    } else {
                        r matches RequestStep::Answer(m) && m.is_error(
                            id@,
                            ErrorCode::InvalidRequest,
                            "No active scan with id: "@ + scan_id@,
                        )
                    }
                },
            },
    {
        match message {
            ClientMessage::Ping { id } => RequestStep::Answer(AgentMessage::Pong { id }),
            ClientMessage::ListScanners { id } => RequestStep::Discover { id },
            ClientMessage::StartScan { id, options } => {
                let scan_id = new_scan_id();
                self.start_scan(id, options, scan_id)
            },
            ClientMessage::CancelScan { id, scan_id } => self.cancel_scan(id, scan_id),
        }
    }
}

/// The id of a request.
pub open spec fn request_id(message: ClientMessage) -> Seq<char> {
    match message {
        ClientMessage::Ping { id } => id@,
        ClientMessage::ListScanners { id } => id@,
        ClientMessage::StartScan { id, .. } => id@,
        ClientMessage::CancelScan { id, .. } => id@,
    }
}

/// Law: while no scan runs, a request to scan is not refused as busy; one that is
/// refused leaves the agent idle, and one that is not makes its scan the running
/// one.
pub proof fn law_idle_agent_judges_by_scanner(
    resolved: Result<ScannerInfo, ScanError>,
    sidecar_path: Option<String>,
    id: Seq<char>,
    options: ScanRequestOptions,
    scan_id: Seq<char>,
    r: RequestStep,
    active: Option<Seq<char>>,
)
    requires
        starts(resolved, sidecar_path, id, options, scan_id, r, active),
    ensures
        r matches RequestStep::Answer(m) ==> active is None && !(m matches AgentMessage::Error {
            code,
            ..
        } && code == ErrorCode::ScannerBusy),
        r matches RequestStep::Scan(plan) ==> active == Some(plan.scan_id@),
        r is Answer || r is Scan,
{
}

/// Law: a scan starts only on a scanner that is known, by the name or id asked for.
pub proof fn law_scans_use_known_scanners(
    scanners: Seq<ScannerInfo>,
    resolved: Result<ScannerInfo, ScanError>,
    sidecar_path: Option<String>,
    id: Seq<char>,
    options: ScanRequestOptions,
    scan_id: Seq<char>,
    r: RequestStep,
    active: Option<Seq<char>>,
)
    requires
        is_resolved(scanners, options, resolved),
        starts(resolved, sidecar_path, id, options, scan_id, r, active),
    ensures
        r matches RequestStep::Scan(plan) ==> exists|i: int|
            #[trigger] first_known_as(scanners, wanted_scanner(scanners, options).unwrap(), i)
                && plan.scanner == scanners[i],
{
}

/// Whether an answer says that a scan is already running.
pub open spec fn is_busy(r: RequestStep) -> bool {
    r matches RequestStep::Answer(AgentMessage::Error { code, .. }) && code
        == ErrorCode::ScannerBusy
}

/// Law: however a scan ended, the agent is idle after it: the next request to scan is
/// not answered that a scan is running.
pub proof fn law_ended_scan_leaves_agent_idle(
    before: ScanState,
    between: ScanState,
    after: ScanState,
    id: Seq<char>,
    result: Result<(), ScanError>,
    told: Option<AgentMessage>,
    next_id: Seq<char>,
    options: ScanRequestOptions,
    r: RequestStep,
)
    requires
        finishes(before, between, id, result, told),
        answers_start(between, after, next_id, options, r),
    ensures
        between.spec_active() is None,
        !is_busy(r),
{
}

/// Law: a client gets one final message of its scan, under the id of its request.
/// Of a scan that ended in an error that is the error, its code and its words, and
/// the scan has not been called complete before; of one that succeeded it is that
/// the scan is complete, and nothing follows.
pub proof fn law_scan_has_one_final_message(
    deliveries: Seq<Delivery>,
    events: Seq<DeliveryEvent>,
    actions: Seq<DeliveryAction>,
    request: Seq<char>,
    scan: Seq<char>,
    format: OutputFormat,
    source: ScannerSource,
    end: int,
    result: Result<(), ScanError>,
    before: ScanState,
    after: ScanState,
    told: Option<AgentMessage>,
)
    requires
        is_delivered(deliveries, events, actions, request, scan, format, source),
        is_ordered(events, actions),
        0 <= end < actions.len(),
        actions[end] == DeliveryAction::Finished(result),
        finishes(before, after, request, result, told),
    ensures
        match result {
            Err(e) => {
                &&& told matches Some(m) && m.is_error(request, code_of(e), e.text())
                &&& forall|k: int| 0 <= k < end ==> !is_completion(#[trigger] actions[k])
            },
            Ok(()) => {
                &&& told is None
                &&& end > 0
                &&& forall|k: int|
                    0 <= k < end ==> (is_completion(#[trigger] actions[k]) <==> k == end - 1)
                &&& message_of(actions[end - 1]) matches Some(m) && m.answers() == Some(request)
            },
        },
{
    match result {
        Err(_) => {
            law_failed_delivery_never_completed(
                deliveries,
                events,
                actions,
                request,
                scan,
                format,
                source,
                end,
            );
        },
        Ok(()) => {
            law_successful_delivery_completed_once(
                deliveries,
                events,
                actions,
                request,
                scan,
                format,
                source,
                end,
            );
            assert(is_completion(actions[end - 1]));
            law_whole_delivery_echoes_its_request(
                deliveries,
                events,
                actions,
                request,
                scan,
                format,
                source,
                end - 1,
            );
        },
    }
}

/// Law: a failure in the sidecar reaches the client under the code that the same
/// failure has in a native scan.
pub proof fn law_sidecar_failures_keep_their_code(
    e: TwainError,
    words: Seq<char>,
    response: SidecarResponse,
    resolution: u32,
    next: RelayPhase,
    page: Option<PageData>,
)
    requires
        complains_of(response, words, fault_of(e)),
        relay_step(
            RelayPhase::Read,
            RelayEvent::Response(Ok(response)),
            resolution,
            next,
            page,
        ),
    ensures
        next matches RelayPhase::Shutdown(Err(relayed)) && code_of(relayed) == code_of(
            ScanError::Twain(e),
        ),
{
}

/// Law: a client whose scan is stopped by a cancel, because a page came too late or
/// something was not sent on that account, is told that the scan was cancelled,
/// unless the side that produces the pages failed for another reason.
pub proof fn law_cancelled_scan_is_answered(
    deliveries: Seq<Delivery>,
    events: Seq<DeliveryEvent>,
    actions: Seq<DeliveryAction>,
    request: Seq<char>,
    scan: Seq<char>,
    format: OutputFormat,
    source: ScannerSource,
    learnt: int,
    end: int,
    r: Option<AgentMessage>,
)
    requires
        is_delivered(deliveries, events, actions, request, scan, format, source),
        0 <= learnt < end < actions.len(),
        learns_of_cancel(deliveries[learnt].spec_phase(), events[learnt]),
        forall|i: int|
            learnt < i < end ==> (#[trigger] events[i] matches DeliveryEvent::Joined(
                ProducerEnd::Finished(verdict),
            ) && (verdict is Ok || verdict == Err::<(), ScanError>(ScanError::Cancelled))),
        forall|i: int| learnt < i < end ==> !(#[trigger] actions[i] is Finished),
        actions[end] matches DeliveryAction::Finished(result) && reports(result, request, r),
    ensures
        r matches Some(m) && m.is_error(
            request,
            ErrorCode::ScanCancelled,
            ScanError::Cancelled.text(),
        ),
{
    assert(advances(
        deliveries[learnt],
        events[learnt],
        deliveries[learnt + 1],
        actions[learnt + 1],
    ));
    law_cancelled_delivery_ends_so(
        deliveries[learnt],
        events[learnt],
        deliveries[learnt + 1],
        actions[learnt + 1],
    );
    if events[learnt] is Page {
        assert(end > learnt + 1);
        assert(advances(
            deliveries[learnt + 1],
            events[learnt + 1],
            deliveries[learnt + 1 + 1],
            actions[learnt + 1 + 1],
        ));
        law_cancelled_delivery_ends_so(
            deliveries[learnt + 1],
            events[learnt + 1],
            deliveries[learnt + 2],
            actions[learnt + 2],
        );
    }
}

/// Law: where the side that produces the pages was stopped by a cancel, native or
/// sidecar, the client is told that the scan was cancelled.
pub proof fn law_cancelled_producer_is_answered(
    delivery: Delivery,
    event: DeliveryEvent,
    after: Delivery,
    action: DeliveryAction,
    id: Seq<char>,
    r: Option<AgentMessage>,
)
    requires
        advances(delivery, event, after, action),
        delivery.spec_phase() is Join,
        event == DeliveryEvent::Joined(ProducerEnd::Finished(Err(ScanError::Cancelled))),
        action matches DeliveryAction::Finished(result) ==> reports(result, id, r),
    ensures
        action is Finished,
        r matches Some(m) && m.is_error(id, ErrorCode::ScanCancelled, ScanError::Cancelled.text()),
{
}

/// Law: every error is reported under its own code; those that have none are internal.
pub proof fn law_errors_have_their_codes(words: String, cap: u16, e: TwainError)
    ensures
        code_of(ScanError::NoScanners) == ErrorCode::NoScannersAvailable,
        code_of(ScanError::ScannerNotFound(words)) == ErrorCode::ScannerNotFound,
        code_of(ScanError::Cancelled) == ErrorCode::ScanCancelled,
        code_of(ScanError::ImageConversion(words)) == ErrorCode::ImageConversionError,
        code_of(ScanError::PdfGeneration(words)) == ErrorCode::PdfGenerationError,
        code_of(ScanError::Sidecar(words)) == ErrorCode::InternalError,
        e is PaperJam ==> code_of(ScanError::Twain(e)) == ErrorCode::PaperJam,
        e is PaperDoubleFeed ==> code_of(ScanError::Twain(e)) == ErrorCode::PaperDoubleFeed,
        e is DsmLoadFailed ==> code_of(ScanError::Twain(e)) == ErrorCode::TwainNotInstalled,
        e is CapabilityNotSupported ==> code_of(ScanError::Twain(e))
            == ErrorCode::CapabilityNotSupported,
        !(e is PaperJam || e is PaperDoubleFeed || e is DsmLoadFailed || e
            is CapabilityNotSupported) ==> code_of(ScanError::Twain(e)) == ErrorCode::InternalError,
{
}

/// Law: a client is told of the end of its scan exactly where that failed: under the id
/// of its request, with the error's code and in its words; and the agent is idle.
pub proof fn law_ends_are_reported(
    before: ScanState,
    after: ScanState,
    id: Seq<char>,
    result: Result<(), ScanError>,
    r: Option<AgentMessage>,
)
    requires
        finishes(before, after, id, result, r),
    ensures
        after.spec_active() is None,
        after.spec_orchestrator() == before.spec_orchestrator(),
        result is Ok ==> r is None,
        result matches Err(e) ==> (r matches Some(
            AgentMessage::Error { id: echoed, code, message },
        ) && echoed@ == id && code == code_of(e) && message@ == e.text()),
{
}

/// Law: a request to scan that names a scanner starts a scan on the first one listed
/// under that name or id, with the options of the request, under a new scan id that is
/// then the running one; through the sidecar where the scanner is behind it, as long as
/// there is a sidecar.
pub proof fn law_requests_start_their_scan(
    before: ScanState,
    after: ScanState,
    id: Seq<char>,
    options: ScanRequestOptions,
    r: RequestStep,
    k: int,
)
    requires
        answers_start(before, after, id, options, r),
        before.spec_active() is None,
        0 <= k < before.spec_orchestrator().spec_scanners().len(),
        options.scanner_id matches Some(name) && name@.len() > 0 && ({
            let scanners = before.spec_orchestrator().spec_scanners();
            &&& scanners[k].name@ == name@ || scanners[k].id@ == name@
            &&& forall|j: int|
                0 <= j < k ==> (#[trigger] scanners[j]).name@ != name@ && scanners[j].id@ != name@
        }),
    ensures
        ({
            let scanner = before.spec_orchestrator().spec_scanners()[k];
            let path = before.spec_orchestrator().spec_sidecar_path();
            if scanner.source == ScannerSource::Sidecar && path is None {
                &&& r matches RequestStep::Answer(
                    AgentMessage::Error { id: echoed, code, message },
                ) && echoed@ == id && code == ErrorCode::InternalError && message@
                    == "Sidecar error: "@ + "Sidecar not available"@
                &&& after.spec_active() is None
            } else {
                &&& r matches RequestStep::Scan(plan) && plan.request_id@ == id && plan.scanner
                    == scanner && plan.options == options && after.spec_active() == Some(
                    plan.scan_id@,
                ) && is_scan_id(plan.scan_id@) && (scanner.source == ScannerSource::Native
                    ==> plan.sidecar_path is None) && (scanner.source == ScannerSource::Sidecar
                    ==> plan.sidecar_path is Some && plan.sidecar_path.unwrap()@ == path.unwrap()@)
            }
        }),
{
    let scanners = before.spec_orchestrator().spec_scanners();
    let wanted = options.scanner_id.unwrap()@;
    let (scan_id, resolved) = choose|scan_id: Seq<char>, resolved: Result<ScannerInfo, ScanError>|
        #![trigger is_scan_id(scan_id), is_resolved(scanners, options, resolved)]
        is_scan_id(scan_id) && is_resolved(scanners, options, resolved) && starts(
            resolved,
            before.spec_orchestrator().spec_sidecar_path(),
            id,
            options,
            scan_id,
            r,
            after.spec_active(),
        );
    law_requests_name_their_scanner(scanners, options);
    law_listed_scanners_are_found(scanners, wanted, resolved, k);
    if let Ok(info) = resolved {
        let i = choose|i: int|
            0 <= i <= k && info == #[trigger] scanners[i] && forall|j: int|
                0 <= j < i ==> (#[trigger] scanners[j]).name@ != wanted && scanners[j].id@
                    != wanted;
        assert(scanners[i].name@ == wanted || scanners[i].id@ == wanted);
    }
}

/// Law: a request to scan is refused while a scan runs, and that scan goes on; and where
/// no scanner is listed under the name asked for.
pub proof fn law_requests_are_refused(
    before: ScanState,
    after: ScanState,
    id: Seq<char>,
    options: ScanRequestOptions,
    r: RequestStep,
)
    requires
        answers_start(before, after, id, options, r),
    ensures
        before.spec_active() is Some ==> after.spec_active() == before.spec_active() && (
        r matches RequestStep::Answer(AgentMessage::Error { id: echoed, code, message }) && echoed@
            == id && code == ErrorCode::ScannerBusy && message@
            == "A scan is already in progress"@),
        before.spec_active() is None && (options.scanner_id matches Some(name) && name@.len() > 0
            && forall|j: int|
            0 <= j < before.spec_orchestrator().spec_scanners().len() ==> (
            #[trigger] before.spec_orchestrator().spec_scanners()[j]).name@ != name@
                && before.spec_orchestrator().spec_scanners()[j].id@ != name@) ==> (
        r matches RequestStep::Answer(AgentMessage::Error { id: echoed, code, message }) && echoed@
            == id && code == ErrorCode::ScannerNotFound && message@ == "Scanner not found: "@
            + options.scanner_id.unwrap()@ && after.spec_active() is None),
        before.spec_active() is None && before.spec_orchestrator().spec_scanners().len() == 0 && (
        options.scanner_id matches Some(name) ==> name@.len() == 0) ==> (
        r matches RequestStep::Answer(AgentMessage::Error { id: echoed, code, .. }) && echoed@ == id
            && code == ErrorCode::NoScannersAvailable && after.spec_active() is None),
{
    if before.spec_active() is None {
        let scanners = before.spec_orchestrator().spec_scanners();
        let (scan_id, resolved) = choose|
            scan_id: Seq<char>,
            resolved: Result<ScannerInfo, ScanError>,
        |
            #![trigger is_scan_id(scan_id), is_resolved(scanners, options, resolved)]
            is_scan_id(scan_id) && is_resolved(scanners, options, resolved) && starts(
                resolved,
                before.spec_orchestrator().spec_sidecar_path(),
                id,
                options,
                scan_id,
                r,
                after.spec_active(),
            );
        law_requests_name_their_scanner(scanners, options);
        if let Some(name) = options.scanner_id {
            if name@.len() > 0 && (forall|j: int|
                0 <= j < scanners.len() ==> (#[trigger] scanners[j]).name@ != name@
                    && scanners[j].id@ != name@) {
                law_unlisted_scanners_are_not_found(scanners, name@, resolved);
            }
        }
    }
}

/// Law: a request has the id that it came with.
pub proof fn law_requests_have_their_id(message: ClientMessage)
    ensures
        message matches ClientMessage::Ping { id } ==> request_id(message) == id@,
        message matches ClientMessage::ListScanners { id } ==> request_id(message) == id@,
        message matches ClientMessage::StartScan { id, .. } ==> request_id(message) == id@,
        message matches ClientMessage::CancelScan { id, .. } ==> request_id(message) == id@,
{
}

/// Law: the list that a client gets has one entry for each scanner found, in order, each
/// with the scanner's id, name and manufacturer.
pub proof fn law_lists_name_what_was_found(found: Seq<ScannerInfo>, i: int)
    requires
        0 <= i < found.len(),
    ensures
        ({
            let entries = found.map_values(
                |scanner: ScannerInfo| ScannerListEntry::spec_from_scanner(scanner),
            );
            &&& entries.len() == found.len()
            &&& entries[i].id == found[i].id
            &&& entries[i].name == found[i].name
            &&& entries[i].manufacturer == found[i].manufacturer
        }),
{
}

/// Law: a scan id is a random UUID as it is written: groups of 8, 4, 4, 4 and 12 lower-case
/// hexadecimal digits with dashes between them, of version four.
pub proof fn law_scan_ids_are_uuids(text: Seq<char>, i: int)
    requires
        is_scan_id(text),
        0 <= i < text.len(),
    ensures
        text.len() == 36,
        text[i] == '-' <==> i == 8 || i == 13 || i == 18 || i == 23,
        text[i] == '-' || ('0' <= text[i] && text[i] <= '9') || ('a' <= text[i] && text[i] <= 'f'),
        text[14] == '4',
{
}

} // verus!
