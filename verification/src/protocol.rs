//! WebSocket message protocol types.
//!
//! All communication between a client and the agent uses JSON messages over
//! WebSocket, and binary frames for page images and documents. Each message has a
//! type, and a correlation `id` for matching responses to requests.

use vstd::prelude::*;
use vstd::string::*;

use crate::scanner::twain::{ColorMode, SourceInfo};
use crate::scanner::ScannerInfo;
use crate::text::{decimal, decimal_string};

verus! {

// ---------------------------------------------------------------------------
// Client -> agent messages
// ---------------------------------------------------------------------------
#[derive(Debug)]
pub enum ClientMessage {
    ListScanners { id: String },
    StartScan { id: String, options: ScanRequestOptions },
    CancelScan { id: String, scan_id: String },
    Ping { id: String },
}

#[derive(Debug)]
pub struct ScanRequestOptions {
    /// Scanner name to use. If empty or absent, uses the default scanner.
    pub scanner_id: Option<String>,
    pub resolution: u32,
    pub color_mode: ColorMode,
    pub duplex: bool,
    pub use_adf: bool,
    pub format: OutputFormat,
    pub show_scanner_ui: bool,
}

impl Default for ScanRequestOptions {
    /// The options of a request that names none.
    fn default() -> (r: Self)
        ensures
            r.scanner_id is None,
            r.resolution == 300,
            r.color_mode == ColorMode::Color,
            !r.duplex,
            !r.use_adf,
            r.format == OutputFormat::Pdf,
            !r.show_scanner_ui,
    {
        ScanRequestOptions {
            scanner_id: None,
            resolution: 300,
            color_mode: ColorMode::Color,
            duplex: false,
            use_adf: false,
            format: OutputFormat::Pdf,
            show_scanner_ui: false,
        }
    }
}

#[derive(Debug, Clone, Copy, PartialEq, Eq, Structural)]
pub enum OutputFormat {
    Pdf,
    Png,
    Jpeg,
}

// ---------------------------------------------------------------------------
// Agent -> client messages
// ---------------------------------------------------------------------------
#[derive(Debug)]
pub enum AgentMessage {
    ScannerList { id: String, scanners: Vec<ScannerListEntry> },
    ScanProgress { id: String, scan_id: String, page: u32, status: ScanStatus },
    /// Announces a payload that follows as binary frames. `kind` is "page",
    /// "thumbnail" or "pdf"; only the first two belong to a page.
    BinaryStart {
        id: String,
        scan_id: String,
        kind: String,
        page: Option<u32>,
        mime: String,
        total_bytes: usize,
    },
    ScanComplete { id: String, scan_id: String, total_pages: u32 },
    Error { id: String, code: ErrorCode, message: String },
    Pong { id: String },
    ServerShutdown,
    DeepLink { url: String, action: Option<String>, params: Vec<(String, String)> },
}

#[derive(Debug)]
pub struct ScannerListEntry {
    pub id: String,
    pub name: String,
    pub manufacturer: String,
}

impl ScannerListEntry {
    /// The entry of a native source.
    pub fn from_source(source: SourceInfo) -> (e: ScannerListEntry)
        ensures
            e.id@ == decimal(source.id as nat),
            e.name == source.name,
            e.manufacturer == source.manufacturer,
    {
        ScannerListEntry {
            id: decimal_string(source.id as u64),
            name: source.name,
            manufacturer: source.manufacturer,
        }
    }

    pub open spec fn spec_from_scanner(scanner: ScannerInfo) -> ScannerListEntry {
        ScannerListEntry {
            id: scanner.id,
            name: scanner.name,
            manufacturer: scanner.manufacturer,
        }
    }

    /// The entry of a discovered scanner.
    pub fn from_scanner(scanner: &ScannerInfo) -> (e: ScannerListEntry)
        ensures
            e == Self::spec_from_scanner(*scanner),
    {
        ScannerListEntry {
            id: scanner.id.clone(),
            name: scanner.name.clone(),
            manufacturer: scanner.manufacturer.clone(),
        }
    }
}

#[derive(Debug, Clone, Copy, PartialEq, Eq, Structural)]
pub enum ScanStatus {
    Scanning,
    Processing,
    Complete,
}

#[derive(Debug, Clone, Copy, PartialEq, Eq, Structural)]
pub enum ErrorCode {
    ScannerNotFound,
    ScannerBusy,
    ScanCancelled,
    PaperJam,
    PaperDoubleFeed,
    TwainNotInstalled,
    NoScannersAvailable,
    InternalError,
    InvalidRequest,
    CapabilityNotSupported,
    DiscoveryTimeout,
    ImageConversionError,
    PdfGenerationError,
}

// ---------------------------------------------------------------------------
// What a message says
// ---------------------------------------------------------------------------
impl AgentMessage {
    /// The correlation id that a message echoes, where it answers a request.
    pub open spec fn answers(self) -> Option<Seq<char>> {
        match self {
            AgentMessage::ScannerList { id, .. } => Some(id@),
            AgentMessage::ScanProgress { id, .. } => Some(id@),
            AgentMessage::BinaryStart { id, .. } => Some(id@),
            AgentMessage::ScanComplete { id, .. } => Some(id@),
            AgentMessage::Error { id, .. } => Some(id@),
            AgentMessage::Pong { id } => Some(id@),
            AgentMessage::ServerShutdown => None,
            AgentMessage::DeepLink { .. } => None,
        }
    }

    /// Whether this reports an error.
    pub open spec fn is_error(self, id: Seq<char>, code: ErrorCode, words: Seq<char>) -> bool {
        self matches AgentMessage::Error { id: i, code: c, message } && i@ == id && c == code
            && message@ == words
    }

    /// Whether this reports progress.
    pub open spec fn is_progress(
        self,
        id: Seq<char>,
        scan_id: Seq<char>,
        number: u32,
        state: ScanStatus,
    ) -> bool {
        self matches AgentMessage::ScanProgress { id: i, scan_id: s, page, status } && i@ == id
            && s@ == scan_id && page == number && status == state
    }

    /// Whether this announces a payload.
    pub open spec fn is_binary_start(
        self,
        id: Seq<char>,
        scan_id: Seq<char>,
        what: Seq<char>,
        number: Option<u32>,
        media: Seq<char>,
        len: nat,
    ) -> bool {
        self matches AgentMessage::BinaryStart { id: i, scan_id: s, kind, page, mime, total_bytes }
            && i@ == id && s@ == scan_id && kind@ == what && page == number && mime@ == media
            && total_bytes == len
    }
}

/// Law: whatever a scan reports, an error, its progress or a payload, echoes the id
/// of the request that it is told to answer.
pub proof fn law_reports_echo_their_request(
    m: AgentMessage,
    id: Seq<char>,
    scan_id: Seq<char>,
    code: ErrorCode,
    words: Seq<char>,
    number: u32,
    state: ScanStatus,
    what: Seq<char>,
    page: Option<u32>,
    media: Seq<char>,
    len: nat,
)
    ensures
        m.is_error(id, code, words) ==> m.answers() == Some(id),
        m.is_progress(id, scan_id, number, state) ==> m.answers() == Some(id),
        m.is_binary_start(id, scan_id, what, page, media, len) ==> m.answers() == Some(id),
{
}

/// Law: a report says what it is told to say, part by part: an error its code and
/// words, progress its page and status, an announcement what follows and how much of it.
pub proof fn law_reports_say_what_they_are_told(
    id: String,
    scan_id: String,
    code: ErrorCode,
    message: String,
    page: u32,
    status: ScanStatus,
    kind: String,
    of: Option<u32>,
    mime: String,
    total_bytes: usize,
    report: AgentMessage,
)
    ensures
        report.is_error(id@, code, message@) <==> (report matches AgentMessage::Error {
            id: a,
            code: b,
            message: c,
        } && a@ == id@ && b == code && c@ == message@),
        report.is_progress(id@, scan_id@, page, status) <==> (
        report matches AgentMessage::ScanProgress { id: a, scan_id: b, page: c, status: d } && a@
            == id@ && b@ == scan_id@ && c == page && d == status),
        report.is_binary_start(id@, scan_id@, kind@, of, mime@, total_bytes as nat) <==> (
        report matches AgentMessage::BinaryStart {
            id: a,
            scan_id: b,
            kind: c,
            page: d,
            mime: e,
            total_bytes: f,
        } && a@ == id@ && b@ == scan_id@ && c@ == kind@ && d == of && e@ == mime@ && f
            == total_bytes),
{
}

/// Law: reports that are alike say the same: none is of two ids, two codes, two pages
/// or two payloads.
pub proof fn law_reports_are_of_one_thing(
    m: AgentMessage,
    id: Seq<char>,
    scan_id: Seq<char>,
    number: u32,
    status: ScanStatus,
    other_id: Seq<char>,
    other_scan_id: Seq<char>,
    other_number: u32,
    other_status: ScanStatus,
)
    requires
        m.is_progress(id, scan_id, number, status),
        m.is_progress(other_id, other_scan_id, other_number, other_status),
    ensures
        id == other_id && scan_id == other_scan_id && number == other_number && status
            == other_status,
{
}

/// Law: every message that answers a request carries its id; a shutdown and a link
/// answer none.
pub proof fn law_answers_carry_the_id(m: AgentMessage)
    ensures
        m matches AgentMessage::ScannerList { id, .. } ==> m.answers() == Some(id@),
        m matches AgentMessage::ScanComplete { id, .. } ==> m.answers() == Some(id@),
        m matches AgentMessage::Pong { id } ==> m.answers() == Some(id@),
        m.answers() is None <==> m is ServerShutdown || m is DeepLink,
{
}

/// Law: a scanner is listed with its own id, name and manufacturer.
pub proof fn law_entries_are_the_scanners(scanner: ScannerInfo)
    ensures
        ScannerListEntry::spec_from_scanner(scanner).id == scanner.id,
        ScannerListEntry::spec_from_scanner(scanner).name == scanner.name,
        ScannerListEntry::spec_from_scanner(scanner).manufacturer == scanner.manufacturer,
{
}

} // verus!
