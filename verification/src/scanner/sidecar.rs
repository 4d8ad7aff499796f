//! The 32-bit sidecar process, seen from the agent.
//!
//! The agent and the sidecar exchange newline-delimited JSON over the sidecar's
//! stdin and stdout. This module holds the messages, and every decision that
//! managing the process takes; spawning it and moving bytes is the caller's part.

use base64::Engine;
use vstd::prelude::*;
use vstd::string::*;

use crate::scanner::twain::TwainError;
use crate::scanner::{PageData, Resolution, ScanError, ScannerInfo, ScannerSource};
use crate::text::{decimal, join, law_numerals_read_back, push_decimal, reads_as};

verus! {

/// How long the sidecar may take to report that it is ready, in seconds.
pub const STARTUP_TIMEOUT_SECS: u64 = 10;

/// How long one response may take, in seconds. Generous, to account for slow
/// scanners at high resolution.
pub const RESPONSE_TIMEOUT_SECS: u64 = 120;

/// How long the sidecar may take to exit once asked to, in milliseconds.
pub const SHUTDOWN_TIMEOUT_MS: u64 = 5000;

/// How often a sidecar that is to exit is looked at, in milliseconds.
pub const SHUTDOWN_POLL_MS: u64 = 50;

/// Total spawn attempts (1 initial + 2 retries).
pub const SPAWN_RETRY_ATTEMPTS: u32 = 3;

// ---------------------------------------------------------------------------
// Messages
// ---------------------------------------------------------------------------
/// What the agent asks of the sidecar.
#[derive(Debug)]
pub enum SidecarCommand {
    ListScanners,
    Scan {
        scanner_name: String,
        resolution: u32,
        color_mode: String,
        duplex: bool,
        use_adf: bool,
        show_ui: bool,
    },
    Cancel,
    Shutdown,
}

/// What the sidecar answers.
#[derive(Debug)]
pub enum SidecarResponse {
    ScannerList { scanners: Vec<SidecarScannerEntry> },
    ScanProgress { page: u32, status: String },
    /// A page; `data` is its raw bytes in base64.
    ScanPage {
        page: u32,
        width: u32,
        height: u32,
        bits_per_pixel: u16,
        bytes_per_row: u32,
        data: String,
    },
    ScanComplete { total_pages: u32 },
    /// A failure; `fault` is which, where clients are told of it by a code of its own.
    Error { message: String, fault: Option<DeviceFault> },
    Ready,
    Shutdown,
}

/// A failure of the manager or of a source that has a code of its own.
#[derive(Debug)]
pub enum DeviceFault {
    DsmLoadFailed(String),
    PaperJam,
    PaperDoubleFeed,
    CapabilityNotSupported(u16),
}

/// The fault that an error of a session is, if it is one.
pub open spec fn fault_of(e: TwainError) -> Option<DeviceFault> {
    match e {
        TwainError::DsmLoadFailed(e) => Some(DeviceFault::DsmLoadFailed(e)),
        TwainError::PaperJam => Some(DeviceFault::PaperJam),
        TwainError::PaperDoubleFeed => Some(DeviceFault::PaperDoubleFeed),
        TwainError::CapabilityNotSupported(cap) => Some(DeviceFault::CapabilityNotSupported(cap)),
        _ => None,
    }
}

pub fn device_fault(e: TwainError) -> (r: Option<DeviceFault>)
    ensures
        r == fault_of(e),
{
    match e {
        TwainError::DsmLoadFailed(e) => Some(DeviceFault::DsmLoadFailed(e)),
        TwainError::PaperJam => Some(DeviceFault::PaperJam),
        TwainError::PaperDoubleFeed => Some(DeviceFault::PaperDoubleFeed),
        TwainError::CapabilityNotSupported(cap) => Some(DeviceFault::CapabilityNotSupported(cap)),
        _ => None,
    }
}

/// The error that a failure of the sidecar's is for a scan: that of its fault, where
/// it has one, and otherwise the sidecar's own, in its words.
pub open spec fn sidecar_failure(message: String, fault: Option<DeviceFault>) -> ScanError {
    match fault {
        Some(DeviceFault::DsmLoadFailed(e)) => ScanError::Twain(TwainError::DsmLoadFailed(e)),
        Some(DeviceFault::PaperJam) => ScanError::Twain(TwainError::PaperJam),
        Some(DeviceFault::PaperDoubleFeed) => ScanError::Twain(TwainError::PaperDoubleFeed),
        Some(DeviceFault::CapabilityNotSupported(cap)) => ScanError::Twain(
            TwainError::CapabilityNotSupported(cap),
        ),
        None => ScanError::Sidecar(message),
    }
}

/// The error that a failure of the sidecar's is for a scan.
pub fn scan_failure(message: String, fault: Option<DeviceFault>) -> (e: ScanError)
    ensures
        e == sidecar_failure(message, fault),
{
    match fault {
        Some(DeviceFault::DsmLoadFailed(e)) => ScanError::Twain(TwainError::DsmLoadFailed(e)),
        Some(DeviceFault::PaperJam) => ScanError::Twain(TwainError::PaperJam),
        Some(DeviceFault::PaperDoubleFeed) => ScanError::Twain(TwainError::PaperDoubleFeed),
        Some(DeviceFault::CapabilityNotSupported(cap)) => ScanError::Twain(
            TwainError::CapabilityNotSupported(cap),
        ),
        None => ScanError::Sidecar(message),
    }
}

#[derive(Debug)]
pub struct SidecarScannerEntry {
    pub id: String,
    pub name: String,
    pub manufacturer: String,
}

/// Whether a response ends a scan.
pub open spec fn is_terminal(response: SidecarResponse) -> bool {
    response is ScanComplete || response is Error || response is Shutdown
}

/// Whether a response is terminal (scan finished or errored).
pub fn is_sidecar_terminal(response: &SidecarResponse) -> (r: bool)
    ensures
        r == is_terminal(*response),
{
    match response {
        SidecarResponse::ScanComplete { .. } => true,
        SidecarResponse::Error { .. } => true,
        SidecarResponse::Shutdown => true,
        _ => false,
    }
}

// ---------------------------------------------------------------------------
// Page bytes in transit
// ---------------------------------------------------------------------------
/// What the standard base64 engine makes of some bytes.
pub uninterp spec fn base64_text(data: Seq<u8>) -> Seq<char>;

/// What the standard base64 engine reads out of a text: the bytes, or the words
/// in which it says why there are none.
pub uninterp spec fn base64_bytes(text: Seq<char>) -> Result<Seq<u8>, Seq<char>>;

/// `Engine::encode` of `base64::engine::general_purpose::STANDARD`. The text is a
/// function of the bytes alone, and decoding it gives the bytes back: the engine
/// pads what it writes as it demands what it reads to be padded. More bytes than
/// admitted here would encode to a text longer than memory can address.
#[verifier::external_body]
pub(crate) fn base64_encode(data: &Vec<u8>) -> (text: String)
    requires
        data@.len() <= usize::MAX / 8 * 3,
    ensures
        text@ == base64_text(data@),
        base64_bytes(text@) is Ok,
        base64_bytes(text@)->Ok_0 == data@,
{
    base64::engine::general_purpose::STANDARD.encode(data)
}

/// Whether `r` holds the bytes or the complaint that `named` does.
pub open spec fn same_bytes(
    r: Result<Vec<u8>, String>,
    named: Result<Seq<u8>, Seq<char>>,
) -> bool {
    match r {
        Ok(bytes) => named == Ok::<Seq<u8>, Seq<char>>(bytes@),
        Err(text) => named == Err::<Seq<u8>, Seq<char>>(text@),
    }
}

/// `Engine::decode` of `base64::engine::general_purpose::STANDARD`, its error in
/// the words of its `Display`. Both are functions of the text alone.
#[verifier::external_body]
pub(crate) fn base64_decode(text: &str) -> (r: Result<Vec<u8>, String>)
    ensures
        same_bytes(r, base64_bytes(text@)),
{
    base64::engine::general_purpose::STANDARD.decode(text).map_err(|e| e.to_string())
}

// ---------------------------------------------------------------------------
// Faults
// ---------------------------------------------------------------------------
/// What can go wrong between the agent and the sidecar. Details are in the
/// words of whoever reported them.
#[derive(Debug)]
pub enum SidecarFault {
    Spawn(String),
    NoStdout,
    ReaderThread(String),
    NotRunning,
    NoStdin,
    Serialize(String),
    Write(String),
    Flush(String),
    NoReader,
    TimedOut { secs: u64 },
    Disconnected,
    Closed,
    Read(String),
    Malformed(String),
}

impl SidecarFault {
    /// The words that describe this fault.
    pub open spec fn text(self) -> Seq<char> {
        match self {
            SidecarFault::Spawn(e) => "Failed to spawn sidecar: "@ + e@,
            SidecarFault::NoStdout => "Sidecar stdout not available"@,
            SidecarFault::ReaderThread(e) => "Failed to spawn reader thread: "@ + e@,
            SidecarFault::NotRunning => "Sidecar not running"@,
            SidecarFault::NoStdin => "Sidecar stdin not available"@,
            SidecarFault::Serialize(e) => "Serialization error: "@ + e@,
            SidecarFault::Write(e) => "Failed to write to sidecar: "@ + e@,
            SidecarFault::Flush(e) => "Failed to flush sidecar stdin: "@ + e@,
            SidecarFault::NoReader => "Sidecar stdout reader not available"@,
            SidecarFault::TimedOut { secs } => "Sidecar response timed out after "@ + decimal(
                secs as nat,
            ) + "s"@,
            SidecarFault::Disconnected => "Sidecar reader disconnected (process likely crashed)"@,
            SidecarFault::Closed => "Sidecar closed stdout (process exited)"@,
            SidecarFault::Read(e) => "Failed to read from sidecar: "@ + e@,
            SidecarFault::Malformed(e) => "Invalid sidecar response: "@ + e@,
        }
    }

    fn message(&self) -> (s: String)
        ensures
            s@ == self.text(),
    {
        match self {
            SidecarFault::Spawn(e) => join("Failed to spawn sidecar: ", e.as_str()),
            SidecarFault::NoStdout => "Sidecar stdout not available".to_owned(),
            SidecarFault::ReaderThread(e) => join("Failed to spawn reader thread: ", e.as_str()),
            SidecarFault::NotRunning => "Sidecar not running".to_owned(),
            SidecarFault::NoStdin => "Sidecar stdin not available".to_owned(),
            SidecarFault::Serialize(e) => join("Serialization error: ", e.as_str()),
            SidecarFault::Write(e) => join("Failed to write to sidecar: ", e.as_str()),
            SidecarFault::Flush(e) => join("Failed to flush sidecar stdin: ", e.as_str()),
            SidecarFault::NoReader => "Sidecar stdout reader not available".to_owned(),
            SidecarFault::TimedOut { secs } => {
                let mut s = "Sidecar response timed out after ".to_owned();
                push_decimal(&mut s, *secs);
                s.append("s");
                s
            },
            SidecarFault::Disconnected => {
                "Sidecar reader disconnected (process likely crashed)".to_owned()
            },
            SidecarFault::Closed => "Sidecar closed stdout (process exited)".to_owned(),
            SidecarFault::Read(e) => join("Failed to read from sidecar: ", e.as_str()),
            SidecarFault::Malformed(e) => join("Invalid sidecar response: ", e.as_str()),
        }
    }

    /// The scan error that this fault is.
    pub fn into_scan_error(self) -> (e: ScanError)
        ensures
            is_sidecar_error(e, self.text()),
    {
        ScanError::Sidecar(self.message())
    }
}

/// Whether `e` is a sidecar error in these words.
pub open spec fn is_sidecar_error(e: ScanError, words: Seq<char>) -> bool {
    e matches ScanError::Sidecar(m) && m@ == words
}

// ---------------------------------------------------------------------------
// Responses
// ---------------------------------------------------------------------------
/// Whether a freshly spawned sidecar is up, by its first response.
pub fn startup_verdict(response: SidecarResponse) -> (r: Result<(), ScanError>)
    ensures
        match response {
            SidecarResponse::Ready => r == Ok::<(), ScanError>(()),
            SidecarResponse::Error { message, .. } => r matches Err(e) && is_sidecar_error(
                e,
                "Sidecar startup error: "@ + message@,
            ),
            _ => r matches Err(e) && is_sidecar_error(e, "Unexpected sidecar response"@),
        },
{
    match response {
        SidecarResponse::Ready => Ok(()),
        SidecarResponse::Error { message, .. } => Err(
            ScanError::Sidecar(join("Sidecar startup error: ", message.as_str())),
        ),
        _ => Err(ScanError::Sidecar("Unexpected sidecar response".to_owned())),
    }
}

/// What waiting for a line of the sidecar gave.
#[derive(Debug)]
pub enum ReadOutcome {
    /// A line: the response in it, or why there is none.
    Line(Result<SidecarResponse, String>),
    /// The reader gave up.
    Failed(SidecarFault),
    /// Nothing came for so long.
    TimedOut { secs: u64 },
    /// The reader is gone.
    Disconnected,
    /// There is no reader.
    NoReader,
}

/// The response that was waited for, and whether the sidecar is to be killed: one
/// that does not answer in time is.
pub fn read_response(outcome: ReadOutcome) -> (r: (Result<SidecarResponse, ScanError>, bool))
    ensures
        r.1 == outcome is TimedOut,
        match outcome {
            ReadOutcome::Line(Ok(response)) => r.0 == Ok::<SidecarResponse, ScanError>(response),
            ReadOutcome::Line(Err(e)) => r.0 matches Err(error) && is_sidecar_error(
                error,
                SidecarFault::Malformed(e).text(),
            ),
            ReadOutcome::Failed(fault) => r.0 matches Err(error) && is_sidecar_error(
                error,
                fault.text(),
            ),
            ReadOutcome::TimedOut { secs } => r.0 matches Err(error) && is_sidecar_error(
                error,
                (SidecarFault::TimedOut { secs }).text(),
            ),
            ReadOutcome::Disconnected => r.0 matches Err(error) && is_sidecar_error(
                error,
                SidecarFault::Disconnected.text(),
            ),
            ReadOutcome::NoReader => r.0 matches Err(error) && is_sidecar_error(
                error,
                SidecarFault::NoReader.text(),
            ),
        },
{
    match outcome {
        ReadOutcome::Line(Ok(response)) => (Ok(response), false),
        ReadOutcome::Line(Err(e)) => (Err(SidecarFault::Malformed(e).into_scan_error()), false),
        ReadOutcome::Failed(fault) => (Err(fault.into_scan_error()), false),
        ReadOutcome::TimedOut { secs } => (
            Err(SidecarFault::TimedOut { secs }.into_scan_error()),
            true,
        ),
        ReadOutcome::Disconnected => (Err(SidecarFault::Disconnected.into_scan_error()), false),
        ReadOutcome::NoReader => (Err(SidecarFault::NoReader.into_scan_error()), false),
    }
}

/// The scanner that an entry of the sidecar's list presents.
pub open spec fn spec_scanner(entry: SidecarScannerEntry) -> ScannerInfo {
    ScannerInfo {
        id: entry.id,
        name: entry.name,
        manufacturer: entry.manufacturer,
        source: ScannerSource::Sidecar,
    }
}

// ---------------------------------------------------------------------------
// Spawn retry policy
// ---------------------------------------------------------------------------
/// A failed attempt to spawn the sidecar.
///
/// `Retryable` covers transient failures: the process did not spawn, or exited
/// before it was ready. `Permanent` covers failures that trying again won't cure:
/// it was not ready in time, or reported a startup error.
#[derive(Debug)]
pub enum SpawnFailure {
    Retryable(ScanError),
    Permanent(ScanError),
}

/// How long to pause after a failed attempt, in milliseconds.
pub open spec fn spec_backoff_ms(attempt: u32) -> u64 {
    if attempt == 1 {
        250
    } else {
        1000
    }
}

/// Whether an attempt failed for a transient reason.
pub open spec fn is_retryable<T>(outcome: Result<T, SpawnFailure>) -> bool {
    outcome matches Err(SpawnFailure::Retryable(_))
}

/// Whether a run of attempts comes to `r`: it goes on after a transient failure,
/// as often as is allowed, and stops at any other outcome.
pub open spec fn retried<T>(
    outcomes: Seq<Result<T, SpawnFailure>>,
    r: Result<T, ScanError>,
) -> bool {
    &&& 1 <= outcomes.len() <= SPAWN_RETRY_ATTEMPTS
    &&& forall|i: int|
        0 <= i < outcomes.len() - 1 ==> is_retryable(#[trigger] outcomes[i])
    &&& match outcomes.last() {
        Ok(value) => r == Ok::<T, ScanError>(value),
        Err(SpawnFailure::Permanent(e)) => r == Err::<T, ScanError>(e),
        Err(SpawnFailure::Retryable(e)) => outcomes.len() == SPAWN_RETRY_ATTEMPTS && r == Err::<
            T,
            ScanError,
        >(e),
    }
}

/// Run `f` up to `SPAWN_RETRY_ATTEMPTS` times, with the number of the attempt,
/// pausing between attempts. Returns immediately on success or on a permanent
/// failure.
pub fn with_spawn_retry<F, P, T>(f: F, pause: P) -> (r: Result<T, ScanError>) where
    F: Fn(u32) -> Result<T, SpawnFailure>,
    P: Fn(u64),

    requires
        forall|attempt: u32| 1 <= attempt <= SPAWN_RETRY_ATTEMPTS ==> call_requires(f, (attempt,)),
        forall|attempt: u32|
            1 <= attempt < SPAWN_RETRY_ATTEMPTS ==> call_requires(
                pause,
                (#[trigger] spec_backoff_ms(attempt),),
            ),
    ensures
        exists|outcomes: Seq<Result<T, SpawnFailure>>|
            #![trigger retried(outcomes, r)]
            retried(outcomes, r) && (forall|i: int|
                0 <= i < outcomes.len() ==> call_ensures(
                    f,
                    ((i + 1) as u32,),
                    #[trigger] outcomes[i],
                )) && (forall|attempt: u32|
                1 <= attempt < outcomes.len() ==> call_ensures(
                    pause,
                    (#[trigger] spec_backoff_ms(attempt),),
                    (),
                )),
{
    let mut attempt: u32 = 1;
    let ghost mut outcomes: Seq<Result<T, SpawnFailure>> = Seq::empty();
    loop
        invariant
            1 <= attempt <= SPAWN_RETRY_ATTEMPTS,
            outcomes.len() == attempt - 1,
            forall|i: int|
                0 <= i < outcomes.len() ==> is_retryable(#[trigger] outcomes[i]),
            forall|i: int|
                0 <= i < outcomes.len() ==> call_ensures(
                    f,
                    ((i + 1) as u32,),
                    #[trigger] outcomes[i],
                ),
            forall|earlier: u32|
                1 <= earlier < attempt ==> call_ensures(
                    pause,
                    (#[trigger] spec_backoff_ms(earlier),),
                    (),
                ),
            forall|attempt: u32|
                1 <= attempt <= SPAWN_RETRY_ATTEMPTS ==> call_requires(f, (attempt,)),
            forall|attempt: u32|
                1 <= attempt < SPAWN_RETRY_ATTEMPTS ==> call_requires(
                    pause,
                    (#[trigger] spec_backoff_ms(attempt),),
                ),
        decreases SPAWN_RETRY_ATTEMPTS - attempt,
    {
        let outcome = f(attempt);
        proof {
            outcomes = outcomes.push(outcome);
        }
        match outcome {
            Ok(value) => {
                let r = Ok(value);
                assert(retried(outcomes, r));
                return r;
            },
            Err(SpawnFailure::Permanent(e)) => {
                let r = Err(e);
                assert(retried(outcomes, r));
                return r;
            },
            Err(SpawnFailure::Retryable(e)) => {
                if attempt == SPAWN_RETRY_ATTEMPTS {
                    let r = Err(e);
                    assert(retried(outcomes, r));
                    return r;
                }
                assert(call_requires(pause, (spec_backoff_ms(attempt),)));
                if attempt == 1 {
                    pause(250);
                } else {
                    pause(1000);
                }
                attempt += 1;
            },
        }
    }
}

// ---------------------------------------------------------------------------
// Sidecar manager
// ---------------------------------------------------------------------------
/// What the operating system says of the sidecar process.
#[derive(Debug, Clone, Copy, PartialEq, Eq, Structural)]
pub enum ProcessStatus {
    /// None was spawned.
    Absent,
    Running,
    Exited,
    /// It could not be asked.
    Unknown,
}

/// What to do about a sidecar that should be running.
#[derive(Debug, Clone, Copy, PartialEq, Eq, Structural)]
pub enum RunningStep {
    /// Nothing: it runs.
    Keep,
    /// Spawn it.
    Spawn,
    /// Forget the dead one, and spawn it.
    Respawn,
}

/// What to do about a sidecar that was asked to exit.
#[derive(Debug, Clone, Copy, PartialEq, Eq, Structural)]
pub enum ShutdownStep {
    Gone,
    /// Look again in a moment.
    Wait { ms: u64 },
    /// It had its time: kill it.
    Kill,
}

/// How to start the sidecar.
#[derive(Debug)]
pub struct SidecarManager {
    pub sidecar_path: String,
    /// Environment variables set on the sidecar process, in order.
    pub env_overrides: Vec<(String, String)>,
}

impl SidecarManager {
    pub fn new(sidecar_path: String) -> (m: SidecarManager)
        ensures
            m.sidecar_path == sidecar_path,
            m.env_overrides@ == Seq::<(String, String)>::empty(),
    {
        SidecarManager { sidecar_path, env_overrides: Vec::new() }
    }

    /// Add an environment variable that will be set on the sidecar process.
    pub fn with_env(self, key: String, value: String) -> (m: SidecarManager)
        ensures
            m.sidecar_path == self.sidecar_path,
            m.env_overrides@ == self.env_overrides@.push((key, value)),
    {
        let mut m = self;
        m.env_overrides.push((key, value));
        m
    }

    /// The command that starts a scan.
    pub fn start_scan(
        &self,
        scanner_name: String,
        resolution: u32,
        color_mode: String,
        duplex: bool,
        use_adf: bool,
        show_ui: bool,
    ) -> (c: SidecarCommand)
        ensures
            c == (SidecarCommand::Scan {
                scanner_name,
                resolution,
                color_mode,
                duplex,
                use_adf,
                show_ui,
            }),
    {
        SidecarCommand::Scan { scanner_name, resolution, color_mode, duplex, use_adf, show_ui }
    }

    /// The command that cancels a scan.
    pub fn send_cancel(&self) -> (c: SidecarCommand)
        ensures
            c == SidecarCommand::Cancel,
    {
        SidecarCommand::Cancel
    }

    /// Whether the sidecar has to be spawned.
    pub fn ensure_running(&self, status: ProcessStatus) -> (r: RunningStep)
        ensures
            r == (match status {
                ProcessStatus::Running => RunningStep::Keep,
                ProcessStatus::Absent => RunningStep::Spawn,
                _ => RunningStep::Respawn,
            }),
    {
        match status {
            ProcessStatus::Running => RunningStep::Keep,
            ProcessStatus::Absent => RunningStep::Spawn,
            _ => RunningStep::Respawn,
        }
    }

    /// The scanners visible to the sidecar, by its response to a list command.
    pub fn list_scanners(&self, response: SidecarResponse) -> (r: Result<
        Vec<ScannerInfo>,
        ScanError,
    >)
        ensures
            match response {
                SidecarResponse::ScannerList { scanners } => r matches Ok(infos) && infos@
                    == scanners@.map_values(|entry: SidecarScannerEntry| spec_scanner(entry)),
                SidecarResponse::Error { message, .. } => r == Err::<Vec<ScannerInfo>, ScanError>(
                    ScanError::Sidecar(message),
                ),
                _ => r matches Err(e) && is_sidecar_error(e, "Unexpected response"@),
            },
    {
        match response {
            SidecarResponse::ScannerList { scanners } => {
                let ghost given = scanners@;
                let mut infos: Vec<ScannerInfo> = Vec::new();
                let mut i: usize = 0;
                while i < scanners.len()
                    invariant
                        i <= scanners.len(),
                        scanners@ == given,
                        infos@.len() == i,
                        forall|j: int| 0 <= j < i ==> infos@[j] == spec_scanner(given[j]),
                    decreases scanners.len() - i,
                {
                    let entry = &scanners[i];
                    infos.push(
                        ScannerInfo {
                            id: entry.id.clone(),
                            name: entry.name.clone(),
                            manufacturer: entry.manufacturer.clone(),
                            source: ScannerSource::Sidecar,
                        },
                    );
                    i += 1;
                }
                proof {
                    assert(infos@ =~= given.map_values(
                        |entry: SidecarScannerEntry| spec_scanner(entry),
                    ));
                }
                Ok(infos)
            },
            SidecarResponse::Error { message, .. } => Err(ScanError::Sidecar(message)),
            _ => Err(ScanError::Sidecar("Unexpected response".to_owned())),
        }
    }

    /// Whether to go on waiting for a sidecar to exit, this long after it was asked.
    pub fn shutdown(&self, status: ProcessStatus, elapsed_ms: u64) -> (r: ShutdownStep)
        ensures
            r == (match status {
                ProcessStatus::Exited | ProcessStatus::Absent => ShutdownStep::Gone,
                ProcessStatus::Running => if elapsed_ms < SHUTDOWN_TIMEOUT_MS {
                    ShutdownStep::Wait { ms: SHUTDOWN_POLL_MS }
                } else {
                    ShutdownStep::Kill
                },
                ProcessStatus::Unknown => ShutdownStep::Kill,
            }),
    {
        match status {
            ProcessStatus::Exited | ProcessStatus::Absent => ShutdownStep::Gone,
            ProcessStatus::Running => if elapsed_ms < SHUTDOWN_TIMEOUT_MS {
                ShutdownStep::Wait { ms: SHUTDOWN_POLL_MS }
            } else {
                ShutdownStep::Kill
            },
            ProcessStatus::Unknown => ShutdownStep::Kill,
        }
    }
}

// ---------------------------------------------------------------------------
// Scanning through the sidecar
// ---------------------------------------------------------------------------
/// The next thing to do in a scan through the sidecar.
#[derive(Debug)]
pub enum RelayAction {
    /// See to it that the sidecar runs.
    EnsureRunning,
    /// Send the command that starts the scan.
    StartScan,
    /// Send a cancel command.
    SendCancel,
    /// See whether the scan was cancelled.
    CheckCancel,
    /// Read the next response.
    Read,
    /// Shut the sidecar down.
    Shutdown,
    /// The scan is over.
    Finished,
}

/// What came of an action.
#[derive(Debug)]
pub enum RelayEvent {
    /// Of `EnsureRunning`, `StartScan` and `SendCancel`.
    Done(Result<(), ScanError>),
    /// Of `CheckCancel`.
    Cancel(bool),
    /// Of `Read`.
    Response(Result<SidecarResponse, ScanError>),
    /// Of `Shutdown`.
    ShutDown,
}

/// Where a scan through the sidecar stands.
#[derive(Debug)]
pub enum RelayPhase {
    Start,
    Command,
    CheckCancel,
    Read,
    Cancel,
    /// Cancelled: reading until the sidecar is done with the scan.
    Drain,
    Shutdown(Result<(), ScanError>),
    Done(Result<(), ScanError>),
}

/// One scan through the sidecar: hands on the pages it sends.
#[derive(Debug)]
pub struct SidecarScan {
    pub resolution: u32,
    pub phase: RelayPhase,
}

/// Whether `page` is what the sidecar sent, its bytes being `bytes`. The sidecar
/// scans at the resolution asked for.
pub open spec fn is_relayed(
    page: PageData,
    number: u32,
    width: u32,
    height: u32,
    bits_per_pixel: u16,
    bytes_per_row: u32,
    resolution: u32,
    bytes: Seq<u8>,
) -> bool {
    &&& page.page_number == number
    &&& page.width == width
    &&& page.height == height
    &&& page.bits_per_pixel == bits_per_pixel
    &&& page.dpi_x == Resolution::Whole(resolution)
    &&& page.dpi_y == Resolution::Whole(resolution)
    &&& page.bytes_per_row == bytes_per_row
    &&& page.raw_data@ == bytes
}

/// The page that the sidecar sent, given what decoding its bytes gave.
pub fn relay_page(
    number: u32,
    width: u32,
    height: u32,
    bits_per_pixel: u16,
    bytes_per_row: u32,
    resolution: u32,
    decoded: Result<Vec<u8>, String>,
) -> (r: Result<PageData, ScanError>)
    ensures
        match decoded {
            Ok(bytes) => r matches Ok(page) && is_relayed(
                page,
                number,
                width,
                height,
                bits_per_pixel,
                bytes_per_row,
                resolution,
                bytes@,
            ),
            Err(text) => r matches Err(e) && is_sidecar_error(
                e,
                "Base64 decode error: "@ + text@,
            ),
        },
{
    match decoded {
        Ok(bytes) => Ok(
            PageData {
                page_number: number,
                width,
                height,
                bits_per_pixel,
                dpi_x: Resolution::Whole(resolution),
                dpi_y: Resolution::Whole(resolution),
                bytes_per_row,
                raw_data: bytes,
            },
        ),
        Err(text) => Err(ScanError::Sidecar(join("Base64 decode error: ", text.as_str()))),
    }
}

/// Where a scan goes from a phase when `event` is what came of its action, and
/// the page that it hands on.
pub open spec fn relay_step(
    phase: RelayPhase,
    event: RelayEvent,
    resolution: u32,
    next: RelayPhase,
    page: Option<PageData>,
) -> bool {
    match (phase, event) {
        (
            RelayPhase::Read,
            RelayEvent::Response(
                Ok(
                    SidecarResponse::ScanPage {
                        page: number,
                        width,
                        height,
                        bits_per_pixel,
                        bytes_per_row,
                        data,
                    },
                ),
            ),
        ) => match base64_bytes(data@) {
            Ok(bytes) => page matches Some(p) && next == RelayPhase::CheckCancel && is_relayed(
                p,
                number,
                width,
                height,
                bits_per_pixel,
                bytes_per_row,
                resolution,
                bytes,
            ),
            Err(text) => next matches RelayPhase::Shutdown(Err(e)) && page is None
                && is_sidecar_error(e, "Base64 decode error: "@ + text),
        },
        _ => page is None && next == relay_phase(phase, event),
    }
}

/// Where a scan goes from a phase when `event` is what came of its action, other
/// than a page.
pub open spec fn relay_phase(phase: RelayPhase, event: RelayEvent) -> RelayPhase {
    match (phase, event) {
        (RelayPhase::Done(verdict), _) => RelayPhase::Done(verdict),
        (RelayPhase::Start, RelayEvent::Done(Ok(()))) => RelayPhase::Command,
        (RelayPhase::Start, RelayEvent::Done(Err(e))) => RelayPhase::Shutdown(Err(e)),
        (RelayPhase::Command, RelayEvent::Done(Ok(()))) => RelayPhase::CheckCancel,
        (RelayPhase::Command, RelayEvent::Done(Err(e))) => RelayPhase::Shutdown(Err(e)),
        (RelayPhase::CheckCancel, RelayEvent::Cancel(cancelled)) => if cancelled {
            RelayPhase::Cancel
        } else {
            RelayPhase::Read
        },
        (RelayPhase::Read, RelayEvent::Response(Ok(SidecarResponse::ScanComplete { .. }))) => {
            RelayPhase::Shutdown(Ok(()))
        },
        (
            RelayPhase::Read,
            RelayEvent::Response(Ok(SidecarResponse::Error { message, fault })),
        ) => RelayPhase::Shutdown(Err(sidecar_failure(message, fault))),
        (RelayPhase::Read, RelayEvent::Response(Ok(_))) => RelayPhase::CheckCancel,
        (RelayPhase::Read, RelayEvent::Response(Err(e))) => RelayPhase::Shutdown(Err(e)),
        (RelayPhase::Cancel, RelayEvent::Done(_)) => RelayPhase::Drain,
        (RelayPhase::Drain, RelayEvent::Response(Ok(response))) => if is_terminal(response) {
            RelayPhase::Shutdown(Err(ScanError::Cancelled))
        } else {
            RelayPhase::Drain
        },
        (RelayPhase::Drain, RelayEvent::Response(Err(_))) => RelayPhase::Shutdown(
            Err(ScanError::Cancelled),
        ),
        (RelayPhase::Shutdown(verdict), RelayEvent::ShutDown) => RelayPhase::Done(verdict),
        (RelayPhase::Shutdown(verdict), _) => RelayPhase::Shutdown(verdict),
        _ => RelayPhase::Shutdown(Err(ScanError::Twain(TwainError::InvalidState))),
    }
}

impl SidecarScan {
    /// Scan at this resolution.
    pub fn new(resolution: u32) -> (s: SidecarScan)
        ensures
            s.resolution == resolution,
            s.phase == RelayPhase::Start,
    {
        SidecarScan { resolution, phase: RelayPhase::Start }
    }

    pub open spec fn spec_action(self) -> RelayAction {
        match self.phase {
            RelayPhase::Start => RelayAction::EnsureRunning,
            RelayPhase::Command => RelayAction::StartScan,
            RelayPhase::CheckCancel => RelayAction::CheckCancel,
            RelayPhase::Read => RelayAction::Read,
            RelayPhase::Cancel => RelayAction::SendCancel,
            RelayPhase::Drain => RelayAction::Read,
            RelayPhase::Shutdown(_) => RelayAction::Shutdown,
            RelayPhase::Done(_) => RelayAction::Finished,
        }
    }

    /// What to do next.
    pub fn action(&self) -> (r: RelayAction)
        ensures
            r == self.spec_action(),
    {
        match &self.phase {
            RelayPhase::Start => RelayAction::EnsureRunning,
            RelayPhase::Command => RelayAction::StartScan,
            RelayPhase::CheckCancel => RelayAction::CheckCancel,
            RelayPhase::Read => RelayAction::Read,
            RelayPhase::Cancel => RelayAction::SendCancel,
            RelayPhase::Drain => RelayAction::Read,
            RelayPhase::Shutdown(_) => RelayAction::Shutdown,
            RelayPhase::Done(_) => RelayAction::Finished,
        }
    }

    /// Take in what came of the action.
    pub fn advance(self, event: RelayEvent) -> (r: (SidecarScan, Option<PageData>))
        ensures
            r.0.resolution == self.resolution,
            relay_step(self.phase, event, self.resolution, r.0.phase, r.1),
    {
        let resolution = self.resolution;
        let mut page: Option<PageData> = None;
        let phase = match (self.phase, event) {
            (RelayPhase::Done(verdict), _) => RelayPhase::Done(verdict),
            (RelayPhase::Start, RelayEvent::Done(Ok(()))) => RelayPhase::Command,
            (RelayPhase::Start, RelayEvent::Done(Err(e))) => RelayPhase::Shutdown(Err(e)),
            (RelayPhase::Command, RelayEvent::Done(Ok(()))) => RelayPhase::CheckCancel,
            (RelayPhase::Command, RelayEvent::Done(Err(e))) => RelayPhase::Shutdown(Err(e)),
            (RelayPhase::CheckCancel, RelayEvent::Cancel(cancelled)) => if cancelled {
                RelayPhase::Cancel
            } else {
                RelayPhase::Read
            },
            (
                RelayPhase::Read,
                RelayEvent::Response(
                    Ok(
                        SidecarResponse::ScanPage {
                            page: number,
                            width,
                            height,
                            bits_per_pixel,
                            bytes_per_row,
                            data,
                        },
                    ),
                ),
            ) => {
                let decoded = base64_decode(data.as_str());
                match relay_page(
                    number,
                    width,
                    height,
                    bits_per_pixel,
                    bytes_per_row,
                    resolution,
                    decoded,
                ) {
                    Ok(relayed) => {
                        page = Some(relayed);
                        RelayPhase::CheckCancel
                    },
                    Err(e) => RelayPhase::Shutdown(Err(e)),
                }
            },
            (RelayPhase::Read, RelayEvent::Response(Ok(SidecarResponse::ScanComplete { .. }))) => {
                RelayPhase::Shutdown(Ok(()))
            },
            (
                RelayPhase::Read,
                RelayEvent::Response(Ok(SidecarResponse::Error { message, fault })),
            ) => RelayPhase::Shutdown(Err(scan_failure(message, fault))),
            (RelayPhase::Read, RelayEvent::Response(Ok(_))) => RelayPhase::CheckCancel,
            (RelayPhase::Read, RelayEvent::Response(Err(e))) => RelayPhase::Shutdown(Err(e)),
            (RelayPhase::Cancel, RelayEvent::Done(_)) => RelayPhase::Drain,
            (RelayPhase::Drain, RelayEvent::Response(Ok(response))) => {
                if is_sidecar_terminal(&response) {
                    RelayPhase::Shutdown(Err(ScanError::Cancelled))
                } else {
                    RelayPhase::Drain
                }
            },
            (RelayPhase::Drain, RelayEvent::Response(Err(_))) => RelayPhase::Shutdown(
                Err(ScanError::Cancelled),
            ),
            (RelayPhase::Shutdown(verdict), RelayEvent::ShutDown) => RelayPhase::Done(verdict),
            (RelayPhase::Shutdown(verdict), _) => RelayPhase::Shutdown(verdict),
            _ => RelayPhase::Shutdown(Err(ScanError::Twain(TwainError::InvalidState))),
        };
        (SidecarScan { resolution, phase }, page)
    }
}

/// Law: a scan through the sidecar ends only by shutting the sidecar down, with
/// the verdict it had before; and once a scan is cancelled no page is handed on.
pub proof fn law_relay_ends_in_shutdown(
    phase: RelayPhase,
    event: RelayEvent,
    resolution: u32,
    next: RelayPhase,
    page: Option<PageData>,
)
    requires
        relay_step(phase, event, resolution, next, page),
    ensures
        next matches RelayPhase::Done(verdict) ==> phase == RelayPhase::Done(verdict) || (phase
            == RelayPhase::Shutdown(verdict) && event is ShutDown),
        phase is Cancel || phase is Drain ==> page is None && (next is Drain || next is Shutdown),
{
}

/// Law: a scan through the sidecar that is cancelled asks the sidecar to cancel, reads
/// until the sidecar is done with the scan, and ends as cancelled, whatever the
/// sidecar answered; it never succeeds.
pub proof fn law_cancelled_relay_ends_so(
    phase: RelayPhase,
    event: RelayEvent,
    resolution: u32,
    next: RelayPhase,
    page: Option<PageData>,
)
    requires
        relay_step(phase, event, resolution, next, page),
    ensures
        phase is CheckCancel && event == RelayEvent::Cancel(true) ==> next is Cancel,
        phase is Cancel && event is Done ==> next is Drain,
        phase is Drain && event is Response ==> next is Drain || next == RelayPhase::Shutdown(
            Err(ScanError::Cancelled),
        ),
        phase is Cancel || phase is Drain ==> next is Drain || (next matches RelayPhase::Shutdown(
            verdict,
        ) && verdict is Err),
        phase matches RelayPhase::Shutdown(verdict) ==> next == RelayPhase::Shutdown(verdict)
            || next == RelayPhase::Done(verdict),
{
}

/// Law: a page that the sidecar sends, and that can be decoded, is handed on: under its
/// number, with its size, depth and stride, at the resolution asked for, and with the
/// bytes it was sent with. One that cannot be decoded ends the scan.
pub proof fn law_pages_are_handed_on(
    phase: RelayPhase,
    number: u32,
    width: u32,
    height: u32,
    bits_per_pixel: u16,
    bytes_per_row: u32,
    data: String,
    resolution: u32,
    next: RelayPhase,
    page: Option<PageData>,
)
    requires
        phase is Read,
        relay_step(
            phase,
            RelayEvent::Response(
                Ok(
                    SidecarResponse::ScanPage {
                        page: number,
                        width,
                        height,
                        bits_per_pixel,
                        bytes_per_row,
                        data,
                    },
                ),
            ),
            resolution,
            next,
            page,
        ),
    ensures
        base64_bytes(data@) matches Ok(bytes) ==> {
            &&& next is CheckCancel
            &&& page matches Some(p) && p.page_number == number && p.width == width && p.height
                == height && p.bits_per_pixel == bits_per_pixel && p.bytes_per_row == bytes_per_row
                && p.dpi_x == Resolution::Whole(resolution) && p.dpi_y == Resolution::Whole(
                resolution,
            ) && p.raw_data@ == bytes
        },
        base64_bytes(data@) matches Err(words) ==> page is None && (
        next matches RelayPhase::Shutdown(Err(ScanError::Sidecar(m))) && m@
            == "Base64 decode error: "@ + words),
{
}

/// Law: a scan through the sidecar does one thing after the other: it starts the sidecar,
/// then the scan, and then, until the scan ends, reads one response after another, each
/// time looking first whether the scan was cancelled. It hands on nothing but pages.
pub proof fn law_relay_goes_on(
    phase: RelayPhase,
    event: RelayEvent,
    resolution: u32,
    next: RelayPhase,
    page: Option<PageData>,
)
    requires
        relay_step(phase, event, resolution, next, page),
    ensures
        phase is Start && (event matches RelayEvent::Done(Ok(()))) ==> next is Command,
        phase is Command && (event matches RelayEvent::Done(Ok(()))) ==> next is CheckCancel,
        phase is CheckCancel && event == RelayEvent::Cancel(false) ==> next is Read,
        phase is CheckCancel && event == RelayEvent::Cancel(true) ==> next is Cancel,
        phase is Read && (event matches RelayEvent::Response(
            Ok(SidecarResponse::ScanProgress { .. }),
        )) ==> next is CheckCancel,
        phase is Read && (event matches RelayEvent::Response(
            Ok(SidecarResponse::ScanComplete { .. }),
        )) ==> next == RelayPhase::Shutdown(Ok(())),
        phase is Start || phase is Command ==> (event matches RelayEvent::Done(Err(e)) ==> next
            == RelayPhase::Shutdown(Err(e))),
        phase is Read ==> (event matches RelayEvent::Response(Err(e)) ==> next
            == RelayPhase::Shutdown(Err(e))),
        phase is Drain ==> (event matches RelayEvent::Response(Ok(response)) ==> (next is Drain
            <==> !(response is ScanComplete || response is Error || response is Shutdown))),
        page is Some ==> phase is Read && (event matches RelayEvent::Response(
            Ok(SidecarResponse::ScanPage { .. }),
        )),
{
}

/// Law: what a scan through the sidecar does next is what its phase is for.
pub proof fn law_relay_acts_by_its_phase(scan: SidecarScan)
    ensures
        scan.phase is Start <==> scan.spec_action() is EnsureRunning,
        scan.phase is Command <==> scan.spec_action() is StartScan,
        scan.phase is CheckCancel <==> scan.spec_action() is CheckCancel,
        scan.phase is Read || scan.phase is Drain <==> scan.spec_action() is Read,
        scan.phase is Cancel <==> scan.spec_action() is SendCancel,
        scan.phase is Shutdown <==> scan.spec_action() is Shutdown,
        scan.phase is Done <==> scan.spec_action() is Finished,
{
}

/// Law: a failure that has a code of its own keeps it on its way through the sidecar:
/// what the sidecar says went wrong is, for the agent, the error it was; any other is
/// told in the sidecar's words.
pub proof fn law_faults_come_back_as_errors(e: TwainError, message: String)
    ensures
        fault_of(e) is Some <==> e is DsmLoadFailed || e is PaperJam || e is PaperDoubleFeed || e
            is CapabilityNotSupported,
        fault_of(e) is Some ==> sidecar_failure(message, fault_of(e)) == ScanError::Twain(e),
        fault_of(e) is None ==> sidecar_failure(message, fault_of(e)) == ScanError::Sidecar(
            message,
        ),
{
}

/// Law: a scan is over, for the sidecar, with its completion, an error or a shutdown, and
/// with nothing else.
pub proof fn law_responses_that_end_a_scan(response: SidecarResponse)
    ensures
        is_terminal(response) <==> !(response is ScannerList || response is ScanProgress || response
            is ScanPage || response is Ready),
{
}

/// Law: spawning is tried three times at most, again only after a transient failure, and
/// comes to what the last attempt came to.
pub proof fn law_spawning_is_tried_again<T>(
    outcomes: Seq<Result<T, SpawnFailure>>,
    r: Result<T, ScanError>,
)
    requires
        retried(outcomes, r),
    ensures
        1 <= outcomes.len() <= 3,
        forall|i: int|
            0 <= i < outcomes.len() - 1 ==> (#[trigger] outcomes[i] matches Err(
                SpawnFailure::Retryable(_),
            )),
        outcomes.last() matches Ok(value) ==> r == Ok::<T, ScanError>(value),
        outcomes.last() matches Err(SpawnFailure::Permanent(e)) ==> r == Err::<T, ScanError>(e),
        outcomes.last() matches Err(SpawnFailure::Retryable(e)) ==> outcomes.len() == 3 && r
            == Err::<T, ScanError>(e),
{
    assert forall|i: int| 0 <= i < outcomes.len() - 1 implies (
    #[trigger] outcomes[i] matches Err(SpawnFailure::Retryable(_))) by {
        assert(is_retryable(outcomes[i]));
    }
}

/// Law: the pause after the first attempt is a quarter of a second, and after others a
/// second.
pub proof fn law_pauses_grow(attempt: u32)
    ensures
        spec_backoff_ms(1) == 250,
        attempt != 1 ==> spec_backoff_ms(attempt) == 1000,
{
}

/// Law: what goes wrong with the sidecar is told in the words of whoever found it; of one
/// that does not answer it is told how long that was waited for.
pub proof fn law_sidecar_faults_are_told(fault: SidecarFault) -> (digits: Seq<char>)
    ensures
        fault matches SidecarFault::Spawn(e) ==> fault.text() == "Failed to spawn sidecar: "@ + e@,
        fault matches SidecarFault::ReaderThread(e) ==> fault.text()
            == "Failed to spawn reader thread: "@ + e@,
        fault matches SidecarFault::Serialize(e) ==> fault.text() == "Serialization error: "@ + e@,
        fault matches SidecarFault::Write(e) ==> fault.text() == "Failed to write to sidecar: "@
            + e@,
        fault matches SidecarFault::Flush(e) ==> fault.text() == "Failed to flush sidecar stdin: "@
            + e@,
        fault matches SidecarFault::Read(e) ==> fault.text() == "Failed to read from sidecar: "@
            + e@,
        fault matches SidecarFault::Malformed(e) ==> fault.text() == "Invalid sidecar response: "@
            + e@,
        fault matches SidecarFault::TimedOut { secs } ==> fault.text()
            == "Sidecar response timed out after "@ + digits + "s"@ && reads_as(digits, 10) == Some(
            secs as nat,
        ),
{
    if let SidecarFault::TimedOut { secs } = fault {
        law_numerals_read_back(secs as nat, 10, 1);
        decimal(secs as nat)
    } else {
        Seq::empty()
    }
}

/// Law: a scanner behind the sidecar goes by the id, name and manufacturer that the
/// sidecar lists it with, and is known to be behind it; an outcome in bytes holds those
/// bytes, and one in words those words.
pub proof fn law_sidecar_entries_are_scanners(
    entry: SidecarScannerEntry,
    r: Result<Vec<u8>, String>,
    named: Result<Seq<u8>, Seq<char>>,
)
    ensures
        spec_scanner(entry).id == entry.id,
        spec_scanner(entry).name == entry.name,
        spec_scanner(entry).manufacturer == entry.manufacturer,
        spec_scanner(entry).source == ScannerSource::Sidecar,
        same_bytes(r, named) ==> (named matches Ok(bytes) ==> r is Ok && r->Ok_0@ == bytes),
        same_bytes(r, named) ==> (named matches Err(words) ==> r is Err && r->Err_0@ == words),
{
}

/// Law: an error of the sidecar carries its words and no others.
pub proof fn law_sidecar_errors_carry_their_words(e: ScanError, words: Seq<char>)
    ensures
        is_sidecar_error(e, words) <==> (e matches ScanError::Sidecar(m) && m@ == words),
{
}

} // verus!
