//! Delivering a scan to its client, from the first page to the last message.
//!
//! Pages arrive from a scanner while earlier ones are on their way to the client.
//! Waiting, sending, and the temporary file of a document are the caller's part: a
//! delivery says what to do, and is told what came of it.

use vstd::prelude::*;
use vstd::string::*;

use crate::pdf::{added, assembled, header_bytes, PageView, PdfWriter};
use crate::protocol::{AgentMessage, OutputFormat, ScanStatus};
use crate::scanner::run::{
    client_gone, is_pdf_error, producer_verdict, until_cancelled, DocumentFault, PaperSize,
    ProducerEnd, RenderedPage, ScanRun,
};
use crate::scanner::sidecar::is_sidecar_error;
use crate::scanner::twain::TwainError;
use crate::scanner::{PageData, ScanError, ScannerSource};
use crate::ws_server::{frame_len, send_binary, OutgoingMessage};

verus! {

/// The next thing to do for a delivery.
#[derive(Debug)]
pub enum DeliveryAction {
    /// Create the document's file, in a directory of its own, with these bytes.
    Create(Vec<u8>),
    /// Wait for the next page, or for there to be none.
    Receive,
    /// Send this to the client, unless the scan is cancelled before it goes out.
    Send(OutgoingMessage),
    /// Append these bytes to the document's file.
    Append(Vec<u8>),
    /// Append these bytes to the document's file, close it, and read all of it.
    Close(Vec<u8>),
    /// Take no more pages, and wait for the side that produces them to end.
    Join,
    /// The delivery is over. What is left of its document goes with it.
    Finished(Result<(), ScanError>),
}

/// What became of something to send.
#[derive(Debug, Clone, Copy, PartialEq, Eq, Structural)]
pub enum SendOutcome {
    Delivered,
    /// The scan was cancelled before it went out.
    Cancelled,
    /// The client is gone.
    Gone,
}

/// What came of an action.
#[derive(Debug)]
pub enum DeliveryEvent {
    /// Of `Create` and `Append`.
    Written(Result<(), DocumentFault>),
    /// Of `Receive`: a page, its size on paper, and whether the scan was cancelled
    /// by then.
    Page { page: PageData, size: PaperSize, cancelled: bool },
    /// Of `Receive`.
    NoMorePages,
    /// Of `Send`.
    Sent(SendOutcome),
    /// Of `Close`.
    ReadBack(Result<Vec<u8>, DocumentFault>),
    /// Of `Join`.
    Joined(ProducerEnd),
}

/// Where a delivery stands: what it waits for.
#[derive(Debug)]
pub enum DeliveryPhase {
    Create,
    Receive,
    /// The page was announced as being scanned.
    Begin(PageData, PaperSize),
    /// The page went into the document; next come its announcement and payload.
    Append(AgentMessage, Vec<u8>),
    /// This payload was announced; whether it is the document.
    Announce(Vec<u8>, bool),
    /// This many bytes of the payload are on their way.
    Stream(Vec<u8>, usize, bool),
    /// Waiting for the producing side; whether pages were dropped because the scan
    /// was cancelled.
    Join(bool),
    /// The document was announced as being closed.
    Process,
    Close,
    Complete,
    Done,
}

/// One scan on its way to its client.
pub struct Delivery {
    run: ScanRun,
    source: ScannerSource,
    phase: DeliveryPhase,
}

// ---------------------------------------------------------------------------
// Steps
// ---------------------------------------------------------------------------
/// Whether the delivery ends with this error.
pub open spec fn ends_with(next: DeliveryPhase, action: DeliveryAction, e: ScanError) -> bool {
    next == DeliveryPhase::Done && action == DeliveryAction::Finished(Err(e))
}

/// Whether the delivery ends because of its document's file.
pub open spec fn ends_faulty(
    next: DeliveryPhase,
    action: DeliveryAction,
    fault: DocumentFault,
) -> bool {
    action matches DeliveryAction::Finished(Err(e)) && next == DeliveryPhase::Done && is_pdf_error(
        e,
        fault.text(),
    )
}

/// The message that an action sends, if it sends one.
pub open spec fn message_of(action: DeliveryAction) -> Option<AgentMessage> {
    match action {
        DeliveryAction::Send(OutgoingMessage::Json(m)) => Some(m),
        _ => None,
    }
}

/// Whether a message announces a payload of this length, of this run.
pub open spec fn announces(m: AgentMessage, run: ScanRun, len: nat) -> bool {
    m matches AgentMessage::BinaryStart { id, scan_id, total_bytes, .. } && id@
        == run.spec_request() && scan_id@ == run.spec_scan() && total_bytes == len
}

/// Whether the delivery turns to its last message.
pub open spec fn completes(run: ScanRun, next: DeliveryPhase, action: DeliveryAction) -> bool {
    message_of(action) matches Some(m) && next == DeliveryPhase::Complete && run.is_completed_by(m)
}

/// Whether the delivery goes on with a payload of which this much is sent: with its
/// next frame, or, once all is sent, with what follows it.
pub open spec fn streams(
    run: ScanRun,
    payload: Vec<u8>,
    sent: usize,
    is_document: bool,
    next: DeliveryPhase,
    action: DeliveryAction,
) -> bool {
    if sent < payload@.len() {
        action matches DeliveryAction::Send(OutgoingMessage::Binary(frame)) && frame@
            == payload@.subrange(sent as int, sent + frame_len(payload@, sent as int)) && next
            == DeliveryPhase::Stream(
            payload,
            (sent + frame_len(payload@, sent as int)) as usize,
            is_document,
        )
    } else if is_document {
        completes(run, next, action)
    } else {
        next == DeliveryPhase::Receive && action == DeliveryAction::Receive
    }
}

/// Where a page that was rendered goes: into the document first, if there is one.
pub open spec fn sends_page(
    run: ScanRun,
    r: Result<RenderedPage, ScanError>,
    next: DeliveryPhase,
    action: DeliveryAction,
) -> bool {
    match r {
        Err(e) => ends_with(next, action, e),
        Ok(rendered) => if run.spec_format() == OutputFormat::Pdf {
            &&& next == DeliveryPhase::Append(rendered.announcement, rendered.payload)
            &&& action == DeliveryAction::Append(rendered.document)
        } else {
            &&& next == DeliveryPhase::Announce(rendered.payload, false)
            &&& action == DeliveryAction::Send(OutgoingMessage::Json(rendered.announcement))
        },
    }
}

/// Whether a page is turned into what the client gets of it, and sent on its way.
pub open spec fn renders_and_sends(
    run: ScanRun,
    page: PageData,
    size: PaperSize,
    after: ScanRun,
    r: Result<RenderedPage, ScanError>,
    next: DeliveryPhase,
    action: DeliveryAction,
) -> bool {
    run.renders(page, size, after, r) && sends_page(run, r, next, action)
}

/// Whether a delivery comes to its end as the producing side's verdict has it. One
/// that dropped pages because it was cancelled does not complete.
pub open spec fn concludes(
    run: ScanRun,
    verdict: Result<(), ScanError>,
    cancelled: bool,
    next: DeliveryPhase,
    action: DeliveryAction,
) -> bool {
    match verdict {
        Err(e) => ends_with(next, action, e),
        Ok(()) => if cancelled {
            ends_with(next, action, ScanError::Cancelled)
        } else if run.has_document() {
            message_of(action) matches Some(m) && next == DeliveryPhase::Process && m.is_progress(
                run.spec_request(),
                run.spec_scan(),
                run.spec_pages(),
                ScanStatus::Processing,
            )
        } else {
            completes(run, next, action)
        },
    }
}

/// Whether a delivery goes on as the end of the producing side has it.
pub open spec fn joins(
    run: ScanRun,
    source: ScannerSource,
    cancelled: bool,
    end: ProducerEnd,
    next: DeliveryPhase,
    action: DeliveryAction,
) -> bool {
    match (end, source) {
        (ProducerEnd::Finished(verdict), _) => concludes(run, verdict, cancelled, next, action),
        (ProducerEnd::Panicked, ScannerSource::Native) => ends_with(
            next,
            action,
            ScanError::Twain(TwainError::InvalidState),
        ),
        (ProducerEnd::Panicked, ScannerSource::Sidecar) => {
            action matches DeliveryAction::Finished(Err(e)) && next == DeliveryPhase::Done
                && is_sidecar_error(e, "Sidecar task panicked"@)
        },
    }
}

/// Whether the document is closed, or was too large to be.
pub open spec fn closes(run: ScanRun, next: DeliveryPhase, action: DeliveryAction) -> bool {
    let writer = run.spec_pdf().unwrap();
    match action {
        DeliveryAction::Close(bytes) => next == DeliveryPhase::Close && bytes@
            == writer.closing_bytes(),
        DeliveryAction::Finished(Err(e)) => next == DeliveryPhase::Done && is_pdf_error(
            e,
            "PDF write error: "@ + "document too large"@,
        ) && writer.spec_document().len() + writer.closing_bytes().len() > u64::MAX,
        _ => false,
    }
}

/// Where a delivery goes when `event` is what came of its action, what it does
/// next, and what becomes of its run.
pub open spec fn delivery_step(
    run: ScanRun,
    source: ScannerSource,
    phase: DeliveryPhase,
    event: DeliveryEvent,
    after: ScanRun,
    next: DeliveryPhase,
    action: DeliveryAction,
) -> bool {
    match (phase, event) {
        (DeliveryPhase::Create, DeliveryEvent::Written(Ok(()))) => {
            next == DeliveryPhase::Receive && action == DeliveryAction::Receive && after == run
        },
        (DeliveryPhase::Create, DeliveryEvent::Written(Err(fault))) => ends_faulty(
            next,
            action,
            fault,
        ),
        (DeliveryPhase::Receive, DeliveryEvent::Page { page, size, cancelled }) => if cancelled {
            next == DeliveryPhase::Join(true) && action == DeliveryAction::Join && after == run
        } else {
            &&& next == DeliveryPhase::Begin(page, size)
            &&& message_of(action) matches Some(m) && m.is_progress(
                run.spec_request(),
                run.spec_scan(),
                (run.spec_pages() + 1) as u32,
                ScanStatus::Scanning,
            )
            &&& after.spec_pages() == run.spec_pages() + 1
            &&& after.spec_request() == run.spec_request()
            &&& after.spec_scan() == run.spec_scan()
            &&& after.spec_format() == run.spec_format()
            &&& after.spec_pdf() == run.spec_pdf()
        },
        (DeliveryPhase::Receive, DeliveryEvent::NoMorePages) => {
            next == DeliveryPhase::Join(false) && action == DeliveryAction::Join && after == run
        },
        (DeliveryPhase::Begin(page, size), DeliveryEvent::Sent(outcome)) => if outcome
            == SendOutcome::Cancelled {
            ends_with(next, action, ScanError::Cancelled)
        } else {
            after.same_but_document(run) && exists|r: Result<RenderedPage, ScanError>|
                #[trigger] renders_and_sends(run, page, size, after, r, next, action)
        },
        (DeliveryPhase::Append(announcement, payload), DeliveryEvent::Written(Ok(()))) => {
            &&& next == DeliveryPhase::Announce(payload, false)
            &&& action == DeliveryAction::Send(OutgoingMessage::Json(announcement))
            &&& after == run
        },
        (DeliveryPhase::Append(_, _), DeliveryEvent::Written(Err(fault))) => ends_faulty(
            next,
            action,
            fault,
        ),
        (DeliveryPhase::Announce(payload, is_document), DeliveryEvent::Sent(outcome)) => if outcome
            == SendOutcome::Cancelled {
            ends_with(next, action, ScanError::Cancelled)
        } else {
            streams(run, payload, 0, is_document, next, action) && after == run
        },
        (DeliveryPhase::Stream(payload, sent, is_document), DeliveryEvent::Sent(outcome)) => {
            match outcome {
                SendOutcome::Cancelled => ends_with(next, action, ScanError::Cancelled),
                SendOutcome::Gone => action matches DeliveryAction::Finished(Err(e)) && next
                    == DeliveryPhase::Done && is_sidecar_error(
                    e,
                    "client disconnected during transfer"@,
                ),
                SendOutcome::Delivered => streams(run, payload, sent, is_document, next, action)
                    && after == run,
            }
        },
        (DeliveryPhase::Join(cancelled), DeliveryEvent::Joined(end)) => joins(
            run,
            source,
            cancelled,
            end,
            next,
            action,
        ) && after == run,
        (DeliveryPhase::Process, DeliveryEvent::Sent(outcome)) => if outcome
            == SendOutcome::Cancelled {
            ends_with(next, action, ScanError::Cancelled)
        } else {
            closes(run, next, action) && after.same_but_document(run)
        },
        (DeliveryPhase::Close, DeliveryEvent::ReadBack(Ok(bytes))) => {
            &&& next == DeliveryPhase::Announce(bytes, true)
            &&& message_of(action) matches Some(m) && m.is_binary_start(
                run.spec_request(),
                run.spec_scan(),
                "pdf"@,
                None,
                "application/pdf"@,
                bytes@.len(),
            )
            &&& after == run
        },
        (DeliveryPhase::Close, DeliveryEvent::ReadBack(Err(fault))) => ends_faulty(
            next,
            action,
            fault,
        ),
        (DeliveryPhase::Complete, DeliveryEvent::Sent(_)) => next == DeliveryPhase::Done && action
            == DeliveryAction::Finished(Ok(())),
        _ => ends_with(next, action, ScanError::Twain(TwainError::InvalidState)),
    }
}

impl Delivery {
    pub closed spec fn spec_run(self) -> ScanRun {
        self.run
    }

    pub closed spec fn spec_source(self) -> ScannerSource {
        self.source
    }

    pub closed spec fn spec_phase(self) -> DeliveryPhase {
        self.phase
    }

    /// Until its document is closed, a delivery writes one where one was asked for.
    pub open spec fn wf(self) -> bool {
        match self.spec_phase() {
            DeliveryPhase::Process => self.spec_run().wf() && self.spec_run().has_document(),
            DeliveryPhase::Announce(_, is_document) => is_document || self.spec_run().wf(),
            DeliveryPhase::Stream(payload, sent, is_document) => sent <= payload@.len() && (
            is_document || self.spec_run().wf()),
            DeliveryPhase::Append(announcement, payload) => self.spec_run().wf() && announces(
                announcement,
                self.spec_run(),
                payload@.len(),
            ),
            DeliveryPhase::Close | DeliveryPhase::Complete | DeliveryPhase::Done => true,
            _ => self.spec_run().wf(),
        }
    }

    /// Begin to deliver a scan, with the first thing to do.
    pub fn begin(
        request_id: String,
        scan_id: String,
        format: OutputFormat,
        source: ScannerSource,
    ) -> (r: (Delivery, DeliveryAction))
        ensures
            begins(r.0, r.1, request_id@, scan_id@, format, source),
    {
        let (run, header) = ScanRun::begin(request_id, scan_id, format);
        match header {
            Some(header) => (
                Delivery { run, source, phase: DeliveryPhase::Create },
                DeliveryAction::Create(header),
            ),
            None => (
                Delivery { run, source, phase: DeliveryPhase::Receive },
                DeliveryAction::Receive,
            ),
        }
    }

    /// Pages begun so far.
    pub fn pages(&self) -> (n: u32)
        ensures
            n == self.spec_run().spec_pages(),
    {
        self.run.page_count()
    }

    /// Take in what came of the action, and say what to do next.
    pub fn advance(self, event: DeliveryEvent) -> (r: (Delivery, DeliveryAction))
        requires
            self.wf(),
            self.spec_run().spec_pages() < u32::MAX,
        ensures
            advances(self, event, r.0, r.1),
    {
        let Delivery { run, source, phase } = self;
        let mut run = run;
        let (phase, action): (DeliveryPhase, DeliveryAction) = match (phase, event) {
            (DeliveryPhase::Create, DeliveryEvent::Written(written)) => match written {
                Ok(()) => (DeliveryPhase::Receive, DeliveryAction::Receive),
                Err(fault) => finished(fault.into_scan_error()),
            },
            (
                DeliveryPhase::Receive,
                DeliveryEvent::Page { page, size, cancelled },
            ) => if cancelled {
                (DeliveryPhase::Join(true), DeliveryAction::Join)
            } else {
                let m = run.begin_page();
                (DeliveryPhase::Begin(page, size), DeliveryAction::Send(OutgoingMessage::Json(m)))
            },
            (DeliveryPhase::Receive, DeliveryEvent::NoMorePages) => (
                DeliveryPhase::Join(false),
                DeliveryAction::Join,
            ),
            (DeliveryPhase::Begin(page, size), DeliveryEvent::Sent(outcome)) => {
                match until_cancelled(outcome == SendOutcome::Cancelled) {
                    Err(e) => finished(e),
                    Ok(()) => {
                        let ghost before = run;
                        let rendered = run.render_page(&page, size);
                        let (next, action) = send_page(&run, rendered);
                        proof {
                            assert(renders_and_sends(
                                before,
                                page,
                                size,
                                run,
                                rendered,
                                next,
                                action,
                            ));
                        }
                        (next, action)
                    },
                }
            },
            (DeliveryPhase::Append(announcement, payload), DeliveryEvent::Written(written)) => {
                match written {
                    Ok(()) => (
                        DeliveryPhase::Announce(payload, false),
                        DeliveryAction::Send(OutgoingMessage::Json(announcement)),
                    ),
                    Err(fault) => finished(fault.into_scan_error()),
                }
            },
            (DeliveryPhase::Announce(payload, is_document), DeliveryEvent::Sent(outcome)) => {
                match until_cancelled(outcome == SendOutcome::Cancelled) {
                    Err(e) => finished(e),
                    Ok(()) => stream(&run, payload, 0, is_document),
                }
            },
            (DeliveryPhase::Stream(payload, sent, is_document), DeliveryEvent::Sent(outcome)) => {
                match outcome {
                    SendOutcome::Cancelled => finished(ScanError::Cancelled),
                    SendOutcome::Gone => finished(client_gone()),
                    SendOutcome::Delivered => stream(&run, payload, sent, is_document),
                }
            },
            (DeliveryPhase::Join(cancelled), DeliveryEvent::Joined(end)) => {
                match run.conclude(producer_verdict(end, source), cancelled) {
                    Err(e) => finished(e),
                    Ok(Some(m)) => (
                        DeliveryPhase::Process,
                        DeliveryAction::Send(OutgoingMessage::Json(m)),
                    ),
                    Ok(None) => complete(&run),
                }
            },
            (DeliveryPhase::Process, DeliveryEvent::Sent(outcome)) => {
                match until_cancelled(outcome == SendOutcome::Cancelled) {
                    Err(e) => finished(e),
                    Ok(()) => match run.finish_document() {
                        Ok(bytes) => (DeliveryPhase::Close, DeliveryAction::Close(bytes)),
                        Err(e) => finished(e),
                    },
                }
            },
            (DeliveryPhase::Close, DeliveryEvent::ReadBack(read)) => match read {
                Ok(bytes) => {
                    let m = run.announce_document(bytes.len());
                    (
                        DeliveryPhase::Announce(bytes, true),
                        DeliveryAction::Send(OutgoingMessage::Json(m)),
                    )
                },
                Err(fault) => finished(fault.into_scan_error()),
            },
            (DeliveryPhase::Complete, DeliveryEvent::Sent(_)) => (
                DeliveryPhase::Done,
                DeliveryAction::Finished(Ok(())),
            ),
            _ => finished(ScanError::Twain(TwainError::InvalidState)),
        };
        (Delivery { run, source, phase }, action)
    }
}

/// Whether `delivery` is a new one, and `action` the first thing to do.
pub open spec fn begins(
    delivery: Delivery,
    action: DeliveryAction,
    request: Seq<char>,
    scan: Seq<char>,
    format: OutputFormat,
    source: ScannerSource,
) -> bool {
    &&& delivery.wf()
    &&& delivery.spec_source() == source
    &&& delivery.spec_run().spec_request() == request
    &&& delivery.spec_run().spec_scan() == scan
    &&& delivery.spec_run().spec_format() == format
    &&& delivery.spec_run().spec_pages() == 0
    &&& if format == OutputFormat::Pdf {
        &&& delivery.spec_phase() == DeliveryPhase::Create
        &&& action matches DeliveryAction::Create(header) && header@ == header_bytes()
        &&& delivery.spec_run().spec_pdf().unwrap().spec_document() == header_bytes()
        &&& delivery.spec_run().spec_pdf().unwrap().spec_offsets() == Seq::<int>::empty()
        &&& delivery.spec_run().spec_pdf().unwrap().spec_pages() == 0
    } else {
        delivery.spec_phase() == DeliveryPhase::Receive && action == DeliveryAction::Receive
    }
}

/// Whether a delivery becomes `after`, and does `action` next, when `event` is what
/// came of its action.
pub open spec fn advances(
    delivery: Delivery,
    event: DeliveryEvent,
    after: Delivery,
    action: DeliveryAction,
) -> bool {
    &&& delivery.wf()
    &&& after.wf()
    &&& after.spec_source() == delivery.spec_source()
    &&& delivery_step(
        delivery.spec_run(),
        delivery.spec_source(),
        delivery.spec_phase(),
        event,
        after.spec_run(),
        after.spec_phase(),
        action,
    )
}

fn finished(e: ScanError) -> (r: (DeliveryPhase, DeliveryAction))
    ensures
        ends_with(r.0, r.1, e),
{
    (DeliveryPhase::Done, DeliveryAction::Finished(Err(e)))
}

fn complete(run: &ScanRun) -> (r: (DeliveryPhase, DeliveryAction))
    ensures
        completes(*run, r.0, r.1),
{
    (DeliveryPhase::Complete, DeliveryAction::Send(OutgoingMessage::Json(run.complete())))
}

fn send_page(run: &ScanRun, rendered: Result<RenderedPage, ScanError>) -> (r: (
    DeliveryPhase,
    DeliveryAction,
))
    ensures
        sends_page(*run, rendered, r.0, r.1),
{
    match rendered {
        Err(e) => finished(e),
        Ok(rendered) => if run.format() == OutputFormat::Pdf {
            (
                DeliveryPhase::Append(rendered.announcement, rendered.payload),
                DeliveryAction::Append(rendered.document),
            )
        } else {
            (
                DeliveryPhase::Announce(rendered.payload, false),
                DeliveryAction::Send(OutgoingMessage::Json(rendered.announcement)),
            )
        },
    }
}

fn stream(run: &ScanRun, payload: Vec<u8>, sent: usize, is_document: bool) -> (r: (
    DeliveryPhase,
    DeliveryAction,
))
    requires
        sent <= payload@.len(),
    ensures
        streams(*run, payload, sent, is_document, r.0, r.1),
{
    match send_binary(payload.as_slice(), sent) {
        Some(frame) => {
            proof {
                assert(frame@.len() == frame_len(payload@, sent as int));
                assert(sent + frame@.len() <= payload.len());
            }
            let on_the_way: usize = sent + frame.len();
            (
                DeliveryPhase::Stream(payload, on_the_way, is_document),
                DeliveryAction::Send(OutgoingMessage::Binary(frame)),
            )
        },
        None => if is_document {
            complete(run)
        } else {
            (DeliveryPhase::Receive, DeliveryAction::Receive)
        },
    }
}

// ---------------------------------------------------------------------------
// Laws of a step
// ---------------------------------------------------------------------------
/// How many bytes of a payload are on their way in a phase, and the payload.
pub open spec fn under_way(phase: DeliveryPhase) -> Option<(Vec<u8>, int)> {
    match phase {
        DeliveryPhase::Announce(payload, _) => Some((payload, 0)),
        DeliveryPhase::Stream(payload, sent, _) => Some((payload, sent as int)),
        _ => None,
    }
}

/// What the page in hand was turned into, where a delivery went on with it.
proof fn lemma_rendered(
    delivery: Delivery,
    event: DeliveryEvent,
    after: Delivery,
    action: DeliveryAction,
)
    requires
        advances(delivery, event, after, action),
        delivery.spec_phase() is Begin,
        event matches DeliveryEvent::Sent(outcome) && outcome != SendOutcome::Cancelled,
    ensures
        after.spec_run().same_but_document(delivery.spec_run()),
        exists|r: Result<RenderedPage, ScanError>|
            #[trigger] sends_page(delivery.spec_run(), r, after.spec_phase(), action) && (
            r matches Ok(rendered) ==> announces(
                rendered.announcement,
                delivery.spec_run(),
                rendered.payload@.len(),
            )),
{
    if let DeliveryPhase::Begin(page, size) = delivery.spec_phase() {
        let r = choose|r: Result<RenderedPage, ScanError>| #[trigger]
            renders_and_sends(
                delivery.spec_run(),
                page,
                size,
                after.spec_run(),
                r,
                after.spec_phase(),
                action,
            );
        assert(sends_page(delivery.spec_run(), r, after.spec_phase(), action));
    }
}

/// Law: every payload is announced with its length, and then sent frame by frame,
/// in order and to its end, before anything else is; no frame is sent otherwise.
pub proof fn law_payload_follows_its_announcement(
    delivery: Delivery,
    event: DeliveryEvent,
    after: Delivery,
    action: DeliveryAction,
)
    requires
        advances(delivery, event, after, action),
    ensures
        after.spec_phase() matches DeliveryPhase::Announce(payload, _) ==> message_of(
            action,
        ) is Some && announces(message_of(action).unwrap(), delivery.spec_run(), payload@.len()),
        message_of(action) matches Some(AgentMessage::BinaryStart { .. }) ==> after.spec_phase()
            is Announce,
        action matches DeliveryAction::Send(OutgoingMessage::Binary(frame)) ==> (match (
            under_way(delivery.spec_phase()),
            under_way(after.spec_phase()),
        ) {
            (Some((payload, sent)), Some((same, more))) => same == payload && sent < more
                <= payload@.len() && frame@ == payload@.subrange(sent, more),
            _ => false,
        }),
        under_way(delivery.spec_phase()) matches Some((payload, sent)) ==> sent == payload@.len()
            || action is Finished || (action matches DeliveryAction::Send(
            OutgoingMessage::Binary(_),
        )),
        after.spec_phase() is Stream ==> (action matches DeliveryAction::Send(
            OutgoingMessage::Binary(_),
        )),
{
    if let Some((payload, _)) = under_way(delivery.spec_phase()) {
        assert(payload@.len() == payload.len());
    }
    if delivery.spec_phase() is Begin && event is Sent && event != DeliveryEvent::Sent(
        SendOutcome::Cancelled,
    ) {
        lemma_rendered(delivery, event, after, action);
    }
}

/// Law: whatever a delivery tells the client echoes the id of the request that
/// asked for the scan, and a delivery stays that of one request and one scan.
pub proof fn law_delivery_echoes_its_request(
    delivery: Delivery,
    event: DeliveryEvent,
    after: Delivery,
    action: DeliveryAction,
)
    requires
        advances(delivery, event, after, action),
    ensures
        message_of(action) matches Some(m) ==> m.answers() == Some(
            delivery.spec_run().spec_request(),
        ) && !(delivery.spec_phase() is Done),
        !(after.spec_phase() is Done) ==> !(delivery.spec_phase() is Done)
            && after.spec_run().spec_request() == delivery.spec_run().spec_request()
            && after.spec_run().spec_scan() == delivery.spec_run().spec_scan(),
{
    if delivery.spec_phase() is Begin && event is Sent && event != DeliveryEvent::Sent(
        SendOutcome::Cancelled,
    ) {
        lemma_rendered(delivery, event, after, action);
    }
}

/// Whether a phase is one of closing and sending a document, or of completing.
pub open spec fn past_scan(phase: DeliveryPhase) -> bool {
    match phase {
        DeliveryPhase::Process | DeliveryPhase::Close | DeliveryPhase::Complete => true,
        DeliveryPhase::Announce(_, is_document) => is_document,
        DeliveryPhase::Stream(_, _, is_document) => is_document,
        _ => false,
    }
}

/// Whether the side that produces the pages has ended well.
pub open spec fn is_success(event: DeliveryEvent) -> bool {
    event matches DeliveryEvent::Joined(ProducerEnd::Finished(Ok(())))
}

/// Whether the delivery is over, and all went well.
pub open spec fn succeeds(action: DeliveryAction) -> bool {
    action matches DeliveryAction::Finished(Ok(()))
}

/// Law: the client is told of a document, and gets one, and a delivery completes,
/// only once the side that produces the pages has succeeded, and where no page was
/// dropped because the scan was cancelled.
pub proof fn law_document_needs_a_successful_scan(
    delivery: Delivery,
    event: DeliveryEvent,
    after: Delivery,
    action: DeliveryAction,
)
    requires
        advances(delivery, event, after, action),
    ensures
        past_scan(after.spec_phase()) ==> past_scan(delivery.spec_phase()) || (
        delivery.spec_phase() == DeliveryPhase::Join(false) && is_success(event)),
{
    if delivery.spec_phase() is Begin && event is Sent && event != DeliveryEvent::Sent(
        SendOutcome::Cancelled,
    ) {
        lemma_rendered(delivery, event, after, action);
    }
}

/// Law: a delivery succeeds only by its last message, which follows the whole of
/// its document, if it has one.
pub proof fn law_delivery_completes_last(
    delivery: Delivery,
    event: DeliveryEvent,
    after: Delivery,
    action: DeliveryAction,
)
    requires
        advances(delivery, event, after, action),
    ensures
        succeeds(action) ==> delivery.spec_phase() is Complete,
        message_of(action) matches Some(AgentMessage::ScanComplete { .. }) <==> after.spec_phase()
            is Complete,
        after.spec_phase() is Complete ==> match delivery.spec_phase() {
            DeliveryPhase::Join(cancelled) => !cancelled && !delivery.spec_run().has_document(),
            DeliveryPhase::Announce(payload, is_document) => is_document && payload@.len() == 0,
            DeliveryPhase::Stream(payload, sent, is_document) => is_document && sent
                == payload@.len(),
            _ => false,
        },
        delivery.spec_phase() is Complete || delivery.spec_phase() is Done ==> action is Finished
            && after.spec_phase() is Done,
        action is Finished <==> after.spec_phase() is Done,
{
    if delivery.spec_phase() is Begin && event is Sent && event != DeliveryEvent::Sent(
        SendOutcome::Cancelled,
    ) {
        lemma_rendered(delivery, event, after, action);
    }
}

/// Whether a delivery learns from `event` that its scan was cancelled: a page
/// arrives too late, or something was not sent on that account.
pub open spec fn learns_of_cancel(phase: DeliveryPhase, event: DeliveryEvent) -> bool {
    match (phase, event) {
        (DeliveryPhase::Receive, DeliveryEvent::Page { cancelled, .. }) => cancelled,
        (
            DeliveryPhase::Begin(_, _)
            | DeliveryPhase::Announce(_, _)
            | DeliveryPhase::Stream(_, _, _)
            | DeliveryPhase::Process,
            DeliveryEvent::Sent(outcome),
        ) => outcome == SendOutcome::Cancelled,
        _ => false,
    }
}

/// How a scan of which pages were dropped ends, given how the side that produces
/// them did.
pub open spec fn cancelled_verdict(producer: Result<(), ScanError>) -> ScanError {
    match producer {
        Ok(()) => ScanError::Cancelled,
        Err(e) => e,
    }
}

/// Law: a delivery that learns that its scan was cancelled ends as cancelled: at
/// once, or once the side that produces the pages has ended, unless that failed.
pub proof fn law_cancelled_delivery_ends_so(
    delivery: Delivery,
    event: DeliveryEvent,
    after: Delivery,
    action: DeliveryAction,
)
    requires
        advances(delivery, event, after, action),
    ensures
        learns_of_cancel(delivery.spec_phase(), event) ==> if event is Page {
            after.spec_phase() == DeliveryPhase::Join(true) && action == DeliveryAction::Join
        } else {
            action == DeliveryAction::Finished(Err(ScanError::Cancelled))
        },
        delivery.spec_phase() == DeliveryPhase::Join(true) ==> after.spec_phase() is Done && (
        event matches DeliveryEvent::Joined(ProducerEnd::Finished(verdict)) ==> action
            == DeliveryAction::Finished(Err(cancelled_verdict(verdict)))),
        delivery.spec_phase() == DeliveryPhase::Join(true) ==> !succeeds(action),
{
}

// ---------------------------------------------------------------------------
// Laws of a whole delivery
// ---------------------------------------------------------------------------
/// Whether a delivery went this way: `actions` is what it did, the first of them as
/// it began, and `events` what came of them.
pub open spec fn is_delivered(
    deliveries: Seq<Delivery>,
    events: Seq<DeliveryEvent>,
    actions: Seq<DeliveryAction>,
    request: Seq<char>,
    scan: Seq<char>,
    format: OutputFormat,
    source: ScannerSource,
) -> bool {
    &&& deliveries.len() == events.len() + 1
    &&& actions.len() == events.len() + 1
    &&& begins(deliveries[0], actions[0], request, scan, format, source)
    &&& forall|i: int|
        0 <= i < events.len() ==> advances(
            deliveries[i],
            #[trigger] events[i],
            deliveries[i + 1],
            actions[i + 1],
        )
}

/// The bytes still to come of the payload announced last, to a client that counts
/// what it receives.
pub open spec fn owed(actions: Seq<DeliveryAction>) -> int
    decreases actions.len(),
{
    if actions.len() == 0 {
        0
    } else {
        match actions.last() {
            DeliveryAction::Send(
                OutgoingMessage::Json(AgentMessage::BinaryStart { total_bytes, .. }),
            ) => total_bytes as int,
            DeliveryAction::Send(OutgoingMessage::Binary(frame)) => owed(actions.drop_last())
                - frame@.len(),
            _ => owed(actions.drop_last()),
        }
    }
}

/// The bytes that came since the last announcement.
pub open spec fn received(actions: Seq<DeliveryAction>) -> Seq<u8>
    decreases actions.len(),
{
    if actions.len() == 0 {
        Seq::empty()
    } else {
        match actions.last() {
            DeliveryAction::Send(OutgoingMessage::Json(AgentMessage::BinaryStart { .. })) => {
                Seq::empty()
            },
            DeliveryAction::Send(OutgoingMessage::Binary(frame)) => received(actions.drop_last())
                + frame@,
            _ => received(actions.drop_last()),
        }
    }
}

proof fn lemma_transfer(
    deliveries: Seq<Delivery>,
    events: Seq<DeliveryEvent>,
    actions: Seq<DeliveryAction>,
    request: Seq<char>,
    scan: Seq<char>,
    format: OutputFormat,
    source: ScannerSource,
    n: int,
)
    requires
        is_delivered(deliveries, events, actions, request, scan, format, source),
        0 <= n < actions.len(),
    ensures
        match under_way(deliveries[n].spec_phase()) {
            Some((payload, sent)) => {
                &&& 0 <= sent <= payload@.len()
                &&& owed(actions.take(n + 1)) == payload@.len() - sent
                &&& received(actions.take(n + 1)) == payload@.take(sent)
            },
            None => deliveries[n].spec_phase() is Done || owed(actions.take(n + 1)) == 0,
        },
        owed(actions.take(n + 1)) >= 0,
    decreases n,
{
    let before = actions.take(n);
    let now = actions.take(n + 1);
    assert(now.drop_last() =~= before);
    assert(now.last() == actions[n]);
    if n == 0 {
        assert(owed(before) == 0);
    } else {
        lemma_transfer(deliveries, events, actions, request, scan, format, source, n - 1);
        let delivery = deliveries[n - 1];
        let after = deliveries[n];
        assert(advances(delivery, events[n - 1], deliveries[n - 1 + 1], actions[n - 1 + 1]));
        law_payload_follows_its_announcement(delivery, events[n - 1], after, actions[n]);
        law_delivery_completes_last(delivery, events[n - 1], after, actions[n]);
        match (under_way(delivery.spec_phase()), under_way(after.spec_phase())) {
            (Some((payload, sent)), Some((_, more))) => {
                if actions[n] matches DeliveryAction::Send(OutgoingMessage::Binary(_)) {
                    assert(payload@.take(sent) + payload@.subrange(sent, more) =~= payload@.take(
                        more,
                    ));
                }
            },
            _ => {},
        }
        if let Some((payload, sent)) = under_way(after.spec_phase()) {
            assert(payload@.take(0) =~= Seq::<u8>::empty());
        }
    }
}

/// Law: a client that counts received bytes against the announced total gets every
/// payload whole: it is never sent more than is owed, nothing else is begun while
/// some is, and what it has received is what was sent of the payload so far.
pub proof fn law_payloads_arrive_whole(
    deliveries: Seq<Delivery>,
    events: Seq<DeliveryEvent>,
    actions: Seq<DeliveryAction>,
    request: Seq<char>,
    scan: Seq<char>,
    format: OutputFormat,
    source: ScannerSource,
    n: int,
)
    requires
        is_delivered(deliveries, events, actions, request, scan, format, source),
        0 <= n < actions.len(),
    ensures
        owed(actions.take(n)) >= 0,
        match actions[n] {
            DeliveryAction::Send(OutgoingMessage::Binary(frame)) => 0 < frame@.len() <= owed(
                actions.take(n),
            ),
            DeliveryAction::Finished(_) => true,
            _ => owed(actions.take(n)) == 0,
        },
        under_way(deliveries[n].spec_phase()) matches Some((payload, sent)) ==> owed(
            actions.take(n + 1),
        ) == payload@.len() - sent && received(actions.take(n + 1)) == payload@.take(sent),
{
    lemma_transfer(deliveries, events, actions, request, scan, format, source, n);
    if n == 0 {
        assert(actions.take(0).len() == 0);
    } else {
        lemma_transfer(deliveries, events, actions, request, scan, format, source, n - 1);
        assert(advances(
            deliveries[n - 1],
            events[n - 1],
            deliveries[n - 1 + 1],
            actions[n - 1 + 1],
        ));
        law_payload_follows_its_announcement(
            deliveries[n - 1],
            events[n - 1],
            deliveries[n],
            actions[n],
        );
        law_delivery_completes_last(deliveries[n - 1], events[n - 1], deliveries[n], actions[n]);
    }
}

/// Law: every message of a delivery, from the first to the last, echoes the id of
/// the request that it was begun for.
pub proof fn law_whole_delivery_echoes_its_request(
    deliveries: Seq<Delivery>,
    events: Seq<DeliveryEvent>,
    actions: Seq<DeliveryAction>,
    request: Seq<char>,
    scan: Seq<char>,
    format: OutputFormat,
    source: ScannerSource,
    n: int,
)
    requires
        is_delivered(deliveries, events, actions, request, scan, format, source),
        0 <= n < actions.len(),
    ensures
        message_of(actions[n]) matches Some(m) ==> m.answers() == Some(request),
        !(deliveries[n].spec_phase() is Done) ==> deliveries[n].spec_run().spec_request() == request
            && deliveries[n].spec_run().spec_scan() == scan,
    decreases n,
{
    if n > 0 {
        law_whole_delivery_echoes_its_request(
            deliveries,
            events,
            actions,
            request,
            scan,
            format,
            source,
            n - 1,
        );
        assert(advances(
            deliveries[n - 1],
            events[n - 1],
            deliveries[n - 1 + 1],
            actions[n - 1 + 1],
        ));
        law_delivery_echoes_its_request(
            deliveries[n - 1],
            events[n - 1],
            deliveries[n],
            actions[n],
        );
    }
}

/// Law: a delivery that closes or sends a document, or completes, does so after the
/// side that produces the pages has succeeded; and one that succeeds has completed.
pub proof fn law_success_needs_a_successful_scan(
    deliveries: Seq<Delivery>,
    events: Seq<DeliveryEvent>,
    actions: Seq<DeliveryAction>,
    request: Seq<char>,
    scan: Seq<char>,
    format: OutputFormat,
    source: ScannerSource,
    n: int,
)
    requires
        is_delivered(deliveries, events, actions, request, scan, format, source),
        0 <= n < actions.len(),
    ensures
        past_scan(deliveries[n].spec_phase()) || succeeds(actions[n]) ==> exists|k: int|
            0 <= k < n && is_success(#[trigger] events[k]),
        succeeds(actions[n]) ==> n > 0 && (message_of(actions[n - 1]) matches Some(
            AgentMessage::ScanComplete { .. },
        )),
    decreases n,
{
    if n > 0 {
        law_success_needs_a_successful_scan(
            deliveries,
            events,
            actions,
            request,
            scan,
            format,
            source,
            n - 1,
        );
        let event = events[n - 1];
        assert(advances(deliveries[n - 1], event, deliveries[n - 1 + 1], actions[n - 1 + 1]));
        law_document_needs_a_successful_scan(deliveries[n - 1], event, deliveries[n], actions[n]);
        law_delivery_completes_last(deliveries[n - 1], event, deliveries[n], actions[n]);
        if n > 1 {
            assert(advances(
                deliveries[n - 2],
                events[n - 2],
                deliveries[n - 2 + 1],
                actions[n - 2 + 1],
            ));
            law_delivery_completes_last(
                deliveries[n - 2],
                events[n - 2],
                deliveries[n - 1],
                actions[n - 1],
            );
        }
    }
}

/// Law: the message that completes a delivery is its last, so there is one at most.
pub proof fn law_nothing_follows_completion(
    deliveries: Seq<Delivery>,
    events: Seq<DeliveryEvent>,
    actions: Seq<DeliveryAction>,
    request: Seq<char>,
    scan: Seq<char>,
    format: OutputFormat,
    source: ScannerSource,
    n: int,
    later: int,
)
    requires
        is_delivered(deliveries, events, actions, request, scan, format, source),
        0 <= n < later < actions.len(),
        (message_of(actions[n]) matches Some(AgentMessage::ScanComplete { .. })) || actions[n]
            is Finished,
    ensures
        actions[later] is Finished,
        deliveries[later].spec_phase() is Done,
    decreases later,
{
    if later > n + 1 {
        law_nothing_follows_completion(
            deliveries,
            events,
            actions,
            request,
            scan,
            format,
            source,
            n,
            later - 1,
        );
    } else if n > 0 {
        assert(advances(
            deliveries[n - 1],
            events[n - 1],
            deliveries[n - 1 + 1],
            actions[n - 1 + 1],
        ));
        law_delivery_completes_last(deliveries[n - 1], events[n - 1], deliveries[n], actions[n]);
    }
    assert(advances(
        deliveries[later - 1],
        events[later - 1],
        deliveries[later - 1 + 1],
        actions[later - 1 + 1],
    ));
    law_delivery_completes_last(
        deliveries[later - 1],
        events[later - 1],
        deliveries[later],
        actions[later],
    );
}

/// Whether an event is what can come of an action. Nothing comes of a delivery that
/// is over.
pub open spec fn answers_action(action: DeliveryAction, event: DeliveryEvent) -> bool {
    match action {
        DeliveryAction::Create(_) | DeliveryAction::Append(_) => event is Written,
        DeliveryAction::Receive => event is Page || event is NoMorePages,
        DeliveryAction::Send(_) => event is Sent,
        DeliveryAction::Close(_) => event is ReadBack,
        DeliveryAction::Join => event is Joined,
        DeliveryAction::Finished(_) => false,
    }
}

/// Whether every event is what can come of the action before it.
pub open spec fn is_ordered(events: Seq<DeliveryEvent>, actions: Seq<DeliveryAction>) -> bool {
    forall|i: int| 0 <= i < events.len() ==> answers_action(actions[i], #[trigger] events[i])
}

/// Whether an action tells the client that its scan is complete.
pub open spec fn is_completion(action: DeliveryAction) -> bool {
    message_of(action) matches Some(AgentMessage::ScanComplete { .. })
}

/// Law: a delivery that ends in an error has not told the client that its scan is
/// complete.
pub proof fn law_failed_delivery_never_completed(
    deliveries: Seq<Delivery>,
    events: Seq<DeliveryEvent>,
    actions: Seq<DeliveryAction>,
    request: Seq<char>,
    scan: Seq<char>,
    format: OutputFormat,
    source: ScannerSource,
    n: int,
)
    requires
        is_delivered(deliveries, events, actions, request, scan, format, source),
        is_ordered(events, actions),
        0 <= n < actions.len(),
        actions[n] matches DeliveryAction::Finished(Err(_)),
    ensures
        forall|k: int| 0 <= k < n ==> !is_completion(#[trigger] actions[k]),
{
    assert forall|k: int| 0 <= k < n implies !is_completion(#[trigger] actions[k]) by {
        if is_completion(actions[k]) {
            assert(k > 0);
            assert(advances(
                deliveries[k - 1],
                events[k - 1],
                deliveries[k - 1 + 1],
                actions[k - 1 + 1],
            ));
            law_delivery_completes_last(
                deliveries[k - 1],
                events[k - 1],
                deliveries[k],
                actions[k],
            );
            assert(answers_action(actions[k], events[k]));
            assert(advances(deliveries[k], events[k], deliveries[k + 1], actions[k + 1]));
            if k + 1 < n {
                assert(answers_action(actions[k + 1], events[k + 1]));
            }
        }
    }
}

/// Law: a delivery that succeeds has told the client that its scan is complete, as
/// the last thing it did, and only then.
pub proof fn law_successful_delivery_completed_once(
    deliveries: Seq<Delivery>,
    events: Seq<DeliveryEvent>,
    actions: Seq<DeliveryAction>,
    request: Seq<char>,
    scan: Seq<char>,
    format: OutputFormat,
    source: ScannerSource,
    n: int,
)
    requires
        is_delivered(deliveries, events, actions, request, scan, format, source),
        0 <= n < actions.len(),
        succeeds(actions[n]),
    ensures
        n > 0,
        forall|k: int| 0 <= k < n ==> (is_completion(#[trigger] actions[k]) <==> k == n - 1),
{
    law_success_needs_a_successful_scan(
        deliveries,
        events,
        actions,
        request,
        scan,
        format,
        source,
        n,
    );
    assert forall|k: int| 0 <= k < n - 1 implies !is_completion(#[trigger] actions[k]) by {
        if is_completion(actions[k]) {
            law_nothing_follows_completion(
                deliveries,
                events,
                actions,
                request,
                scan,
                format,
                source,
                k,
                n - 1,
            );
        }
    }
}

/// Law: once a delivery has learnt that its scan was cancelled, the client is told
/// nothing more of the scan, and the delivery never succeeds.
pub proof fn law_cancelled_delivery_stops(
    deliveries: Seq<Delivery>,
    events: Seq<DeliveryEvent>,
    actions: Seq<DeliveryAction>,
    request: Seq<char>,
    scan: Seq<char>,
    format: OutputFormat,
    source: ScannerSource,
    learnt: int,
    later: int,
)
    requires
        is_delivered(deliveries, events, actions, request, scan, format, source),
        0 <= learnt < later < actions.len(),
        learns_of_cancel(deliveries[learnt].spec_phase(), events[learnt]),
    ensures
        deliveries[later].spec_phase() == DeliveryPhase::Join(true)
            || deliveries[later].spec_phase() is Done,
        !(actions[later] is Send),
        !succeeds(actions[later]),
    decreases later,
{
    if later > learnt + 1 {
        law_cancelled_delivery_stops(
            deliveries,
            events,
            actions,
            request,
            scan,
            format,
            source,
            learnt,
            later - 1,
        );
    }
    assert(advances(
        deliveries[later - 1],
        events[later - 1],
        deliveries[later - 1 + 1],
        actions[later - 1 + 1],
    ));
    law_cancelled_delivery_ends_so(
        deliveries[later - 1],
        events[later - 1],
        deliveries[later],
        actions[later],
    );
    law_delivery_completes_last(
        deliveries[later - 1],
        events[later - 1],
        deliveries[later],
        actions[later],
    );
}

// ---------------------------------------------------------------------------
// The document of a delivery
// ---------------------------------------------------------------------------
/// What the actions of a delivery have written to its document's file.
pub open spec fn filed(actions: Seq<DeliveryAction>) -> Seq<u8>
    decreases actions.len(),
{
    if actions.len() == 0 {
        Seq::empty()
    } else {
        match actions.last() {
            DeliveryAction::Create(bytes) => bytes@,
            DeliveryAction::Append(bytes) => filed(actions.drop_last()) + bytes@,
            DeliveryAction::Close(bytes) => filed(actions.drop_last()) + bytes@,
            _ => filed(actions.drop_last()),
        }
    }
}

/// The pages that have arrived in time, with their sizes on paper.
pub open spec fn arrived(events: Seq<DeliveryEvent>) -> Seq<(PageData, PaperSize)>
    decreases events.len(),
{
    if events.len() == 0 {
        Seq::empty()
    } else {
        match events.last() {
            DeliveryEvent::Page { page, size, cancelled: false } => arrived(
                events.drop_last(),
            ).push((page, size)),
            _ => arrived(events.drop_last()),
        }
    }
}

/// Whether a page of a document is one that arrived, in gray or in color as it is.
pub open spec fn is_page_of(view: PageView, page: PageData, size: PaperSize) -> bool {
    &&& page.jpeg_outcome(85) == Ok::<Seq<u8>, Seq<char>>(view.jpeg)
    &&& view.width_px == page.width
    &&& view.height_px == page.height
    &&& view.width_pt == size.width_pt
    &&& view.height_pt == size.height_pt
    &&& view.channels == (if page.bits_per_pixel == 24 {
        3int
    } else {
        1
    })
}

/// Whether a delivery is still taking in pages.
pub open spec fn takes_pages(phase: DeliveryPhase) -> bool {
    match phase {
        DeliveryPhase::Create
        | DeliveryPhase::Receive
        | DeliveryPhase::Begin(_, _)
        | DeliveryPhase::Append(_, _)
        | DeliveryPhase::Join(_)
        | DeliveryPhase::Process => true,
        DeliveryPhase::Announce(_, is_document) => !is_document,
        DeliveryPhase::Stream(_, _, is_document) => !is_document,
        _ => false,
    }
}

/// Whether a delivery that takes pages has announced one that is not in its document.
pub open spec fn in_hand(phase: DeliveryPhase) -> int {
    if phase is Begin {
        1
    } else {
        0
    }
}

/// Law: as long as a delivery of a document takes pages, its file holds the document
/// so far, and that has a page for every page that has arrived, in the order in which
/// they arrived and each with its own image; so many pages have been announced. What the
/// proof hands out are the writers that the document went through, and its pages.
#[verifier::rlimit(50)]
pub proof fn law_document_has_every_page(
    deliveries: Seq<Delivery>,
    events: Seq<DeliveryEvent>,
    actions: Seq<DeliveryAction>,
    request: Seq<char>,
    scan: Seq<char>,
    source: ScannerSource,
    n: int,
) -> (r: (Seq<PdfWriter>, Seq<PageView>))
    requires
        is_delivered(deliveries, events, actions, request, scan, OutputFormat::Pdf, source),
        0 <= n < actions.len(),
        takes_pages(deliveries[n].spec_phase()),
    ensures
        ({
            let run = deliveries[n].spec_run();
            let pages = arrived(events.take(n));
            &&& run.spec_pdf() is Some
            &&& run.spec_format() == OutputFormat::Pdf
            &&& filed(actions.take(n + 1)) == run.spec_pdf().unwrap().spec_document()
            &&& assembled(r.0, r.1)
            &&& r.0.last() == run.spec_pdf().unwrap()
            &&& run.spec_pages() == pages.len()
            &&& r.1.len() == pages.len() - in_hand(deliveries[n].spec_phase())
            &&& forall|k: int|
                0 <= k < r.1.len() ==> is_page_of(#[trigger] r.1[k], pages[k].0, pages[k].1)
            &&& deliveries[n].spec_phase() matches DeliveryPhase::Begin(page, size)
                ==> pages.last() == (page, size)
        }),
    decreases n,
{
    let now = actions.take(n + 1);
    assert(now.drop_last() =~= actions.take(n));
    assert(now.last() == actions[n]);
    if n == 0 {
        assert(events.take(0).len() == 0);
        let writer = deliveries[0].spec_run().spec_pdf().unwrap();
        (seq![writer], Seq::empty())
    } else {
        let (delivery, event, after, action) = (
            deliveries[n - 1],
            events[n - 1],
            deliveries[n],
            actions[n],
        );
        assert(advances(delivery, event, deliveries[n - 1 + 1], actions[n - 1 + 1]));
        assert(events.take(n).drop_last() =~= events.take(n - 1));
        assert(events.take(n).last() == event);
        assert(actions.take(n - 1 + 1) =~= actions.take(n));
        lemma_takes_pages_before(delivery, event, after, action);
        let (writers, pages) = law_document_has_every_page(
            deliveries,
            events,
            actions,
            request,
            scan,
            source,
            n - 1,
        );
        if let DeliveryPhase::Begin(page, size) = delivery.spec_phase() {
            let run = delivery.spec_run();
            let rendered = choose|rendered: Result<RenderedPage, ScanError>| #[trigger]
                renders_and_sends(
                    run,
                    page,
                    size,
                    after.spec_run(),
                    rendered,
                    after.spec_phase(),
                    action,
                );
            let view = run.embedded(page, size);
            let next = after.spec_run().spec_pdf().unwrap();
            assert(added(writers.last(), view, next));
            let all = pages.push(view);
            let chain = writers.push(next);
            assert forall|i: int| 0 <= i < all.len() implies added(
                chain[i],
                #[trigger] all[i],
                chain[i + 1],
            ) by {
                if i < pages.len() {
                    assert(added(writers[i], pages[i], writers[i + 1]));
                }
            }
            assert(is_page_of(view, page, size));
            (chain, all)
        } else {
            (writers, pages)
        }
    }
}

/// A delivery that takes pages took them before.
proof fn lemma_takes_pages_before(
    delivery: Delivery,
    event: DeliveryEvent,
    after: Delivery,
    action: DeliveryAction,
)
    requires
        advances(delivery, event, after, action),
        takes_pages(after.spec_phase()),
    ensures
        takes_pages(delivery.spec_phase()),
        delivery.spec_phase() is Begin ==> event is Sent && event != DeliveryEvent::Sent(
            SendOutcome::Cancelled,
        ),
        event is Page ==> delivery.spec_phase() is Receive,
        delivery.spec_phase() is Append ==> event is Written,
{
}

/// Law: the file that is closed, read back and sent as the document is the whole of it:
/// what was filed of it before, and what finishes a document of those pages.
pub proof fn law_closed_document_is_whole(
    deliveries: Seq<Delivery>,
    events: Seq<DeliveryEvent>,
    actions: Seq<DeliveryAction>,
    request: Seq<char>,
    scan: Seq<char>,
    source: ScannerSource,
    n: int,
) -> (r: (Seq<PdfWriter>, Seq<PageView>))
    requires
        is_delivered(deliveries, events, actions, request, scan, OutputFormat::Pdf, source),
        0 < n < actions.len(),
        actions[n] is Close,
    ensures
        ({
            let writer = r.0.last();
            let pages = arrived(events.take(n));
            &&& assembled(r.0, r.1)
            &&& filed(actions.take(n + 1)) == writer.spec_document() + writer.closing_bytes()
            &&& r.1.len() == pages.len()
            &&& deliveries[n].spec_run().spec_pages() == pages.len()
            &&& forall|k: int|
                0 <= k < r.1.len() ==> is_page_of(#[trigger] r.1[k], pages[k].0, pages[k].1)
        }),
{
    let (delivery, event, after, action) = (
        deliveries[n - 1],
        events[n - 1],
        deliveries[n],
        actions[n],
    );
    assert(advances(delivery, event, deliveries[n - 1 + 1], actions[n - 1 + 1]));
    lemma_closes_from_process(delivery, event, after, action);
    assert(events.take(n).drop_last() =~= events.take(n - 1));
    assert(events.take(n).last() == event);
    assert(actions.take(n + 1).drop_last() =~= actions.take(n));
    assert(actions.take(n + 1).last() == action);
    assert(actions.take(n - 1 + 1) =~= actions.take(n));
    law_document_has_every_page(deliveries, events, actions, request, scan, source, n - 1)
}

proof fn lemma_closes_from_process(
    delivery: Delivery,
    event: DeliveryEvent,
    after: Delivery,
    action: DeliveryAction,
)
    requires
        advances(delivery, event, after, action),
        action is Close,
    ensures
        delivery.spec_phase() is Process,
        event is Sent,
        after.spec_run().same_but_document(delivery.spec_run()),
        action matches DeliveryAction::Close(bytes) && bytes@
            == delivery.spec_run().spec_pdf().unwrap().closing_bytes(),
{
    if delivery.spec_phase() is Begin && event is Sent && event != DeliveryEvent::Sent(
        SendOutcome::Cancelled,
    ) {
        lemma_rendered(delivery, event, after, action);
    }
}

/// Law: every page that arrives in time is announced as being scanned, under the number
/// that follows those before it; one that arrives too late is dropped, and no more are
/// taken.
pub proof fn law_pages_are_announced_in_order(
    delivery: Delivery,
    event: DeliveryEvent,
    after: Delivery,
    action: DeliveryAction,
)
    requires
        advances(delivery, event, after, action),
        delivery.spec_phase() is Receive,
        delivery.spec_run().spec_pages() < u32::MAX,
        event is Page,
    ensures
        event matches DeliveryEvent::Page { page, size, cancelled } ==> {
            &&& !cancelled ==> {
                &&& action matches DeliveryAction::Send(
                    OutgoingMessage::Json(
                        AgentMessage::ScanProgress { id, scan_id, page: number, status },
                    ),
                ) && id@ == delivery.spec_run().spec_request() && scan_id@
                    == delivery.spec_run().spec_scan() && number == delivery.spec_run().spec_pages()
                    + 1 && status == ScanStatus::Scanning
                &&& after.spec_phase() == DeliveryPhase::Begin(page, size)
                &&& after.spec_run().spec_pages() == delivery.spec_run().spec_pages() + 1
            }
            &&& cancelled ==> action == DeliveryAction::Join && after.spec_phase()
                == DeliveryPhase::Join(true)
        },
{
}

/// Law: a delivery completes with the number of pages it has announced, and the
/// document is announced with its length before it is sent.
pub proof fn law_completion_counts_the_pages(
    delivery: Delivery,
    event: DeliveryEvent,
    after: Delivery,
    action: DeliveryAction,
)
    requires
        advances(delivery, event, after, action),
    ensures
        action matches DeliveryAction::Send(
            OutgoingMessage::Json(AgentMessage::ScanComplete { id, scan_id, total_pages }),
        ) ==> id@ == delivery.spec_run().spec_request() && scan_id@
            == delivery.spec_run().spec_scan() && total_pages == delivery.spec_run().spec_pages(),
        delivery.spec_phase() is Close ==> (event matches DeliveryEvent::ReadBack(Ok(bytes)) ==> {
            &&& after.spec_phase() == DeliveryPhase::Announce(bytes, true)
            &&& action matches DeliveryAction::Send(
                OutgoingMessage::Json(
                    AgentMessage::BinaryStart { id, scan_id, kind, page, mime, total_bytes },
                ),
            ) && id@ == delivery.spec_run().spec_request() && scan_id@
                == delivery.spec_run().spec_scan() && kind@ == "pdf"@ && page is None && mime@
                == "application/pdf"@ && total_bytes == bytes@.len()
        }),
        delivery.spec_phase() is Complete && event is Sent ==> action == DeliveryAction::Finished(
            Ok(()),
        ),
{
    if delivery.spec_phase() is Begin && event is Sent && event != DeliveryEvent::Sent(
        SendOutcome::Cancelled,
    ) {
        lemma_rendered(delivery, event, after, action);
    }
}

/// Law: once all pages are in, a delivery goes on as its scan ended: in the scan's own
/// error; as cancelled, where pages were dropped; with its document, where it has one;
/// and otherwise with its completion.
pub proof fn law_scans_end_as_they_did(
    delivery: Delivery,
    event: DeliveryEvent,
    after: Delivery,
    action: DeliveryAction,
    dropped: bool,
)
    requires
        advances(delivery, event, after, action),
        delivery.spec_phase() == DeliveryPhase::Join(dropped),
    ensures
        event matches DeliveryEvent::Joined(ProducerEnd::Finished(Err(e))) ==> action
            == DeliveryAction::Finished(Err(e)),
        event matches DeliveryEvent::Joined(ProducerEnd::Finished(Ok(()))) ==> {
            let run = delivery.spec_run();
            &&& dropped ==> action == DeliveryAction::Finished(Err(ScanError::Cancelled))
            &&& !dropped && run.spec_pdf() is Some && run.spec_pdf().unwrap().spec_pages() > 0 ==> {
                &&& after.spec_phase() is Process
                &&& action matches DeliveryAction::Send(
                    OutgoingMessage::Json(AgentMessage::ScanProgress { page, status, .. }),
                ) && page == run.spec_pages() && status == ScanStatus::Processing
            }
            &&& !dropped && !(run.spec_pdf() is Some && run.spec_pdf().unwrap().spec_pages() > 0)
                ==> after.spec_phase() is Complete && (action matches DeliveryAction::Send(
                OutgoingMessage::Json(AgentMessage::ScanComplete { .. }),
            ))
        },
        event matches DeliveryEvent::Joined(ProducerEnd::Panicked) ==> (
        action matches DeliveryAction::Finished(Err(_))),
{
}

/// Law: what a document's file cannot take ends the delivery, in the words of what went
/// wrong; what went well leads on: from the file to the pages, and from a page in the file
/// to its announcement.
pub proof fn law_files_decide(
    delivery: Delivery,
    event: DeliveryEvent,
    after: Delivery,
    action: DeliveryAction,
)
    requires
        advances(delivery, event, after, action),
        event is Written,
        delivery.spec_phase() is Create || delivery.spec_phase() is Append,
    ensures
        event matches DeliveryEvent::Written(Err(fault)) ==> (
        action matches DeliveryAction::Finished(Err(ScanError::PdfGeneration(m))) && m@
            == fault.text()),
        event matches DeliveryEvent::Written(Ok(())) ==> {
            &&& delivery.spec_phase() is Create ==> action == DeliveryAction::Receive
            &&& delivery.spec_phase() matches DeliveryPhase::Append(announcement, payload) ==> {
                &&& action == DeliveryAction::Send(OutgoingMessage::Json(announcement))
                &&& after.spec_phase() == DeliveryPhase::Announce(payload, false)
            }
        },
{
}

} // verus!
