//! One scan, as the client sees it: the messages and payloads that its pages turn
//! into, in the order in which they go out.
//!
//! Sending, the temporary file of a document, and watching for a cancellation are
//! the caller's part.

use vstd::prelude::*;
use vstd::string::*;

use crate::pdf::{added, header_bytes, page_bytes, PageSpec, PageView, PdfError, PdfWriter};
use crate::protocol::{AgentMessage, OutputFormat, ScanStatus};
use crate::scanner::encode::{blocks_fit, jpeg_sized, row_countable};
use crate::scanner::raw::{is_conversion_error, law_normalized_covers};
use crate::scanner::sidecar::is_sidecar_error;
use crate::scanner::thumbnail::{
    expected_len, law_pages_can_be_scaled, thumbnail_jpeg, thumbnail_of, within_cap,
    THUMBNAIL_MAX_EDGE,
};
use crate::scanner::twain::TwainError;
use crate::scanner::{PageData, ScanError, ScannerSource};
use crate::text::{decimal, join, join_decimal};

verus! {

/// How often the cancel flag is looked at while a send waits for a client that
/// has stopped reading, in milliseconds.
pub const CANCEL_POLL_MS: u64 = 50;

/// Pages that may wait between the scanner and the client.
pub const PAGE_CHANNEL_CAPACITY: usize = 4;

/// JPEG quality of pages.
pub const PAGE_QUALITY: u8 = 85;

/// Give up on a send that has not gone out, where the scan was cancelled.
pub fn until_cancelled(cancelled: bool) -> (r: Result<(), ScanError>)
    ensures
        r == (if cancelled {
            Err::<(), ScanError>(ScanError::Cancelled)
        } else {
            Ok(())
        }),
{
    if cancelled {
        Err(ScanError::Cancelled)
    } else {
        Ok(())
    }
}

/// The end of a scan whose client is gone.
pub fn client_gone() -> (e: ScanError)
    ensures
        is_sidecar_error(e, "client disconnected during transfer"@),
{
    ScanError::Sidecar("client disconnected during transfer".to_owned())
}

/// How the side of a scan that produces pages ended.
#[derive(Debug)]
pub enum ProducerEnd {
    Finished(Result<(), ScanError>),
    Panicked,
}

/// What the end of the producing side means for a scan.
pub fn producer_verdict(end: ProducerEnd, source: ScannerSource) -> (r: Result<(), ScanError>)
    ensures
        match (end, source) {
            (ProducerEnd::Finished(verdict), _) => r == verdict,
            (ProducerEnd::Panicked, ScannerSource::Native) => r == Err::<(), ScanError>(
                ScanError::Twain(TwainError::InvalidState),
            ),
            (ProducerEnd::Panicked, ScannerSource::Sidecar) => r matches Err(e)
                && is_sidecar_error(e, "Sidecar task panicked"@),
        },
{
    match (end, source) {
        (ProducerEnd::Finished(verdict), _) => verdict,
        (ProducerEnd::Panicked, ScannerSource::Native) => Err(
            ScanError::Twain(TwainError::InvalidState),
        ),
        (ProducerEnd::Panicked, ScannerSource::Sidecar) => Err(
            ScanError::Sidecar("Sidecar task panicked".to_owned()),
        ),
    }
}

/// What can go wrong with the file of a document.
#[derive(Debug)]
pub enum DocumentFault {
    TempDir(String),
    Write(String),
    ReadBack(String),
}

/// Whether `e` says that no document could be generated, in these words.
pub open spec fn is_pdf_error(e: ScanError, words: Seq<char>) -> bool {
    e matches ScanError::PdfGeneration(m) && m@ == words
}

impl DocumentFault {
    /// The words that describe this fault.
    pub open spec fn text(self) -> Seq<char> {
        match self {
            DocumentFault::TempDir(e) => "temp dir: "@ + e@,
            DocumentFault::Write(e) => PdfError::WriteError(e).text(),
            DocumentFault::ReadBack(e) => "read back: "@ + e@,
        }
    }

    /// The scan error that this fault is.
    pub fn into_scan_error(self) -> (r: ScanError)
        ensures
            is_pdf_error(r, self.text()),
    {
        ScanError::PdfGeneration(
            match self {
                DocumentFault::TempDir(e) => join("temp dir: ", e.as_str()),
                DocumentFault::Write(e) => PdfError::WriteError(e).message(),
                DocumentFault::ReadBack(e) => join("read back: ", e.as_str()),
            },
        )
    }
}

/// The size of a page on paper, in hundredths of a point.
#[derive(Debug, Clone, Copy, PartialEq, Eq, Structural)]
pub struct PaperSize {
    pub width_pt: u64,
    pub height_pt: u64,
}

/// What a page turns into.
#[derive(Debug)]
pub struct RenderedPage {
    /// Bytes to append to the document's file; empty where there is no document.
    pub document: Vec<u8>,
    /// The message that announces the payload.
    pub announcement: AgentMessage,
    pub payload: Vec<u8>,
}

/// Channels of a page after normalization.
pub open spec fn channels(bits_per_pixel: u16) -> Option<u8> {
    if bits_per_pixel == 1 || bits_per_pixel == 8 {
        Some(1)
    } else if bits_per_pixel == 24 {
        Some(3)
    } else if bits_per_pixel == 32 {
        Some(4)
    } else {
        None
    }
}

/// One scan in progress.
pub struct ScanRun {
    request_id: String,
    scan_id: String,
    format: OutputFormat,
    /// Pages begun so far.
    page_count: u32,
    /// The document, written page by page but not yet closed.
    pdf: Option<PdfWriter>,
}

impl ScanRun {
    pub closed spec fn spec_request(self) -> Seq<char> {
        self.request_id@
    }

    pub closed spec fn spec_scan(self) -> Seq<char> {
        self.scan_id@
    }

    pub closed spec fn spec_format(self) -> OutputFormat {
        self.format
    }

    pub closed spec fn spec_pages(self) -> u32 {
        self.page_count
    }

    pub closed spec fn spec_pdf(self) -> Option<PdfWriter> {
        self.pdf
    }

    /// A document is written exactly where one was asked for.
    pub open spec fn wf(self) -> bool {
        &&& self.spec_pdf() is Some <==> self.spec_format() == OutputFormat::Pdf
        &&& self.spec_pdf() matches Some(writer) ==> writer.wf()
    }

    /// Whether another run is the same but for its document.
    pub open spec fn same_but_document(self, other: ScanRun) -> bool {
        &&& self.spec_request() == other.spec_request()
        &&& self.spec_scan() == other.spec_scan()
        &&& self.spec_format() == other.spec_format()
        &&& self.spec_pages() == other.spec_pages()
    }

    /// Begin a scan, with the bytes to begin its document's file with, if it makes
    /// one.
    pub fn begin(request_id: String, scan_id: String, format: OutputFormat) -> (r: (
        ScanRun,
        Option<Vec<u8>>,
    ))
        ensures
            r.0.wf(),
            r.0.spec_request() == request_id@,
            r.0.spec_scan() == scan_id@,
            r.0.spec_format() == format,
            r.0.spec_pages() == 0,
            match r.0.spec_pdf() {
                Some(writer) => r.1 matches Some(header) && header@ == header_bytes()
                    && writer.spec_pages() == 0 && writer.spec_document() == header_bytes()
                    && writer.spec_offsets() == Seq::<int>::empty(),
                None => r.1 is None,
            },
    {
        if format == OutputFormat::Pdf {
            let (writer, header) = PdfWriter::create();
            (
                ScanRun { request_id, scan_id, format, page_count: 0, pdf: Some(writer) },
                Some(header),
            )
        } else {
            (ScanRun { request_id, scan_id, format, page_count: 0, pdf: None }, None)
        }
    }

    /// What the client asked for.
    pub fn format(&self) -> (f: OutputFormat)
        ensures
            f == self.spec_format(),
    {
        self.format
    }

    /// Pages begun so far.
    pub fn page_count(&self) -> (n: u32)
        ensures
            n == self.spec_pages(),
    {
        self.page_count
    }

    fn progress(&self, status: ScanStatus) -> (m: AgentMessage)
        ensures
            m.is_progress(self.spec_request(), self.spec_scan(), self.spec_pages(), status),
    {
        AgentMessage::ScanProgress {
            id: self.request_id.clone(),
            scan_id: self.scan_id.clone(),
            page: self.page_count,
            status,
        }
    }

    /// Announce a payload of this kind and length.
    pub fn announce(&self, kind: &str, page: Option<u32>, mime: &str, total_bytes: usize) -> (m:
        AgentMessage)
        ensures
            m.is_binary_start(
                self.spec_request(),
                self.spec_scan(),
                kind@,
                page,
                mime@,
                total_bytes as nat,
            ),
    {
        AgentMessage::BinaryStart {
            id: self.request_id.clone(),
            scan_id: self.scan_id.clone(),
            kind: kind.to_owned(),
            page,
            mime: mime.to_owned(),
            total_bytes,
        }
    }

    /// Begin the next page: the message that says so.
    pub fn begin_page(&mut self) -> (m: AgentMessage)
        requires
            old(self).spec_pages() < u32::MAX,
        ensures
            final(self).spec_pages() == old(self).spec_pages() + 1,
            final(self).spec_request() == old(self).spec_request(),
            final(self).spec_scan() == old(self).spec_scan(),
            final(self).spec_format() == old(self).spec_format(),
            final(self).spec_pdf() == old(self).spec_pdf(),
            m.is_progress(
                old(self).spec_request(),
                old(self).spec_scan(),
                (old(self).spec_pages() + 1) as u32,
                ScanStatus::Scanning,
            ),
    {
        self.page_count = self.page_count + 1;
        self.progress(ScanStatus::Scanning)
    }

    /// Whether `r` is what a page turns into where no document is asked for: its
    /// image, in full resolution.
    pub open spec fn renders_image(
        self,
        image: Result<Seq<u8>, Seq<char>>,
        mime: Seq<char>,
        r: Result<RenderedPage, ScanError>,
    ) -> bool {
        match image {
            Err(words) => r matches Err(e) && is_conversion_error(e, words),
            Ok(file) => r matches Ok(rendered) && rendered.document@.len() == 0
                && rendered.payload@ == file && rendered.announcement.is_binary_start(
                self.spec_request(),
                self.spec_scan(),
                "page"@,
                Some(self.spec_pages()),
                mime,
                file.len(),
            ),
        }
    }

    /// The page as the document gets it.
    pub open spec fn embedded(self, page: PageData, size: PaperSize) -> PageView {
        PageView {
            jpeg: page.jpeg_outcome(PAGE_QUALITY)->Ok_0,
            width_px: page.width,
            height_px: page.height,
            width_pt: size.width_pt,
            height_pt: size.height_pt,
            channels: if channels(page.bits_per_pixel) == Some(1u8) {
                1
            } else {
                3
            },
        }
    }

    /// Whether `r` is what a page turns into where a document is asked for: more of
    /// the document, and a thumbnail for the client.
    pub open spec fn renders_document_page(
        self,
        page: PageData,
        size: PaperSize,
        after: ScanRun,
        r: Result<RenderedPage, ScanError>,
    ) -> bool {
        let before = self.spec_pdf().unwrap();
        let image = page.jpeg_outcome(PAGE_QUALITY);
        let thumbnail = thumbnail_of(
            page.spec_pixels(),
            page.width,
            page.height,
            channels(page.bits_per_pixel).unwrap(),
        );
        if image is Err {
            r matches Err(e) && is_conversion_error(e, image->Err_0)
        } else if before.is_full_for(self.embedded(page, size)) {
            r matches Err(e) && is_pdf_error(e, "PDF write error: "@ + "document too large"@)
        } else {
            &&& thumbnail is Ok
            &&& r matches Ok(rendered) && rendered.payload@ == thumbnail->Ok_0
                && rendered.announcement.is_binary_start(
                self.spec_request(),
                self.spec_scan(),
                "thumbnail"@,
                Some(self.spec_pages()),
                "image/jpeg"@,
                rendered.payload@.len(),
            ) && rendered.document@ == page_bytes(
                before.spec_pages(),
                self.embedded(page, size),
            ) && after.spec_pdf().unwrap().spec_document() == before.spec_document()
                + rendered.document@ && after.spec_pdf().unwrap().spec_pages()
                == before.spec_pages() + 1 && after.spec_pdf().unwrap().spec_offsets()
                == before.offsets_with(self.embedded(page, size))
        }
    }

    /// Whether `r` is what a page turns into, the run being `after` afterwards.
    pub open spec fn renders(
        self,
        page: PageData,
        size: PaperSize,
        after: ScanRun,
        r: Result<RenderedPage, ScanError>,
    ) -> bool {
        match channels(page.bits_per_pixel) {
            None => r matches Err(e) && is_conversion_error(
                e,
                "Unsupported bit depth: "@ + decimal(page.bits_per_pixel as nat),
            ),
            Some(_) => match self.spec_format() {
                OutputFormat::Png => self.renders_image(page.png_outcome(), "image/png"@, r),
                OutputFormat::Jpeg => self.renders_image(
                    page.jpeg_outcome(PAGE_QUALITY),
                    "image/jpeg"@,
                    r,
                ),
                OutputFormat::Pdf => self.renders_document_page(page, size, after, r),
            },
        }
    }

    /// Turn the page that was begun into what the client gets of it. `size` is its
    /// size on paper, at its resolution.
    pub fn render_page(&mut self, page: &PageData, size: PaperSize) -> (r: Result<
        RenderedPage,
        ScanError,
    >)
        requires
            old(self).wf(),
        ensures
            final(self).wf(),
            final(self).same_but_document(*old(self)),
            old(self).renders(*page, size, *final(self), r),
    {
        let channels: u8 = match page.bits_per_pixel {
            1 | 8 => 1,
            24 => 3,
            32 => 4,
            other => {
                return Err(
                    ScanError::ImageConversion(
                        join_decimal("Unsupported bit depth: ", other as u64),
                    ),
                );
            },
        };
        match self.format {
            OutputFormat::Png => match page.to_png() {
                Ok(file) => {
                    let announcement = self.announce(
                        "page",
                        Some(self.page_count),
                        "image/png",
                        file.len(),
                    );
                    Ok(RenderedPage { document: Vec::new(), announcement, payload: file })
                },
                Err(e) => Err(e),
            },
            OutputFormat::Jpeg => match page.to_jpeg(PAGE_QUALITY) {
                Ok(file) => {
                    let announcement = self.announce(
                        "page",
                        Some(self.page_count),
                        "image/jpeg",
                        file.len(),
                    );
                    Ok(RenderedPage { document: Vec::new(), announcement, payload: file })
                },
                Err(e) => Err(e),
            },
            OutputFormat::Pdf => self.render_document_page(page, size, channels),
        }
    }

    fn render_document_page(&mut self, page: &PageData, size: PaperSize, channels: u8) -> (r:
        Result<RenderedPage, ScanError>)
        requires
            old(self).wf(),
            old(self).spec_format() == OutputFormat::Pdf,
            self::channels(page.bits_per_pixel) == Some(channels),
        ensures
            final(self).wf(),
            final(self).same_but_document(*old(self)),
            old(self).renders_document_page(*page, size, *final(self), r),
    {
        let jpeg = match page.to_jpeg(PAGE_QUALITY) {
            Ok(jpeg) => jpeg,
            Err(e) => {
                return Err(e);
            },
        };
        let mut pdf: Option<PdfWriter> = None;
        std::mem::swap(&mut pdf, &mut self.pdf);
        let added = match &mut pdf {
            Some(writer) => writer.add_page(
                PageSpec {
                    jpeg: jpeg.as_slice(),
                    width_px: page.width,
                    height_px: page.height,
                    width_pt: size.width_pt,
                    height_pt: size.height_pt,
                    channels: if channels == 1 {
                        1
                    } else {
                        3
                    },
                },
            ),
            None => Ok(Vec::new()),
        };
        self.pdf = pdf;
        let document = match added {
            Ok(document) => document,
            Err(e) => {
                return Err(ScanError::PdfGeneration(e.message()));
            },
        };
        let pixels = match page.normalized() {
            Ok(pixels) => pixels,
            Err(e) => {
                return Err(e);
            },
        };
        proof {
            law_normalized_covers(
                page.raw_data@,
                page.width,
                page.height,
                page.bits_per_pixel,
                page.bytes_per_row,
            );
            lemma_thumbnail_fits(page.width, page.height, channels);
        }
        let thumbnail = match thumbnail_jpeg(
            pixels.as_slice(),
            page.width,
            page.height,
            channels,
        ) {
            Ok(thumbnail) => thumbnail,
            Err(e) => {
                return Err(e);
            },
        };
        let announcement = self.announce(
            "thumbnail",
            Some(self.page_count),
            "image/jpeg",
            thumbnail.len(),
        );
        Ok(RenderedPage { document, announcement, payload: thumbnail })
    }
}

impl ScanRun {
    /// Whether there is a document to close.
    pub open spec fn has_document(self) -> bool {
        self.spec_pdf() matches Some(writer) && writer.spec_pages() > 0
    }

    /// What follows the last page, once the producing side has ended: nothing more
    /// of a scan that failed, or that dropped pages because it was cancelled, and
    /// otherwise the message that its document, if it has one, is being closed.
    ///
    /// The verdict comes first, so a failure after the last page costs the client
    /// neither that message nor a document that is about to be thrown away.
    pub fn conclude(&self, producer: Result<(), ScanError>, cancelled: bool) -> (r: Result<
        Option<AgentMessage>,
        ScanError,
    >)
        ensures
            match producer {
                Err(e) => r == Err::<Option<AgentMessage>, ScanError>(e),
                Ok(()) => if cancelled {
                    r == Err::<Option<AgentMessage>, ScanError>(ScanError::Cancelled)
                } else if self.has_document() {
                    r matches Ok(Some(m)) && m.is_progress(
                        self.spec_request(),
                        self.spec_scan(),
                        self.spec_pages(),
                        ScanStatus::Processing,
                    )
                } else {
                    r == Ok::<Option<AgentMessage>, ScanError>(None)
                },
            },
    {
        match producer {
            Err(e) => Err(e),
            Ok(()) => if cancelled {
                Err(ScanError::Cancelled)
            } else {
                match &self.pdf {
                    Some(writer) => if writer.page_count() > 0 {
                        Ok(Some(self.progress(ScanStatus::Processing)))
                    } else {
                        Ok(None)
                    },
                    None => Ok(None),
                }
            },
        }
    }

    /// Close the document: the bytes to end its file with.
    pub fn finish_document(&mut self) -> (r: Result<Vec<u8>, ScanError>)
        requires
            old(self).wf(),
            old(self).spec_pdf() is Some,
        ensures
            final(self).same_but_document(*old(self)),
            final(self).spec_pdf() is None,
            match r {
                Ok(bytes) => bytes@ == old(self).spec_pdf().unwrap().closing_bytes(),
                Err(e) => is_pdf_error(e, "PDF write error: "@ + "document too large"@) && old(
                    self,
                ).spec_pdf().unwrap().spec_document().len() + old(
                    self,
                ).spec_pdf().unwrap().closing_bytes().len() > u64::MAX,
            },
    {
        let mut pdf: Option<PdfWriter> = None;
        std::mem::swap(&mut pdf, &mut self.pdf);
        match pdf {
            Some(writer) => match writer.finish() {
                Ok((bytes, _)) => Ok(bytes),
                Err(e) => Err(ScanError::PdfGeneration(e.message())),
            },
            None => Ok(Vec::new()),
        }
    }

    /// The message that announces the finished document.
    pub fn announce_document(&self, total_bytes: usize) -> (m: AgentMessage)
        ensures
            m.is_binary_start(
                self.spec_request(),
                self.spec_scan(),
                "pdf"@,
                None,
                "application/pdf"@,
                total_bytes as nat,
            ),
    {
        self.announce("pdf", None, "application/pdf", total_bytes)
    }

    /// Whether `m` ends the scan.
    pub open spec fn is_completed_by(self, m: AgentMessage) -> bool {
        m matches AgentMessage::ScanComplete { id, scan_id, total_pages } && id@
            == self.spec_request() && scan_id@ == self.spec_scan() && total_pages
            == self.spec_pages()
    }

    /// The message that ends the scan.
    pub fn complete(&self) -> (m: AgentMessage)
        ensures
            self.is_completed_by(m),
    {
        AgentMessage::ScanComplete {
            id: self.request_id.clone(),
            scan_id: self.scan_id.clone(),
            total_pages: self.page_count,
        }
    }
}

/// A page that can be a JPEG can be shrunk.
proof fn lemma_thumbnail_fits(width: u32, height: u32, channels: u8)
    requires
        jpeg_sized(width, height),
    ensures
        within_cap(width, height) || blocks_fit(width, height, THUMBNAIL_MAX_EDGE),
        expected_len(width, height, channels) == height * (width * channels),
        row_countable(width, channels),
{
    assert(width * channels <= 65535 * 255) by (nonlinear_arith)
        requires
            width <= 65535,
            channels <= 255,
    ;
    if !within_cap(width, height) {
        law_pages_can_be_scaled(width, height);
    }
    assert(width * height * channels == height * (width * channels)) by (nonlinear_arith);
}

/// Law: where images are asked for, a page turns into its own image, as a file of the
/// format asked for, announced as that page with its length; where it cannot be one,
/// into the complaint about it. Pages of other depths are refused.
pub proof fn law_pages_turn_into_their_image(
    run: ScanRun,
    page: PageData,
    size: PaperSize,
    after: ScanRun,
    r: Result<RenderedPage, ScanError>,
)
    requires
        run.renders(page, size, after, r),
        run.spec_format() != OutputFormat::Pdf,
    ensures
        ({
            let supported = page.bits_per_pixel == 1 || page.bits_per_pixel == 8
                || page.bits_per_pixel == 24 || page.bits_per_pixel == 32;
            let png = run.spec_format() == OutputFormat::Png;
            let outcome = if png {
                page.png_outcome()
            } else {
                page.jpeg_outcome(85)
            };
            let mime = if png {
                "image/png"@
            } else {
                "image/jpeg"@
            };
            &&& !supported ==> (r matches Err(ScanError::ImageConversion(m)) && m@
                == "Unsupported bit depth: "@ + decimal(page.bits_per_pixel as nat))
            &&& supported ==> (outcome matches Err(words) ==> (r matches Err(
                ScanError::ImageConversion(m),
            ) && m@ == words))
            &&& supported ==> (outcome matches Ok(file) ==> (r matches Ok(rendered)
                && rendered.payload@ == file && rendered.document@.len() == 0 && (
            rendered.announcement matches AgentMessage::BinaryStart {
                id,
                scan_id,
                kind,
                page: number,
                mime: media,
                total_bytes,
            } && id@ == run.spec_request() && scan_id@ == run.spec_scan() && kind@ == "page"@
                && number == Some(run.spec_pages()) && media@ == mime && total_bytes
                == rendered.payload@.len())))
        }),
{
}

/// Law: where a document is asked for, a page goes into it with its own image, its size
/// in pixels and on paper, and in gray or in color as it is; and the client gets a
/// thumbnail of the same pixels, announced as that page with its length.
pub proof fn law_pages_go_into_the_document(
    run: ScanRun,
    page: PageData,
    size: PaperSize,
    after: ScanRun,
    r: Result<RenderedPage, ScanError>,
)
    requires
        run.renders(page, size, after, r),
        run.spec_format() == OutputFormat::Pdf,
        run.spec_pdf() is Some,
        page.complaint() is None,
        page.bits_per_pixel == 1 || page.bits_per_pixel == 8 || page.bits_per_pixel == 24,
        page.jpeg_outcome(85) is Ok,
    ensures
        ({
            let channels = if page.bits_per_pixel == 24 {
                3u8
            } else {
                1
            };
            let view = PageView {
                jpeg: page.jpeg_outcome(85)->Ok_0,
                width_px: page.width,
                height_px: page.height,
                width_pt: size.width_pt,
                height_pt: size.height_pt,
                channels,
            };
            let before = run.spec_pdf().unwrap();
            if before.is_full_for(view) {
                r matches Err(ScanError::PdfGeneration(m)) && m@ == "PDF write error: "@
                    + "document too large"@
            } else {
                &&& added(before, view, after.spec_pdf().unwrap())
                &&& r matches Ok(rendered) && rendered.document@ == page_bytes(
                    before.spec_pages(),
                    view,
                ) && thumbnail_of(page.spec_pixels(), page.width, page.height, channels) == Ok::<
                    Seq<u8>,
                    Seq<char>,
                >(rendered.payload@) && (rendered.announcement matches AgentMessage::BinaryStart {
                    id,
                    scan_id,
                    kind,
                    page: number,
                    mime,
                    total_bytes,
                } && id@ == run.spec_request() && scan_id@ == run.spec_scan() && kind@
                    == "thumbnail"@ && number == Some(run.spec_pages()) && mime@ == "image/jpeg"@
                    && total_bytes == rendered.payload@.len())
            }
        }),
{
}

/// Law: a page that cannot be a JPEG goes into no document; that is the answer.
pub proof fn law_pages_that_are_no_image_are_refused(
    run: ScanRun,
    page: PageData,
    size: PaperSize,
    after: ScanRun,
    r: Result<RenderedPage, ScanError>,
)
    requires
        run.renders(page, size, after, r),
        run.spec_format() == OutputFormat::Pdf,
    ensures
        !(page.bits_per_pixel == 1 || page.bits_per_pixel == 8 || page.bits_per_pixel == 24
            || page.bits_per_pixel == 32) ==> (r matches Err(ScanError::ImageConversion(m)) && m@
            == "Unsupported bit depth: "@ + decimal(page.bits_per_pixel as nat)),
        page.bits_per_pixel == 1 || page.bits_per_pixel == 8 || page.bits_per_pixel == 24
            || page.bits_per_pixel == 32 ==> (page.jpeg_outcome(85) matches Err(words) ==> (
        r matches Err(ScanError::ImageConversion(m)) && m@ == words)),
{
}

/// Law: a run's document counts as one from its first page on; the message that ends a
/// run says how many pages it had, under its own ids.
pub proof fn law_runs_end_with_their_pages(run: ScanRun, m: AgentMessage)
    ensures
        run.has_document() <==> run.spec_pdf() is Some && run.spec_pdf().unwrap().spec_pages() > 0,
        run.is_completed_by(m) <==> (m matches AgentMessage::ScanComplete {
            id,
            scan_id,
            total_pages,
        } && id@ == run.spec_request() && scan_id@ == run.spec_scan() && total_pages
            == run.spec_pages()),
{
}

/// Law: what goes wrong with a document's file is said in the words of whoever found it.
pub proof fn law_document_faults_are_told(fault: DocumentFault, e: ScanError)
    ensures
        fault matches DocumentFault::TempDir(m) ==> fault.text() == "temp dir: "@ + m@,
        fault matches DocumentFault::Write(m) ==> fault.text() == "PDF write error: "@ + m@,
        fault matches DocumentFault::ReadBack(m) ==> fault.text() == "read back: "@ + m@,
        is_pdf_error(e, fault.text()) <==> (e matches ScanError::PdfGeneration(m) && m@
            == fault.text()),
{
}

/// Law: a run that is the same but for its document has the same ids, format and pages.
pub proof fn law_same_runs(run: ScanRun, other: ScanRun)
    requires
        run.same_but_document(other),
    ensures
        run.spec_request() == other.spec_request(),
        run.spec_scan() == other.spec_scan(),
        run.spec_format() == other.spec_format(),
        run.spec_pages() == other.spec_pages(),
{
}

} // verus!
