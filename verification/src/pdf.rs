//! PDF generation from scanned page images.
//!
//! A document is written piece by piece, in the order in which the pages arrive,
//! so a batch never costs more memory than the page in hand. Every step hands out
//! the bytes to append to the file.

use vstd::prelude::*;
use vstd::string::*;
use vstd::utf8::*;

use crate::text::{
    decimal, decimal_string, join, join_decimal, law_numerals_differ,
    law_numerals_fill_their_width, law_numerals_read_back, lemma_utf8_concat, numeral,
    push_decimal, push_numeral, reads_as,
};

verus! {

#[derive(Debug)]
pub enum PdfError {
    NoPages,
    ImageDecode(String),
    ImageEncode(String),
    WriteError(String),
}

impl PdfError {
    /// The words that describe this error.
    pub open spec fn text(self) -> Seq<char> {
        match self {
            PdfError::NoPages => "No pages to generate PDF from"@,
            PdfError::ImageDecode(e) => "Image decode error: "@ + e@,
            PdfError::ImageEncode(e) => "Image encode error: "@ + e@,
            PdfError::WriteError(e) => "PDF write error: "@ + e@,
        }
    }

    /// Describe the error.
    pub fn message(&self) -> (s: String)
        ensures
            s@ == self.text(),
    {
        match self {
            PdfError::NoPages => "No pages to generate PDF from".to_owned(),
            PdfError::ImageDecode(e) => join("Image decode error: ", e.as_str()),
            PdfError::ImageEncode(e) => join("Image encode error: ", e.as_str()),
            PdfError::WriteError(e) => join("PDF write error: ", e.as_str()),
        }
    }
}

/// One page being appended to a document.
pub struct PageSpec<'a> {
    pub jpeg: &'a [u8],
    pub width_px: u32,
    pub height_px: u32,
    /// Size of the page on paper, in hundredths of a point.
    pub width_pt: u64,
    pub height_pt: u64,
    /// 1 for grayscale, 3 for RGB.
    pub channels: u8,
}

/// What a page is, as far as the document goes.
#[verifier::ext_equal]
pub struct PageView {
    pub jpeg: Seq<u8>,
    pub width_px: u32,
    pub height_px: u32,
    pub width_pt: u64,
    pub height_pt: u64,
    pub channels: u8,
}

impl<'a> View for PageSpec<'a> {
    type V = PageView;

    open spec fn view(&self) -> PageView {
        PageView {
            jpeg: self.jpeg@,
            width_px: self.width_px,
            height_px: self.height_px,
            width_pt: self.width_pt,
            height_pt: self.height_pt,
            channels: self.channels,
        }
    }
}

// ---------------------------------------------------------------------------
// The text of a document
// ---------------------------------------------------------------------------
/// Hundredths of a point, in points.
pub open spec fn points(hundredths: u64) -> Seq<char> {
    decimal((hundredths / 100) as nat) + "."@ + numeral((hundredths % 100) as nat, 10, 2)
}

/// How an object begins.
pub open spec fn object_open(n: nat) -> Seq<char> {
    decimal(n) + " 0 obj\n"@
}

/// The page itself, of the document's `i`th page.
pub open spec fn page_object(i: nat, width_pt: u64, height_pt: u64) -> Seq<char> {
    object_open(3 + 3 * i) + ("<< /Type /Page /Parent 2 0 R /MediaBox [0 0 "@ + points(width_pt)
        + " "@ + points(height_pt) + "] /Contents "@ + decimal(4 + 3 * i)
        + " 0 R /Resources << /XObject << /Img "@ + decimal(5 + 3 * i)
        + " 0 R >> >> >>\nendobj\n"@)
}

/// What a page draws: its image, over all of it.
pub open spec fn page_drawing(width_pt: u64, height_pt: u64) -> Seq<char> {
    "q\n"@ + points(width_pt) + " 0 0 "@ + points(height_pt) + " 0 0 cm\n/Img Do\nQ\n"@
}

/// The contents of the document's `i`th page.
pub open spec fn content_object(i: nat, width_pt: u64, height_pt: u64) -> Seq<char> {
    object_open(4 + 3 * i) + ("<< /Length "@ + decimal(
        encode_utf8(page_drawing(width_pt, height_pt)).len(),
    ) + " >>\nstream\n"@ + page_drawing(width_pt, height_pt) + "endstream\nendobj\n"@)
}

/// The color space of an image with that many channels.
pub open spec fn colorspace(channels: u8) -> Option<Seq<char>> {
    if channels == 1 {
        Some("/DeviceGray"@)
    } else if channels == 3 {
        Some("/DeviceRGB"@)
    } else {
        None
    }
}

/// How the image of the document's `i`th page begins.
pub open spec fn image_open(i: nat, page: PageView) -> Seq<char> {
    object_open(5 + 3 * i) + ("<< /Type /XObject /Subtype /Image /Width "@ + decimal(
        page.width_px as nat,
    ) + " /Height "@ + decimal(page.height_px as nat) + " /ColorSpace "@ + colorspace(
        page.channels,
    ).unwrap() + " /BitsPerComponent 8 /Filter /DCTDecode /Length "@ + decimal(page.jpeg.len())
        + " >>\nstream\n"@)
}

/// How an image ends.
pub open spec fn image_close() -> Seq<char> {
    "\nendstream\nendobj\n"@
}

/// The bytes of the document's `i`th page.
pub open spec fn page_bytes(i: nat, page: PageView) -> Seq<u8> {
    encode_utf8(page_object(i, page.width_pt, page.height_pt)) + encode_utf8(
        content_object(i, page.width_pt, page.height_pt),
    ) + encode_utf8(image_open(i, page)) + page.jpeg + encode_utf8(image_close())
}

/// Where the three objects of a page begin, when its bytes begin at `at`.
pub open spec fn page_offsets(at: int, i: nat, page: PageView) -> Seq<int> {
    let content_at = at + encode_utf8(page_object(i, page.width_pt, page.height_pt)).len();
    let image_at = content_at + encode_utf8(
        content_object(i, page.width_pt, page.height_pt),
    ).len();
    seq![at, content_at, image_at]
}

/// How a document begins.
pub open spec fn header_bytes() -> Seq<u8> {
    encode_utf8("%PDF-1.4\n%"@) + seq![0xE2u8, 0xE3u8, 0xCFu8, 0xD3u8, 0x0Au8]
}

/// The catalog, which is the first object.
pub open spec fn catalog_object() -> Seq<char> {
    object_open(1) + "<< /Type /Catalog /Pages 2 0 R >>\nendobj\n"@
}

/// References to the first `pages` pages.
pub open spec fn kids(pages: nat) -> Seq<char>
    decreases pages,
{
    if pages == 0 {
        "[ "@
    } else {
        kids((pages - 1) as nat) + decimal((3 * pages) as nat) + " 0 R "@
    }
}

/// The list of pages, which is the second object.
pub open spec fn pages_object(pages: nat) -> Seq<char> {
    object_open(2) + ("<< /Type /Pages /Kids "@ + kids(pages) + "]"@ + " /Count "@ + decimal(pages)
        + " >>\nendobj\n"@)
}

/// The cross-reference entries of objects that begin at these offsets.
pub open spec fn xref_entries(offsets: Seq<int>) -> Seq<char>
    decreases offsets.len(),
{
    if offsets.len() == 0 {
        "0000000000 65535 f \n"@
    } else {
        xref_entries(offsets.drop_last()) + numeral(offsets.last() as nat, 10, 10)
            + " 00000 n \n"@
    }
}

/// The cross-reference table and the trailer, of a document whose table begins at
/// `xref_at`.
pub open spec fn trailer_text(offsets: Seq<int>, xref_at: int) -> Seq<char> {
    "xref\n0 "@ + decimal(offsets.len() + 1) + "\n"@ + xref_entries(offsets)
        + "trailer\n<< /Size "@ + decimal(offsets.len() + 1) + " /Root 1 0 R >>\nstartxref\n"@
        + decimal(xref_at as nat) + "\n%%EOF\n"@
}

// ---------------------------------------------------------------------------
// Writing
// ---------------------------------------------------------------------------
/// Append a text to bytes.
fn put(out: &mut Vec<u8>, text: &String)
    ensures
        final(out)@ == old(out)@ + encode_utf8(text@),
{
    out.extend_from_slice(text.as_str().as_bytes());
}

fn push_points(out: &mut String, hundredths: u64)
    ensures
        final(out)@ == old(out)@ + points(hundredths),
{
    push_decimal(out, hundredths / 100);
    out.append(".");
    push_numeral(out, hundredths % 100, 10, 2);
    proof {
        assert(final(out)@ =~= old(out)@ + points(hundredths));
    }
}

fn page_object_text(i: u64, width_pt: u64, height_pt: u64) -> (s: String)
    requires
        i <= u32::MAX,
    ensures
        s@ == page_object(i as nat, width_pt, height_pt),
{
    let mut s = decimal_string(3 + 3 * i);
    s.append(" 0 obj\n");
    let mut d = "<< /Type /Page /Parent 2 0 R /MediaBox [0 0 ".to_owned();
    push_points(&mut d, width_pt);
    d.append(" ");
    push_points(&mut d, height_pt);
    d.append("] /Contents ");
    push_decimal(&mut d, 4 + 3 * i);
    d.append(" 0 R /Resources << /XObject << /Img ");
    push_decimal(&mut d, 5 + 3 * i);
    d.append(" 0 R >> >> >>\nendobj\n");
    s.append(d.as_str());
    s
}

fn drawing_text(width_pt: u64, height_pt: u64) -> (s: String)
    ensures
        s@ == page_drawing(width_pt, height_pt),
{
    let mut s = "q\n".to_owned();
    push_points(&mut s, width_pt);
    s.append(" 0 0 ");
    push_points(&mut s, height_pt);
    s.append(" 0 0 cm\n/Img Do\nQ\n");
    s
}

fn content_object_text(i: u64, width_pt: u64, height_pt: u64) -> (s: String)
    requires
        i <= u32::MAX,
    ensures
        s@ == content_object(i as nat, width_pt, height_pt),
{
    let drawing = drawing_text(width_pt, height_pt);
    let mut s = decimal_string(4 + 3 * i);
    s.append(" 0 obj\n");
    let mut d = join_decimal("<< /Length ", drawing.as_str().as_bytes().len() as u64);
    d.append(" >>\nstream\n");
    d.append(drawing.as_str());
    d.append("endstream\nendobj\n");
    s.append(d.as_str());
    s
}

fn image_open_text(i: u64, page: &PageSpec, space: &str) -> (s: String)
    requires
        i <= u32::MAX,
        colorspace(page.channels) == Some(space@),
    ensures
        s@ == image_open(i as nat, page@),
{
    let mut s = decimal_string(5 + 3 * i);
    s.append(" 0 obj\n");
    let mut d = join_decimal(
        "<< /Type /XObject /Subtype /Image /Width ",
        page.width_px as u64,
    );
    d.append(" /Height ");
    push_decimal(&mut d, page.height_px as u64);
    d.append(" /ColorSpace ");
    d.append(space);
    d.append(" /BitsPerComponent 8 /Filter /DCTDecode /Length ");
    push_decimal(&mut d, page.jpeg.len() as u64);
    d.append(" >>\nstream\n");
    s.append(d.as_str());
    s
}

/// Pages whose objects can be numbered in 32 bits.
pub const MAX_PAGES: u32 = 1_431_655_764;

/// Whether object `n` begins at `at`.
pub open spec fn object_at(document: Seq<u8>, at: int, n: nat) -> bool {
    let open = encode_utf8(object_open(n));
    &&& 0 <= at
    &&& at + open.len() <= document.len()
    &&& document.subrange(at, at + open.len() as int) == open
}

/// Where an object begins stays so as a document grows.
proof fn lemma_object_stays(document: Seq<u8>, more: Seq<u8>, at: int, n: nat)
    requires
        object_at(document, at, n),
    ensures
        object_at(document + more, at, n),
{
    let open = encode_utf8(object_open(n));
    assert((document + more).subrange(at, at + open.len() as int) =~= document.subrange(
        at,
        at + open.len() as int,
    ));
}

/// An object that is appended begins where the document ended.
proof fn lemma_object_appended(document: Seq<u8>, n: nat, rest: Seq<char>, more: Seq<u8>)
    ensures
        object_at(document + encode_utf8(object_open(n) + rest) + more, document.len() as int, n),
{
    let open = encode_utf8(object_open(n));
    lemma_utf8_concat(object_open(n), rest);
    let all = document + encode_utf8(object_open(n) + rest) + more;
    assert(all.subrange(document.len() as int, document.len() + open.len() as int) =~= open);
}

/// Writes a PDF incrementally, so a scan never holds more than one page.
///
/// Objects may appear in any order, as the cross-reference table maps their
/// numbers to byte offsets. So pages are appended as they arrive, and the catalog
/// and the list of pages, which are the first two objects, are written last.
pub struct PdfWriter {
    written: u64,
    /// Byte offset of each object, indexed by object number minus one.
    offsets: Vec<u64>,
    page_objs: Vec<u32>,
    document: Ghost<Seq<u8>>,
}

impl PdfWriter {
    /// The document so far.
    pub closed spec fn spec_document(self) -> Seq<u8> {
        self.document@
    }

    /// Where its objects begin, the first two of which are not written yet.
    pub closed spec fn spec_offsets(self) -> Seq<int> {
        self.offsets@.map_values(|offset: u64| offset as int)
    }

    pub closed spec fn spec_pages(self) -> nat {
        self.page_objs@.len()
    }

    /// The objects of every page begin where the offsets say.
    pub closed spec fn wf(self) -> bool {
        &&& self.written == self.document@.len()
        &&& self.page_objs@.len() <= MAX_PAGES
        &&& forall|j: int|
            0 <= j < self.page_objs@.len() ==> #[trigger] self.page_objs@[j] == 3 + 3 * j
        &&& self.offsets@.len() == (if self.page_objs@.len() == 0 {
            0
        } else {
            2 + 3 * self.page_objs@.len()
        })
        &&& forall|k: int|
            2 <= k < self.offsets@.len() ==> object_at(
                self.document@,
                #[trigger] self.offsets@[k] as int,
                (k + 1) as nat,
            )
    }

    /// Begin a document, with the bytes to begin its file with.
    pub fn create() -> (r: (PdfWriter, Vec<u8>))
        ensures
            r.0.wf(),
            r.0.spec_document() == header_bytes(),
            r.0.spec_offsets() == Seq::<int>::empty(),
            r.0.spec_pages() == 0,
            r.1@ == header_bytes(),
    {
        let mut header: Vec<u8> = Vec::new();
        header.extend_from_slice("%PDF-1.4\n%".as_bytes());
        header.push(0xE2);
        header.push(0xE3);
        header.push(0xCF);
        header.push(0xD3);
        header.push(0x0A);
        proof {
            assert(header@ =~= header_bytes());
        }
        let writer = PdfWriter {
            written: header.len() as u64,
            offsets: Vec::new(),
            page_objs: Vec::new(),
            document: Ghost(header_bytes()),
        };
        proof {
            assert(writer.spec_offsets() =~= Seq::<int>::empty());
        }
        (writer, header)
    }

    pub fn page_count(&self) -> (n: usize)
        ensures
            n == self.spec_pages(),
    {
        self.page_objs.len()
    }

    /// The offsets after a page, which follows those before it. The first two
    /// objects keep their places until they are written.
    pub open spec fn offsets_with(self, page: PageView) -> Seq<int> {
        (if self.spec_pages() == 0 {
            seq![0int, 0int]
        } else {
            self.spec_offsets()
        }) + page_offsets(self.spec_document().len() as int, self.spec_pages(), page)
    }

    /// Whether a page is more than the document can take.
    pub open spec fn is_full_for(self, page: PageView) -> bool {
        ||| self.spec_pages() >= MAX_PAGES
        ||| self.spec_document().len() + page_bytes(self.spec_pages(), page).len() > u64::MAX
    }

    /// Append a page, and hand out its bytes.
    pub fn add_page(&mut self, page: PageSpec<'_>) -> (r: Result<Vec<u8>, PdfError>)
        requires
            old(self).wf(),
        ensures
            final(self).wf(),
            match r {
                Ok(bytes) => {
                    &&& colorspace(page.channels) is Some
                    &&& !old(self).is_full_for(page@)
                    &&& bytes@ == page_bytes(old(self).spec_pages(), page@)
                    &&& final(self).spec_document() == old(self).spec_document() + bytes@
                    &&& final(self).spec_pages() == old(self).spec_pages() + 1
                    &&& final(self).spec_offsets() == old(self).offsets_with(page@)
                },
                Err(e) => {
                    &&& *final(self) == *old(self)
                    &&& if colorspace(page.channels) is None {
                        e matches PdfError::ImageEncode(m) && m@
                            == "Unsupported channel count for PDF embedding: "@ + decimal(
                            page.channels as nat,
                        )
                    } else {
                        e matches PdfError::WriteError(m) && old(self).is_full_for(page@) && m@
                            == "document too large"@
                    }
                },
            },
    {
        let space = match page.channels {
            1 => "/DeviceGray",
            3 => "/DeviceRGB",
            other => {
                return Err(
                    PdfError::ImageEncode(
                        join_decimal(
                            "Unsupported channel count for PDF embedding: ",
                            other as u64,
                        ),
                    ),
                );
            },
        };
        if self.page_objs.len() >= MAX_PAGES as usize {
            return Err(PdfError::WriteError("document too large".to_owned()));
        }
        let i = self.page_objs.len() as u64;
        let page_object = page_object_text(i, page.width_pt, page.height_pt);
        let content_object = content_object_text(i, page.width_pt, page.height_pt);
        let image_object = image_open_text(i, &page, space);
        let mut bytes: Vec<u8> = Vec::new();
        put(&mut bytes, &page_object);
        let content_at = bytes.len() as u64;
        put(&mut bytes, &content_object);
        let image_at = bytes.len() as u64;
        put(&mut bytes, &image_object);
        bytes.extend_from_slice(page.jpeg);
        bytes.extend_from_slice("\nendstream\nendobj\n".as_bytes());
        proof {
            assert(bytes@ =~= page_bytes(i as nat, page@));
        }
        let written = match self.written.checked_add(bytes.len() as u64) {
            Some(written) => written,
            None => {
                return Err(PdfError::WriteError("document too large".to_owned()));
            },
        };
        let ghost before = *self;
        if self.offsets.len() == 0 {
            self.offsets.push(0);
            self.offsets.push(0);
        }
        self.offsets.push(self.written);
        self.offsets.push(self.written + content_at);
        self.offsets.push(self.written + image_at);
        self.page_objs.push((3 + 3 * i) as u32);
        self.written = written;
        proof {
            self.document@ = before.document@ + bytes@;
            lemma_page_objects(before.document@, i as nat, page@);
            assert(self.spec_offsets() =~= before.offsets_with(page@));
            assert forall|k: int| 2 <= k < self.offsets@.len() implies object_at(
                self.document@,
                #[trigger] self.offsets@[k] as int,
                (k + 1) as nat,
            ) by {
                if k < before.offsets@.len() {
                    assert(self.offsets@[k] == before.offsets@[k]);
                    lemma_object_stays(
                        before.document@,
                        bytes@,
                        before.offsets@[k] as int,
                        (k + 1) as nat,
                    );
                }
            }
        }
        Ok(bytes)
    }
}

/// The objects of a page begin where its offsets say.
proof fn lemma_page_objects(document: Seq<u8>, i: nat, page: PageView)
    ensures
        forall|j: int|
            0 <= j < 3 ==> object_at(
                document + page_bytes(i, page),
                #[trigger] page_offsets(document.len() as int, i, page)[j],
                (3 + 3 * i + j) as nat,
            ),
{
    let a = encode_utf8(page_object(i, page.width_pt, page.height_pt));
    let b = encode_utf8(content_object(i, page.width_pt, page.height_pt));
    let c = encode_utf8(image_open(i, page));
    let d = page.jpeg + encode_utf8(image_close());
    let all = document + page_bytes(i, page);
    let page_rest = page_object(i, page.width_pt, page.height_pt).skip(
        object_open(3 + 3 * i).len() as int,
    );
    let content_rest = content_object(i, page.width_pt, page.height_pt).skip(
        object_open(4 + 3 * i).len() as int,
    );
    let image_rest = image_open(i, page).skip(object_open(5 + 3 * i).len() as int);
    assert(page_object(i, page.width_pt, page.height_pt) =~= object_open(3 + 3 * i) + page_rest);
    assert(content_object(i, page.width_pt, page.height_pt) =~= object_open(4 + 3 * i)
        + content_rest);
    assert(image_open(i, page) =~= object_open(5 + 3 * i) + image_rest);
    lemma_object_appended(document, 3 + 3 * i, page_rest, b + c + d);
    lemma_object_appended(document + a, 4 + 3 * i, content_rest, c + d);
    lemma_object_appended(document + a + b, 5 + 3 * i, image_rest, d);
    assert(all =~= document + a + (b + c + d));
    assert(all =~= document + a + b + (c + d));
    assert(all =~= document + a + b + c + d);
    let offsets = page_offsets(document.len() as int, i, page);
    assert(offsets[0] == document.len());
    assert(offsets[1] == (document + a).len());
    assert(offsets[2] == (document + a + b).len());
}

/// The references to the pages, in brackets.
fn kids_text(page_objs: &Vec<u32>) -> (s: String)
    requires
        forall|j: int| 0 <= j < page_objs@.len() ==> #[trigger] page_objs@[j] == 3 + 3 * j,
    ensures
        s@ == kids(page_objs@.len()) + "]"@,
{
    let mut s = "[ ".to_owned();
    let mut j: usize = 0;
    while j < page_objs.len()
        invariant
            j <= page_objs@.len(),
            s@ == kids(j as nat),
            forall|j: int| 0 <= j < page_objs@.len() ==> #[trigger] page_objs@[j] == 3 + 3 * j,
        decreases page_objs.len() - j,
    {
        push_decimal(&mut s, page_objs[j] as u64);
        s.append(" 0 R ");
        j += 1;
    }
    s.append("]");
    s
}

/// The cross-reference entries of objects at these offsets.
fn xref_text(offsets: &Vec<u64>) -> (s: String)
    ensures
        s@ == xref_entries(offsets@.map_values(|offset: u64| offset as int)),
{
    let ghost all = offsets@.map_values(|offset: u64| offset as int);
    let mut s = "0000000000 65535 f \n".to_owned();
    let mut k: usize = 0;
    proof {
        assert(all.take(0) =~= Seq::<int>::empty());
    }
    while k < offsets.len()
        invariant
            k <= offsets@.len(),
            all == offsets@.map_values(|offset: u64| offset as int),
            s@ == xref_entries(all.take(k as int)),
        decreases offsets.len() - k,
    {
        push_numeral(&mut s, offsets[k], 10, 10);
        s.append(" 00000 n \n");
        proof {
            assert(all.take(k + 1).drop_last() =~= all.take(k as int));
            assert(all.take(k + 1).last() == offsets@[k as int] as int);
        }
        k += 1;
    }
    proof {
        assert(all.take(k as int) =~= all);
    }
    s
}

impl PdfWriter {
    /// Where the table of a finished document begins.
    pub open spec fn xref_at(self) -> int {
        self.spec_document().len() as int + encode_utf8(catalog_object()).len() + encode_utf8(
            pages_object(self.spec_pages()),
        ).len()
    }

    /// Where all objects of a finished document begin.
    pub open spec fn final_offsets(self) -> Seq<int> {
        seq![
            self.spec_document().len() as int,
            self.spec_document().len() as int + encode_utf8(catalog_object()).len(),
        ] + (if self.spec_pages() == 0 {
            Seq::empty()
        } else {
            self.spec_offsets().skip(2)
        })
    }

    /// The bytes that finish a document.
    pub open spec fn closing_bytes(self) -> Seq<u8> {
        encode_utf8(catalog_object()) + encode_utf8(pages_object(self.spec_pages())) + encode_utf8(
            trailer_text(self.final_offsets(), self.xref_at()),
        )
    }

    /// Finish the document: the bytes to end its file with, and its length.
    pub fn finish(self) -> (r: Result<(Vec<u8>, u64), PdfError>)
        requires
            self.wf(),
        ensures
            match r {
                Ok((bytes, written)) => bytes@ == self.closing_bytes() && written
                    == self.spec_document().len() + bytes@.len(),
                Err(e) => e matches PdfError::WriteError(m) && m@ == "document too large"@
                    && self.spec_document().len() + self.closing_bytes().len() > u64::MAX,
            },
    {
        let mut catalog = decimal_string(1);
        catalog.append(" 0 obj\n");
        catalog.append("<< /Type /Catalog /Pages 2 0 R >>\nendobj\n");

        let mut pages = decimal_string(2);
        pages.append(" 0 obj\n");
        let mut d = join("<< /Type /Pages /Kids ", kids_text(&self.page_objs).as_str());
        d.append(" /Count ");
        push_decimal(&mut d, self.page_objs.len() as u64);
        d.append(" >>\nendobj\n");
        proof {
            assert(d@ =~= "<< /Type /Pages /Kids "@ + kids(self.page_objs@.len()) + "]"@
                + " /Count "@ + decimal(self.page_objs@.len()) + " >>\nendobj\n"@);
        }
        pages.append(d.as_str());

        let mut bytes: Vec<u8> = Vec::new();
        put(&mut bytes, &catalog);
        let pages_at = self.written.checked_add(bytes.len() as u64);
        put(&mut bytes, &pages);
        let xref_at = self.written.checked_add(bytes.len() as u64);
        proof {
            assert(bytes@ =~= encode_utf8(catalog_object()) + encode_utf8(
                pages_object(self.spec_pages()),
            ));
        }
        let (pages_at, xref_at): (u64, u64) = match (pages_at, xref_at) {
            (Some(pages_at), Some(xref_at)) => (pages_at, xref_at),
            _ => {
                return Err(PdfError::WriteError("document too large".to_owned()));
            },
        };
        let mut offsets: Vec<u64> = Vec::new();
        offsets.push(self.written);
        offsets.push(pages_at);
        let mut k: usize = 2;
        let ghost rest = if self.offsets@.len() == 0 {
            Seq::<u64>::empty()
        } else {
            self.offsets@.skip(2)
        };
        proof {
            assert(offsets@ =~= seq![self.written, pages_at] + rest.take(0));
        }
        while k < self.offsets.len()
            invariant
                2 <= k,
                self.offsets@.len() > 0 ==> k <= self.offsets@.len() && rest
                    == self.offsets@.skip(2),
                self.offsets@.len() == 0 ==> k == 2 && rest.len() == 0,
                offsets@ == seq![self.written, pages_at] + rest.take(k - 2),
            decreases self.offsets.len() - k,
        {
            offsets.push(self.offsets[k]);
            proof {
                assert(rest.take(k - 1) =~= rest.take(k - 2).push(self.offsets@[k as int]));
            }
            k += 1;
        }
        proof {
            assert(rest.take(k - 2) =~= rest);
        }
        let table = xref_text(&offsets);
        let mut trailer = join_decimal("xref\n0 ", offsets.len() as u64 + 1);
        trailer.append("\n");
        trailer.append(table.as_str());
        trailer.append("trailer\n<< /Size ");
        push_decimal(&mut trailer, offsets.len() as u64 + 1);
        trailer.append(" /Root 1 0 R >>\nstartxref\n");
        push_decimal(&mut trailer, xref_at);
        trailer.append("\n%%EOF\n");
        proof {
            assert(offsets@.map_values(|offset: u64| offset as int) =~= self.final_offsets());
            assert(trailer@ =~= trailer_text(self.final_offsets(), self.xref_at()));
        }
        put(&mut bytes, &trailer);
        match self.written.checked_add(bytes.len() as u64) {
            Some(written) => Ok((bytes, written)),
            None => Err(PdfError::WriteError("document too large".to_owned())),
        }
    }
}

/// Law: in a finished document every entry of the cross-reference table points at
/// the byte where that object begins, there is an entry for the catalog, for the
/// list of pages and for the three objects of each page, and the table itself
/// begins where the trailer says.
pub proof fn law_xref_points_at_objects(writer: PdfWriter)
    requires
        writer.wf(),
    ensures
        writer.final_offsets().len() == 2 + 3 * writer.spec_pages(),
        forall|k: int|
            0 <= k < writer.final_offsets().len() ==> object_at(
                writer.spec_document() + writer.closing_bytes(),
                #[trigger] writer.final_offsets()[k],
                (k + 1) as nat,
            ),
        (writer.spec_document() + writer.closing_bytes()).skip(writer.xref_at()) == encode_utf8(
            trailer_text(writer.final_offsets(), writer.xref_at()),
        ),
{
    let document = writer.spec_document();
    let a = encode_utf8(catalog_object());
    let b = encode_utf8(pages_object(writer.spec_pages()));
    let c = encode_utf8(trailer_text(writer.final_offsets(), writer.xref_at()));
    let all = document + writer.closing_bytes();
    assert(all =~= document + a + (b + c));
    assert(all =~= document + a + b + c);
    assert(all =~= document + (a + b + c));
    let catalog_rest = "<< /Type /Catalog /Pages 2 0 R >>\nendobj\n"@;
    lemma_object_appended(document, 1, catalog_rest, b + c);
    let pages_rest = pages_object(writer.spec_pages()).skip(object_open(2).len() as int);
    assert(pages_object(writer.spec_pages()) =~= object_open(2) + pages_rest);
    lemma_object_appended(document + a, 2, pages_rest, c);
    assert forall|k: int| 0 <= k < writer.final_offsets().len() implies object_at(
        all,
        #[trigger] writer.final_offsets()[k],
        (k + 1) as nat,
    ) by {
        if k >= 2 {
            assert(writer.final_offsets()[k] == writer.offsets@[k] as int);
            lemma_object_stays(document, a + b + c, writer.offsets@[k] as int, (k + 1) as nat);
        } else if k == 1 {
            assert(writer.final_offsets()[1] == (document + a).len());
        }
    }
    assert(all.skip(writer.xref_at()) =~= c);
}

// ---------------------------------------------------------------------------
// What a reader of a finished document finds
// ---------------------------------------------------------------------------
/// Whether a text stands in a document, from `at` on.
pub open spec fn stands_at(document: Seq<u8>, at: int, text: Seq<char>) -> bool {
    let bytes = encode_utf8(text);
    &&& 0 <= at
    &&& at + bytes.len() <= document.len()
    &&& document.subrange(at, at + bytes.len() as int) == bytes
}

/// Whether these are the writers of a document that is given these pages: the first has
/// just been created, and each of the others is what adding a page made of the one
/// before it.
pub open spec fn assembled(writers: Seq<PdfWriter>, pages: Seq<PageView>) -> bool {
    &&& writers.len() == pages.len() + 1
    &&& writers[0].spec_document() == header_bytes()
    &&& writers[0].spec_offsets() == Seq::<int>::empty()
    &&& writers[0].spec_pages() == 0
    &&& forall|i: int|
        0 <= i < pages.len() ==> added(writers[i], #[trigger] pages[i], writers[i + 1])
}

/// Whether `after` is what adding a page made of `before`.
pub open spec fn added(before: PdfWriter, page: PageView, after: PdfWriter) -> bool {
    &&& colorspace(page.channels) is Some
    &&& after.spec_document() == before.spec_document() + page_bytes(before.spec_pages(), page)
    &&& after.spec_pages() == before.spec_pages() + 1
    &&& after.spec_offsets() == before.offsets_with(page)
}

proof fn lemma_stands(before: Seq<u8>, text: Seq<char>, more: Seq<u8>)
    ensures
        stands_at(before + encode_utf8(text) + more, before.len() as int, text),
{
    let all = before + encode_utf8(text) + more;
    assert(all.subrange(before.len() as int, before.len() + encode_utf8(text).len() as int)
        =~= encode_utf8(text));
}

proof fn lemma_text_stays(document: Seq<u8>, more: Seq<u8>, at: int, text: Seq<char>)
    requires
        stands_at(document, at, text),
    ensures
        stands_at(document + more, at, text),
{
    let n = encode_utf8(text).len() as int;
    assert((document + more).subrange(at, at + n) =~= document.subrange(at, at + n));
}

/// A document only grows, and what was numbered keeps its place.
#[verifier::rlimit(50)]
proof fn lemma_assembled(writers: Seq<PdfWriter>, pages: Seq<PageView>, i: int, k: int) -> (more:
    Seq<u8>)
    requires
        assembled(writers, pages),
        0 <= i < k <= pages.len(),
    ensures
        writers[i].spec_pages() == i,
        writers[k].spec_pages() == k,
        writers[k].spec_document() == writers[i].spec_document() + page_bytes(
            i as nat,
            pages[i],
        ) + more,
        writers[k].spec_offsets().len() == 2 + 3 * k,
        forall|j: int|
            0 <= j < 3 ==> writers[k].spec_offsets()[2 + 3 * i + j] == #[trigger] page_offsets(
                writers[i].spec_document().len() as int,
                i as nat,
                pages[i],
            )[j],
    decreases k,
{
    assert(added(writers[k - 1], pages[k - 1], writers[k - 1 + 1]));
    if i == k - 1 {
        if i > 0 {
            let _ = lemma_assembled(writers, pages, i - 1, i);
        }
        let more = Seq::<u8>::empty();
        assert(writers[k].spec_document() =~= writers[i].spec_document() + page_bytes(
            i as nat,
            pages[i],
        ) + more);
        more
    } else {
        let more = lemma_assembled(writers, pages, i, k - 1);
        let last = page_bytes((k - 1) as nat, pages[k - 1]);
        assert(writers[k].spec_document() =~= writers[i].spec_document() + page_bytes(
            i as nat,
            pages[i],
        ) + (more + last));
        more + last
    }
}

/// The objects of a page stand where the table of the finished document says.
#[verifier::rlimit(50)]
proof fn lemma_page_stands(writers: Seq<PdfWriter>, pages: Seq<PageView>, i: int)
    requires
        assembled(writers, pages),
        0 <= i < pages.len(),
    ensures
        ({
            let page = pages[i];
            let offsets = writers.last().final_offsets();
            let document = writers.last().spec_document() + writers.last().closing_bytes();
            let stream_at = offsets[4 + 3 * i] + encode_utf8(image_open(i as nat, page)).len();
            &&& colorspace(page.channels) is Some
            &&& offsets.len() == 2 + 3 * pages.len()
            &&& stands_at(
                document,
                offsets[2 + 3 * i],
                page_object(i as nat, page.width_pt, page.height_pt),
            )
            &&& stands_at(
                document,
                offsets[3 + 3 * i],
                content_object(i as nat, page.width_pt, page.height_pt),
            )
            &&& stands_at(document, offsets[4 + 3 * i], image_open(i as nat, page))
            &&& stream_at + page.jpeg.len() <= document.len()
            &&& document.subrange(stream_at, stream_at + page.jpeg.len()) == page.jpeg
            &&& stands_at(document, stream_at + page.jpeg.len(), image_close())
        }),
{
    let page = pages[i];
    let n = pages.len() as int;
    let writer = writers.last();
    let more = lemma_assembled(writers, pages, i, n);
    assert(added(writers[i], pages[i], writers[i + 1]));
    let start = writers[i].spec_document();
    let first = page_object(i as nat, page.width_pt, page.height_pt);
    let second = content_object(i as nat, page.width_pt, page.height_pt);
    let third = image_open(i as nat, page);
    let places = page_offsets(start.len() as int, i as nat, page);
    let offsets = writer.final_offsets();
    assert(offsets[2 + 3 * i] == places[0]);
    assert(offsets[2 + 3 * i + 1] == places[1]);
    assert(offsets[2 + 3 * i + 2] == places[2]);
    lemma_pieces_stand(
        start,
        first,
        second,
        third,
        page.jpeg,
        image_close(),
        more + writer.closing_bytes(),
    );
    assert(writer.spec_document() + writer.closing_bytes() =~= start + encode_utf8(first)
        + encode_utf8(second) + encode_utf8(third) + page.jpeg + encode_utf8(image_close()) + (more
        + writer.closing_bytes()));
}

/// Pieces that follow one another stand where those before them end.
#[verifier::rlimit(50)]
proof fn lemma_pieces_stand(
    start: Seq<u8>,
    first: Seq<char>,
    second: Seq<char>,
    third: Seq<char>,
    bytes: Seq<u8>,
    last: Seq<char>,
    rest: Seq<u8>,
)
    ensures
        ({
            let a = encode_utf8(first);
            let b = encode_utf8(second);
            let c = encode_utf8(third);
            let d = encode_utf8(last);
            let all = start + a + b + c + bytes + d + rest;
            let bytes_at = start.len() + a.len() + b.len() + c.len();
            &&& stands_at(all, start.len() as int, first)
            &&& stands_at(all, (start.len() + a.len()) as int, second)
            &&& stands_at(all, (start.len() + a.len() + b.len()) as int, third)
            &&& bytes_at + bytes.len() <= all.len()
            &&& all.subrange(bytes_at as int, (bytes_at + bytes.len()) as int) == bytes
            &&& stands_at(all, (bytes_at + bytes.len()) as int, last)
        }),
{
    let a = encode_utf8(first);
    let b = encode_utf8(second);
    let c = encode_utf8(third);
    let d = encode_utf8(last);
    let all = start + a + b + c + bytes + d + rest;
    lemma_stands(start, first, b + c + bytes + d + rest);
    lemma_stands(start + a, second, c + bytes + d + rest);
    lemma_stands(start + a + b, third, bytes + d + rest);
    lemma_stands(start + a + b + c + bytes, last, rest);
    assert(all =~= start + a + (b + c + bytes + d + rest));
    assert(all =~= start + a + b + (c + bytes + d + rest));
    assert(all =~= start + a + b + c + (bytes + d + rest));
    let at = (start + a + b + c).len() as int;
    assert(all.subrange(at, at + bytes.len()) =~= bytes);
}

/// Law: in a finished document every page shows its own image. Read by the numbers of
/// its objects: the list of pages names the object of the page; that object has the
/// page's size, and names its contents and its image; the contents draw the image over
/// all of the page; and the stream of the image holds, in all their length, the bytes
/// that were handed in for the page, with their size in pixels and their color space.
#[verifier::rlimit(50)]
pub proof fn law_pages_show_their_own_image(
    writers: Seq<PdfWriter>,
    pages: Seq<PageView>,
    i: int,
) -> (r: (nat, nat, nat, Seq<char>))
    requires
        assembled(writers, pages),
        0 <= i < pages.len(),
    ensures
        ({
            let (object, contents, image, before_stream) = r;
            let page = pages[i];
            let offsets = writers.last().final_offsets();
            let document = writers.last().spec_document() + writers.last().closing_bytes();
            let drawing = "q\n"@ + points(page.width_pt) + " 0 0 "@ + points(page.height_pt)
                + " 0 0 cm\n/Img Do\nQ\n"@;
            let stream_at = offsets[image - 1] + encode_utf8(before_stream).len();
            &&& offsets.len() == 2 + 3 * pages.len()
            &&& 3 <= object <= offsets.len() && 3 <= contents <= offsets.len() && 3 <= image
                <= offsets.len()
            &&& kids((i + 1) as nat) == kids(i as nat) + decimal(object) + " 0 R "@
            &&& stands_at(
                document,
                offsets[object - 1],
                decimal(object) + " 0 obj\n"@ + ("<< /Type /Page /Parent 2 0 R /MediaBox [0 0 "@
                    + points(page.width_pt) + " "@ + points(page.height_pt) + "] /Contents "@
                    + decimal(contents) + " 0 R /Resources << /XObject << /Img "@ + decimal(image)
                    + " 0 R >> >> >>\nendobj\n"@),
            )
            &&& stands_at(
                document,
                offsets[contents - 1],
                decimal(contents) + " 0 obj\n"@ + ("<< /Length "@ + decimal(
                    encode_utf8(drawing).len(),
                ) + " >>\nstream\n"@ + drawing + "endstream\nendobj\n"@),
            )
            &&& before_stream == decimal(image) + " 0 obj\n"@ + (
            "<< /Type /XObject /Subtype /Image /Width "@ + decimal(page.width_px as nat)
                + " /Height "@ + decimal(page.height_px as nat) + " /ColorSpace "@ + (
            if page.channels == 1 {
                "/DeviceGray"@
            } else {
                "/DeviceRGB"@
            }) + " /BitsPerComponent 8 /Filter /DCTDecode /Length "@ + decimal(page.jpeg.len())
                + " >>\nstream\n"@)
            &&& stands_at(document, offsets[image - 1], before_stream)
            &&& stream_at + page.jpeg.len() <= document.len()
            &&& document.subrange(stream_at, stream_at + page.jpeg.len()) == page.jpeg
            &&& stands_at(
                document,
                stream_at + page.jpeg.len(),
                "\nendstream\nendobj\n"@,
            )
        }),
{
    lemma_page_stands(writers, pages, i);
    ((3 + 3 * i) as nat, (4 + 3 * i) as nat, (5 + 3 * i) as nat, image_open(i as nat, pages[i]))
}

/// Law: no two objects go by the same number, so references to the objects of
/// different pages differ.
pub proof fn law_references_differ(m: nat, n: nat)
    requires
        m != n,
    ensures
        decimal(m) != decimal(n),
        object_open(m) != object_open(n),
{
    law_numerals_differ(m, n, 10, 1);
    if object_open(m) == object_open(n) {
        assert(object_open(m).len() == decimal(m).len() + " 0 obj\n"@.len());
        assert(object_open(n).len() == decimal(n).len() + " 0 obj\n"@.len());
        assert(decimal(m) =~= object_open(m).take(decimal(m).len() as int));
        assert(decimal(n) =~= object_open(n).take(decimal(n).len() as int));
    }
}

/// Law: the objects of a document's pages stand one after the other, page by page: no
/// two begin at the same byte.
#[verifier::rlimit(50)]
pub proof fn law_pages_share_no_objects(
    writers: Seq<PdfWriter>,
    pages: Seq<PageView>,
    i: int,
    j: int,
)
    requires
        assembled(writers, pages),
        0 <= i < j < pages.len(),
    ensures
        ({
            let offsets = writers.last().final_offsets();
            &&& offsets[2 + 3 * i] < offsets[3 + 3 * i] < offsets[4 + 3 * i]
            &&& offsets[4 + 3 * i] < offsets[2 + 3 * j]
        }),
{
    let n = pages.len() as int;
    let offsets = writers.last().final_offsets();
    let at_i = page_offsets(writers[i].spec_document().len() as int, i as nat, pages[i]);
    let at_j = page_offsets(writers[j].spec_document().len() as int, j as nat, pages[j]);
    assert(offsets[2 + 3 * i] == at_i[0] && offsets[3 + 3 * i] == at_i[1] && offsets[4 + 3 * i]
        == at_i[2]) by {
        let _ = lemma_assembled(writers, pages, i, n);
        assert(writers[n].spec_offsets()[2 + 3 * i + 0] == at_i[0]);
        assert(writers[n].spec_offsets()[2 + 3 * i + 1] == at_i[1]);
        assert(writers[n].spec_offsets()[2 + 3 * i + 2] == at_i[2]);
    }
    assert(offsets[2 + 3 * j] == at_j[0]) by {
        let _ = lemma_assembled(writers, pages, j, n);
        assert(writers[n].spec_offsets()[2 + 3 * j + 0] == at_j[0]);
    }
    assert(at_i[0] < at_i[1] < at_i[2]) by {
        lemma_objects_take_room(i as nat, pages[i]);
    }
    assert(at_i[2] < at_j[0]) by {
        let more = lemma_assembled(writers, pages, i, j);
        lemma_objects_take_room(i as nat, pages[i]);
    }
}

/// Each object of a page takes bytes.
proof fn lemma_objects_take_room(i: nat, page: PageView)
    ensures
        encode_utf8(page_object(i, page.width_pt, page.height_pt)).len() > 0,
        encode_utf8(content_object(i, page.width_pt, page.height_pt)).len() > 0,
        encode_utf8(image_open(i, page)).len() > 0,
{
    reveal_strlit(" 0 obj\n");
    lemma_not_empty(page_object(i, page.width_pt, page.height_pt));
    lemma_not_empty(content_object(i, page.width_pt, page.height_pt));
    lemma_not_empty(image_open(i, page));
}

/// Law: in a finished document the catalog is the first object and names the second,
/// which lists the pages and says how many there are.
#[verifier::rlimit(50)]
pub proof fn law_catalog_names_the_pages(writers: Seq<PdfWriter>, pages: Seq<PageView>)
    requires
        assembled(writers, pages),
    ensures
        ({
            let writer = writers.last();
            let offsets = writer.final_offsets();
            let document = writer.spec_document() + writer.closing_bytes();
            &&& stands_at(document, 0, "%PDF-1.4\n%"@)
            &&& stands_at(
                document,
                offsets[0],
                decimal(1) + " 0 obj\n"@ + "<< /Type /Catalog /Pages 2 0 R >>\nendobj\n"@,
            )
            &&& stands_at(
                document,
                offsets[1],
                decimal(2) + " 0 obj\n"@ + ("<< /Type /Pages /Kids "@ + kids(pages.len()) + "]"@
                    + " /Count "@ + decimal(pages.len()) + " >>\nendobj\n"@),
            )
            &&& kids(0) == "[ "@
        }),
{
    let n = pages.len() as int;
    let writer = writers.last();
    let head = encode_utf8("%PDF-1.4\n%"@);
    let mark = seq![0xE2u8, 0xE3u8, 0xCFu8, 0xD3u8, 0x0Au8];
    let all = writer.spec_document() + writer.closing_bytes();
    lemma_stands(Seq::empty(), "%PDF-1.4\n%"@, mark);
    assert(Seq::<u8>::empty() + head + mark =~= header_bytes());
    if n > 0 {
        let more = lemma_assembled(writers, pages, 0, n);
        let grown = page_bytes(0, pages[0]) + more + writer.closing_bytes();
        lemma_text_stays(header_bytes(), grown, 0, "%PDF-1.4\n%"@);
        assert(all =~= header_bytes() + grown);
    } else {
        lemma_text_stays(header_bytes(), writer.closing_bytes(), 0, "%PDF-1.4\n%"@);
    }
    let a = encode_utf8(catalog_object());
    let b = encode_utf8(pages_object(pages.len()));
    let c = encode_utf8(trailer_text(writer.final_offsets(), writer.xref_at()));
    let document = writer.spec_document();
    assert(all =~= document + a + (b + c));
    assert(all =~= document + a + b + c);
    lemma_stands(document, catalog_object(), b + c);
    lemma_stands(document + a, pages_object(pages.len()), c);
}

/// A text that holds a character takes a byte.
proof fn lemma_not_empty(text: Seq<char>)
    requires
        text.len() > 0,
    ensures
        encode_utf8(text).len() > 0,
{
    if encode_utf8(text).len() == 0 {
        assert(encode_utf8(text) =~= encode_utf8(Seq::<char>::empty()));
        encode_utf8_decode_utf8(text);
        encode_utf8_decode_utf8(Seq::<char>::empty());
    }
}

/// Law: a length on paper is written in points, and its two decimals are the hundredths.
pub proof fn law_points_are_hundredths(hundredths: u64) -> (r: (Seq<char>, Seq<char>, nat, nat))
    ensures
        points(hundredths) == r.0 + "."@ + r.1,
        reads_as(r.0, 10) == Some(r.2),
        reads_as(r.1, 10) == Some(r.3),
        r.1.len() == 2,
        100 * r.2 + r.3 == hundredths,
        r.3 < 100,
{
    let whole = (hundredths / 100) as nat;
    let part = (hundredths % 100) as nat;
    law_numerals_read_back(whole, 10, 1);
    law_numerals_read_back(part, 10, 2);
    reveal_with_fuel(vstd::arithmetic::power::pow, 3);
    law_numerals_fill_their_width(part, 10, 2);
    (decimal(whole), numeral(part, 10, 2), whole, part)
}

/// Law: the table has an entry of twenty characters for every object, in order and
/// after the one that is free; the first ten digits of each are the offset.
#[verifier::rlimit(50)]
pub proof fn law_entries_are_the_offsets(offsets: Seq<int>, k: int) -> (digits: Seq<char>)
    requires
        0 <= k < offsets.len(),
        forall|j: int| 0 <= j < offsets.len() ==> 0 <= #[trigger] offsets[j] < 10000000000,
    ensures
        xref_entries(offsets).len() == 20 * (offsets.len() + 1),
        xref_entries(offsets).subrange(20 * (k + 1), 20 * (k + 2)) == digits + " 00000 n \n"@,
        xref_entries(offsets).take(20) == "0000000000 65535 f \n"@,
        digits.len() == 10,
        reads_as(digits, 10) == Some(offsets[k] as nat),
    decreases offsets.len(),
{
    let n = offsets.len() - 1;
    let before = xref_entries(offsets.drop_last());
    let last = numeral(offsets.last() as nat, 10, 10);
    let all = xref_entries(offsets);
    reveal_strlit(" 00000 n \n");
    reveal_strlit("0000000000 65535 f \n");
    reveal_with_fuel(vstd::arithmetic::power::pow, 11);
    assert(offsets.last() == offsets[n]);
    law_numerals_fill_their_width(offsets.last() as nat, 10, 10);
    law_numerals_read_back(offsets.last() as nat, 10, 10);
    if n == 0 {
        assert(offsets.drop_last() =~= Seq::<int>::empty());
        assert(before == "0000000000 65535 f \n"@);
        assert(all.take(20) =~= before);
    } else {
        assert forall|j: int| 0 <= j < offsets.drop_last().len() implies 0
            <= #[trigger] offsets.drop_last()[j] < 10000000000 by {
            assert(offsets.drop_last()[j] == offsets[j]);
        }
        let _ = law_entries_are_the_offsets(offsets.drop_last(), n - 1);
        assert(all.take(20) =~= before.take(20));
    }
    if k == n {
        assert(all.subrange(20 * (k + 1), 20 * (k + 2)) =~= last + " 00000 n \n"@);
        last
    } else {
        let digits = law_entries_are_the_offsets(offsets.drop_last(), k);
        assert(all.subrange(20 * (k + 1), 20 * (k + 2)) =~= before.subrange(
            20 * (k + 1),
            20 * (k + 2),
        ));
        digits
    }
}

/// Law: the trailer counts the entries of the table, the free one too, and says where
/// the table begins.
pub proof fn law_trailer_says_where_the_table_is(offsets: Seq<int>, at: nat) -> (r: (
    Seq<char>,
    Seq<char>,
))
    ensures
        trailer_text(offsets, at as int) == "xref\n0 "@ + r.0 + "\n"@ + xref_entries(offsets)
            + "trailer\n<< /Size "@ + r.0 + " /Root 1 0 R >>\nstartxref\n"@ + r.1 + "\n%%EOF\n"@,
        reads_as(r.0, 10) == Some(offsets.len() + 1),
        reads_as(r.1, 10) == Some(at),
{
    law_numerals_read_back(offsets.len() + 1, 10, 1);
    law_numerals_read_back(at, 10, 1);
    (decimal(offsets.len() + 1), decimal(at))
}

/// Law: a page is taken as it was handed in: its image, its size in pixels and on
/// paper, and its channels. Gray and color pages are taken, and no others.
pub proof fn law_pages_are_taken_as_handed_in(page: PageSpec<'_>)
    ensures
        page@.jpeg == page.jpeg@,
        page@.width_px == page.width_px && page@.height_px == page.height_px,
        page@.width_pt == page.width_pt && page@.height_pt == page.height_pt,
        page@.channels == page.channels,
        colorspace(page.channels) is Some <==> page.channels == 1 || page.channels == 3,
{
}

/// Law: there is room for a page as long as its objects can be numbered and the
/// document counted.
pub proof fn law_documents_have_room(writer: PdfWriter, page: PageView)
    ensures
        writer.is_full_for(page) <==> writer.spec_pages() >= 1431655764
            || writer.spec_document().len() + page_bytes(writer.spec_pages(), page).len()
            > u64::MAX,
{
}

/// Law: the words for an error are those it carries, after what went wrong.
pub proof fn law_pdf_errors_carry_their_words(e: PdfError)
    ensures
        e is NoPages ==> e.text() == "No pages to generate PDF from"@,
        e matches PdfError::ImageDecode(m) ==> e.text() == "Image decode error: "@ + m@,
        e matches PdfError::ImageEncode(m) ==> e.text() == "Image encode error: "@ + m@,
        e matches PdfError::WriteError(m) ==> e.text() == "PDF write error: "@ + m@,
{
}

} // verus!
