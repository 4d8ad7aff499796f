//! Scanner abstraction layer.
//!
//! `ScanOrchestrator` knows the scanners of both backends: those of the native
//! 64-bit TWAIN manager, and those behind the 32-bit sidecar.

use vstd::prelude::*;
use vstd::string::*;

use crate::protocol::ScanRequestOptions;
use crate::scanner::encode::{
    covers, encoded, is_encoded, jpeg_encode, jpeg_of, jpeg_sized, png_encode, png_of, PixelLayout,
};
use crate::scanner::twain::TwainError;
use crate::scanner::twain_ffi::TW_FIX32;
use crate::text::{join, same_text};

pub mod delivery;
pub mod encode;
pub mod raw;
pub mod run;
pub mod session;
pub mod sidecar;
pub mod thumbnail;
pub mod twain;
pub mod twain_ffi;

verus! {

/// A discovered scanner.
#[derive(Debug)]
pub struct ScannerInfo {
    pub id: String,
    pub name: String,
    pub manufacturer: String,
    pub source: ScannerSource,
}

#[derive(Debug, Clone, Copy, PartialEq, Eq, Structural)]
pub enum ScannerSource {
    /// Directly accessible via 64-bit TWAIN
    Native,
    /// Accessible via 32-bit sidecar
    Sidecar,
}

/// Why a scan failed.
#[derive(Debug)]
pub enum ScanError {
    Twain(TwainError),
    Sidecar(String),
    NoScanners,
    ScannerNotFound(String),
    Cancelled,
    ImageConversion(String),
    PdfGeneration(String),
}

impl ScanError {
    /// The words that describe this error.
    pub open spec fn text(self) -> Seq<char> {
        match self {
            ScanError::Twain(e) => "TWAIN error: "@ + e.text(),
            ScanError::Sidecar(m) => "Sidecar error: "@ + m@,
            ScanError::NoScanners => "No scanners found"@,
            ScanError::ScannerNotFound(m) => "Scanner not found: "@ + m@,
            ScanError::Cancelled => "Scan cancelled"@,
            ScanError::ImageConversion(m) => "Image conversion error: "@ + m@,
            ScanError::PdfGeneration(m) => "PDF generation error: "@ + m@,
        }
    }

    /// Describe the error.
    pub fn message(&self) -> (s: String)
        ensures
            s@ == self.text(),
    {
        match self {
            ScanError::Twain(e) => join("TWAIN error: ", e.message().as_str()),
            ScanError::Sidecar(m) => join("Sidecar error: ", m.as_str()),
            ScanError::NoScanners => "No scanners found".to_owned(),
            ScanError::ScannerNotFound(m) => join("Scanner not found: ", m.as_str()),
            ScanError::Cancelled => "Scan cancelled".to_owned(),
            ScanError::ImageConversion(m) => join("Image conversion error: ", m.as_str()),
            ScanError::PdfGeneration(m) => join("PDF generation error: ", m.as_str()),
        }
    }
}

/// How many dots a source packs into an inch, in the form it said so.
#[derive(Debug, Clone, Copy, PartialEq, Eq, Structural)]
pub enum Resolution {
    /// As a native source reports it.
    Fixed(TW_FIX32),
    /// As the client asked for it.
    Whole(u32),
}

/// Resolution assumed when a source reports none. A wrong-but-plausible page
/// size is far better than one that is many times too large.
pub const DEFAULT_DPI: u32 = 300;

impl Resolution {
    pub open spec fn is_positive(self) -> bool {
        match self {
            Resolution::Fixed(f) => f.Whole * 65536 + f.Frac > 0,
            Resolution::Whole(n) => n > 0,
        }
    }

    /// This resolution, or the default where it is not positive.
    pub fn effective(self) -> (r: Resolution)
        ensures
            r == (if self.is_positive() { self } else { Resolution::Whole(DEFAULT_DPI) }),
    {
        match self {
            Resolution::Fixed(f) => if f.Whole > 0 || (f.Whole == 0 && f.Frac > 0) {
                self
            } else {
                Resolution::Whole(DEFAULT_DPI)
            },
            Resolution::Whole(n) => if n > 0 {
                self
            } else {
                Resolution::Whole(DEFAULT_DPI)
            },
        }
    }
}

/// A scanned page as raw image bytes.
#[derive(Debug)]
pub struct PageData {
    pub page_number: u32,
    pub width: u32,
    pub height: u32,
    pub bits_per_pixel: u16,
    pub dpi_x: Resolution,
    pub dpi_y: Resolution,
    /// Stride of `raw_data` in bytes, as reported by the source. Sources
    /// commonly pad rows to a 4-byte boundary, so this is >= the packed row.
    pub bytes_per_row: u32,
    pub raw_data: Vec<u8>,
}

/// The layout of a page's pixels after normalization, for a supported bit depth.
pub open spec fn layout_of(bits_per_pixel: u16) -> PixelLayout {
    if bits_per_pixel == 24 {
        PixelLayout::Rgb
    } else if bits_per_pixel == 32 {
        PixelLayout::Rgba
    } else {
        PixelLayout::Gray
    }
}

impl PageData {
    /// What is wrong with this page's buffer, if anything.
    pub open spec fn complaint(self) -> Option<Seq<char>> {
        raw::complaint(
            self.raw_data@.len(),
            self.width,
            self.height,
            self.bits_per_pixel,
            self.bytes_per_row,
        )
    }

    /// This page's pixels: tightly packed, 8 bits per sample.
    pub open spec fn spec_pixels(self) -> Seq<u8> {
        raw::normalized(
            self.raw_data@,
            self.width,
            self.height,
            self.bits_per_pixel,
            self.bytes_per_row,
        )
    }

    /// Samples per pixel after normalization, for a supported bit depth.
    pub open spec fn spec_samples(self) -> u8 {
        layout_of(self.bits_per_pixel).spec_samples()
    }

    /// Tightly-packed 8-bit-per-sample pixels, with source row padding removed
    /// and 1bpp black-and-white expanded to 8bpp grayscale; and their layout.
    fn pixels(&self) -> (r: Result<(Vec<u8>, PixelLayout), ScanError>)
        ensures
            match self.complaint() {
                Some(words) => r matches Err(e) && raw::is_conversion_error(e, words),
                None => r matches Ok((pixels, layout)) && pixels@ == self.spec_pixels() && layout
                    == layout_of(self.bits_per_pixel) && covers(
                    pixels@.len(),
                    self.width,
                    self.height,
                    layout.spec_samples(),
                ) && pixels@.len() <= isize::MAX && 1 <= self.width && 1 <= self.height,
            },
    {
        let pixels = match raw::normalize(
            self.raw_data.as_slice(),
            self.width,
            self.height,
            self.bits_per_pixel,
            self.bytes_per_row,
        ) {
            Ok(pixels) => pixels,
            Err(e) => {
                return Err(e);
            },
        };
        proof {
            raw::law_normalized_covers(
                self.raw_data@,
                self.width,
                self.height,
                self.bits_per_pixel,
                self.bytes_per_row,
            );
        }
        let layout = match self.bits_per_pixel {
            24 => PixelLayout::Rgb,
            32 => PixelLayout::Rgba,
            _ => PixelLayout::Gray,
        };
        Ok((pixels, layout))
    }

    /// Tightly-packed 8-bit samples for this page, for callers that need the
    /// pixels rather than an encoded image.
    pub fn normalized(&self) -> (r: Result<Vec<u8>, ScanError>)
        ensures
            match self.complaint() {
                Some(words) => r matches Err(e) && raw::is_conversion_error(e, words),
                None => r matches Ok(pixels) && pixels@ == self.spec_pixels(),
            },
    {
        match self.pixels() {
            Ok((pixels, _)) => Ok(pixels),
            Err(e) => Err(e),
        }
    }

    /// What converting this page to PNG gives: the file, or why there is none.
    pub open spec fn png_outcome(self) -> Result<Seq<u8>, Seq<char>> {
        match self.complaint() {
            Some(words) => Err(words),
            None => Ok(png_of(self.spec_pixels(), self.width, self.height, self.spec_samples())),
        }
    }

    /// Convert raw bitmap data to PNG bytes.
    pub fn to_png(&self) -> (r: Result<Vec<u8>, ScanError>)
        ensures
            is_encoded(r, self.png_outcome()),
            r is Ok <==> self.complaint() is None,
    {
        match self.pixels() {
            Ok((pixels, layout)) => encoded(
                png_encode(&pixels, self.width, self.height, layout),
            ),
            Err(e) => Err(e),
        }
    }

    /// What converting this page to JPEG gives: the file, or why there is none.
    pub open spec fn jpeg_outcome(self, quality: u8) -> Result<Seq<u8>, Seq<char>> {
        match self.complaint() {
            Some(words) => Err(words),
            None => if self.bits_per_pixel == 32 {
                Err("JPEG unsupported for 32 bpp"@)
            } else {
                jpeg_of(
                    self.spec_pixels(),
                    self.width,
                    self.height,
                    self.spec_samples(),
                    quality,
                )
            },
        }
    }

    /// Whether this page can be converted to JPEG.
    pub open spec fn is_jpeg_convertible(self) -> bool {
        self.complaint() is None && self.bits_per_pixel != 32 && jpeg_sized(self.width, self.height)
    }

    /// Convert raw bitmap data to JPEG bytes.
    pub fn to_jpeg(&self, quality: u8) -> (r: Result<Vec<u8>, ScanError>)
        ensures
            is_encoded(r, self.jpeg_outcome(quality)),
            r is Ok <==> self.is_jpeg_convertible(),
    {
        match self.pixels() {
            Ok((pixels, layout)) => {
                // JPEG carries no alpha channel.
                if layout == PixelLayout::Rgba {
                    return Err(
                        ScanError::ImageConversion("JPEG unsupported for 32 bpp".to_owned()),
                    );
                }
                encoded(jpeg_encode(&pixels, self.width, self.height, layout, quality))
            },
            Err(e) => Err(e),
        }
    }
}

// ---------------------------------------------------------------------------
// Scan orchestrator
// ---------------------------------------------------------------------------
/// Whether one of `scanners` has this name.
pub open spec fn has_name(scanners: Seq<ScannerInfo>, name: Seq<char>) -> bool {
    exists|i: int| 0 <= i < scanners.len() && (#[trigger] scanners[i]).name@ == name
}

/// The native scanners, and after them those behind the sidecar that were not
/// found already, by name.
pub open spec fn merged(native: Seq<ScannerInfo>, sidecar: Seq<ScannerInfo>) -> Seq<ScannerInfo>
    decreases sidecar.len(),
{
    if sidecar.len() == 0 {
        native
    } else {
        let before = merged(native, sidecar.drop_last());
        if has_name(before, sidecar.last().name@) {
            before
        } else {
            before.push(sidecar.last())
        }
    }
}

/// The scanners that a backend reported, if it could.
pub open spec fn reported(found: Result<Vec<ScannerInfo>, ScanError>) -> Seq<ScannerInfo> {
    match found {
        Ok(scanners) => scanners@,
        Err(_) => Seq::empty(),
    }
}

/// Whether `i` is the first of `scanners` with this name or id.
pub open spec fn first_known_as(scanners: Seq<ScannerInfo>, wanted: Seq<char>, i: int) -> bool {
    &&& 0 <= i < scanners.len()
    &&& known_as(scanners[i], wanted)
    &&& forall|j: int| 0 <= j < i ==> !known_as(#[trigger] scanners[j], wanted)
}

/// Whether a scanner has this name or id.
pub open spec fn known_as(scanner: ScannerInfo, wanted: Seq<char>) -> bool {
    scanner.name@ == wanted || scanner.id@ == wanted
}

/// What a request asks for: the scanner it names, or else the first one.
pub open spec fn wanted_scanner(
    scanners: Seq<ScannerInfo>,
    options: ScanRequestOptions,
) -> Option<Seq<char>> {
    if options.scanner_id matches Some(name) && name@.len() > 0 {
        Some(options.scanner_id.unwrap()@)
    } else if scanners.len() > 0 {
        Some(scanners[0].name@)
    } else {
        None
    }
}

/// Whether `r` is the first of `scanners` known by this name or id, or says that
/// there is none.
pub open spec fn resolves(
    scanners: Seq<ScannerInfo>,
    wanted: Seq<char>,
    r: Result<ScannerInfo, ScanError>,
) -> bool {
    match r {
        Ok(info) => exists|i: int|
            #[trigger] first_known_as(scanners, wanted, i) && info == scanners[i],
        Err(e) => {
            &&& e matches ScanError::ScannerNotFound(name) && name@ == wanted
            &&& forall|i: int|
                0 <= i < scanners.len() ==> !known_as(#[trigger] scanners[i], wanted)
        },
    }
}

impl ScannerInfo {
    /// A copy of this description.
    pub fn copy(&self) -> (r: ScannerInfo)
        ensures
            r == *self,
    {
        ScannerInfo {
            id: self.id.clone(),
            name: self.name.clone(),
            manufacturer: self.manufacturer.clone(),
            source: self.source,
        }
    }
}

/// Knows the scanners of both backends.
pub struct ScanOrchestrator {
    /// Cached list of discovered scanners
    scanners: Vec<ScannerInfo>,
    /// Whether native TWAIN is available
    native_available: bool,
    /// Whether the sidecar is available
    sidecar_available: bool,
    /// Path to the 32-bit sidecar executable (none if unavailable)
    sidecar_path: Option<String>,
}

impl ScanOrchestrator {
    pub closed spec fn spec_scanners(self) -> Seq<ScannerInfo> {
        self.scanners@
    }

    pub closed spec fn spec_native_available(self) -> bool {
        self.native_available
    }

    pub closed spec fn spec_sidecar_available(self) -> bool {
        self.sidecar_available
    }

    pub closed spec fn spec_sidecar_path(self) -> Option<String> {
        self.sidecar_path
    }

    pub fn new(sidecar_path: Option<String>) -> (r: ScanOrchestrator)
        ensures
            r.spec_scanners() == Seq::<ScannerInfo>::empty(),
            !r.spec_native_available(),
            !r.spec_sidecar_available(),
            r.spec_sidecar_path() == sidecar_path,
    {
        ScanOrchestrator {
            scanners: Vec::new(),
            native_available: false,
            sidecar_available: false,
            sidecar_path,
        }
    }

    /// Take note of all available scanners, given what the native manager and the
    /// sidecar reported. A backend that failed contributes none. Without a sidecar
    /// there is nothing behind it, which is no failure.
    pub fn discover_scanners(
        &mut self,
        native: Result<Vec<ScannerInfo>, ScanError>,
        sidecar: Result<Vec<ScannerInfo>, ScanError>,
    ) -> (r: Result<Vec<ScannerInfo>, ScanError>)
        ensures
            r matches Ok(all) && all@ == merged(reported(native), reported(sidecar)),
            final(self).spec_scanners() == merged(reported(native), reported(sidecar)),
            final(self).spec_native_available() == native is Ok,
            final(self).spec_sidecar_available() == sidecar is Ok,
            final(self).spec_sidecar_path() == old(self).spec_sidecar_path(),
    {
        let mut all: Vec<ScannerInfo> = match native {
            Ok(scanners) => {
                self.native_available = true;
                scanners
            },
            Err(_) => {
                self.native_available = false;
                Vec::new()
            },
        };
        let ghost found = reported(native);
        proof {
            assert(all@ =~= found);
        }
        match sidecar {
            Ok(scanners) => {
                self.sidecar_available = true;
                let mut i: usize = 0;
                proof {
                    assert(scanners@.take(0) =~= Seq::<ScannerInfo>::empty());
                }
                while i < scanners.len()
                    invariant
                        i <= scanners@.len(),
                        all@ == merged(found, scanners@.take(i as int)),
                    decreases scanners.len() - i,
                {
                    let known = is_listed(&all, scanners[i].name.as_str());
                    proof {
                        assert(scanners@.take(i + 1).drop_last() =~= scanners@.take(i as int));
                        assert(scanners@.take(i + 1).last() == scanners@[i as int]);
                    }
                    if !known {
                        all.push(scanners[i].copy());
                    }
                    i += 1;
                }
                proof {
                    assert(scanners@.take(i as int) =~= scanners@);
                }
            },
            Err(_) => {
                self.sidecar_available = false;
            },
        }
        let mut cached: Vec<ScannerInfo> = Vec::new();
        let mut k: usize = 0;
        while k < all.len()
            invariant
                k <= all@.len(),
                cached@ == all@.take(k as int),
            decreases all.len() - k,
        {
            cached.push(all[k].copy());
            proof {
                assert(all@.take(k + 1) =~= all@.take(k as int).push(all@[k as int]));
            }
            k += 1;
        }
        proof {
            assert(cached@ =~= all@);
        }
        self.scanners = cached;
        Ok(all)
    }

    /// Resolve which scanner to use based on request options.
    /// Returns the scanner info without starting a scan.
    pub fn resolve_scanner(&self, options: &ScanRequestOptions) -> (r: Result<
        ScannerInfo,
        ScanError,
    >)
        ensures
            match wanted_scanner(self.spec_scanners(), *options) {
                None => r == Err::<ScannerInfo, ScanError>(ScanError::NoScanners),
                Some(wanted) => resolves(self.spec_scanners(), wanted, r),
            },
    {
        let asked = match &options.scanner_id {
            Some(name) => if name.as_str().is_empty() {
                None
            } else {
                Some(name.clone())
            },
            None => None,
        };
        let wanted: String = match asked {
            Some(name) => name,
            None => if self.scanners.len() > 0 {
                self.scanners[0].name.clone()
            } else {
                return Err(ScanError::NoScanners);
            },
        };
        let mut i: usize = 0;
        while i < self.scanners.len()
            invariant
                i <= self.scanners@.len(),
                wanted_scanner(self.spec_scanners(), *options) == Some(wanted@),
                forall|j: int| 0 <= j < i ==> !known_as(#[trigger] self.scanners@[j], wanted@),
            decreases self.scanners.len() - i,
        {
            let scanner = &self.scanners[i];
            if same_text(scanner.name.as_str(), wanted.as_str()) || same_text(
                scanner.id.as_str(),
                wanted.as_str(),
            ) {
                let found = Ok(scanner.copy());
                assert(first_known_as(self.spec_scanners(), wanted@, i as int));
                assert(resolves(self.spec_scanners(), wanted@, found));
                return found;
            }
            i += 1;
        }
        Err(ScanError::ScannerNotFound(wanted))
    }

    /// Path to the sidecar executable, if there is one.
    pub fn sidecar_path(&self) -> (r: Option<&str>)
        ensures
            match self.spec_sidecar_path() {
                Some(path) => r matches Some(p) && p@ == path@,
                None => r is None,
            },
    {
        match &self.sidecar_path {
            Some(path) => Some(path.as_str()),
            None => None,
        }
    }
}

/// Whether one of `scanners` has this name.
fn is_listed(scanners: &Vec<ScannerInfo>, name: &str) -> (r: bool)
    ensures
        r == has_name(scanners@, name@),
{
    let mut i: usize = 0;
    while i < scanners.len()
        invariant
            i <= scanners@.len(),
            forall|j: int| 0 <= j < i ==> (#[trigger] scanners@[j]).name@ != name@,
        decreases scanners.len() - i,
    {
        if same_text(scanners[i].name.as_str(), name) {
            return true;
        }
        i += 1;
    }
    false
}

/// Law: every native scanner is listed, in order and first; every scanner behind
/// the sidecar is listed too, unless another of its name is; and those are listed
/// under names of their own.
pub proof fn law_discovery_merges_by_name(native: Seq<ScannerInfo>, sidecar: Seq<ScannerInfo>)
    ensures
        merged(native, sidecar).len() >= native.len(),
        merged(native, sidecar).take(native.len() as int) == native,
        forall|i: int|
            0 <= i < sidecar.len() ==> has_name(
                merged(native, sidecar),
                (#[trigger] sidecar[i]).name@,
            ),
        forall|i: int, j: int|
            0 <= i < j < merged(native, sidecar).len() && native.len() <= j ==> (
            #[trigger] merged(native, sidecar)[i]).name@ != (
            #[trigger] merged(native, sidecar)[j]).name@,
    decreases sidecar.len(),
{
    let all = merged(native, sidecar);
    if sidecar.len() == 0 {
        assert(all.take(native.len() as int) =~= native);
    } else {
        let before = merged(native, sidecar.drop_last());
        law_discovery_merges_by_name(native, sidecar.drop_last());
        assert(all.take(native.len() as int) =~= before.take(native.len() as int));
        assert forall|i: int| 0 <= i < sidecar.len() implies has_name(
            all,
            (#[trigger] sidecar[i]).name@,
        ) by {
            if i < sidecar.len() - 1 {
                assert(sidecar.drop_last()[i] == sidecar[i]);
                let k = choose|k: int|
                    0 <= k < before.len() && (#[trigger] before[k]).name@ == sidecar[i].name@;
                assert(all[k] == before[k]);
            } else if !has_name(before, sidecar.last().name@) {
                assert(all[before.len() as int].name@ == sidecar[i].name@);
            }
        }
        assert forall|i: int, j: int|
            0 <= i < j < all.len() && native.len() <= j implies (#[trigger] all[i]).name@ != (
        #[trigger] all[j]).name@ by {
            assert(all[i] == before[i]);
            if j < before.len() {
                assert(all[j] == before[j]);
            }
        }
    }
}

/// Law: a request that names no scanner gets the first one listed.
pub proof fn law_default_scanner_is_the_first(
    scanners: Seq<ScannerInfo>,
    options: ScanRequestOptions,
    i: int,
)
    requires
        options.scanner_id matches Some(name) ==> name@.len() == 0,
        scanners.len() > 0,
        first_known_as(scanners, wanted_scanner(scanners, options).unwrap(), i),
    ensures
        i == 0,
{
    assert(known_as(scanners[0], wanted_scanner(scanners, options).unwrap()));
}

/// Law: a page is converted from the bytes it holds. The encoders are handed as many
/// samples per pixel as its depth has, one for black and white; every sample is the
/// page's own, without what padded its rows, and a black-and-white pixel is white where
/// its bit is set and black where it is not.
#[verifier::rlimit(50)]
pub proof fn law_pages_are_converted_as_they_are(page: PageData, quality: u8, y: int, i: int)
    requires
        page.complaint() is None,
        0 <= y < page.height,
        0 <= i < page.width * (if page.bits_per_pixel == 24 {
            3int
        } else if page.bits_per_pixel == 32 {
            4
        } else {
            1
        }),
    ensures
        ({
            let samples = if page.bits_per_pixel == 24 {
                3u8
            } else if page.bits_per_pixel == 32 {
                4
            } else {
                1
            };
            let pixels = page.spec_pixels();
            let at = y * (page.width * samples) + i;
            &&& pixels.len() == page.width * page.height * samples
            &&& page.png_outcome() == Ok::<Seq<u8>, Seq<char>>(
                png_of(pixels, page.width, page.height, samples),
            )
            &&& page.bits_per_pixel != 32 ==> page.jpeg_outcome(quality) == jpeg_of(
                pixels,
                page.width,
                page.height,
                samples,
                quality,
            )
            &&& page.bits_per_pixel == 32 ==> page.jpeg_outcome(quality) == Err::<
                Seq<u8>,
                Seq<char>,
            >("JPEG unsupported for 32 bpp"@)
            &&& 0 <= at < pixels.len()
            &&& page.bits_per_pixel != 1 ==> pixels[at] == page.raw_data@[y * page.bytes_per_row
                + i]
            &&& page.bits_per_pixel == 1 ==> pixels[at] == (if (page.raw_data@[y
                * page.bytes_per_row + i / 8] >> ((7 - i % 8) as u8)) & 1 == 1 {
                0xFFu8
            } else {
                0x00u8
            })
        }),
{
    let (w, h) = (page.width, page.height);
    if page.bits_per_pixel == 1 {
        raw::law_bits_become_samples(page.raw_data@, w, h, page.bytes_per_row, y, i);
    } else {
        raw::law_samples_are_kept(
            page.raw_data@,
            w,
            h,
            page.bits_per_pixel,
            page.bytes_per_row,
            y,
            i,
        );
    }
    assert(h * (w * 1) == w * h * 1 && h * (w * 3) == w * h * 3 && h * (w * 4) == w * h * 4)
        by (nonlinear_arith);
}

/// Law: a page whose buffer holds it can be converted to PNG, and, unless it has alpha
/// or an edge longer than the format allows, to JPEG.
pub proof fn law_pages_can_be_converted(page: PageData, quality: u8)
    ensures
        page.complaint() == raw::complaint(
            page.raw_data@.len(),
            page.width,
            page.height,
            page.bits_per_pixel,
            page.bytes_per_row,
        ),
        page.complaint() matches Some(words) ==> page.png_outcome() == Err::<Seq<u8>, Seq<char>>(
            words,
        ) && page.jpeg_outcome(quality) == Err::<Seq<u8>, Seq<char>>(words),
        page.is_jpeg_convertible() <==> {
            &&& page.complaint() is None
            &&& page.bits_per_pixel != 32
            &&& 1 <= page.width <= 65535
            &&& 1 <= page.height <= 65535
        },
{
}

/// Law: a resolution is positive where there are dots in an inch, be it a fraction
/// of one.
pub proof fn law_positive_resolutions(resolution: Resolution)
    ensures
        resolution matches Resolution::Whole(n) ==> (resolution.is_positive() <==> n > 0),
        resolution matches Resolution::Fixed(f) ==> (resolution.is_positive() <==> f.Whole > 0 || (
        f.Whole == 0 && f.Frac > 0)),
{
}

/// Law: the words for an error are those it carries, after what kind of error it is.
pub proof fn law_errors_carry_their_words(e: ScanError)
    ensures
        e matches ScanError::Twain(inner) ==> e.text() == "TWAIN error: "@ + inner.text(),
        e matches ScanError::Sidecar(m) ==> e.text() == "Sidecar error: "@ + m@,
        e matches ScanError::ScannerNotFound(m) ==> e.text() == "Scanner not found: "@ + m@,
        e matches ScanError::ImageConversion(m) ==> e.text() == "Image conversion error: "@ + m@,
        e matches ScanError::PdfGeneration(m) ==> e.text() == "PDF generation error: "@ + m@,
        e is NoScanners ==> e.text() == "No scanners found"@,
        e is Cancelled ==> e.text() == "Scan cancelled"@,
{
}

/// Law: discovery lists nothing but what was reported, what is behind the sidecar
/// after the native scanners and in the order in which it was reported. A scanner
/// behind the sidecar is listed where no native one, and none that was reported before
/// it, has its name.
pub proof fn law_discovery_lists_what_was_reported(
    native: Seq<ScannerInfo>,
    sidecar: Seq<ScannerInfo>,
) -> (at: Seq<int>)
    ensures
        at.len() == merged(native, sidecar).len() - native.len(),
        forall|j: int| 0 <= j < at.len() ==> 0 <= #[trigger] at[j] < sidecar.len(),
        forall|j: int, k: int| 0 <= j < k < at.len() ==> #[trigger] at[j] < #[trigger] at[k],
        forall|j: int|
            0 <= j < at.len() ==> merged(native, sidecar)[native.len() + j] == sidecar[
                #[trigger] at[j]],
        forall|i: int|
            0 <= i < sidecar.len() && (forall|k: int|
                0 <= k < native.len() ==> (#[trigger] native[k]).name@ != sidecar[i].name@) && (
            forall|k: int| 0 <= k < i ==> (#[trigger] sidecar[k]).name@ != sidecar[i].name@)
                ==> at.contains(i),
    decreases sidecar.len(),
{
    law_discovery_merges_by_name(native, sidecar);
    if sidecar.len() == 0 {
        Seq::empty()
    } else {
        let n = sidecar.len() - 1;
        let rest = sidecar.drop_last();
        let earlier = law_discovery_lists_what_was_reported(native, rest);
        law_discovery_merges_by_name(native, rest);
        let before = merged(native, rest);
        let all = merged(native, sidecar);
        let at = if has_name(before, sidecar.last().name@) {
            earlier
        } else {
            earlier.push(n)
        };
        assert forall|j: int| 0 <= j < at.len() implies all[native.len() + j] == sidecar[
            #[trigger] at[j]] by {
            if j < earlier.len() {
                assert(at[j] == earlier[j]);
                assert(all[native.len() + j] == before[native.len() + j]);
            }
        }
        assert forall|i: int|
            0 <= i < sidecar.len() && (forall|k: int|
                0 <= k < native.len() ==> (#[trigger] native[k]).name@ != sidecar[i].name@) && (
            forall|k: int| 0 <= k < i ==> (#[trigger] sidecar[k]).name@
                != sidecar[i].name@) implies at.contains(i) by {
            if i < n {
                assert forall|k: int| 0 <= k < i implies (#[trigger] rest[k]).name@
                    != rest[i].name@ by {
                    assert(rest[k] == sidecar[k]);
                }
                assert(rest[i] == sidecar[i]);
                assert(earlier.contains(i));
                let j = choose|j: int| 0 <= j < earlier.len() && earlier[j] == i;
                assert(at[j] == i);
            } else {
                if has_name(before, sidecar.last().name@) {
                    let k = choose|k: int|
                        0 <= k < before.len() && (#[trigger] before[k]).name@
                            == sidecar.last().name@;
                    if k < native.len() {
                        assert(before.take(native.len() as int)[k] == native[k]);
                    } else {
                        let j = k - native.len();
                        assert(before[native.len() + j] == rest[earlier[j]]);
                        assert(sidecar[earlier[j]].name@ == sidecar[i].name@);
                    }
                }
                assert(at[at.len() - 1] == n);
            }
        }
        at
    }
}

/// Law: a backend contributes every scanner it reported, in order, and none where it
/// failed.
pub proof fn law_backends_contribute_what_they_found(found: Result<Vec<ScannerInfo>, ScanError>)
    ensures
        found matches Ok(scanners) ==> reported(found) == scanners@,
        found is Err ==> reported(found).len() == 0,
{
}

/// Law: a request is for the scanner it names, if it names one.
pub proof fn law_requests_name_their_scanner(
    scanners: Seq<ScannerInfo>,
    options: ScanRequestOptions,
)
    ensures
        options.scanner_id matches Some(name) ==> (name@.len() > 0 ==> wanted_scanner(
            scanners,
            options,
        ) == Some(name@)),
        (options.scanner_id matches Some(name) ==> name@.len() == 0) ==> wanted_scanner(
            scanners,
            options,
        ) == (if scanners.len() > 0 {
            Some(scanners[0].name@)
        } else {
            None
        }),
{
}

/// Law: where a scanner is listed under the name or the id that is wanted, the first
/// such scanner is found.
pub proof fn law_listed_scanners_are_found(
    scanners: Seq<ScannerInfo>,
    wanted: Seq<char>,
    r: Result<ScannerInfo, ScanError>,
    k: int,
)
    requires
        resolves(scanners, wanted, r),
        0 <= k < scanners.len(),
        scanners[k].name@ == wanted || scanners[k].id@ == wanted,
    ensures
        r matches Ok(info) && (info.name@ == wanted || info.id@ == wanted) && exists|i: int|
            0 <= i <= k && info == #[trigger] scanners[i] && forall|j: int|
                0 <= j < i ==> (#[trigger] scanners[j]).name@ != wanted && scanners[j].id@
                    != wanted,
{
    assert(known_as(scanners[k], wanted));
    if let Ok(info) = r {
        let i = choose|i: int|
            #[trigger] first_known_as(scanners, wanted, i) && info == scanners[i];
        assert(info == scanners[i]);
        assert forall|j: int| 0 <= j < i implies (#[trigger] scanners[j]).name@ != wanted
            && scanners[j].id@ != wanted by {
            assert(!known_as(scanners[j], wanted));
        }
        if k < i {
            assert(scanners[k].name@ != wanted);
        }
    }
}

/// Law: where no scanner is listed under the name or the id that is wanted, that is
/// the answer.
pub proof fn law_unlisted_scanners_are_not_found(
    scanners: Seq<ScannerInfo>,
    wanted: Seq<char>,
    r: Result<ScannerInfo, ScanError>,
)
    requires
        resolves(scanners, wanted, r),
        forall|k: int|
            0 <= k < scanners.len() ==> (#[trigger] scanners[k]).name@ != wanted && scanners[k].id@
                != wanted,
    ensures
        r matches Err(ScanError::ScannerNotFound(name)) && name@ == wanted,
{
    if let Ok(info) = r {
        let i = choose|i: int|
            #[trigger] first_known_as(scanners, wanted, i) && info == scanners[i];
        assert(scanners[i].name@ != wanted);
    }
}

} // verus!
