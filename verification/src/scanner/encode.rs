//! Pixels into image files.

use image::ImageEncoder;
use vstd::prelude::*;
use vstd::string::*;

use crate::scanner::raw::is_conversion_error;
use crate::scanner::sidecar::same_bytes;
use crate::scanner::ScanError;

verus! {

/// How the 8-bit samples of a pixel lie next to each other.
#[derive(Debug, Clone, Copy, PartialEq, Eq, Structural)]
pub enum PixelLayout {
    Gray,
    Rgb,
    Rgba,
}

impl PixelLayout {
    /// Samples per pixel.
    pub open spec fn spec_samples(self) -> u8 {
        match self {
            PixelLayout::Gray => 1,
            PixelLayout::Rgb => 3,
            PixelLayout::Rgba => 4,
        }
    }

    pub fn samples(self) -> (n: u8)
        ensures
            n == self.spec_samples(),
    {
        match self {
            PixelLayout::Gray => 1,
            PixelLayout::Rgb => 3,
            PixelLayout::Rgba => 4,
        }
    }
}

/// Whether `len` bytes are exactly an image of this geometry.
pub open spec fn covers(len: nat, width: u32, height: u32, samples: u8) -> bool {
    len == height * (width * samples)
}

/// The file that the PNG encoder makes of the pixels.
pub uninterp spec fn png_of(pixels: Seq<u8>, width: u32, height: u32, samples: u8) -> Seq<u8>;

/// `ImageEncoder::write_image` of `image::codecs::png::PngEncoder`, into memory,
/// its error in the words of its `Display`. The file is a function of the
/// arguments alone. The encoder panics unless the pixels are exactly those of the
/// geometry; it complains of images without a pixel and of writers that fail, so
/// it makes a file of everything admitted here.
#[verifier::external_body]
pub(crate) fn png_encode(pixels: &Vec<u8>, width: u32, height: u32, layout: PixelLayout) -> (r:
    Result<Vec<u8>, String>)
    requires
        covers(pixels@.len(), width, height, layout.spec_samples()),
        1 <= width,
        1 <= height,
        pixels@.len() <= isize::MAX,
    ensures
        r is Ok,
        r->Ok_0@ == png_of(pixels@, width, height, layout.spec_samples()),
{
    let color = match layout {
        PixelLayout::Gray => image::ExtendedColorType::L8,
        PixelLayout::Rgb => image::ExtendedColorType::Rgb8,
        PixelLayout::Rgba => image::ExtendedColorType::Rgba8,
    };
    let mut file = Vec::new();
    image::codecs::png::PngEncoder::new(std::io::Cursor::new(&mut file))
        .write_image(pixels, width, height, color)
        .map_err(|e: image::ImageError| e.to_string())?;
    Ok(file)
}

/// What the JPEG encoder makes of a page at a quality: the file, or its complaint.
pub uninterp spec fn jpeg_of(
    pixels: Seq<u8>,
    width: u32,
    height: u32,
    samples: u8,
    quality: u8,
) -> Result<Seq<u8>, Seq<char>>;

/// Whether the JPEG encoder takes images of this size.
pub open spec fn jpeg_sized(width: u32, height: u32) -> bool {
    1 <= width <= 65535 && 1 <= height <= 65535
}

/// `ImageEncoder::write_image` of `image::codecs::jpeg::JpegEncoder`, into memory,
/// its error in the words of its `Display`. File and complaint are functions of
/// the arguments alone; it complains exactly of images whose edges do not fit the
/// 16 bits that the format has for them. It panics unless the pixels are exactly
/// those of the geometry, and where the samples of a row cannot be counted, which
/// they can where there are rows; it has no layout with alpha.
#[verifier::external_body]
pub(crate) fn jpeg_encode(
    pixels: &Vec<u8>,
    width: u32,
    height: u32,
    layout: PixelLayout,
    quality: u8,
) -> (r: Result<Vec<u8>, String>)
    requires
        covers(pixels@.len(), width, height, layout.spec_samples()),
        1 <= width,
        1 <= height,
        layout != PixelLayout::Rgba,
    ensures
        same_bytes(r, jpeg_of(pixels@, width, height, layout.spec_samples(), quality)),
        r is Ok <==> jpeg_sized(width, height),
{
    let color = match layout {
        PixelLayout::Gray => image::ExtendedColorType::L8,
        PixelLayout::Rgb => image::ExtendedColorType::Rgb8,
        PixelLayout::Rgba => image::ExtendedColorType::Rgba8,
    };
    let mut file = Vec::new();
    image::codecs::jpeg::JpegEncoder::new_with_quality(std::io::Cursor::new(&mut file), quality)
        .write_image(pixels, width, height, color)
        .map_err(|e: image::ImageError| e.to_string())?;
    Ok(file)
}

/// Whether the samples of a row can be counted, however many rows there are.
pub open spec fn row_countable(width: u32, samples: u8) -> bool {
    width * samples <= usize::MAX
}

/// What the JPEG encoder makes of a preview at a quality: the file, or its
/// complaint. It encodes grayscale previews with three components.
pub uninterp spec fn preview_of(
    pixels: Seq<u8>,
    width: u32,
    height: u32,
    samples: u8,
    quality: u8,
) -> Result<Seq<u8>, Seq<char>>;

/// `image::codecs::jpeg::JpegEncoder::encode_image` of a `DynamicImage`, into
/// memory, its error in the words of its `Display`. File and complaint are
/// functions of the arguments alone; it complains exactly of images whose edges
/// do not fit the 16 bits that the format has for them. For there to be such an
/// image, the pixels have to be exactly those of the geometry, and the samples of a
/// row a number that the machine can count.
#[verifier::external_body]
pub(crate) fn preview_encode(
    pixels: Vec<u8>,
    width: u32,
    height: u32,
    layout: PixelLayout,
    quality: u8,
) -> (r: Result<Vec<u8>, String>)
    requires
        covers(pixels@.len(), width, height, layout.spec_samples()),
        row_countable(width, layout.spec_samples()),
        layout != PixelLayout::Rgba,
    ensures
        same_bytes(r, preview_of(pixels@, width, height, layout.spec_samples(), quality)),
        r is Ok <==> jpeg_sized(width, height),
{
    let preview: image::DynamicImage = match layout {
        PixelLayout::Gray => image::GrayImage::from_raw(width, height, pixels).unwrap().into(),
        PixelLayout::Rgb => image::RgbImage::from_raw(width, height, pixels).unwrap().into(),
        PixelLayout::Rgba => image::RgbaImage::from_raw(width, height, pixels).unwrap().into(),
    };
    let mut file = Vec::new();
    image::codecs::jpeg::JpegEncoder::new_with_quality(std::io::Cursor::new(&mut file), quality)
        .encode_image(&preview)
        .map_err(|e: image::ImageError| e.to_string())?;
    Ok(file)
}

/// What `image` shrinks the pixels to, to fit a square of this edge: the pixels,
/// and their width and height.
pub uninterp spec fn shrunk_of(
    pixels: Seq<u8>,
    width: u32,
    height: u32,
    samples: u8,
    max_edge: u32,
) -> (Seq<u8>, u32, u32);

/// Whether `n` is `short` scaled by `max_edge / long`, to the nearest pixel and at
/// least one.
pub open spec fn scaled_edge(n: u32, short: u32, long: u32, max_edge: u32) -> bool {
    ||| n == 1 && 2 * (max_edge * short) <= long
    ||| 2 * (n * long - max_edge * short) <= long && 2 * (max_edge * short - n * long) <= long
}

/// Whether a width and height are those of an image shrunk to fit a square of this
/// edge, its aspect ratio kept to the nearest pixel.
pub open spec fn shrunk_size(
    new_width: u32,
    new_height: u32,
    width: u32,
    height: u32,
    max_edge: u32,
) -> bool {
    &&& 1 <= new_width <= max_edge
    &&& 1 <= new_height <= max_edge
    &&& if width >= height {
        new_width == max_edge && scaled_edge(new_height, height, width, max_edge)
    } else {
        new_height == max_edge && scaled_edge(new_width, width, height, max_edge)
    }
}

/// How many pixels along an edge of this length are averaged into one of `new`, at
/// most: their share, rounded up twice, and what single-precision arithmetic on the
/// edge can add to it.
pub open spec fn block_edge(edge: u32, new: u32) -> int {
    let share = edge as int / new as int + edge as int / 4194304 + 3;
    if share < edge {
        share
    } else {
        edge as int
    }
}

/// Whether the samples that are averaged into one, and half their number, add up
/// in 32 bits, however large the samples are.
pub open spec fn blocks_fit(width: u32, height: u32, max_edge: u32) -> bool {
    forall|new_width: u32, new_height: u32| #[trigger]
        shrunk_size(new_width, new_height, width, height, max_edge) ==> 256 * (block_edge(
            width,
            new_width,
        ) * block_edge(height, new_height)) <= u32::MAX
}

/// `image::DynamicImage::thumbnail` with a square bound. The result is a function
/// of the arguments alone; its longer edge is that of the square, and its pixels
/// are those of its size. The averaging behind it adds up the samples of a block in
/// 32 bits, and finds the block by arithmetic in single precision, which bounds the
/// edge from below. There is an image to shrink where the pixels are exactly those of
/// the geometry and the samples of a row a number that the machine can count.
#[verifier::external_body]
pub(crate) fn shrink(
    pixels: Vec<u8>,
    width: u32,
    height: u32,
    layout: PixelLayout,
    max_edge: u32,
) -> (r: (Vec<u8>, u32, u32))
    requires
        covers(pixels@.len(), width, height, layout.spec_samples()),
        row_countable(width, layout.spec_samples()),
        width > max_edge || height > max_edge,
        blocks_fit(width, height, max_edge),
        300 <= max_edge <= 1000,
    ensures
        (r.0@, r.1, r.2) == shrunk_of(pixels@, width, height, layout.spec_samples(), max_edge),
        covers(r.0@.len(), r.1, r.2, layout.spec_samples()),
        shrunk_size(r.1, r.2, width, height, max_edge),
{
    let source: image::DynamicImage = match layout {
        PixelLayout::Gray => image::GrayImage::from_raw(width, height, pixels).unwrap().into(),
        PixelLayout::Rgb => image::RgbImage::from_raw(width, height, pixels).unwrap().into(),
        PixelLayout::Rgba => image::RgbaImage::from_raw(width, height, pixels).unwrap().into(),
    };
    let small = source.thumbnail(max_edge, max_edge);
    let (new_width, new_height) = (small.width(), small.height());
    (small.into_bytes(), new_width, new_height)
}

/// What an encoder handed back, as the outcome of a conversion.
pub fn encoded(r: Result<Vec<u8>, String>) -> (out: Result<Vec<u8>, ScanError>)
    ensures
        match r {
            Ok(file) => out == Ok::<Vec<u8>, ScanError>(file),
            Err(e) => out == Err::<Vec<u8>, ScanError>(ScanError::ImageConversion(e)),
        },
{
    match r {
        Ok(file) => Ok(file),
        Err(e) => Err(ScanError::ImageConversion(e)),
    }
}

/// Whether an outcome holds the file or the complaint that a name does.
pub open spec fn is_encoded(
    out: Result<Vec<u8>, ScanError>,
    named: Result<Seq<u8>, Seq<char>>,
) -> bool {
    match named {
        Ok(file) => out matches Ok(bytes) && bytes@ == file,
        Err(words) => out matches Err(e) && is_conversion_error(e, words),
    }
}

/// Law: a conversion that succeeded hands out the file, and one that failed the
/// complaint.
pub proof fn law_conversions_hand_out_the_file(
    out: Result<Vec<u8>, ScanError>,
    named: Result<Seq<u8>, Seq<char>>,
)
    requires
        is_encoded(out, named),
    ensures
        named matches Ok(file) ==> out is Ok && out->Ok_0@ == file,
        named matches Err(words) ==> (out matches Err(ScanError::ImageConversion(m)) && m@
            == words),
{
}

/// Law: pixels are gray, red, green and blue, or those and alpha; images of either
/// kind take as many bytes as they have samples.
pub proof fn law_images_take_their_samples(len: nat, width: u32, height: u32, layout: PixelLayout)
    ensures
        layout.spec_samples() == (if layout == PixelLayout::Gray {
            1int
        } else if layout == PixelLayout::Rgb {
            3
        } else {
            4
        }),
        covers(len, width, height, layout.spec_samples()) <==> len == width * height
            * layout.spec_samples(),
{
    let n = layout.spec_samples();
    assert(height * (width * n) == width * height * n) by (nonlinear_arith);
}

} // verus!
