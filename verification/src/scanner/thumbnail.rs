//! Downscaled page previews sent to the client while a scan runs.

use vstd::prelude::*;
use vstd::string::*;

use crate::scanner::encode::{
    block_edge, blocks_fit, encoded, is_encoded, preview_encode, preview_of, row_countable,
    scaled_edge, shrink, shrunk_of, shrunk_size, PixelLayout,
};
use crate::scanner::raw::is_conversion_error;
use crate::scanner::ScanError;
use crate::text::{decimal, join_decimal, push_decimal};

verus! {

/// Longest edge of a generated thumbnail, in pixels.
pub const THUMBNAIL_MAX_EDGE: u32 = 300;

/// JPEG quality for thumbnails, low enough to stay near 20 KB per page.
pub const THUMBNAIL_QUALITY: u8 = 70;

/// Bytes that the pixels of a page take.
pub open spec fn expected_len(width: u32, height: u32, channels: u8) -> int {
    width * height * channels
}

/// What is wrong with `len` bytes of pixels for a page of this geometry.
pub open spec fn thumbnail_complaint(len: nat, width: u32, height: u32, channels: u8) -> Option<
    Seq<char>,
> {
    let expected = expected_len(width, height, channels);
    if width * height > usize::MAX || expected > usize::MAX {
        Some("Thumbnail geometry overflows"@)
    } else if len < expected {
        Some(
            "Thumbnail source too small: got "@ + decimal(len) + " bytes, need "@ + decimal(
                expected as nat,
            ) + " for "@ + decimal(width as nat) + "x"@ + decimal(height as nat) + " at "@
                + decimal(channels as nat) + " channels"@,
        )
    } else if channels != 1 && channels != 3 && channels != 4 {
        Some("Unsupported channel count for thumbnail: "@ + decimal(channels as nat))
    } else if !row_countable(width, channels) {
        // Without rows the pixels may still be too wide to count.
        Some("Thumbnail buffer rejected by decoder"@)
    } else {
        None
    }
}

/// Whether a page is small enough to be its own thumbnail.
pub open spec fn within_cap(width: u32, height: u32) -> bool {
    width <= THUMBNAIL_MAX_EDGE && height <= THUMBNAIL_MAX_EDGE
}

/// The pixels of a thumbnail, with their width and height, before alpha is dropped.
pub open spec fn scaled(pixels: Seq<u8>, width: u32, height: u32, channels: u8) -> (
    Seq<u8>,
    u32,
    u32,
) {
    let page = pixels.take(expected_len(width, height, channels));
    if within_cap(width, height) {
        (page, width, height)
    } else {
        shrunk_of(page, width, height, channels, THUMBNAIL_MAX_EDGE)
    }
}

/// RGBA pixels without their alpha samples.
pub open spec fn without_alpha(rgba: Seq<u8>) -> Seq<u8> {
    Seq::new((rgba.len() / 4 * 3) as nat, |k: int| rgba[k / 3 * 4 + k % 3])
}

/// The file of a thumbnail, or why there is none.
pub open spec fn thumbnail_of(pixels: Seq<u8>, width: u32, height: u32, channels: u8) -> Result<
    Seq<u8>,
    Seq<char>,
> {
    let (small, new_width, new_height) = scaled(pixels, width, height, channels);
    if channels == 4 {
        preview_of(without_alpha(small), new_width, new_height, 3, THUMBNAIL_QUALITY)
    } else {
        preview_of(small, new_width, new_height, channels, THUMBNAIL_QUALITY)
    }
}

/// Drop the alpha samples of RGBA pixels.
pub fn drop_alpha(rgba: &Vec<u8>) -> (rgb: Vec<u8>)
    ensures
        rgb@ == without_alpha(rgba@),
{
    let mut rgb: Vec<u8> = Vec::new();
    let pixels: usize = rgba.len() / 4;
    let mut i: usize = 0;
    while i < pixels
        invariant
            i <= pixels,
            pixels == rgba.len() / 4,
            rgb@.len() == i * 3,
            forall|k: int| 0 <= k < rgb@.len() ==> rgb@[k] == rgba@[k / 3 * 4 + k % 3],
        decreases pixels - i,
    {
        rgb.push(rgba[i * 4]);
        rgb.push(rgba[i * 4 + 1]);
        rgb.push(rgba[i * 4 + 2]);
        i += 1;
    }
    assert(rgb@ =~= without_alpha(rgba@));
    rgb
}

fn too_small(len: usize, expected: usize, width: u32, height: u32, channels: u8) -> (e: ScanError)
    ensures
        is_conversion_error(
            e,
            "Thumbnail source too small: got "@ + decimal(len as nat) + " bytes, need "@ + decimal(
                expected as nat,
            ) + " for "@ + decimal(width as nat) + "x"@ + decimal(height as nat) + " at "@
                + decimal(channels as nat) + " channels"@,
        ),
{
    let mut m = join_decimal("Thumbnail source too small: got ", len as u64);
    m.append(" bytes, need ");
    push_decimal(&mut m, expected as u64);
    m.append(" for ");
    push_decimal(&mut m, width as u64);
    m.append("x");
    push_decimal(&mut m, height as u64);
    m.append(" at ");
    push_decimal(&mut m, channels as u64);
    m.append(" channels");
    ScanError::ImageConversion(m)
}

/// Downscale tightly-packed 8-bit pixel data to a JPEG preview whose longest
/// edge is at most `THUMBNAIL_MAX_EDGE`, preserving aspect ratio.
///
/// `channels` is 1 (grayscale), 3 (RGB) or 4 (RGBA). Images already within the
/// cap are not upscaled. Scaling down adds up the samples of a block of pixels in 32
/// bits, which those of a page to be scaled down have to fit.
pub fn thumbnail_jpeg(pixels: &[u8], width: u32, height: u32, channels: u8) -> (r: Result<
    Vec<u8>,
    ScanError,
>)
    requires
        thumbnail_complaint(pixels@.len(), width, height, channels) is None ==> within_cap(
            width,
            height,
        ) || blocks_fit(width, height, THUMBNAIL_MAX_EDGE),
    ensures
        match thumbnail_complaint(pixels@.len(), width, height, channels) {
            Some(words) => r matches Err(e) && is_conversion_error(e, words),
            None => {
                &&& is_encoded(r, thumbnail_of(pixels@, width, height, channels))
                &&& r is Ok <==> !within_cap(width, height) || (1 <= width && 1 <= height)
                &&& !within_cap(width, height) ==> shrunk_size(
                    scaled(pixels@, width, height, channels).1,
                    scaled(pixels@, width, height, channels).2,
                    width,
                    height,
                    THUMBNAIL_MAX_EDGE,
                )
            },
        },
{
    let area = (width as usize).checked_mul(height as usize);
    let expected = match area {
        Some(area) => area.checked_mul(channels as usize),
        None => None,
    };
    let expected: usize = match expected {
        Some(expected) => expected,
        None => {
            return Err(ScanError::ImageConversion("Thumbnail geometry overflows".to_owned()));
        },
    };
    if pixels.len() < expected {
        return Err(too_small(pixels.len(), expected, width, height, channels));
    }
    let layout = match channels {
        1 => PixelLayout::Gray,
        3 => PixelLayout::Rgb,
        4 => PixelLayout::Rgba,
        other => {
            return Err(
                ScanError::ImageConversion(
                    join_decimal("Unsupported channel count for thumbnail: ", other as u64),
                ),
            );
        },
    };
    if (width as usize).checked_mul(channels as usize).is_none() {
        return Err(ScanError::ImageConversion("Thumbnail buffer rejected by decoder".to_owned()));
    }
    let page = vstd::slice::slice_subrange(pixels, 0, expected);
    let mut owned: Vec<u8> = Vec::new();
    owned.extend_from_slice(page);
    proof {
        assert(owned@ =~= pixels@.take(expected as int));
        assert(width * height * channels == height * (width * channels)) by (nonlinear_arith);
    }
    let (small, new_width, new_height): (Vec<u8>, u32, u32) = if width <= THUMBNAIL_MAX_EDGE
        && height <= THUMBNAIL_MAX_EDGE {
        (owned, width, height)
    } else {
        shrink(owned, width, height, layout, THUMBNAIL_MAX_EDGE)
    };
    // JPEG carries no alpha channel.
    if layout == PixelLayout::Rgba {
        proof {
            lemma_quarter(new_width as int, new_height as int);
        }
        let opaque = drop_alpha(&small);
        encoded(
            preview_encode(opaque, new_width, new_height, PixelLayout::Rgb, THUMBNAIL_QUALITY),
        )
    } else {
        encoded(preview_encode(small, new_width, new_height, layout, THUMBNAIL_QUALITY))
    }
}

/// Law: a page whose edges are at most a million pixels can be scaled down.
pub proof fn law_pages_can_be_scaled(width: u32, height: u32)
    requires
        width <= 1000000,
        height <= 1000000,
        !within_cap(width, height),
    ensures
        blocks_fit(width, height, THUMBNAIL_MAX_EDGE),
{
    assert forall|new_width: u32, new_height: u32| #[trigger]
        shrunk_size(new_width, new_height, width, height, THUMBNAIL_MAX_EDGE) implies 256 * (
    block_edge(width, new_width) * block_edge(height, new_height)) <= u32::MAX by {
        if width >= height {
            lemma_short_block(new_height, height, width);
        } else {
            lemma_short_block(new_width, width, height);
        }
        let (across, down) = (block_edge(width, new_width), block_edge(height, new_height));
        assert(across * down <= 3336 * 5003) by (nonlinear_arith)
            requires
                0 <= across,
                0 <= down,
                across <= 3336 && down <= 5003 || across <= 5003 && down <= 3336,
        ;
    }
}

/// The blocks of a page are at most half as long again along its shorter edge as
/// they are along its longer.
proof fn lemma_short_block(n: u32, short: u32, long: u32)
    requires
        1 <= n,
        short <= long <= 1000000,
        scaled_edge(n, short, long, THUMBNAIL_MAX_EDGE),
    ensures
        0 <= block_edge(short, n) <= 5003,
        0 <= block_edge(long, THUMBNAIL_MAX_EDGE) <= 3336,
{
    let share = short as int / n as int;
    assert(0 <= share && share * n <= short) by (nonlinear_arith)
        requires
            share == short as int / n as int,
            1 <= n,
            0 <= short,
    ;
    if !(n == 1 && 2 * (THUMBNAIL_MAX_EDGE * short) <= long) {
        assert(200 * share <= long) by (nonlinear_arith)
            requires
                1 <= n,
                share * n <= short,
                2 * (300 * short - n * long) <= long,
                0 <= long,
        {
            assert(600 * (share * n) <= (2 * n + 1) * long);
            assert((2 * n + 1) * long <= 3 * (n * long));
            assert(n * (200 * share) <= n * long);
            assert(200 * share > long ==> n * (200 * share) > n * long);
        }
    }
}

/// Law: a thumbnail is the page at its own size where that is within the cap, and
/// otherwise as large as the cap allows, in the page's shape to the nearest pixel.
pub proof fn law_thumbnail_keeps_shape(pixels: Seq<u8>, width: u32, height: u32, channels: u8)
    requires
        !within_cap(width, height) ==> shrunk_size(
            scaled(pixels, width, height, channels).1,
            scaled(pixels, width, height, channels).2,
            width,
            height,
            THUMBNAIL_MAX_EDGE,
        ),
    ensures
        ({
            let (_, w, h) = scaled(pixels, width, height, channels);
            let long = if width >= height {
                width as int
            } else {
                height as int
            };
            if within_cap(width, height) {
                w == width && h == height
            } else {
                &&& w <= THUMBNAIL_MAX_EDGE && h <= THUMBNAIL_MAX_EDGE
                &&& w == THUMBNAIL_MAX_EDGE || h == THUMBNAIL_MAX_EDGE
                &&& -long <= w * height - h * width <= long
            }
        }),
{
}

/// Law: bytes beyond those of the pixels make no difference to a thumbnail.
pub proof fn law_thumbnail_ignores_the_rest(
    pixels: Seq<u8>,
    rest: Seq<u8>,
    width: u32,
    height: u32,
    channels: u8,
)
    requires
        thumbnail_complaint(pixels.len(), width, height, channels) is None,
    ensures
        thumbnail_complaint((pixels + rest).len(), width, height, channels) is None,
        thumbnail_of(pixels + rest, width, height, channels) == thumbnail_of(
            pixels,
            width,
            height,
            channels,
        ),
{
    let expected = expected_len(width, height, channels);
    assert(0 <= expected) by (nonlinear_arith)
        requires
            expected == width * height * channels,
    ;
    assert((pixels + rest).take(expected) =~= pixels.take(expected));
}

/// Three of four samples of an image are left without alpha.
proof fn lemma_quarter(width: int, height: int)
    ensures
        (height * (width * 4)) / 4 * 3 == height * (width * 3),
{
    assert(height * (width * 4) == 4 * (height * width)) by (nonlinear_arith);
    assert(height * (width * 3) == 3 * (height * width)) by (nonlinear_arith);
}

/// Law: a thumbnail shows the page's own samples. Those of a gray or a color page
/// that is small enough are encoded as they are, in order; of a larger one, exactly
/// those that scaling it down gave. Pages with alpha are encoded without it.
pub proof fn law_thumbnail_shows_the_page(pixels: Seq<u8>, width: u32, height: u32, channels: u8)
    ensures
        ({
            let page = pixels.take(width * height * channels);
            let (small, w, h) = if width <= 300 && height <= 300 {
                (page, width, height)
            } else {
                shrunk_of(page, width, height, channels, 300)
            };
            &&& channels != 4 ==> thumbnail_of(pixels, width, height, channels) == preview_of(
                small,
                w,
                h,
                channels,
                70,
            )
            &&& channels == 4 ==> thumbnail_of(pixels, width, height, channels) == preview_of(
                without_alpha(small),
                w,
                h,
                3,
                70,
            )
        }),
{
}

/// Law: a pixel that loses its alpha keeps its red, its green and its blue, each in
/// its place.
pub proof fn law_channels_are_kept(rgba: Seq<u8>, pixel: int, channel: int)
    requires
        0 <= pixel < rgba.len() / 4,
        0 <= channel < 3,
    ensures
        without_alpha(rgba).len() == 3 * (rgba.len() / 4),
        without_alpha(rgba)[3 * pixel + channel] == rgba[4 * pixel + channel],
{
    let k = 3 * pixel + channel;
    assert(k / 3 == pixel && k % 3 == channel);
}

/// Law: there is a thumbnail of a page exactly where it has one, three or four
/// channels and its samples are all there and can be counted.
pub proof fn law_pages_have_thumbnails(len: nat, width: u32, height: u32, channels: u8)
    requires
        len <= usize::MAX,
    ensures
        thumbnail_complaint(len, width, height, channels) is None <==> {
            &&& channels == 1 || channels == 3 || channels == 4
            &&& width * height * channels <= len
            &&& width * channels <= usize::MAX
        },
{
    assert(channels >= 1 ==> width * height <= width * height * channels) by (nonlinear_arith);
}

/// Law: pixels that there can be no thumbnail of are turned down for what is wrong, with
/// the numbers: how many bytes there are, and how many the page takes.
pub proof fn law_thumbnail_complaints_say_what_is_wrong(
    len: nat,
    width: u32,
    height: u32,
    channels: u8,
)
    ensures
        ({
            let words = thumbnail_complaint(len, width, height, channels);
            let need = width * height * channels;
            let counted = width * height <= usize::MAX && need <= usize::MAX;
            &&& !counted ==> words == Some("Thumbnail geometry overflows"@)
            &&& counted && len < need ==> words == Some(
                "Thumbnail source too small: got "@ + decimal(len) + " bytes, need "@ + decimal(
                    need as nat,
                ) + " for "@ + decimal(width as nat) + "x"@ + decimal(height as nat) + " at "@
                    + decimal(channels as nat) + " channels"@,
            )
            &&& counted && need <= len && channels != 1 && channels != 3 && channels != 4 ==> words
                == Some(
                "Unsupported channel count for thumbnail: "@ + decimal(channels as nat),
            )
        }),
{
}

} // verus!
