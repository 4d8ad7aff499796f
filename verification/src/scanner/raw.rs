//! Normalization of raw memory-transfer buffers into tightly-packed
//! 8-bit-per-sample rows suitable for the image encoders.

use vstd::prelude::*;
use vstd::string::*;

use crate::scanner::ScanError;
use crate::text::{decimal, join_decimal, push_decimal};

verus! {

/// Samples per pixel after normalization, for a bit depth that is supported.
pub open spec fn samples(bits_per_pixel: u16) -> Option<nat> {
    if bits_per_pixel == 1 || bits_per_pixel == 8 {
        Some(1)
    } else if bits_per_pixel == 24 {
        Some(3)
    } else if bits_per_pixel == 32 {
        Some(4)
    } else {
        None
    }
}

/// Minimum bytes a single row of pixels occupies, before any padding.
pub open spec fn min_row(width: u32, bits_per_pixel: u16) -> int {
    if bits_per_pixel == 1 {
        (width + 7) / 8
    } else {
        width * (bits_per_pixel as int / 8)
    }
}

/// Bytes that a buffer must hold: the final row need not carry padding.
pub open spec fn required_len(width: u32, height: u32, bits_per_pixel: u16, stride: u32) -> int {
    stride * (height - 1) + min_row(width, bits_per_pixel)
}

/// The sample at `i` of row `y` after normalization. A set bit of a
/// black-and-white row, most significant bit first, is white.
pub open spec fn sample(raw: Seq<u8>, bits_per_pixel: u16, stride: u32, y: int, i: int) -> u8 {
    if bits_per_pixel == 1 {
        if (raw[y * stride + i / 8] >> ((7 - i % 8) as u8)) & 1 == 1 {
            0xFF
        } else {
            0x00
        }
    } else {
        raw[y * stride + i]
    }
}

/// Samples in one row after normalization.
pub open spec fn row_samples(width: u32, bits_per_pixel: u16) -> int {
    width * samples(bits_per_pixel).unwrap()
}

/// Every sample of every row, in order.
pub open spec fn normalized(
    raw: Seq<u8>,
    width: u32,
    height: u32,
    bits_per_pixel: u16,
    stride: u32,
) -> Seq<u8> {
    let row = row_samples(width, bits_per_pixel);
    Seq::new(
        (height * row) as nat,
        |k: int| sample(raw, bits_per_pixel, stride, k / row, k % row),
    )
}

/// What is wrong with a buffer of that length for an image of that geometry.
pub open spec fn complaint(
    len: nat,
    width: u32,
    height: u32,
    bits_per_pixel: u16,
    stride: u32,
) -> Option<Seq<char>> {
    if width == 0 || height == 0 {
        Some("Empty image geometry: "@ + decimal(width as nat) + "x"@ + decimal(height as nat))
    } else if samples(bits_per_pixel) is None {
        Some("Unsupported bit depth: "@ + decimal(bits_per_pixel as nat))
    } else if stride < min_row(width, bits_per_pixel) {
        Some(
            "BytesPerRow "@ + decimal(stride as nat) + " is smaller than a "@ + decimal(
                bits_per_pixel as nat,
            ) + "bpp row of "@ + decimal(width as nat) + " pixels ("@ + decimal(
                min_row(width, bits_per_pixel) as nat,
            ) + " bytes)"@,
        )
    } else if required_len(width, height, bits_per_pixel, stride) > usize::MAX {
        Some("Image geometry overflows"@)
    } else if len < required_len(width, height, bits_per_pixel, stride) {
        Some(
            "Truncated image buffer: got "@ + decimal(len) + " bytes, need "@ + decimal(
                required_len(width, height, bits_per_pixel, stride) as nat,
            ) + " for "@ + decimal(width as nat) + "x"@ + decimal(height as nat) + " at "@
                + decimal(bits_per_pixel as nat) + "bpp"@,
        )
    } else if height * row_samples(width, bits_per_pixel) > isize::MAX {
        // Black and white grows eightfold, possibly beyond what memory can hold.
        Some("Image geometry overflows"@)
    } else {
        None
    }
}

/// Whether `e` says that an image could not be converted, in these words.
pub open spec fn is_conversion_error(e: ScanError, words: Seq<char>) -> bool {
    e matches ScanError::ImageConversion(m) && m@ == words
}

fn empty_geometry(width: u32, height: u32) -> (e: ScanError)
    ensures
        is_conversion_error(
            e,
            "Empty image geometry: "@ + decimal(width as nat) + "x"@ + decimal(height as nat),
        ),
{
    let mut m = join_decimal("Empty image geometry: ", width as u64);
    m.append("x");
    push_decimal(&mut m, height as u64);
    ScanError::ImageConversion(m)
}

fn short_stride(stride: u32, bits_per_pixel: u16, width: u32, min: u64) -> (e: ScanError)
    ensures
        is_conversion_error(
            e,
            "BytesPerRow "@ + decimal(stride as nat) + " is smaller than a "@ + decimal(
                bits_per_pixel as nat,
            ) + "bpp row of "@ + decimal(width as nat) + " pixels ("@ + decimal(min as nat)
                + " bytes)"@,
        ),
{
    let mut m = join_decimal("BytesPerRow ", stride as u64);
    m.append(" is smaller than a ");
    push_decimal(&mut m, bits_per_pixel as u64);
    m.append("bpp row of ");
    push_decimal(&mut m, width as u64);
    m.append(" pixels (");
    push_decimal(&mut m, min);
    m.append(" bytes)");
    ScanError::ImageConversion(m)
}

fn truncated(len: usize, required: u64, width: u32, height: u32, bits_per_pixel: u16) -> (e:
    ScanError)
    ensures
        is_conversion_error(
            e,
            "Truncated image buffer: got "@ + decimal(len as nat) + " bytes, need "@ + decimal(
                required as nat,
            ) + " for "@ + decimal(width as nat) + "x"@ + decimal(height as nat) + " at "@
                + decimal(bits_per_pixel as nat) + "bpp"@,
        ),
{
    let mut m = join_decimal("Truncated image buffer: got ", len as u64);
    m.append(" bytes, need ");
    push_decimal(&mut m, required);
    m.append(" for ");
    push_decimal(&mut m, width as u64);
    m.append("x");
    push_decimal(&mut m, height as u64);
    m.append(" at ");
    push_decimal(&mut m, bits_per_pixel as u64);
    m.append("bpp");
    ScanError::ImageConversion(m)
}

/// A row starts where the rows before it end, and ends within the buffer.
proof fn lemma_row_in_bounds(y: int, height: int, stride: int, i: int, min: int)
    requires
        0 <= y < height,
        0 <= i < min,
        0 <= stride,
    ensures
        0 <= y * stride,
        y * stride + i < stride * (height - 1) + min,
{
    assert(y * stride <= (height - 1) * stride) by (nonlinear_arith)
        requires
            y <= height - 1,
            0 <= stride,
    ;
    assert(0 <= y * stride) by (nonlinear_arith)
        requires
            0 <= y,
            0 <= stride,
    ;
    assert(stride * (height - 1) == (height - 1) * stride) by (nonlinear_arith);
}

/// The sizes of a row, one bit depth at a time.
proof fn lemma_row_sizes(width: u32, bits_per_pixel: u16)
    ensures
        bits_per_pixel == 1 ==> min_row(width, bits_per_pixel) == (width + 7) / 8 && row_samples(
            width,
            bits_per_pixel,
        ) == width,
        bits_per_pixel == 8 ==> min_row(width, bits_per_pixel) == width && row_samples(
            width,
            bits_per_pixel,
        ) == width,
        bits_per_pixel == 24 ==> min_row(width, bits_per_pixel) == width * 3 && row_samples(
            width,
            bits_per_pixel,
        ) == width * 3,
        bits_per_pixel == 32 ==> min_row(width, bits_per_pixel) == width * 4 && row_samples(
            width,
            bits_per_pixel,
        ) == width * 4,
{
    assert(8int / 8 == 1 && 24int / 8 == 3 && 32int / 8 == 4);
    assert(width * 1 == width) by (nonlinear_arith);
}

/// Which row, and where in it, sample `y * row + i` is.
proof fn lemma_row_of(y: int, row: int, i: int)
    requires
        0 <= y,
        0 <= i < row,
    ensures
        (y * row + i) / row == y,
        (y * row + i) % row == i,
{
    vstd::arithmetic::div_mod::lemma_fundamental_div_mod_converse(y * row + i, row, y, i);
}

/// Convert a raw memory-transfer buffer into tightly-packed rows, with source row
/// padding removed and black-and-white expanded to 8 bits per pixel.
pub fn normalize(
    raw: &[u8],
    width: u32,
    height: u32,
    bits_per_pixel: u16,
    bytes_per_row: u32,
) -> (r: Result<Vec<u8>, ScanError>)
    ensures
        match complaint(raw@.len(), width, height, bits_per_pixel, bytes_per_row) {
            Some(words) => r matches Err(e) && is_conversion_error(e, words),
            None => r matches Ok(out) && out@ == normalized(
                raw@,
                width,
                height,
                bits_per_pixel,
                bytes_per_row,
            ),
        },
{
    if width == 0 || height == 0 {
        return Err(empty_geometry(width, height));
    }
    let (min, row): (u64, u64) = match bits_per_pixel {
        1 => ((width as u64 + 7) / 8, width as u64),
        8 => (width as u64, width as u64),
        24 => (width as u64 * 3, width as u64 * 3),
        32 => (width as u64 * 4, width as u64 * 4),
        other => {
            return Err(
                ScanError::ImageConversion(join_decimal("Unsupported bit depth: ", other as u64)),
            );
        },
    };
    proof {
        lemma_row_sizes(width, bits_per_pixel);
    }
    assert(min == min_row(width, bits_per_pixel) && row == row_samples(width, bits_per_pixel));
    if (bytes_per_row as u64) < min {
        return Err(short_stride(bytes_per_row, bits_per_pixel, width, min));
    }
    proof {
        assert(bytes_per_row * (height - 1) <= u32::MAX * u32::MAX) by (nonlinear_arith)
            requires
                bytes_per_row <= u32::MAX,
                1 <= height <= u32::MAX,
        ;
        assert(bytes_per_row * (height - 1) >= 0) by (nonlinear_arith)
            requires
                1 <= height,
        ;
    }
    let required = match (bytes_per_row as u64 * (height as u64 - 1)).checked_add(min) {
        Some(required) if required <= usize::MAX as u64 => required,
        _ => {
            return Err(ScanError::ImageConversion("Image geometry overflows".to_owned()));
        },
    };
    if (raw.len() as u64) < required {
        return Err(truncated(raw.len(), required, width, height, bits_per_pixel));
    }
    match (height as u64).checked_mul(row) {
        Some(total) if total <= isize::MAX as u64 => {},
        _ => {
            return Err(ScanError::ImageConversion("Image geometry overflows".to_owned()));
        },
    }
    let stride = bytes_per_row as usize;
    let row = row as usize;
    let mut out: Vec<u8> = Vec::new();
    let mut y: usize = 0;
    while y < height as usize
        invariant
            0 < width,
            0 <= y <= height,
            height == height as usize,
            required_len(width, height, bits_per_pixel, bytes_per_row) <= raw@.len() <= usize::MAX,
            samples(bits_per_pixel) is Some,
            stride == bytes_per_row,
            row == row_samples(width, bits_per_pixel),
            row > 0,
            out@.len() == y * row,
            height * row <= isize::MAX,
            forall|k: int|
                0 <= k < out@.len() ==> #[trigger] out@[k] == sample(
                    raw@,
                    bits_per_pixel,
                    bytes_per_row,
                    k / row as int,
                    k % row as int,
                ),
        decreases height - y,
    {
        let mut i: usize = 0;
        while i < row
            invariant
                0 < width,
                0 <= y < height,
                required_len(width, height, bits_per_pixel, bytes_per_row) <= raw@.len(),
                raw@.len() <= usize::MAX,
                samples(bits_per_pixel) is Some,
                stride == bytes_per_row,
                row == row_samples(width, bits_per_pixel),
                0 <= i <= row,
                out@.len() == y * row + i,
                forall|k: int|
                    0 <= k < out@.len() ==> #[trigger] out@[k] == sample(
                        raw@,
                        bits_per_pixel,
                        bytes_per_row,
                        k / row as int,
                        k % row as int,
                    ),
            decreases row - i,
        {
            proof {
                lemma_row_sizes(width, bits_per_pixel);
                lemma_row_of(y as int, row as int, i as int);
            }
            if bits_per_pixel == 1 {
                proof {
                    lemma_row_in_bounds(
                        y as int,
                        height as int,
                        stride as int,
                        i as int / 8,
                        min_row(width, bits_per_pixel),
                    );
                }
                let byte = raw[y * stride + i / 8];
                let shift = (7 - i % 8) as u8;
                out.push(
                    if (byte >> shift) & 1 == 1 {
                        0xFF
                    } else {
                        0x00
                    },
                );
            } else {
                proof {
                    lemma_row_in_bounds(
                        y as int,
                        height as int,
                        stride as int,
                        i as int,
                        min_row(width, bits_per_pixel),
                    );
                }
                out.push(raw[y * stride + i]);
            }
            i += 1;
        }
        y += 1;
        assert(y * row == (y - 1) * row + row) by (nonlinear_arith);
    }
    assert(out@ =~= normalized(raw@, width, height, bits_per_pixel, bytes_per_row));
    Ok(out)
}

/// Law: the pixels of a page whose buffer is accepted are exactly those of its
/// geometry, which has no empty side.
pub proof fn law_normalized_covers(
    raw: Seq<u8>,
    width: u32,
    height: u32,
    bits_per_pixel: u16,
    stride: u32,
)
    requires
        complaint(raw.len(), width, height, bits_per_pixel, stride) is None,
    ensures
        samples(bits_per_pixel) is Some,
        normalized(raw, width, height, bits_per_pixel, stride).len() == height * (width * samples(
            bits_per_pixel,
        ).unwrap()),
        normalized(raw, width, height, bits_per_pixel, stride).len() <= isize::MAX,
        1 <= width,
        1 <= height,
{
    let row = row_samples(width, bits_per_pixel);
    assert(height * row >= 0) by (nonlinear_arith)
        requires
            row >= 0,
    ;
}

/// Law: of a page of 8 bits per sample every sample of every row is kept, in its
/// place: the rows lie next to each other, without what padded them.
pub proof fn law_samples_are_kept(
    raw: Seq<u8>,
    width: u32,
    height: u32,
    bits_per_pixel: u16,
    stride: u32,
    y: int,
    i: int,
)
    requires
        bits_per_pixel == 8 || bits_per_pixel == 24 || bits_per_pixel == 32,
        0 <= y < height,
        0 <= i < width * (bits_per_pixel as int / 8),
    ensures
        ({
            let row = width * (bits_per_pixel as int / 8);
            let out = normalized(raw, width, height, bits_per_pixel, stride);
            out.len() == height * row && 0 <= y * row + i < out.len() && out[y * row + i] == raw[y
                * stride + i]
        }),
{
    let row = width * (bits_per_pixel as int / 8);
    lemma_row_sizes(width, bits_per_pixel);
    lemma_row_of(y, row, i);
    lemma_row_in_bounds(y, height as int, row, i, row);
    assert(row * (height - 1) + row == height * row) by (nonlinear_arith);
    assert(height * row >= 0) by (nonlinear_arith)
        requires
            row >= 0,
    ;
}

/// Law: of a black-and-white page every pixel becomes one sample: white where its
/// bit is set, the first pixel of a byte being its highest bit, and black where not.
pub proof fn law_bits_become_samples(
    raw: Seq<u8>,
    width: u32,
    height: u32,
    stride: u32,
    y: int,
    x: int,
)
    requires
        0 <= y < height,
        0 <= x < width,
    ensures
        ({
            let out = normalized(raw, width, height, 1, stride);
            let byte = raw[y * stride + x / 8];
            out.len() == height * width && 0 <= y * width + x < out.len() && out[y * width + x] == (
            if (byte >> ((7 - x % 8) as u8)) & 1 == 1 {
                0xFFu8
            } else {
                0x00u8
            })
        }),
{
    lemma_row_sizes(width, 1);
    lemma_row_of(y, width as int, x);
    lemma_row_in_bounds(y, height as int, width as int, x, width as int);
    assert(width * (height - 1) + width == height * width) by (nonlinear_arith);
    assert(height * width >= 0) by (nonlinear_arith);
}

/// Law: a buffer is turned down exactly where the image has an empty side, a depth
/// other than 1, 8, 24 or 32 bits, rows that do not fit their stride, or more pixels
/// than the buffer holds or memory could.
#[verifier::rlimit(50)]
pub proof fn law_buffers_are_accepted(
    len: nat,
    width: u32,
    height: u32,
    bits_per_pixel: u16,
    stride: u32,
)
    requires
        len <= usize::MAX,
    ensures
        complaint(len, width, height, bits_per_pixel, stride) is None <==> {
            &&& width > 0 && height > 0
            &&& bits_per_pixel == 1 || bits_per_pixel == 8 || bits_per_pixel == 24
                || bits_per_pixel == 32
            &&& width * bits_per_pixel <= 8 * stride
            &&& 8 * (stride * (height - 1)) + width * bits_per_pixel <= 8 * len
            &&& height * (if bits_per_pixel == 24 {
                width * 3
            } else if bits_per_pixel == 32 {
                width * 4
            } else {
                width as int
            }) <= isize::MAX
        },
{
    lemma_row_sizes(width, bits_per_pixel);
}

/// Law: a buffer that is turned down is told why, with the numbers that are wrong: what
/// is missing of a row is counted in whole bytes, and a buffer has to hold every row in
/// its stride but the last, of which the pixels are enough.
#[verifier::rlimit(50)]
pub proof fn law_complaints_say_what_is_wrong(
    len: nat,
    width: u32,
    height: u32,
    bits_per_pixel: u16,
    stride: u32,
)
    ensures
        ({
            let words = complaint(len, width, height, bits_per_pixel, stride);
            let row = (width * bits_per_pixel + 7) / 8;
            let need = (height - 1) * stride + row;
            let supported = bits_per_pixel == 1 || bits_per_pixel == 8 || bits_per_pixel == 24
                || bits_per_pixel == 32;
            let sided = width > 0 && height > 0;
            &&& !sided ==> words == Some(
                "Empty image geometry: "@ + decimal(width as nat) + "x"@ + decimal(height as nat),
            )
            &&& sided && !supported ==> words == Some(
                "Unsupported bit depth: "@ + decimal(bits_per_pixel as nat),
            )
            &&& sided && supported && stride < row ==> words == Some(
                "BytesPerRow "@ + decimal(stride as nat) + " is smaller than a "@ + decimal(
                    bits_per_pixel as nat,
                ) + "bpp row of "@ + decimal(width as nat) + " pixels ("@ + decimal(row as nat)
                    + " bytes)"@,
            )
            &&& sided && supported && row <= stride && len < need <= usize::MAX ==> words == Some(
                "Truncated image buffer: got "@ + decimal(len) + " bytes, need "@ + decimal(
                    need as nat,
                ) + " for "@ + decimal(width as nat) + "x"@ + decimal(height as nat) + " at "@
                    + decimal(bits_per_pixel as nat) + "bpp"@,
            )
        }),
{
    let row = (width * bits_per_pixel + 7) / 8;
    assert(bits_per_pixel == 1 || bits_per_pixel == 8 || bits_per_pixel == 24 || bits_per_pixel
        == 32 ==> row == min_row(width, bits_per_pixel)) by {
        lemma_row_sizes(width, bits_per_pixel);
        assert(width * 1 == width && width * 8 == 8 * width && width * 24 == 24 * width && width
            * 32 == 32 * width) by (nonlinear_arith);
    }
    assert(stride * (height - 1) == (height - 1) * stride) by (nonlinear_arith);
}

/// Law: an error of a conversion carries its words and no others.
pub proof fn law_conversion_errors_carry_their_words(e: ScanError, words: Seq<char>)
    ensures
        is_conversion_error(e, words) <==> (e matches ScanError::ImageConversion(m) && m@
            == words),
{
}

} // verus!
