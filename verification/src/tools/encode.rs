//! The encoder of the run-length bitmap codec: from an image to compressed text.
//!
//! An image is reduced to one bit per pixel, the bits are packed into rows of whole bytes,
//! the bytes are written as uppercase hexadecimal digits, and runs of equal digits are
//! shortened with repeat markers.

use vstd::prelude::*;
use crate::error::{ZplError, ZplErrorView, ZplResult};
use crate::raster::{decoded_view, is_decoding, load_image, DecodedImage};
use crate::text::{chars_of, push_str};

verus! {

/// The longest run of equal digits that is written as one digit with markers.
pub const MAX_RUN: usize = 400;

/// A decoded image, reduced to one brightness value per pixel, row by row.
pub struct LumaImage {
    /// Pixels per row.
    pub width: u32,
    /// Number of rows.
    pub height: u32,
    /// The brightness of each pixel, 0 for black to 255 for white.
    pub pixels: Vec<u8>,
}

impl LumaImage {
    /// There is exactly one brightness value for each pixel.
    pub open spec fn wf(&self) -> bool {
        self.pixels@.len() == self.width as nat * self.height as nat
    }
}

/// The uppercase hexadecimal digit of a value below 16.
pub open spec fn upper_digit(v: u8) -> char
    recommends
        v < 16,
{
    if v < 10 {
        ('0' as u8 + v) as char
    } else {
        ('A' as u8 + (v - 10)) as char
    }
}

/// The bytes written as uppercase hexadecimal digits, two per byte, high nibble first.
pub open spec fn hex_text(bytes: Seq<u8>) -> Seq<char> {
    Seq::new(
        2 * bytes.len(),
        |i: int|
            if i % 2 == 0 {
                upper_digit(bytes[i / 2] / 16)
            } else {
                upper_digit(bytes[i / 2] % 16)
            },
    )
}

/// Writes bytes as uppercase hexadecimal digits with `hex::encode_upper`: each byte becomes
/// two digits, the high nibble first, taken from `0123456789ABCDEF`.
#[verifier::external_body]
fn hex_upper(bytes: &Vec<u8>) -> (s: String)
    ensures
        s@ == hex_text(bytes@),
{
    hex::encode_upper(bytes)
}

/// The number of bytes that hold one row of `width` pixels.
pub open spec fn row_bytes(width: nat) -> nat {
    (width + 7) / 8
}

/// A pixel prints black when it is darker than middle grey.
pub open spec fn is_dark(luma: u8) -> bool {
    luma < 128
}

/// The value of bit `k` of a byte, counted from the most significant bit.
pub open spec fn bit_weight(k: nat) -> nat
    recommends
        k < 8,
{
    if k == 0 {
        128
    } else if k == 1 {
        64
    } else if k == 2 {
        32
    } else if k == 3 {
        16
    } else if k == 4 {
        8
    } else if k == 5 {
        4
    } else if k == 6 {
        2
    } else {
        1
    }
}

/// Whether the pixel in column `x` of row `y` exists and is dark.
pub open spec fn pixel_set(pixels: Seq<u8>, width: nat, y: nat, x: nat) -> bool {
    x < width && is_dark(pixels[(y * width + x) as int])
}

/// The sum of the first `bits` bits of byte `index` in row `y`: bit `k` stands for the
/// pixel in column `8 * index + k`, the most significant bit for the leftmost pixel.
pub open spec fn packed_bits(pixels: Seq<u8>, width: nat, y: nat, index: nat, bits: nat) -> nat
    decreases bits,
{
    if bits == 0 {
        0
    } else {
        let k = (bits - 1) as nat;
        packed_bits(pixels, width, y, index, k) + if pixel_set(pixels, width, y, index * 8 + k) {
            bit_weight(k)
        } else {
            0
        }
    }
}

/// The one-bit-per-pixel bitmap of an image: rows of `row_bytes(width)` bytes, a set bit
/// for each dark pixel, and zero bits after the last pixel of a row.
pub open spec fn bitmap_of(width: nat, height: nat, pixels: Seq<u8>) -> Seq<u8> {
    Seq::new(
        row_bytes(width) * height,
        |i: int|
            packed_bits(
                pixels,
                width,
                (i / row_bytes(width) as int) as nat,
                (i % row_bytes(width) as int) as nat,
                8,
            ) as u8,
    )
}

/// The length of the run of equal characters that starts at `i`, given that `count`
/// characters of it are known already; a run ends after `MAX_RUN` characters.
pub open spec fn run_length(text: Seq<char>, i: int, count: nat) -> nat
    decreases text.len() - i - count,
{
    if 0 <= i && i + count < text.len() && text[i + count] == text[i] && count < MAX_RUN {
        run_length(text, i, count + 1)
    } else {
        count
    }
}

/// The marker `g..z` for `factor` times twenty.
pub open spec fn score_marker(factor: nat) -> char
    recommends
        1 <= factor <= 20,
{
    ('g' as u8 + (factor - 1)) as char
}

/// The marker `G..Y` for `units`.
pub open spec fn unit_marker(units: nat) -> char
    recommends
        1 <= units <= 19,
{
    ('G' as u8 + (units - 1)) as char
}

/// The markers in front of the digit of a run: none for a single digit, else one marker
/// for the twenties, if any, followed by one for the units, if any.
pub open spec fn run_markers(count: nat) -> Seq<char>
    recommends
        1 <= count <= MAX_RUN,
{
    if count <= 1 {
        Seq::empty()
    } else {
        let scores = if count >= 20 {
            seq![score_marker(count / 20)]
        } else {
            Seq::empty()
        };
        let units = if count % 20 > 0 {
            seq![unit_marker(count % 20)]
        } else {
            Seq::empty()
        };
        scores + units
    }
}

/// The compressed form of `text[i..]`.
pub open spec fn compress_from(text: Seq<char>, i: int) -> Seq<char>
    decreases text.len() - i,
{
    if 0 <= i < text.len() {
        let count = run_length(text, i, 1);
        let rest = if count >= 1 && i + count <= text.len() {
            compress_from(text, i + count)
        } else {
            Seq::empty()
        };
        run_markers(count) + seq![text[i]] + rest
    } else {
        Seq::empty()
    }
}

/// The compressed form of a text: each maximal run of equal characters becomes its
/// markers followed by the character once.
pub open spec fn compress(text: Seq<char>) -> Seq<char> {
    compress_from(text, 0)
}

/// The compressed text of a bitmap.
pub open spec fn encode(bitmap: Seq<u8>) -> Seq<char> {
    compress(hex_text(bitmap))
}

/// A run is never empty, never longer than `MAX_RUN`, and stays inside the text.
pub proof fn lemma_run_length_bounds(text: Seq<char>, i: int, count: nat)
    requires
        0 <= i,
        1 <= count <= MAX_RUN,
        i + count <= text.len(),
    ensures
        count <= run_length(text, i, count) <= MAX_RUN,
        i + run_length(text, i, count) <= text.len(),
    decreases text.len() - i - count,
{
    if i + count < text.len() && text[i + count] == text[i] && count < MAX_RUN {
        lemma_run_length_bounds(text, i, count + 1);
    }
}

/// Packs the pixels of one byte of a row.
fn pack_byte(img: &LumaImage, y: usize, index: usize) -> (byte: u8)
    requires
        img.wf(),
        y < img.height,
        index < row_bytes(img.width as nat),
    ensures
        byte == packed_bits(img.pixels@, img.width as nat, y as nat, index as nat, 8),
{
    let width = img.width as usize;
    let ghost pixels = img.pixels@;
    let total = img.pixels.len();
    assert(y * width + width <= total) by (nonlinear_arith)
        requires
            y < img.height,
            width == img.width,
            total == img.width as nat * img.height as nat,
    ;
    let row_start = y * width;
    let first = index * 8;
    let mut byte: u8 = 0;
    let mut k: usize = 0;
    while k < 8
        invariant
            k <= 8,
            width == img.width,
            pixels == img.pixels@,
            row_start == y * width,
            row_start + width <= total,
            total == pixels.len(),
            first == index * 8,
            first < width,
            byte == packed_bits(pixels, width as nat, y as nat, index as nat, k as nat),
            byte as nat + 2 * bit_weight(k as nat) <= 256 || k == 8,
        decreases 8 - k,
    {
        let x = first + k;
        let weight: u8 = if k == 0 {
            128
        } else if k == 1 {
            64
        } else if k == 2 {
            32
        } else if k == 3 {
            16
        } else if k == 4 {
            8
        } else if k == 5 {
            4
        } else if k == 6 {
            2
        } else {
            1
        };
        if x < width && img.pixels[row_start + x] < 128 {
            byte = byte + weight;
        }
        k += 1;
    }
    byte
}

/// The bitmap of an image, with the number of bytes in each of its rows.
pub fn pack_bitmap(img: &LumaImage) -> (r: (Vec<u8>, usize))
    requires
        img.wf(),
    ensures
        r.0@ == bitmap_of(img.width as nat, img.height as nat, img.pixels@),
        r.1 == row_bytes(img.width as nat),
{
    let width = img.width as usize;
    let height = img.height as usize;
    let bytes_per_row = if width % 8 == 0 {
        width / 8
    } else {
        width / 8 + 1
    };
    let ghost bitmap = bitmap_of(img.width as nat, img.height as nat, img.pixels@);
    let total = img.pixels.len();
    assert(bytes_per_row * height <= total) by (nonlinear_arith)
        requires
            bytes_per_row <= width,
            total == width * height,
    ;
    let mut out: Vec<u8> = Vec::new();
    let mut y: usize = 0;
    while y < height
        invariant
            img.wf(),
            width == img.width,
            height == img.height,
            bytes_per_row == row_bytes(width as nat),
            bytes_per_row * height <= usize::MAX,
            bitmap == bitmap_of(img.width as nat, img.height as nat, img.pixels@),
            y <= height,
            out@.len() == y * bytes_per_row,
            out@ == bitmap.subrange(0, y * bytes_per_row),
        decreases height - y,
    {
        let mut index: usize = 0;
        assert((y + 1) * bytes_per_row <= bytes_per_row * height) by (nonlinear_arith)
            requires
                y < height,
        ;
        while index < bytes_per_row
            invariant
                img.wf(),
                width == img.width,
                height == img.height,
                bytes_per_row == row_bytes(width as nat),
                bitmap == bitmap_of(img.width as nat, img.height as nat, img.pixels@),
                y < height,
                index <= bytes_per_row,
                (y + 1) * bytes_per_row <= bytes_per_row * height,
                out@.len() == y * bytes_per_row + index,
                out@ == bitmap.subrange(0, y * bytes_per_row + index),
            decreases bytes_per_row - index,
        {
            let byte = pack_byte(img, y, index);
            let ghost i = (y * bytes_per_row + index) as int;
            assert(i / bytes_per_row as int == y && i % bytes_per_row as int == index) by {
                vstd::arithmetic::div_mod::lemma_fundamental_div_mod_converse(
                    i,
                    bytes_per_row as int,
                    y as int,
                    index as int,
                );
            }
            assert(i < bytes_per_row * height) by (nonlinear_arith)
                requires
                    i == y * bytes_per_row + index,
                    index < bytes_per_row,
                    (y + 1) * bytes_per_row <= bytes_per_row * height,
            ;
            out.push(byte);
            index += 1;
        }
        assert((y + 1) * bytes_per_row == y * bytes_per_row + bytes_per_row) by (nonlinear_arith);
        y += 1;
    }
    assert(height * bytes_per_row == bytes_per_row * height) by (nonlinear_arith);
    (out, bytes_per_row)
}

/// Shortens runs of equal characters with repeat markers.
pub fn compress_runs(chars: &Vec<char>) -> (encoded: String)
    ensures
        encoded@ == compress(chars@),
{
    let mut encoded = String::new();
    let ghost text = chars@;
    let mut i: usize = 0;
    while i < chars.len()
        invariant
            i <= chars.len(),
            text == chars@,
            encoded@ + compress_from(text, i as int) == compress(text),
        decreases chars.len() - i,
    {
        let mut count: usize = 1;
        while i + count < chars.len() && chars[i + count] == chars[i] && count < MAX_RUN
            invariant
                text == chars@,
                i < chars.len(),
                1 <= count <= MAX_RUN,
                i + count <= chars.len(),
                run_length(text, i as int, count as nat) == run_length(text, i as int, 1),
            decreases chars.len() - i - count,
        {
            count += 1;
        }
        if count > 1 {
            let mut remaining = count;
            if remaining >= 20 {
                let factor = remaining / 20;
                encoded.push((103u8 + (factor as u8 - 1)) as char);
                remaining = remaining - factor * 20;
            }
            if remaining > 0 {
                encoded.push((71u8 + (remaining as u8 - 1)) as char);
            }
        }
        encoded.push(chars[i]);
        i += count;
    }
    encoded
}

/// What [`encode_luma`] returns for an image: the compressed text of its bitmap, the number
/// of bytes in the bitmap, and the number of bytes in each row.
pub open spec fn encoded_image(width: u32, height: u32, pixels: Seq<u8>) -> (Seq<char>, nat, nat) {
    (
        encode(bitmap_of(width as nat, height as nat, pixels)),
        row_bytes(width as nat) * height as nat,
        row_bytes(width as nat),
    )
}

/// Encodes a decoded image as the payload of a raw-graphic command.
///
/// Returns the compressed text, the total number of bitmap bytes and the bytes per row.
pub fn encode_luma(img: &LumaImage) -> (r: (String, usize, usize))
    requires
        img.wf(),
    ensures
        (r.0@, r.1 as nat, r.2 as nat) == encoded_image(img.width, img.height, img.pixels@),
{
    let (bitmap, bytes_per_row) = pack_bitmap(img);
    let total_bytes = bitmap.len();
    let hex = hex_upper(&bitmap);
    let chars = chars_of(hex.as_str());
    let encoded = compress_runs(&chars);
    (encoded, total_bytes, bytes_per_row)
}

/// What [`zpl_encode`] returns for each outcome of decoding the image.
pub open spec fn encode_outcome(decoded: Result<(u32, u32, Seq<u8>, Seq<u8>), Seq<char>>) -> Result<
    (Seq<char>, nat, nat),
    ZplErrorView,
> {
    match decoded {
        Ok((width, height, luma, _)) => Ok(encoded_image(width, height, luma)),
        Err(text) => Err(ZplErrorView::ImageError("Failed to load image from bytes: "@ + text)),
    }
}

/// The result of [`zpl_encode`] as a mathematical value.
pub open spec fn encode_result_view(r: ZplResult<(String, usize, usize)>) -> Result<
    (Seq<char>, nat, nat),
    ZplErrorView,
> {
    match r {
        Ok((text, total, per_row)) => Ok((text@, total as nat, per_row as nat)),
        Err(e) => Err(e@),
    }
}

/// Turns the outcome of decoding an image into the payload of a raw-graphic command, or
/// into an image error that carries the decoder's text.
pub fn encode_decoded(decoded: Result<DecodedImage, String>) -> (r: ZplResult<(String, usize, usize)>)
    requires
        is_decoding(decoded),
    ensures
        encode_result_view(r) == encode_outcome(decoded_view(decoded)),
{
    match decoded {
        Ok(img) => {
            let luma = LumaImage { width: img.width, height: img.height, pixels: img.luma };
            Ok(encode_luma(&luma))
        },
        Err(text) => {
            let mut message = String::new();
            push_str(&mut message, "Failed to load image from bytes: ");
            push_str(&mut message, text.as_str());
            Err(ZplError::ImageError(message))
        },
    }
}

/// Encodes an image file (PNG, JPEG and the like) as the payload of a raw-graphic command.
///
/// The image is decoded, reduced to one bit per pixel (dark pixels print), written as
/// uppercase hexadecimal digits and run-length compressed. Returns the compressed text, the
/// total number of bitmap bytes and the bytes per row. Fails with an image error exactly
/// when the decoder fails. Whatever the decoder makes of the bytes, the result is what
/// [`encode_outcome`] says of it.
pub fn zpl_encode(image_bytes: &[u8]) -> (r: ZplResult<(String, usize, usize)>)
    ensures
        exists|d: Result<DecodedImage, String>| #[trigger]
            is_decoding(d) && encode_result_view(r) == encode_outcome(decoded_view(d)),
{
    let decoded = load_image(image_bytes);
    let ghost d = decoded;
    let r = encode_decoded(decoded);
    assert(is_decoding(d) && encode_result_view(r) == encode_outcome(decoded_view(d)));
    r
}

} // verus!
