//! Colour images that a label carries as base64 text.

use vstd::prelude::*;
use crate::error::{ZplError, ZplErrorView, ZplResult};
use crate::raster::{decoded_view, is_decoding, load_image, DecodedImage};
use crate::text::{chars_of, push_str, trimmed, trimmed_string};

verus! {

/// A decoded colour image: three bytes per pixel, red, green and blue, row by row.
pub struct RgbImageData {
    /// Pixels per row.
    pub width: u32,
    /// Number of rows.
    pub height: u32,
    /// The colour values.
    pub pixels: Vec<u8>,
}

impl RgbImageData {
    /// There are exactly three colour values for each pixel.
    pub open spec fn wf(&self) -> bool {
        self.pixels@.len() == self.width as nat * self.height as nat * 3
    }
}

/// The bytes that the standard base64 alphabet with padding decodes the text to, as the
/// `base64` crate does it, or the text of the decoder's error.
pub uninterp spec fn base64_decoded(text: Seq<char>) -> Result<Seq<u8>, Seq<char>>;

/// The value of decoded bytes or an error text.
pub open spec fn bytes_view(r: Result<Vec<u8>, String>) -> Result<Seq<u8>, Seq<char>> {
    match r {
        Ok(bytes) => Ok(bytes@),
        Err(text) => Err(text@),
    }
}

/// Decodes base64 text with `base64::engine::general_purpose::STANDARD.decode`. The
/// contract claims that the outcome depends on the text alone. On failure the text is
/// the decoder's own description of its error.
#[verifier::external_body]
fn decode_base64(text: &str) -> (r: Result<Vec<u8>, String>)
    ensures
        bytes_view(r) == base64_decoded(text@),
{
    match base64::Engine::decode(&base64::engine::general_purpose::STANDARD, text) {
        Ok(bytes) => Ok(bytes),
        Err(e) => Err(e.to_string()),
    }
}

/// What becomes of the outcome of decoding the image bytes: the colour image, or an
/// image error that carries the decoder's text.
pub open spec fn loaded_outcome(decoded: Result<(u32, u32, Seq<u8>, Seq<u8>), Seq<char>>) -> Result<
    (u32, u32, Seq<u8>),
    ZplErrorView,
> {
    match decoded {
        Ok((width, height, _, rgb)) => Ok((width, height, rgb)),
        Err(text) => Err(ZplErrorView::ImageError("Failed to load image: "@ + text)),
    }
}

/// What becomes of the payload of a colour image: an image error where the trimmed
/// payload is no base64 text, else what becomes of `decoded`, the outcome of decoding
/// the bytes.
pub open spec fn custom_image_outcome(payload: Seq<char>, decoded: Result<DecodedImage, String>) -> Result<
    (u32, u32, Seq<u8>),
    ZplErrorView,
> {
    match base64_decoded(trimmed(payload)) {
        Err(text) => Err(ZplErrorView::ImageError("Failed to decode base64: "@ + text)),
        Ok(_) => loaded_outcome(decoded_view(decoded)),
    }
}

/// The value of a decoded image or an error.
pub open spec fn image_view(r: ZplResult<RgbImageData>) -> Result<(u32, u32, Seq<u8>), ZplErrorView> {
    match r {
        Ok(img) => Ok((img.width, img.height, img.pixels@)),
        Err(e) => Err(e@),
    }
}

/// An image error whose message is `head` followed by `tail`.
fn image_error(head: &str, tail: &str) -> (e: ZplError)
    ensures
        e@ == ZplErrorView::ImageError(head@ + tail@),
{
    let mut message = String::new();
    push_str(&mut message, head);
    push_str(&mut message, tail);
    ZplError::ImageError(message)
}

/// Turns the outcome of decoding the image bytes into the colour image or an image error.
pub fn loaded_image(decoded: Result<DecodedImage, String>) -> (r: ZplResult<RgbImageData>)
    requires
        is_decoding(decoded),
    ensures
        r matches Ok(img) ==> img.wf(),
        image_view(r) == loaded_outcome(decoded_view(decoded)),
{
    match decoded {
        Ok(img) => Ok(RgbImageData { width: img.width, height: img.height, pixels: img.rgb }),
        Err(text) => Err(image_error("Failed to load image: ", text.as_str())),
    }
}

/// Decodes the payload of a colour image: base64 text, trimmed, of an encoded image.
///
/// Fails with an image error where the payload is no base64 text, and where the image
/// decoder fails. Whatever the image decoder makes of the bytes, the result is what
/// [`custom_image_outcome`] says of it.
pub fn decode_custom_image(data: &str) -> (r: ZplResult<RgbImageData>)
    ensures
        exists|d: Result<DecodedImage, String>| #[trigger]
            is_decoding(d) && image_view(r) == custom_image_outcome(data@, d),
        r matches Ok(img) ==> img.wf(),
{
    let chars = chars_of(data);
    let text = trimmed_string(chars.as_slice(), 0, chars.len());
    match decode_base64(text.as_str()) {
        Ok(bytes) => {
            let decoded = load_image(bytes.as_slice());
            let ghost d = decoded;
            let r = loaded_image(decoded);
            assert(is_decoding(d) && image_view(r) == custom_image_outcome(data@, d));
            r
        },
        Err(text) => {
            let r = Err(image_error("Failed to decode base64: ", text.as_str()));
            let ghost d = Err::<DecodedImage, String>(text);
            assert(is_decoding(d) && image_view(r) == custom_image_outcome(data@, d));
            r
        },
    }
}

} // verus!
