//! Image files, decoded by the `image` crate into the two forms that labels need:
//! brightness for bitmaps of one bit per pixel, and colour for colour images.

use vstd::prelude::*;

verus! {

/// A decoded image, row by row, as brightness and as colour.
pub struct DecodedImage {
    /// Pixels per row.
    pub width: u32,
    /// Number of rows.
    pub height: u32,
    /// The brightness of each pixel, 0 for black to 255 for white.
    pub luma: Vec<u8>,
    /// The colour of each pixel: red, green and blue.
    pub rgb: Vec<u8>,
}

impl DecodedImage {
    /// There is one brightness value and there are three colour values for each pixel.
    pub open spec fn wf(&self) -> bool {
        &&& self.luma@.len() == self.width as nat * self.height as nat
        &&& self.rgb@.len() == self.width as nat * self.height as nat * 3
    }
}

/// The value of a decoded image or an error text.
pub open spec fn decoded_view(r: Result<DecodedImage, String>) -> Result<
    (u32, u32, Seq<u8>, Seq<u8>),
    Seq<char>,
> {
    match r {
        Ok(img) => Ok((img.width, img.height, img.luma@, img.rgb@)),
        Err(text) => Err(text@),
    }
}

/// What holds of every outcome of decoding an image: a decoded image is well formed.
/// Which outcome it is lies with the decoder, which a process can extend with decoders
/// of its own.
pub open spec fn is_decoding(d: Result<DecodedImage, String>) -> bool {
    d matches Ok(img) ==> img.wf()
}

/// Decodes an encoded image (PNG, JPEG and the like) with `image::load_from_memory`,
/// which guesses the format from the bytes, and reads its pixels through
/// `DynamicImage::to_luma8` and `DynamicImage::to_rgb8`. The contract claims only that
/// a decoded image has one brightness value and three colour values per pixel. On
/// failure the text is the decoder's own description of its error.
#[verifier::external_body]
pub(crate) fn load_image(bytes: &[u8]) -> (r: Result<DecodedImage, String>)
    ensures
        is_decoding(r),
{
    match image::load_from_memory(bytes) {
        Ok(img) => {
            let (luma, rgb) = (img.to_luma8(), img.to_rgb8());
            let (width, height) = (rgb.width(), rgb.height());
            let luma = luma.pixels().map(|q| q.0[0]).collect();
            Ok(DecodedImage { width, height, luma, rgb: rgb.pixels().flat_map(|q| q.0).collect() })
        },
        Err(e) => Err(e.to_string()),
    }
}

} // verus!
