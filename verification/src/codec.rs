use vstd::prelude::*;
use crate::raster::{Image, ImageView};

verus! {

/// The PNG encoding of a well-formed RGBA image, as the `image` crate's PNG
/// encoder produces it. Named rather than spelled out: the byte stream is a
/// function of the dimensions and samples alone.
pub uninterp spec fn png_bytes_of(m: ImageView) -> Seq<u8>;

/// What the `image` crate makes of a byte stream, converted to 8-bit RGBA:
/// the decoded image, or nothing when the bytes do not decode. A function of
/// the bytes alone.
pub uninterp spec fn png_image_of(bytes: Seq<u8>) -> Option<ImageView>;

/// The codec accepts images only up to this many pixels (a quarter gibibyte
/// of RGBA samples): the decoder refuses far larger allocations, and staying
/// well under its limit is part of what makes decoding an encoding certain.
pub const MAX_PIXEL_COUNT: u64 = 64 * 1024 * 1024;

/// Relies on `image::RgbaImage::from_raw` and `image::DynamicImage::write_to`
/// with `ImageFormat::Png`: a buffer of exactly `4 * width * height` bytes
/// with positive dimensions encodes as PNG without error, and since PNG
/// stores 8-bit RGBA losslessly and the image stays under the decoder's
/// allocation limit, decoding the produced bytes yields the same image again.
#[verifier::external_body]
pub(crate) fn encode_png(img: &Image) -> (r: Vec<u8>)
    requires
        img@.wf(),
        img@.width > 0,
        img@.height > 0,
        img@.width * img@.height <= MAX_PIXEL_COUNT,
    ensures
        r@ == png_bytes_of(img@),
        png_image_of(r@) == Some(img@),
{
    let buffer = image::RgbaImage::from_raw(img.width, img.height, img.pixels.clone())
        .expect("buffer length matches the dimensions");
    let mut bytes: Vec<u8> = Vec::new();
    image::DynamicImage::ImageRgba8(buffer)
        .write_to(&mut std::io::Cursor::new(&mut bytes), image::ImageFormat::Png)
        .expect("in-memory PNG encoding of a non-empty RGBA image does not fail");
    bytes
}

/// Relies on `image::load_from_memory` and `image::DynamicImage::to_rgba8`:
/// decoding either fails or yields an image whose raw RGBA buffer holds
/// exactly four bytes per pixel of its reported dimensions.
#[verifier::external_body]
pub(crate) fn decode_png(bytes: &Vec<u8>) -> (r: Option<Image>)
    ensures
        match r {
            Some(img) => png_image_of(bytes@) == Some(img@) && img@.wf(),
            None => png_image_of(bytes@) is None,
        },
{
    match image::load_from_memory(bytes.as_slice()) {
        Ok(decoded) => {
            let rgba = decoded.to_rgba8();
            let width = rgba.width();
            let height = rgba.height();
            let pixels = rgba.into_raw();
            Some(Image { width, height, pixels })
        },
        Err(_) => None,
    }
}

} // verus!
