//! The calls into the `image`, `imageproc` and `base64` crates. Nothing in
//! this file is proved: each contract states what the outside function does,
//! as its source shows it, and the rest of the engine is verified against
//! these contracts.

use crate::engine::image_filters::edge::sobel_magnitude;
use crate::engine::image_filters::ColorRgba;
use crate::engine::image_processing::{brightened, grayscaled, inverted, keeps_alpha};
use crate::engine::pixel_buffer::{PixelBuffer, Raster};
use vstd::prelude::*;

verus! {

/// The error of the `image` crate's decoders and encoders.
#[verifier::external_type_specification]
#[verifier::external_body]
pub struct ExImageError(image::ImageError);

/// The error of the `base64` crate's decoder.
#[verifier::external_type_specification]
#[verifier::external_body]
pub struct ExDecodeError(base64::DecodeError);

/// The image that `image::load_from_memory` reads from the given bytes, turned
/// into eight-bit RGBA; `None` where it rejects them.
pub uninterp spec fn decoded_image(bytes: Seq<u8>) -> Option<Raster>;

/// Calls `image::load_from_memory`, which guesses the format and decodes, and
/// `DynamicImage::to_rgba8`, which converts every pixel to eight-bit RGBA into
/// a buffer of exactly four bytes for each pixel.
#[verifier::external_body]
pub(crate) fn decode_image(bytes: &Vec<u8>) -> (decoded: Result<PixelBuffer, image::ImageError>)
    ensures
        (match decoded {
            Ok(buffer) => buffer.wf() && decoded_image(bytes@) == Some(buffer@),
            Err(_) => decoded_image(bytes@) is None,
        }),
{
    let image = image::load_from_memory(bytes.as_slice())?.to_rgba8();
    Ok(PixelBuffer { width: image.width(), height: image.height(), data: image.into_raw() })
}

/// The PNG file that `DynamicImage::write_to` writes for the given image, if
/// the image has a pixel.
pub uninterp spec fn png_encoded(image: Raster) -> Seq<u8>;

/// Calls `DynamicImage::write_to` with the PNG format on an eight-bit RGBA
/// image over the buffer's bytes, writing into a vector. The encoder panics
/// unless it is handed four bytes for each pixel. It refuses an image of
/// width 0 or height 0; its other errors are those of an indexed or animated
/// image, of a color type that PNG lacks, and of the writer, and a vector
/// takes every write.
#[verifier::external_body]
pub(crate) fn encode_png(buffer: &PixelBuffer) -> (encoded: Result<Vec<u8>, image::ImageError>)
    requires
        buffer.wf(),
    ensures
        (match encoded {
            Ok(bytes) => !buffer@.is_empty() && bytes@ == png_encoded(buffer@),
            Err(_) => buffer@.is_empty(),
        }),
{
    let pixels = image::RgbaImage::from_raw(buffer.width, buffer.height, buffer.data.clone());
    let image = image::DynamicImage::ImageRgba8(pixels.unwrap());
    let mut bytes = Vec::new();
    image.write_to(&mut std::io::Cursor::new(&mut bytes), image::ImageOutputFormat::Png)?;
    Ok(bytes)
}

/// The color that `Pixel::blend` of `image::Rgba<u8>` leaves in a pixel of
/// color `bottom` when it blends `top` onto it: source-over compositing,
/// computed in single precision.
pub uninterp spec fn blended(bottom: ColorRgba, top: ColorRgba) -> ColorRgba;

/// Calls `image::imageops::overlay` with the offset `(0, 0)`, which blends
/// each pixel of `top` onto the pixel of `bottom` at the same place with
/// `Pixel::blend`. That function starts with two tests: it leaves the pixel as
/// it is where the alpha of `top` is 0, and replaces it by the pixel of `top`
/// where that alpha is 255.
#[verifier::external_body]
pub(crate) fn overlay(bottom: &mut PixelBuffer, top: &PixelBuffer)
    requires
        old(bottom).wf(),
        top.wf(),
        top@.same_size(old(bottom)@),
    ensures
        final(bottom).wf(),
        final(bottom)@.same_size(old(bottom)@),
        forall|i: int|
            0 <= i < old(bottom)@.pixels.len() ==> ({
                let under = old(bottom)@.pixels[i];
                let over = top@.pixels[i];
                let left = #[trigger] final(bottom)@.pixels[i];
                &&& left == blended(under, over)
                &&& over.alpha == 0 ==> left == under
                &&& over.alpha == 255 ==> left == over
            }),
{
    let (width, height) = (bottom.width, bottom.height);
    let mut under = image::RgbaImage::from_raw(width, height, std::mem::take(&mut bottom.data));
    let over = image::ImageBuffer::<image::Rgba<u8>, &[u8]>::from_raw(
        top.width,
        top.height,
        top.data.as_slice(),
    );
    image::imageops::overlay(under.as_mut().unwrap(), &over.unwrap(), 0, 0);
    bottom.data = under.unwrap().into_raw();
}

/// Calls `image::imageops::colorops::brighten`, which adds `value` to the red,
/// green and blue of every pixel, clamps each sum to 0..=255 and keeps alpha.
/// It adds in `i32`, so `value` must leave room for a channel of 255; and it
/// walks the image with `GenericImageView::pixels`, which panics on an image
/// of width 0 and several rows.
#[verifier::external_body]
pub(crate) fn brighten(buffer: &PixelBuffer, value: i32) -> (brighter: PixelBuffer)
    requires
        buffer.wf(),
        !buffer@.is_empty(),
        value <= i32::MAX - 255,
    ensures
        brighter.wf(),
        brighter@ == brightened(buffer@, value as int),
{
    let image = image::ImageBuffer::<image::Rgba<u8>, &[u8]>::from_raw(
        buffer.width,
        buffer.height,
        buffer.data.as_slice(),
    );
    let out = image::imageops::colorops::brighten(&image.unwrap(), value);
    PixelBuffer { width: out.width(), height: out.height(), data: out.into_raw() }
}

/// Calls `image::imageops::colorops::huerotate`, which multiplies the red,
/// green and blue of every pixel by a matrix built from the sine and cosine of
/// the angle, and keeps alpha. Std leaves the precision of sine and cosine
/// open, so the contract states only what holds of every outcome.
#[verifier::external_body]
pub(crate) fn huerotate(buffer: &PixelBuffer, degrees: i32) -> (rotated: PixelBuffer)
    requires
        buffer.wf(),
    ensures
        rotated.wf(),
        keeps_alpha(buffer@, rotated@),
{
    let image = image::ImageBuffer::<image::Rgba<u8>, &[u8]>::from_raw(
        buffer.width,
        buffer.height,
        buffer.data.as_slice(),
    );
    let out = image::imageops::colorops::huerotate(&image.unwrap(), degrees);
    PixelBuffer { width: out.width(), height: out.height(), data: out.into_raw() }
}

/// Calls `image::imageops::colorops::grayscale_alpha`, which replaces the red,
/// green and blue of every pixel by their luminance
/// `(2126 * red + 7152 * green + 722 * blue) / 10000` and keeps alpha; the
/// result is turned back into RGBA, each of red, green and blue being the
/// luminance. It walks the image with `GenericImageView::pixels`, which panics
/// on an image of width 0 and several rows.
#[verifier::external_body]
pub(crate) fn grayscale(buffer: &PixelBuffer) -> (gray: PixelBuffer)
    requires
        buffer.wf(),
        !buffer@.is_empty(),
    ensures
        gray.wf(),
        gray@ == grayscaled(buffer@),
{
    let image = image::ImageBuffer::<image::Rgba<u8>, &[u8]>::from_raw(
        buffer.width,
        buffer.height,
        buffer.data.as_slice(),
    );
    let luma = image::imageops::colorops::grayscale_alpha(&image.unwrap());
    let out = image::DynamicImage::ImageLumaA8(luma).into_rgba8();
    PixelBuffer { width: out.width(), height: out.height(), data: out.into_raw() }
}

/// Calls `image::imageops::colorops::invert`, which replaces the red, green and
/// blue of every pixel by 255 minus their value and keeps alpha.
#[verifier::external_body]
pub(crate) fn invert(buffer: &mut PixelBuffer)
    requires
        old(buffer).wf(),
    ensures
        final(buffer).wf(),
        final(buffer)@ == inverted(old(buffer)@),
{
    let (width, height) = (buffer.width, buffer.height);
    let mut image = image::RgbaImage::from_raw(width, height, std::mem::take(&mut buffer.data));
    image::imageops::colorops::invert(image.as_mut().unwrap());
    buffer.data = image.unwrap().into_raw();
}

/// Calls `imageproc::gradients::sobel_gradients`. It correlates the image
/// with the kernels `HORIZONTAL_SOBEL` and `VERTICAL_SOBEL` in `i32`, reading
/// the pixel on the border again where the window leaves the image, and gives
/// for each pixel the square root of the sum of the two squares, cut to a
/// whole number. It squares, adds and takes the root in single precision:
/// the sums are whole numbers of size at most 1020, so each square and their
/// sum are whole numbers below 2^24, which single precision holds exactly,
/// and the correctly rounded root of a number that is no square lies further
/// below the next whole number than rounding can lift it.
#[verifier::external_body]
pub(crate) fn sobel_gradients(width: u32, height: u32, luma: &Vec<u8>) -> (magnitudes: Vec<u16>)
    requires
        luma@.len() == width * height,
    ensures
        magnitudes@.len() == luma@.len(),
        forall|i: int|
            0 <= i < magnitudes@.len() ==> (#[trigger] magnitudes@[i]) as nat == sobel_magnitude(
                width as nat,
                height as nat,
                luma@,
                i % (width as int),
                i / (width as int),
            ),
{
    let gray = image::GrayImage::from_raw(width, height, luma.clone());
    imageproc::gradients::sobel_gradients(&gray.unwrap()).into_raw()
}

/// `c` is a character of the standard base64 alphabet or the padding sign.
pub open spec fn is_base64_char(c: char) -> bool {
    ||| 'A' <= c <= 'Z'
    ||| 'a' <= c <= 'z'
    ||| '0' <= c <= '9'
    ||| c == '+'
    ||| c == '/'
    ||| c == '='
}

/// Some character of the text is neither of the standard base64 alphabet nor
/// the padding sign.
pub open spec fn has_char_outside_base64(text: Seq<char>) -> bool {
    exists|i: int| 0 <= i < text.len() && !is_base64_char(#[trigger] text[i])
}

/// The bytes that `base64::decode` reads from the given text in the standard
/// alphabet; `None` where it rejects the text.
pub uninterp spec fn base64_decoded(text: Seq<char>) -> Option<Seq<u8>>;

/// Calls `base64::decode`. It looks every byte of the text up in the table of
/// the standard alphabet, the padding sign apart, and rejects the text at the
/// first byte that the table does not hold.
#[verifier::external_body]
pub(crate) fn base64_decode(text: &str) -> (decoded: Result<Vec<u8>, base64::DecodeError>)
    ensures
        (match decoded {
            Ok(bytes) => !has_char_outside_base64(text@) && base64_decoded(text@) == Some(bytes@),
            Err(_) => has_char_outside_base64(text@) || base64_decoded(text@) is None,
        }),
{
    base64::decode(text)
}

/// The text that `base64::encode` writes for the given bytes in the standard
/// alphabet, with padding.
pub uninterp spec fn base64_encoded(bytes: Seq<u8>) -> Seq<char>;

/// Calls `base64::encode`.
#[verifier::external_body]
pub(crate) fn base64_encode(bytes: &Vec<u8>) -> (text: String)
    ensures
        text@ == base64_encoded(bytes@),
{
    base64::encode(bytes)
}

} // verus!
