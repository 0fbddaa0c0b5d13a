//! An image-filtering engine: it decodes an encoded still image into a pixel
//! buffer, applies standard adjustments or one of the compositing filters, and
//! encodes the result as PNG.
//!
//! The functions of this file take the image as base64 text, with or without
//! the marker "data:image/jpeg;base64," in front.

use crate::engine::image_error::ErrorCode;
use crate::engine::image_filters::{
    ColorRgba, FilterPixelType, FilterRequestView, GradientDirection,
};
use crate::engine::image_processing::{
    computes_to, filters_to, Computed, ImageParameters, ImageProcess, InputType,
};
use crate::engine::image_processing_result::ImageProcessingResult;
use vstd::prelude::*;

pub mod engine;

verus! {

/// The five colors of the band overlay, from the first band to the last.
pub open spec fn band_palette() -> Seq<ColorRgba> {
    seq![
        ColorRgba { red: 214, green: 110, blue: 250, alpha: 150 },
        ColorRgba { red: 155, green: 100, blue: 220, alpha: 150 },
        ColorRgba { red: 150, green: 120, blue: 240, alpha: 150 },
        ColorRgba { red: 95, green: 105, blue: 220, alpha: 150 },
        ColorRgba { red: 110, green: 150, blue: 250, alpha: 160 },
    ]
}

/// Applies the standard adjustments to the image: brightness, blur, hue,
/// gray, contrast, inversion. Without parameters it applies the default
/// ones.
pub fn filter_params(base64_input: String, params: Option<ImageParameters>) -> (computed: Result<
    Computed,
    ErrorCode,
>)
    ensures
        (match base64_input.input_bytes() {
            Ok(bytes) => computes_to(
                bytes,
                match params {
                    Some(given) => given,
                    None => ImageParameters::default_spec(),
                },
                computed,
            ),
            Err(code) => computed matches Err(given) && given == code,
        }),
{
    let image_processing = match ImageProcess::new(base64_input) {
        Ok(process) => process,
        Err(code) => { return Err(code); },
    };
    let params = match params {
        Some(given) => given,
        None => ImageParameters::default(),
    };
    image_processing.compute_parameters(params)
}

/// Replaces the image by that of its edges.
pub fn filter_sobel(base64_input: String) -> (result: Result<ImageProcessingResult, ErrorCode>)
    ensures
        (match base64_input.input_bytes() {
            Ok(bytes) => filters_to(bytes, FilterRequestView::EdgeGradient, result),
            Err(code) => result matches Err(given) && given == code,
        }),
{
    match ImageProcess::new(base64_input) {
        Ok(process) => process.compute_filter_sobel(),
        Err(code) => Err(code),
    }
}

/// Lays five colored bands over the image, along the given axis.
pub fn filter_overlay_color(base64_input: String, direction: GradientDirection) -> (result: Result<
    ImageProcessingResult,
    ErrorCode,
>)
    ensures
        (match base64_input.input_bytes() {
            Ok(bytes) => filters_to(
                bytes,
                FilterRequestView::ColorBand { colors: band_palette(), direction },
                result,
            ),
            Err(code) => result matches Err(given) && given == code,
        }),
{
    match ImageProcess::new(base64_input) {
        Ok(process) => {
            let colors = vec![
                ColorRgba::new(214, 110, 250, 150),
                ColorRgba::new(155, 100, 220, 150),
                ColorRgba::new(150, 120, 240, 150),
                ColorRgba::new(95, 105, 220, 150),
                ColorRgba::new(110, 150, 250, 160),
            ];
            assert(colors@ =~= band_palette());
            process.compute_filter_band_color(colors, direction)
        },
        Err(code) => Err(code),
    }
}

/// Paints the pattern in the given color over the image.
pub fn filter_pixel(base64_input: String, pixel_type: FilterPixelType, color: ColorRgba) -> (result:
    Result<ImageProcessingResult, ErrorCode>)
    ensures
        (match base64_input.input_bytes() {
            Ok(bytes) => filters_to(
                bytes,
                FilterRequestView::PixelPattern { pattern: pixel_type, color },
                result,
            ),
            Err(code) => result matches Err(given) && given == code,
        }),
{
    match ImageProcess::new(base64_input) {
        Ok(process) => process.compute_filter_pixel(pixel_type, color),
        Err(code) => Err(code),
    }
}

/// Lays a linear gradient from `from` to `to` over the image, along the given
/// axis.
pub fn filter_gradient(
    base64_input: String,
    direction: GradientDirection,
    from: ColorRgba,
    to: ColorRgba,
) -> (result: Result<ImageProcessingResult, ErrorCode>)
    ensures
        (match base64_input.input_bytes() {
            Ok(bytes) => filters_to(
                bytes,
                FilterRequestView::Gradient { from, to, direction },
                result,
            ),
            Err(code) => result matches Err(given) && given == code,
        }),
{
    match ImageProcess::new(base64_input) {
        Ok(process) => process.compute_filter_gradient(from, to, direction),
        Err(code) => Err(code),
    }
}

} // verus!
