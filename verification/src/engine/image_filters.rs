//! The compositing filters: pixel patterns, linear gradients, color bands and
//! edge detection.

use crate::engine::pixel_buffer::{PixelBuffer, Raster};
use vstd::prelude::*;

pub mod band;
pub mod edge;
pub mod gradient;
pub mod overlay;
pub mod pattern;
pub mod square_root;

pub use band::{
    band_color, band_end, band_index, band_layer, band_of, band_start, band_width, banded,
    bands_total, filter_band_color, filter_col_color, lemma_band_index, lemma_banded_at,
    lemma_bands_cover,
};
pub use edge::{
    clamped, column_sum, edge_color, edge_image, edges_of, filter_sobel, horizontal_sobel,
    is_flat, lemma_flat_has_no_edges, lemma_flat_is_black, lemma_flat_levels, luma_at, lumas,
    luminances, row_sum, sobel_magnitude, vertical_sobel,
};
pub use gradient::{
    filter_gradient, gradient_color, gradient_layer, lemma_gradient_edges, lemma_mixed_channel,
    mix_channel, mix_color, mixed_channel, mixed_color,
};
pub use overlay::{
    composite, filter_base, is_layer_of, lay_over, lemma_overlaid_at, lemma_overlaid_empty,
    overlaid,
};
pub use pattern::{
    distance_squared, filter_diag, filter_pixel, is_painted, lemma_pattern_pixels, painted,
    pattern_color, pattern_layer, unpainted, STRIPE_PERIOD,
};
pub use square_root::{
    integer_sqrt, integer_sqrt_of, is_integer_sqrt, lemma_integer_sqrt_of_zero,
    lemma_integer_sqrt_unique,
};

verus! {

/// The geometric patterns that the pixel filter can paint.
#[derive(Debug, Copy, Clone, PartialEq, Eq, Structural)]
pub enum FilterPixelType {
    VERTICAL,
    HORIZONTAL,
    DIAGONAL,
    CIRCLE,
}

/// The axis along which a gradient runs or bands follow each other.
#[derive(Debug, Copy, Clone, PartialEq, Eq, Structural)]
pub enum GradientDirection {
    VERTICAL,
    HORIZONTAL,
}

/// A color of four channels of eight bits each.
#[derive(Debug, Copy, Clone, PartialEq, Eq, Structural)]
pub struct ColorRgba {
    pub red: u8,
    pub green: u8,
    pub blue: u8,
    pub alpha: u8,
}

impl ColorRgba {
    pub fn new(red: u8, green: u8, blue: u8, alpha: u8) -> (color: Self)
        ensures
            color == (ColorRgba { red, green, blue, alpha }),
    {
        Self { red, green, blue, alpha }
    }

    /// The color whose channels are the four given bytes: red, green, blue, alpha.
    pub fn from_array(channels: [u8; 4]) -> (color: Self)
        ensures
            color == (ColorRgba {
                red: channels[0],
                green: channels[1],
                blue: channels[2],
                alpha: channels[3],
            }),
    {
        Self { red: channels[0], green: channels[1], blue: channels[2], alpha: channels[3] }
    }

    /// The four channels in the order red, green, blue, alpha.
    pub fn to_array(&self) -> (channels: [u8; 4])
        ensures
            channels@ == seq![self.red, self.green, self.blue, self.alpha],
    {
        let channels = [self.red, self.green, self.blue, self.alpha];
        assert(channels@ =~= seq![self.red, self.green, self.blue, self.alpha]);
        channels
    }
}

/// One of the four filters, with what it needs.
pub enum FilterRequest {
    PixelPattern { pattern: FilterPixelType, color: ColorRgba },
    Gradient { from: ColorRgba, to: ColorRgba, direction: GradientDirection },
    ColorBand { colors: Vec<ColorRgba>, direction: GradientDirection },
    EdgeGradient,
}

/// What a `FilterRequest` holds, as a mathematical value.
pub enum FilterRequestView {
    PixelPattern { pattern: FilterPixelType, color: ColorRgba },
    Gradient { from: ColorRgba, to: ColorRgba, direction: GradientDirection },
    ColorBand { colors: Seq<ColorRgba>, direction: GradientDirection },
    EdgeGradient,
}

impl FilterRequestView {
    /// What the requested filter makes of `image`.
    pub open spec fn filtered(self, image: Raster) -> Raster {
        match self {
            FilterRequestView::PixelPattern { pattern, color } => overlaid(
                image,
                pattern_layer(image.width, image.height, pattern, color),
            ),
            FilterRequestView::Gradient { from, to, direction } => overlaid(
                image,
                gradient_layer(image.width, image.height, from, to, direction),
            ),
            FilterRequestView::ColorBand { colors, direction } => banded(image, colors, direction),
            FilterRequestView::EdgeGradient => edges_of(image),
        }
    }
}

/// Every filter gives an image of the size of the one it was given.
pub proof fn lemma_filtered_keeps_size(request: FilterRequestView, image: Raster)
    ensures
        request.filtered(image).same_size(image),
        request.filtered(image).is_empty() == image.is_empty(),
{
}

impl View for FilterRequest {
    type V = FilterRequestView;

    open spec fn view(&self) -> FilterRequestView {
        match self {
            FilterRequest::PixelPattern { pattern, color } => FilterRequestView::PixelPattern {
                pattern: *pattern,
                color: *color,
            },
            FilterRequest::Gradient { from, to, direction } => FilterRequestView::Gradient {
                from: *from,
                to: *to,
                direction: *direction,
            },
            FilterRequest::ColorBand { colors, direction } => FilterRequestView::ColorBand {
                colors: colors@,
                direction: *direction,
            },
            FilterRequest::EdgeGradient => FilterRequestView::EdgeGradient,
        }
    }
}

impl FilterRequest {
    /// Applies the requested filter to the image.
    pub fn apply(self, img: PixelBuffer) -> (out: PixelBuffer)
        requires
            img.wf(),
        ensures
            out.wf(),
            out@ == self@.filtered(img@),
    {
        let mut img = img;
        let filtered = match self {
            FilterRequest::PixelPattern { pattern, color } => filter_pixel(
                &mut img,
                pattern,
                color,
            ),
            FilterRequest::Gradient { from, to, direction } => filter_gradient(
                &mut img,
                from,
                to,
                direction,
            ),
            FilterRequest::ColorBand { colors, direction } => filter_band_color(
                &mut img,
                colors,
                direction,
            ),
            FilterRequest::EdgeGradient => { return filter_sobel(img); },
        };
        match filtered {
            Ok(out) => out,
            Err(_) => img,
        }
    }
}

} // verus!
