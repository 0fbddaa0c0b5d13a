//! The band filter: an image shared out among bands of color.

use crate::engine::image_error::ErrorCode;
use crate::engine::image_filters::overlay::{composite, filter_built, lemma_overlaid_at, overlaid};
use crate::engine::image_filters::{ColorRgba, GradientDirection};
use crate::engine::pixel_buffer::{lemma_build_at, PixelBuffer, Raster};
use vstd::prelude::*;

verus! {

/// The width of each band but the last, where `extent` pixels are shared out
/// among `count` bands.
pub open spec fn band_width(extent: nat, count: nat) -> nat {
    extent / count
}

/// The first position of band `band`.
pub open spec fn band_start(band: nat, extent: nat, count: nat) -> nat {
    band * band_width(extent, count)
}

/// The position after the last one of band `band`: the last band runs to the
/// edge, and so takes the pixels that the division left over.
pub open spec fn band_end(band: nat, extent: nat, count: nat) -> nat {
    if band + 1 == count {
        extent
    } else {
        (band + 1) * band_width(extent, count)
    }
}

/// The sum of the widths of the first `bands` bands.
pub open spec fn bands_total(bands: nat, extent: nat, count: nat) -> int
    decreases bands,
{
    if bands == 0 {
        0
    } else {
        let last = (bands - 1) as nat;
        bands_total(last, extent, count) + band_end(last, extent, count) - band_start(
            last,
            extent,
            count,
        )
    }
}

/// The band that holds `position`.
pub open spec fn band_index(position: int, extent: nat, count: nat) -> int {
    let width = band_width(extent, count) as int;
    if width == 0 || position / width >= count {
        count - 1
    } else {
        position / width
    }
}

/// The bands follow each other from position 0 to the edge without a gap and
/// without overlap: the first starts at 0, each starts where the one before
/// it ends, none ends before it starts, the last ends at `extent`, and the
/// widths of the first `bands` of them add up to the start of the band that
/// follows, so those of all to `extent`.
pub proof fn lemma_bands_cover(bands: nat, extent: nat, count: nat)
    requires
        0 < count,
        bands <= count,
    ensures
        band_start(0, extent, count) == 0,
        band_end((count - 1) as nat, extent, count) == extent,
        forall|band: nat|
            band + 1 < count ==> #[trigger] band_end(band, extent, count) == band_start(
                band + 1,
                extent,
                count,
            ),
        forall|band: nat|
            band < count ==> band_start(band, extent, count) <= #[trigger] band_end(
                band,
                extent,
                count,
            ) <= extent,
        bands < count ==> bands_total(bands, extent, count) == band_start(bands, extent, count),
        bands == count ==> bands_total(bands, extent, count) == extent,
    decreases bands,
{
    let width = band_width(extent, count);
    assert(0 * width == 0);
    vstd::arithmetic::div_mod::lemma_fundamental_div_mod(extent as int, count as int);
    vstd::arithmetic::div_mod::lemma_div_pos_is_pos(extent as int, count as int);
    assert forall|band: nat| band < count implies band_start(band, extent, count)
        <= #[trigger] band_end(band, extent, count) <= extent by {
        assert(band * width <= (band + 1) * width <= count * width) by (nonlinear_arith)
            requires
                band + 1 <= count,
                0 <= width,
        ;
        assert(count * width <= extent) by (nonlinear_arith)
            requires
                extent == count * (extent as int / count as int) + extent as int % count as int,
                0 <= extent as int % count as int,
                width == extent as int / count as int,
        ;
    }
    if bands > 0 {
        lemma_bands_cover((bands - 1) as nat, extent, count);
    }
}

/// Every position lies in the band that `band_index` names.
pub proof fn lemma_band_index(position: int, extent: nat, count: nat)
    requires
        0 < count,
        0 <= position < extent,
    ensures
        0 <= band_index(position, extent, count) < count,
        band_start(band_index(position, extent, count) as nat, extent, count) <= position
            < band_end(band_index(position, extent, count) as nat, extent, count),
{
    let width = band_width(extent, count) as int;
    let band = band_index(position, extent, count);
    if width == 0 {
        assert((count - 1) * width == 0) by (nonlinear_arith)
            requires
                width == 0,
        ;
    } else {
        vstd::arithmetic::div_mod::lemma_fundamental_div_mod(position, width);
        vstd::arithmetic::div_mod::lemma_mod_bound(position, width);
        vstd::arithmetic::div_mod::lemma_div_pos_is_pos(position, width);
        let quotient = position / width;
        assert(width * quotient == quotient * width) by (nonlinear_arith);
        if quotient >= count {
            assert((count - 1) * width <= quotient * width) by (nonlinear_arith)
                requires
                    count - 1 <= quotient,
                    0 <= width,
            ;
        } else {
            assert((quotient + 1) * width == quotient * width + width) by (nonlinear_arith);
        }
    }
}

/// Computes `band_index`.
pub fn band_of(position: u32, extent: u32, count: usize) -> (band: usize)
    requires
        0 < count,
    ensures
        band == band_index(position as int, extent as nat, count as nat),
        band < count,
{
    let width: usize = (extent as usize) / count;
    if width == 0 {
        count - 1
    } else {
        let quotient: usize = (position as usize) / width;
        if quotient >= count {
            count - 1
        } else {
            quotient
        }
    }
}

/// The color of the band layer at `(x, y)`: bands side by side for
/// `HORIZONTAL`, one below the other for `VERTICAL`.
pub open spec fn band_color(
    width: nat,
    height: nat,
    colors: Seq<ColorRgba>,
    direction: GradientDirection,
    x: int,
    y: int,
) -> ColorRgba {
    match direction {
        GradientDirection::HORIZONTAL => colors[band_index(x, width, colors.len())],
        GradientDirection::VERTICAL => colors[band_index(y, height, colors.len())],
    }
}

/// The layer that the band filter lays over an image of the given size.
pub open spec fn band_layer(
    width: nat,
    height: nat,
    colors: Seq<ColorRgba>,
    direction: GradientDirection,
) -> Raster {
    Raster::build(width, height, |x: int, y: int| band_color(width, height, colors, direction, x, y))
}

/// What the band filter makes of an image: the image itself where there is no
/// color, else the image under the band layer.
pub open spec fn banded(image: Raster, colors: Seq<ColorRgba>, direction: GradientDirection) -> Raster {
    if colors.len() == 0 {
        image
    } else {
        overlaid(image, band_layer(image.width, image.height, colors, direction))
    }
}

/// Shares the image out among as many bands as there are colors, along the
/// given axis, lays each color over its band, and returns a copy of the
/// result. Without a color the image stays as it is.
pub fn filter_band_color(
    img: &mut PixelBuffer,
    colors: Vec<ColorRgba>,
    direction: GradientDirection,
) -> (result: Result<PixelBuffer, ErrorCode>)
    requires
        old(img).wf(),
    ensures
        final(img).wf(),
        result matches Ok(out) && out.wf() && out@ == final(img)@,
        final(img)@ == banded(old(img)@, colors@, direction),
        colors@.len() > 0 ==> forall|x: int, y: int|
            old(img)@.contains(x, y) ==> #[trigger] final(img)@.at(x, y) == composite(
                old(img)@.at(x, y),
                band_color(old(img)@.width, old(img)@.height, colors@, direction, x, y),
            ),
{
    if colors.len() == 0 {
        return Ok(img.duplicate());
    }
    let width: u32 = img.width();
    let height: u32 = img.height();
    let fill = |x: u32, y: u32| -> (filled: ColorRgba)
        ensures
            filled == band_color(
                width as nat,
                height as nat,
                colors@,
                direction,
                x as int,
                y as int,
            ),
        {
            match direction {
                GradientDirection::HORIZONTAL => colors[band_of(x, width, colors.len())],
                GradientDirection::VERTICAL => colors[band_of(y, height, colors.len())],
            }
        };
    let result = filter_built(
        img,
        fill,
        Ghost(|x: int, y: int| band_color(width as nat, height as nat, colors@, direction, x, y)),
    );
    proof {
        old(img).lemma_view_wf();
    }
    result
}

/// Shares the width of the image out among as many bands as there are
/// colors, lays each color over its band, and returns a copy of the result.
pub fn filter_col_color(img: &mut PixelBuffer, colors: Vec<ColorRgba>) -> (result: Result<
    PixelBuffer,
    ErrorCode,
>)
    requires
        old(img).wf(),
    ensures
        final(img).wf(),
        result matches Ok(out) && out.wf() && out@ == final(img)@,
        final(img)@ == banded(old(img)@, colors@, GradientDirection::HORIZONTAL),
        colors@.len() > 0 ==> forall|x: int, y: int|
            old(img)@.contains(x, y) ==> #[trigger] final(img)@.at(x, y) == composite(
                old(img)@.at(x, y),
                colors@[band_index(x, old(img)@.width, colors@.len())],
            ),
{
    filter_band_color(img, colors, GradientDirection::HORIZONTAL)
}

/// Every pixel of a banded image is the composite of the pixel it was and the
/// color of the band that holds it.
pub proof fn lemma_banded_at(
    image: Raster,
    colors: Seq<ColorRgba>,
    direction: GradientDirection,
    x: int,
    y: int,
)
    requires
        image.wf(),
        image.contains(x, y),
        colors.len() > 0,
    ensures
        banded(image, colors, direction).at(x, y) == composite(
            image.at(x, y),
            band_color(image.width, image.height, colors, direction, x, y),
        ),
{
    let layer = band_layer(image.width, image.height, colors, direction);
    lemma_build_at(
        image.width,
        image.height,
        |x: int, y: int| band_color(image.width, image.height, colors, direction, x, y),
        x,
        y,
    );
    lemma_overlaid_at(image, layer, x, y);
}

} // verus!
