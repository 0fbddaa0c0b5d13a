//! The gradient filter: a linear gradient between two colors laid over an
//! image.

use crate::engine::image_error::ErrorCode;
use crate::engine::image_filters::overlay::{composite, filter_built, lemma_overlaid_at, overlaid};
use crate::engine::image_filters::{ColorRgba, GradientDirection};
use crate::engine::pixel_buffer::{lemma_build_at, PixelBuffer, Raster};
use vstd::prelude::*;

verus! {

/// The channel at `position` on the way from `from`, at position 0, to `to`,
/// at position `last`: the weighted mean of the two, rounded to the nearest
/// whole number, a half going up. Where `last` is 0 there is one position only,
/// and it holds `from`.
pub open spec fn mixed_channel(from: u8, to: u8, position: nat, last: nat) -> u8 {
    if last == 0 {
        from
    } else {
        ((from * (last - position) + to * position + last / 2) / (last as int)) as u8
    }
}

/// The color at `position` on the way from `from` to `to`, channel by channel,
/// alpha included.
pub open spec fn mixed_color(from: ColorRgba, to: ColorRgba, position: nat, last: nat) -> ColorRgba {
    ColorRgba {
        red: mixed_channel(from.red, to.red, position, last),
        green: mixed_channel(from.green, to.green, position, last),
        blue: mixed_channel(from.blue, to.blue, position, last),
        alpha: mixed_channel(from.alpha, to.alpha, position, last),
    }
}

/// The weighted mean of two channels lies between 0 and 255; at position 0 it
/// is `from`, and at the last position, if that is not 0, it is `to`.
pub proof fn lemma_mixed_channel(from: u8, to: u8, position: nat, last: nat)
    requires
        position <= last,
        0 < last,
    ensures
        0 <= (from * (last - position) + to * position + last / 2) / (last as int) <= 255,
        position == 0 ==> mixed_channel(from, to, position, last) == from,
        position == last ==> mixed_channel(from, to, position, last) == to,
{
    let weighted = from * (last - position) + to * position + last / 2;
    assert(0 <= from * (last - position) <= 255 * (last - position)) by (nonlinear_arith)
        requires
            0 <= from <= 255,
            0 <= last - position,
    ;
    assert(0 <= to * position <= 255 * position) by (nonlinear_arith)
        requires
            0 <= to <= 255,
            0 <= position,
    ;
    assert(0 <= weighted / (last as int) <= 255) by (nonlinear_arith)
        requires
            0 <= weighted < 256 * last,
            0 < last,
    ;
    if position == 0 {
        assert(weighted / (last as int) == from) by (nonlinear_arith)
            requires
                weighted == from * last + last / 2,
                0 <= last / 2 < last,
                0 < last,
        ;
    }
    if position == last {
        assert(from * (last - position) == 0) by (nonlinear_arith)
            requires
                last - position == 0,
        ;
        assert(weighted / (last as int) == to) by (nonlinear_arith)
            requires
                weighted == to * last + last / 2,
                0 <= last / 2 < last,
                0 < last,
        ;
    }
}

/// Computes `mixed_channel`.
pub fn mix_channel(from: u8, to: u8, position: u32, last: u32) -> (mixed: u8)
    requires
        position <= last,
    ensures
        mixed == mixed_channel(from, to, position as nat, last as nat),
{
    if last == 0 {
        return from;
    }
    proof {
        lemma_mixed_channel(from, to, position as nat, last as nat);
    }
    assert(from * (last - position) <= 255 * (last - position)) by (nonlinear_arith)
        requires
            0 <= from <= 255,
            0 <= last - position,
    ;
    assert(to * position <= 255 * position) by (nonlinear_arith)
        requires
            0 <= to <= 255,
            0 <= position,
    ;
    let from_part: u64 = (from as u64) * ((last - position) as u64);
    let to_part: u64 = (to as u64) * (position as u64);
    let weighted: u64 = from_part + to_part + (last as u64) / 2;
    (weighted / (last as u64)) as u8
}

/// Computes `mixed_color`.
pub fn mix_color(from: ColorRgba, to: ColorRgba, position: u32, last: u32) -> (mixed: ColorRgba)
    requires
        position <= last,
    ensures
        mixed == mixed_color(from, to, position as nat, last as nat),
{
    ColorRgba {
        red: mix_channel(from.red, to.red, position, last),
        green: mix_channel(from.green, to.green, position, last),
        blue: mix_channel(from.blue, to.blue, position, last),
        alpha: mix_channel(from.alpha, to.alpha, position, last),
    }
}

/// The color of the gradient layer at `(x, y)`: it runs from the left edge to
/// the right one for `HORIZONTAL`, from the top edge to the bottom one for
/// `VERTICAL`.
pub open spec fn gradient_color(
    width: nat,
    height: nat,
    from: ColorRgba,
    to: ColorRgba,
    gradient: GradientDirection,
    x: int,
    y: int,
) -> ColorRgba {
    match gradient {
        GradientDirection::HORIZONTAL => mixed_color(from, to, x as nat, (width - 1) as nat),
        GradientDirection::VERTICAL => mixed_color(from, to, y as nat, (height - 1) as nat),
    }
}

/// The layer that the gradient filter lays over an image of the given size.
pub open spec fn gradient_layer(
    width: nat,
    height: nat,
    from: ColorRgba,
    to: ColorRgba,
    gradient: GradientDirection,
) -> Raster {
    Raster::build(
        width,
        height,
        |x: int, y: int| gradient_color(width, height, from, to, gradient, x, y),
    )
}

/// Lays a linear gradient from `color_from` to `color_to` over the image and
/// returns a copy of the result.
pub fn filter_gradient(
    img: &mut PixelBuffer,
    color_from: ColorRgba,
    color_to: ColorRgba,
    gradient: GradientDirection,
) -> (result: Result<PixelBuffer, ErrorCode>)
    requires
        old(img).wf(),
    ensures
        final(img).wf(),
        result matches Ok(out) && out.wf() && out@ == final(img)@,
        final(img)@ == overlaid(
            old(img)@,
            gradient_layer(old(img)@.width, old(img)@.height, color_from, color_to, gradient),
        ),
        forall|x: int, y: int|
            old(img)@.contains(x, y) ==> #[trigger] final(img)@.at(x, y) == composite(
                old(img)@.at(x, y),
                gradient_color(
                    old(img)@.width,
                    old(img)@.height,
                    color_from,
                    color_to,
                    gradient,
                    x,
                    y,
                ),
            ),
{
    let width: u32 = img.width();
    let height: u32 = img.height();
    let shade = |x: u32, y: u32| -> (shaded: ColorRgba)
        requires
            x < width,
            y < height,
        ensures
            shaded == gradient_color(
                width as nat,
                height as nat,
                color_from,
                color_to,
                gradient,
                x as int,
                y as int,
            ),
        {
            match gradient {
                GradientDirection::HORIZONTAL => mix_color(color_from, color_to, x, width - 1),
                GradientDirection::VERTICAL => mix_color(color_from, color_to, y, height - 1),
            }
        };
    let result = filter_built(
        img,
        shade,
        Ghost(
            |x: int, y: int|
                gradient_color(width as nat, height as nat, color_from, color_to, gradient, x, y),
        ),
    );
    proof {
        old(img).lemma_view_wf();
    }
    result
}

/// At the edge where the gradient starts, the filter leaves the composite of
/// the pixel and `from`; at the opposite edge, if it is another one, the
/// composite of the pixel and `to`.
pub proof fn lemma_gradient_edges(
    image: Raster,
    from: ColorRgba,
    to: ColorRgba,
    gradient: GradientDirection,
    x: int,
    y: int,
)
    requires
        image.wf(),
        image.contains(x, y),
    ensures
        ({
            let filtered = overlaid(
                image,
                gradient_layer(image.width, image.height, from, to, gradient),
            );
            let (position, last) = match gradient {
                GradientDirection::HORIZONTAL => (x, image.width - 1),
                GradientDirection::VERTICAL => (y, image.height - 1),
            };
            &&& position == 0 ==> filtered.at(x, y) == composite(image.at(x, y), from)
            &&& position == last && last > 0 ==> filtered.at(x, y) == composite(image.at(x, y), to)
        }),
{
    let layer = gradient_layer(image.width, image.height, from, to, gradient);
    lemma_build_at(
        image.width,
        image.height,
        |x: int, y: int| gradient_color(image.width, image.height, from, to, gradient, x, y),
        x,
        y,
    );
    lemma_overlaid_at(image, layer, x, y);
    let (position, last) = match gradient {
        GradientDirection::HORIZONTAL => (x, image.width - 1),
        GradientDirection::VERTICAL => (y, image.height - 1),
    };
    if last > 0 {
        lemma_mixed_channel(from.red, to.red, position as nat, last as nat);
        lemma_mixed_channel(from.green, to.green, position as nat, last as nat);
        lemma_mixed_channel(from.blue, to.blue, position as nat, last as nat);
        lemma_mixed_channel(from.alpha, to.alpha, position as nat, last as nat);
    }
}

} // verus!
