//! The pixel filter: stripes, diagonals and rings painted over an image.

use crate::engine::image_error::ErrorCode;
use crate::engine::image_filters::overlay::{
    composite, filter_built, lemma_overlaid_at, lemma_overlaid_empty, overlaid,
};
use crate::engine::image_filters::square_root::{integer_sqrt, integer_sqrt_of};
use crate::engine::image_filters::{ColorRgba, FilterPixelType};
use crate::engine::pixel_buffer::{lemma_build_at, PixelBuffer, Raster};
use vstd::prelude::*;

verus! {

/// Every fourth column, row or diagonal is painted, and every fourth ring.
pub const STRIPE_PERIOD: u32 = 4;

/// The color that a pattern layer holds where nothing is painted: white with
/// alpha 0, which leaves the pixel under it as it is.
pub open spec fn unpainted() -> ColorRgba {
    ColorRgba { red: 255, green: 255, blue: 255, alpha: 0 }
}

/// The square of the distance between the pixel `(x, y)` and the center
/// `(width / 2, height / 2)` of the image.
pub open spec fn distance_squared(width: nat, height: nat, x: int, y: int) -> nat {
    let dx = x - (width / 2) as int;
    let dy = y - (height / 2) as int;
    (dx * dx + dy * dy) as nat
}

/// Whether the pattern paints the pixel `(x, y)` of an image of the given
/// size: columns, rows and diagonals whose number is a multiple of the stripe
/// period, and the pixels whose distance from the center, rounded down, is
/// such a multiple.
pub open spec fn painted(pattern: FilterPixelType, width: nat, height: nat, x: int, y: int) -> bool {
    match pattern {
        FilterPixelType::VERTICAL => x % (STRIPE_PERIOD as int) == 0,
        FilterPixelType::HORIZONTAL => y % (STRIPE_PERIOD as int) == 0,
        FilterPixelType::DIAGONAL => (x + y) % (STRIPE_PERIOD as int) == 0,
        FilterPixelType::CIRCLE => {
            let distance = integer_sqrt(distance_squared(width, height, x, y));
            distance % (STRIPE_PERIOD as nat) == 0
        },
    }
}

/// Computes `painted`.
pub fn is_painted(pattern: FilterPixelType, width: u32, height: u32, x: u32, y: u32) -> (paint:
    bool)
    ensures
        paint == painted(pattern, width as nat, height as nat, x as int, y as int),
{
    match pattern {
        FilterPixelType::VERTICAL => x % STRIPE_PERIOD == 0,
        FilterPixelType::HORIZONTAL => y % STRIPE_PERIOD == 0,
        FilterPixelType::DIAGONAL => (x as u64 + y as u64) % (STRIPE_PERIOD as u64) == 0,
        FilterPixelType::CIRCLE => {
            let center_x: u32 = width / 2;
            let center_y: u32 = height / 2;
            let dx: u128 = if x >= center_x {
                (x - center_x) as u128
            } else {
                (center_x - x) as u128
            };
            let dy: u128 = if y >= center_y {
                (y - center_y) as u128
            } else {
                (center_y - y) as u128
            };
            assert(dx * dx + dy * dy < 0x4_0000_0000_0000_0000u128) by (nonlinear_arith)
                requires
                    dx < 0x1_0000_0000u128,
                    dy < 0x1_0000_0000u128,
            ;
            assert(dx * dx == (x - center_x) * (x - center_x)) by (nonlinear_arith)
                requires
                    dx == x - center_x || dx == center_x - x,
            ;
            assert(dy * dy == (y - center_y) * (y - center_y)) by (nonlinear_arith)
                requires
                    dy == y - center_y || dy == center_y - y,
            ;
            let root: u64 = integer_sqrt_of(dx * dx + dy * dy);
            root % (STRIPE_PERIOD as u64) == 0
        },
    }
}

/// The color of the pattern layer at `(x, y)`: `color` where the pattern
/// paints, `unpainted()` elsewhere.
pub open spec fn pattern_color(
    width: nat,
    height: nat,
    pattern: FilterPixelType,
    color: ColorRgba,
    x: int,
    y: int,
) -> ColorRgba {
    if painted(pattern, width, height, x, y) {
        color
    } else {
        unpainted()
    }
}

/// The layer that the pixel filter lays over an image of the given size.
pub open spec fn pattern_layer(
    width: nat,
    height: nat,
    pattern: FilterPixelType,
    color: ColorRgba,
) -> Raster {
    Raster::build(width, height, |x: int, y: int| pattern_color(width, height, pattern, color, x, y))
}

/// Where the pattern paints, the pixel filter leaves the composite of the
/// pixel and the color; every other pixel it leaves as it was.
pub proof fn lemma_pattern_pixels(
    image: Raster,
    pattern: FilterPixelType,
    color: ColorRgba,
    x: int,
    y: int,
)
    requires
        image.wf(),
        image.contains(x, y),
    ensures
        ({
            let layer = pattern_layer(image.width, image.height, pattern, color);
            overlaid(image, layer).at(x, y) == if painted(
                pattern,
                image.width,
                image.height,
                x,
                y,
            ) {
                composite(image.at(x, y), color)
            } else {
                image.at(x, y)
            }
        }),
{
    let layer = pattern_layer(image.width, image.height, pattern, color);
    lemma_build_at(
        image.width,
        image.height,
        |x: int, y: int| pattern_color(image.width, image.height, pattern, color, x, y),
        x,
        y,
    );
    lemma_overlaid_at(image, layer, x, y);
}

/// Paints the pattern in the given color over the image and returns a copy of
/// the result. The alpha of `color` says how strongly it covers what is under
/// it.
pub fn filter_pixel(img: &mut PixelBuffer, pattern: FilterPixelType, color: ColorRgba) -> (result:
    Result<PixelBuffer, ErrorCode>)
    requires
        old(img).wf(),
    ensures
        final(img).wf(),
        result matches Ok(out) && out.wf() && out@ == final(img)@,
        final(img)@ == overlaid(
            old(img)@,
            pattern_layer(old(img)@.width, old(img)@.height, pattern, color),
        ),
        forall|x: int, y: int|
            old(img)@.contains(x, y) ==> #[trigger] final(img)@.at(x, y) == (
                if painted(pattern, old(img)@.width, old(img)@.height, x, y) {
                    composite(old(img)@.at(x, y), color)
                } else {
                    old(img)@.at(x, y)
                }
            ),
        old(img)@.width == 0 || old(img)@.height == 0 ==> final(img)@ == old(img)@,
{
    let width: u32 = img.width();
    let height: u32 = img.height();
    let paint = |x: u32, y: u32| -> (painted_color: ColorRgba)
        ensures
            painted_color == pattern_color(
                width as nat,
                height as nat,
                pattern,
                color,
                x as int,
                y as int,
            ),
        {
            if is_painted(pattern, width, height, x, y) {
                color
            } else {
                ColorRgba { red: 255, green: 255, blue: 255, alpha: 0 }
            }
        };
    let result = filter_built(
        img,
        paint,
        Ghost(|x: int, y: int| pattern_color(width as nat, height as nat, pattern, color, x, y)),
    );
    proof {
        old(img).lemma_view_wf();
        if width == 0 || height == 0 {
            lemma_overlaid_empty(
                old(img)@,
                pattern_layer(width as nat, height as nat, pattern, color),
            );
        }
    }
    result
}

/// Paints every fourth column in black of alpha 100 over the image and returns
/// a copy of the result.
pub fn filter_diag(img: &mut PixelBuffer) -> (result: Result<PixelBuffer, ErrorCode>)
    requires
        old(img).wf(),
    ensures
        final(img).wf(),
        result matches Ok(out) && out.wf() && out@ == final(img)@,
        final(img)@ == overlaid(
            old(img)@,
            pattern_layer(
                old(img)@.width,
                old(img)@.height,
                FilterPixelType::VERTICAL,
                ColorRgba { red: 0, green: 0, blue: 0, alpha: 100 },
            ),
        ),
        forall|x: int, y: int|
            old(img)@.contains(x, y) ==> #[trigger] final(img)@.at(x, y) == (
                if x % (STRIPE_PERIOD as int) == 0 {
                    composite(
                        old(img)@.at(x, y),
                        ColorRgba { red: 0, green: 0, blue: 0, alpha: 100 },
                    )
                } else {
                    old(img)@.at(x, y)
                }
            ),
{
    filter_pixel(
        img,
        FilterPixelType::VERTICAL,
        ColorRgba { red: 0, green: 0, blue: 0, alpha: 100 },
    )
}

} // verus!
