//! Laying one image over another, pixel by pixel.

use crate::engine::bindings::{blended, overlay};
use crate::engine::image_error::ErrorCode;
use crate::engine::image_filters::ColorRgba;
use crate::engine::pixel_buffer::{
    lemma_build_at, lemma_build_wf, lemma_equal_by_pixels, lemma_index_in_bounds, PixelBuffer,
    Raster,
};
use vstd::prelude::*;

verus! {

/// The color of a pixel of color `bottom` once `top` is laid over it: `bottom`
/// where `top` is fully transparent, `top` where it is fully opaque, and the
/// blend of the two in between.
pub open spec fn composite(bottom: ColorRgba, top: ColorRgba) -> ColorRgba {
    if top.alpha == 0 {
        bottom
    } else if top.alpha == 255 {
        top
    } else {
        blended(bottom, top)
    }
}

/// The raster `bottom` once `top`, of the same size, is laid over it pixel by
/// pixel.
pub open spec fn overlaid(bottom: Raster, top: Raster) -> Raster {
    Raster {
        width: bottom.width,
        height: bottom.height,
        pixels: Seq::new(
            bottom.pixels.len(),
            |i: int| composite(bottom.pixels[i], top.pixels[i]),
        ),
    }
}

/// Lays `top` over `bottom`, pixel by pixel.
pub fn lay_over(bottom: &mut PixelBuffer, top: &PixelBuffer)
    requires
        old(bottom).wf(),
        top.wf(),
        top@.same_size(old(bottom)@),
    ensures
        final(bottom).wf(),
        final(bottom)@ == overlaid(old(bottom)@, top@),
{
    proof {
        bottom.lemma_view_wf();
        top.lemma_view_wf();
    }
    overlay(bottom, top);
    proof {
        bottom.lemma_view_wf();
        assert(bottom@.pixels =~= overlaid(old(bottom)@, top@).pixels);
    }
}

/// The pixel at `(x, y)` of one raster laid over another is the composite of
/// the two pixels at `(x, y)`.
pub proof fn lemma_overlaid_at(bottom: Raster, top: Raster, x: int, y: int)
    requires
        bottom.wf(),
        top.wf(),
        top.same_size(bottom),
        bottom.contains(x, y),
    ensures
        overlaid(bottom, top).wf(),
        overlaid(bottom, top).same_size(bottom),
        overlaid(bottom, top).at(x, y) == composite(bottom.at(x, y), top.at(x, y)),
{
    lemma_index_in_bounds(x, y, bottom.width as int, bottom.height as int);
}

/// An image without pixels stays as it is under any layer.
pub proof fn lemma_overlaid_empty(bottom: Raster, top: Raster)
    requires
        bottom.wf(),
        bottom.width == 0 || bottom.height == 0,
    ensures
        overlaid(bottom, top) == bottom,
{
    assert(bottom.width * bottom.height == 0) by (nonlinear_arith)
        requires
            bottom.width == 0 || bottom.height == 0,
    ;
    assert(overlaid(bottom, top).pixels =~= bottom.pixels);
    assert(overlaid(bottom, top) =~= bottom);
}

/// `layer` is an image of the given size that `color_at` can have produced,
/// pixel by pixel.
pub open spec fn is_layer_of<F: Fn(u32, u32) -> ColorRgba>(
    layer: Raster,
    color_at: F,
    width: u32,
    height: u32,
) -> bool {
    &&& layer.wf()
    &&& layer.width == width
    &&& layer.height == height
    &&& forall|x: u32, y: u32|
        x < width && y < height ==> call_ensures(
            color_at,
            (x, y),
            #[trigger] layer.at(x as int, y as int),
        )
}

/// Builds a layer of the size of `img` from the colors that `func` gives for
/// each pixel, lays it over `img`, and returns a copy of the result.
pub fn filter_base<F: Fn(u32, u32) -> ColorRgba>(img: &mut PixelBuffer, func: F) -> (result:
    Result<PixelBuffer, ErrorCode>)
    requires
        old(img).wf(),
        forall|x: u32, y: u32|
            x < old(img).spec_width() && y < old(img).spec_height() ==> call_requires(func, (x, y)),
    ensures
        final(img).wf(),
        result matches Ok(out) && out.wf() && out@ == final(img)@,
        exists|layer: Raster| #[trigger]
            is_layer_of(layer, func, old(img).spec_width(), old(img).spec_height()) && final(img)@
                == overlaid(old(img)@, layer),
{
    proof {
        img.lemma_fits();
    }
    let layer = PixelBuffer::from_fn(img.width(), img.height(), func);
    lay_over(img, &layer);
    assert(is_layer_of(layer@, func, old(img).spec_width(), old(img).spec_height()));
    Ok(img.duplicate())
}

/// `filter_base` for a function that gives the color `color_at(x, y)` for
/// each pixel: the layer is then known, and so is every pixel of the result.
pub(crate) fn filter_built<F: Fn(u32, u32) -> ColorRgba>(
    img: &mut PixelBuffer,
    func: F,
    Ghost(color_at): Ghost<spec_fn(int, int) -> ColorRgba>,
) -> (result: Result<PixelBuffer, ErrorCode>)
    requires
        old(img).wf(),
        forall|x: u32, y: u32|
            x < old(img).spec_width() && y < old(img).spec_height() ==> call_requires(func, (x, y)),
        forall|x: u32, y: u32, color: ColorRgba|
            x < old(img).spec_width() && y < old(img).spec_height() && call_ensures(
                func,
                (x, y),
                color,
            ) ==> color == color_at(x as int, y as int),
    ensures
        final(img).wf(),
        result matches Ok(out) && out.wf() && out@ == final(img)@,
        final(img)@ == overlaid(
            old(img)@,
            Raster::build(old(img)@.width, old(img)@.height, color_at),
        ),
        forall|x: int, y: int|
            old(img)@.contains(x, y) ==> #[trigger] final(img)@.at(x, y) == composite(
                old(img)@.at(x, y),
                color_at(x, y),
            ),
{
    let ghost width = img.spec_width();
    let ghost height = img.spec_height();
    let result = filter_base(img, func);
    proof {
        old(img).lemma_view_wf();
        let layer = choose|layer: Raster| #[trigger]
            is_layer_of(layer, func, width, height) && img@ == overlaid(old(img)@, layer);
        let built = Raster::build(width as nat, height as nat, color_at);
        assert forall|x: int, y: int| layer.contains(x, y) implies layer.at(x, y) == built.at(
            x,
            y,
        ) by {
            assert(call_ensures(
                func,
                (x as u32, y as u32),
                layer.at(x as u32 as int, y as u32 as int),
            ));
            lemma_build_at(width as nat, height as nat, color_at, x, y);
        }
        lemma_build_wf(width as nat, height as nat, color_at);
        lemma_equal_by_pixels(layer, built);
        assert forall|x: int, y: int| old(img)@.contains(x, y) implies #[trigger] img@.at(x, y)
            == composite(old(img)@.at(x, y), color_at(x, y)) by {
            lemma_build_at(width as nat, height as nat, color_at, x, y);
            lemma_overlaid_at(old(img)@, built, x, y);
        }
    }
    result
}

} // verus!
