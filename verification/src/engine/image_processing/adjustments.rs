//! What the standard adjustments make of a color and of an image.

use crate::engine::image_filters::ColorRgba;
use crate::engine::pixel_buffer::Raster;
use vstd::prelude::*;

verus! {

/// A channel after `delta` was added to it, held within 0..=255.
pub open spec fn brightened_channel(value: u8, delta: int) -> u8 {
    if value + delta < 0 {
        0
    } else if value + delta > 255 {
        255
    } else {
        (value + delta) as u8
    }
}

/// A color after `delta` was added to its red, green and blue.
pub open spec fn brightened_color(color: ColorRgba, delta: int) -> ColorRgba {
    ColorRgba {
        red: brightened_channel(color.red, delta),
        green: brightened_channel(color.green, delta),
        blue: brightened_channel(color.blue, delta),
        alpha: color.alpha,
    }
}

/// A raster after `delta` was added to the red, green and blue of every pixel.
pub open spec fn brightened(image: Raster, delta: int) -> Raster {
    Raster {
        width: image.width,
        height: image.height,
        pixels: Seq::new(image.pixels.len(), |i: int| brightened_color(image.pixels[i], delta)),
    }
}

/// The luminance of a color: its red, green and blue weighted by 0.2126,
/// 0.7152 and 0.0722, rounded down.
pub open spec fn luminance(color: ColorRgba) -> u8 {
    ((2126 * color.red + 7152 * color.green + 722 * color.blue) / 10000) as u8
}

/// The gray of the same luminance and the same alpha.
pub open spec fn grayscaled_color(color: ColorRgba) -> ColorRgba {
    ColorRgba {
        red: luminance(color),
        green: luminance(color),
        blue: luminance(color),
        alpha: color.alpha,
    }
}

/// A raster in which every pixel was replaced by the gray of its luminance.
pub open spec fn grayscaled(image: Raster) -> Raster {
    Raster {
        width: image.width,
        height: image.height,
        pixels: Seq::new(image.pixels.len(), |i: int| grayscaled_color(image.pixels[i])),
    }
}

/// The negative of a color: 255 minus its red, green and blue, the same alpha.
pub open spec fn inverted_color(color: ColorRgba) -> ColorRgba {
    ColorRgba {
        red: (255 - color.red) as u8,
        green: (255 - color.green) as u8,
        blue: (255 - color.blue) as u8,
        alpha: color.alpha,
    }
}

/// A raster in which every pixel was replaced by its negative.
pub open spec fn inverted(image: Raster) -> Raster {
    Raster {
        width: image.width,
        height: image.height,
        pixels: Seq::new(image.pixels.len(), |i: int| inverted_color(image.pixels[i])),
    }
}

/// `after` has the size of `before`, and every pixel kept its alpha.
pub open spec fn keeps_alpha(before: Raster, after: Raster) -> bool {
    &&& after.same_size(before)
    &&& after.pixels.len() == before.pixels.len()
    &&& forall|i: int|
        0 <= i < before.pixels.len() ==> (#[trigger] after.pixels[i]).alpha
            == before.pixels[i].alpha
}

/// Inverting twice gives the image back.
pub proof fn lemma_invert_twice(image: Raster)
    ensures
        inverted(inverted(image)) == image,
{
    assert(inverted(inverted(image)).pixels =~= image.pixels);
    assert(inverted(inverted(image)) =~= image);
}

/// A gray has the luminance of each of its channels.
pub proof fn lemma_luminance_of_gray(level: u8, alpha: u8)
    ensures
        luminance(ColorRgba { red: level, green: level, blue: level, alpha }) == level,
{
    assert((2126 * level + 7152 * level + 722 * level) / 10000 == level) by (nonlinear_arith)
        requires
            0 <= level,
    ;
}

/// Turning a gray image gray changes nothing: once is as good as twice.
pub proof fn lemma_grayscale_twice(image: Raster)
    ensures
        grayscaled(grayscaled(image)) == grayscaled(image),
{
    assert forall|i: int| 0 <= i < image.pixels.len() implies grayscaled(
        grayscaled(image),
    ).pixels[i] == grayscaled(image).pixels[i] by {
        lemma_luminance_of_gray(luminance(image.pixels[i]), image.pixels[i].alpha);
    }
    assert(grayscaled(grayscaled(image)).pixels =~= grayscaled(image).pixels);
    assert(grayscaled(grayscaled(image)) =~= grayscaled(image));
}

/// Brightening by 0 changes nothing.
pub proof fn lemma_brighten_by_zero(image: Raster)
    ensures
        brightened(image, 0) == image,
{
    assert(brightened(image, 0).pixels =~= image.pixels);
    assert(brightened(image, 0) =~= image);
}

/// A delta beyond 255 either way brightens as much as 255 or -255 do.
pub proof fn lemma_brighten_saturates(image: Raster, delta: int)
    ensures
        delta >= 255 ==> brightened(image, delta) == brightened(image, 255),
        delta <= -255 ==> brightened(image, delta) == brightened(image, -255),
{
    if delta >= 255 {
        assert(brightened(image, delta).pixels =~= brightened(image, 255).pixels);
        assert(brightened(image, delta) =~= brightened(image, 255));
    }
    if delta <= -255 {
        assert(brightened(image, delta).pixels =~= brightened(image, -255).pixels);
        assert(brightened(image, delta) =~= brightened(image, -255));
    }
}

} // verus!
