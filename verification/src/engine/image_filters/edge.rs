//! The edge filter: the Sobel gradient magnitudes of the luminance.

use crate::engine::bindings::{grayscale, sobel_gradients};
use crate::engine::image_filters::square_root::{integer_sqrt, lemma_integer_sqrt_of_zero};
use crate::engine::image_filters::ColorRgba;
use crate::engine::image_processing::{grayscaled, luminance};
use crate::engine::pixel_buffer::{
    colors_of, lemma_empty_raster, lemma_index_in_bounds, lemma_position_in_bounds,
    lemma_storage_fits, PixelBuffer, Raster,
};
use vstd::prelude::*;

verus! {

/// The luminance of every pixel, row by row.
pub open spec fn lumas(image: Raster) -> Seq<u8> {
    Seq::new(image.pixels.len(), |i: int| luminance(image.pixels[i]))
}

/// The position inside `0..extent` that is nearest to `position`: beyond the
/// border, the pixel on the border is read again.
pub open spec fn clamped(position: int, extent: nat) -> int {
    if position < 0 {
        0
    } else if position >= extent {
        extent - 1
    } else {
        position
    }
}

/// The gray level at `(x, y)` of a gray image given row by row, with the
/// border repeated outwards.
pub open spec fn luma_at(width: nat, height: nat, luma: Seq<u8>, x: int, y: int) -> int {
    luma[clamped(y, height) * width + clamped(x, width)] as int
}

/// The gray levels of column `x` around row `y`, the row itself counted
/// twice.
pub open spec fn column_sum(width: nat, height: nat, luma: Seq<u8>, x: int, y: int) -> int {
    luma_at(width, height, luma, x, y - 1) + 2 * luma_at(width, height, luma, x, y) + luma_at(
        width,
        height,
        luma,
        x,
        y + 1,
    )
}

/// The gray levels of row `y` around column `x`, the column itself counted
/// twice.
pub open spec fn row_sum(width: nat, height: nat, luma: Seq<u8>, x: int, y: int) -> int {
    luma_at(width, height, luma, x - 1, y) + 2 * luma_at(width, height, luma, x, y) + luma_at(
        width,
        height,
        luma,
        x + 1,
        y,
    )
}

/// The horizontal Sobel sum at `(x, y)`: the column to the right minus the
/// column to the left.
pub open spec fn horizontal_sobel(width: nat, height: nat, luma: Seq<u8>, x: int, y: int) -> int {
    column_sum(width, height, luma, x + 1, y) - column_sum(width, height, luma, x - 1, y)
}

/// The vertical Sobel sum at `(x, y)`: the row below minus the row above.
pub open spec fn vertical_sobel(width: nat, height: nat, luma: Seq<u8>, x: int, y: int) -> int {
    row_sum(width, height, luma, x, y + 1) - row_sum(width, height, luma, x, y - 1)
}

/// The Sobel gradient magnitude at `(x, y)`: the square root of the sum of
/// the squares of the two sums, rounded down.
pub open spec fn sobel_magnitude(width: nat, height: nat, luma: Seq<u8>, x: int, y: int) -> nat {
    let across = horizontal_sobel(width, height, luma, x, y);
    let down = vertical_sobel(width, height, luma, x, y);
    integer_sqrt((across * across + down * down) as nat)
}

/// The opaque gray that shows a gradient magnitude: the magnitude itself, and
/// white from 255 on.
pub open spec fn edge_color(magnitude: nat) -> ColorRgba {
    let level = if magnitude > 255 {
        255u8
    } else {
        magnitude as u8
    };
    ColorRgba { red: level, green: level, blue: level, alpha: 255 }
}

/// The image of the Sobel gradient magnitudes of the luminance of `image`.
pub open spec fn edges_of(image: Raster) -> Raster {
    Raster::build(
        image.width,
        image.height,
        |x: int, y: int|
            edge_color(sobel_magnitude(image.width, image.height, lumas(image), x, y)),
    )
}

/// Where all gray levels are the same, any two places hold the same level,
/// inside the image or beyond its border.
pub proof fn lemma_flat_levels(
    width: nat,
    height: nat,
    luma: Seq<u8>,
    x: int,
    y: int,
    other_x: int,
    other_y: int,
)
    requires
        luma.len() == width * height,
        0 < width,
        0 < height,
        forall|i: int, j: int| 0 <= i < luma.len() && 0 <= j < luma.len() ==> luma[i] == luma[j],
    ensures
        luma_at(width, height, luma, x, y) == luma_at(width, height, luma, other_x, other_y),
{
    lemma_index_in_bounds(clamped(x, width), clamped(y, height), width as int, height as int);
    lemma_index_in_bounds(
        clamped(other_x, width),
        clamped(other_y, height),
        width as int,
        height as int,
    );
}

/// Where all gray levels are the same, the gradient magnitude is 0 at every
/// pixel: both kernels sum to zero.
pub proof fn lemma_flat_has_no_edges(width: nat, height: nat, luma: Seq<u8>, x: int, y: int)
    requires
        luma.len() == width * height,
        0 <= x < width,
        0 <= y < height,
        forall|i: int, j: int| 0 <= i < luma.len() && 0 <= j < luma.len() ==> luma[i] == luma[j],
    ensures
        horizontal_sobel(width, height, luma, x, y) == 0,
        vertical_sobel(width, height, luma, x, y) == 0,
        sobel_magnitude(width, height, luma, x, y) == 0,
{
    lemma_flat_levels(width, height, luma, x, y, x + 1, y - 1);
    lemma_flat_levels(width, height, luma, x, y, x + 1, y);
    lemma_flat_levels(width, height, luma, x, y, x + 1, y + 1);
    lemma_flat_levels(width, height, luma, x, y, x - 1, y - 1);
    lemma_flat_levels(width, height, luma, x, y, x - 1, y);
    lemma_flat_levels(width, height, luma, x, y, x - 1, y + 1);
    lemma_flat_levels(width, height, luma, x, y, x, y - 1);
    lemma_flat_levels(width, height, luma, x, y, x, y + 1);
    lemma_integer_sqrt_of_zero();
}

/// All pixels of the image have the same luminance.
pub open spec fn is_flat(image: Raster) -> bool {
    forall|i: int, j: int|
        0 <= i < image.pixels.len() && 0 <= j < image.pixels.len() ==> luminance(image.pixels[i])
            == luminance(image.pixels[j])
}

/// The luminance of every pixel of the image, row by row.
pub fn luminances(img: &PixelBuffer) -> (luma: Vec<u8>)
    requires
        img.wf(),
    ensures
        luma@ == lumas(img@),
{
    let mut luma: Vec<u8> = Vec::new();
    if img.is_empty() {
        proof {
            img.lemma_view_wf();
            lemma_empty_raster(img@);
            assert(luma@ =~= lumas(img@));
        }
        return luma;
    }
    let gray = grayscale(img);
    let raw = gray.as_raw();
    let count: usize = raw.len() / 4;
    proof {
        img.lemma_view_wf();
        gray.lemma_view_wf();
        img.lemma_fits();
        lemma_storage_fits(img.spec_width() as int, img.spec_height() as int);
    }
    let mut done: usize = 0;
    while done < count
        invariant
            done <= count,
            count * 4 == raw@.len(),
            count * 4 <= usize::MAX,
            count == img@.pixels.len(),
            raw@ == gray.raw(),
            gray@ == grayscaled(img@),
            luma@.len() == done,
            forall|i: int| 0 <= i < done ==> #[trigger] luma@[i] == luminance(img@.pixels[i]),
        decreases count - done,
    {
        assert(gray@.pixels[done as int].red == raw@[4 * done]);
        luma.push(raw[4 * done]);
        done = done + 1;
    }
    assert(luma@ =~= lumas(img@));
    luma
}

/// The image of the given size that shows the given gradient magnitudes, row
/// by row, each as an opaque gray.
pub fn edge_image(width: u32, height: u32, magnitudes: &Vec<u16>) -> (edges: PixelBuffer)
    requires
        magnitudes@.len() == width * height,
        4 * width * height <= usize::MAX,
    ensures
        edges.wf(),
        edges@ == (Raster {
            width: width as nat,
            height: height as nat,
            pixels: Seq::new(magnitudes@.len(), |i: int| edge_color(magnitudes@[i] as nat)),
        }),
{
    proof {
        lemma_storage_fits(width as int, height as int);
    }
    let count: usize = magnitudes.len();
    let mut data: Vec<u8> = Vec::new();
    let mut done: usize = 0;
    while done < count
        invariant
            done <= count,
            count == magnitudes@.len(),
            count * 4 <= usize::MAX,
            data@.len() == 4 * done,
            forall|i: int|
                0 <= i < done ==> #[trigger] colors_of(data@)[i] == edge_color(magnitudes@[i] as nat),
        decreases count - done,
    {
        let ghost before = data@;
        let magnitude: u16 = magnitudes[done];
        let level: u8 = if magnitude > 255 {
            255
        } else {
            magnitude as u8
        };
        data.push(level);
        data.push(level);
        data.push(level);
        data.push(255);
        done = done + 1;
        assert forall|i: int| 0 <= i < done implies #[trigger] colors_of(data@)[i] == edge_color(
            magnitudes@[i] as nat,
        ) by {
            if i < done - 1 {
                assert(colors_of(before)[i] == edge_color(magnitudes@[i] as nat));
            }
        }
    }
    let edges = PixelBuffer::from_raw(width, height, data).unwrap();
    proof {
        edges.lemma_view_wf();
        assert(edges@.pixels =~= Seq::new(
            magnitudes@.len(),
            |i: int| edge_color(magnitudes@[i] as nat),
        ));
    }
    edges
}

/// Replaces the image by that of its edges: each pixel becomes the opaque
/// gray of the magnitude of the Sobel gradient of the luminance at that
/// place, where the pixels of the border are repeated outwards. An image of
/// one luminance comes out black.
pub fn filter_sobel(img: PixelBuffer) -> (edges: PixelBuffer)
    requires
        img.wf(),
    ensures
        edges.wf(),
        edges@ == edges_of(img@),
        is_flat(img@) ==> edges@ == Raster::uniform(
            img@.width,
            img@.height,
            ColorRgba { red: 0, green: 0, blue: 0, alpha: 255 },
        ),
{
    let luma = luminances(&img);
    proof {
        img.lemma_view_wf();
        img.lemma_fits();
    }
    let magnitudes = sobel_gradients(img.width(), img.height(), &luma);
    let edges = edge_image(img.width(), img.height(), &magnitudes);
    proof {
        assert(edges@.pixels =~= edges_of(img@).pixels);
        if is_flat(img@) {
            lemma_flat_is_black(img@);
        }
    }
    edges
}

/// The image of the edges of an image of one luminance is black and opaque.
pub proof fn lemma_flat_is_black(image: Raster)
    requires
        image.wf(),
        is_flat(image),
    ensures
        edges_of(image) == Raster::uniform(
            image.width,
            image.height,
            ColorRgba { red: 0, green: 0, blue: 0, alpha: 255 },
        ),
{
    let luma = lumas(image);
    let black = Raster::uniform(
        image.width,
        image.height,
        ColorRgba { red: 0, green: 0, blue: 0, alpha: 255 },
    );
    assert forall|i: int| 0 <= i < image.pixels.len() implies edges_of(image).pixels[i]
        == black.pixels[i] by {
        lemma_position_in_bounds(i, image.width as int, image.height as int);
        assert forall|a: int, b: int| 0 <= a < luma.len() && 0 <= b < luma.len() implies luma[a]
            == luma[b] by {
            assert(luma[a] == luminance(image.pixels[a]));
            assert(luma[b] == luminance(image.pixels[b]));
        }
        lemma_flat_has_no_edges(
            image.width,
            image.height,
            luma,
            i % (image.width as int),
            i / (image.width as int),
        );
    }
    assert(edges_of(image).pixels =~= black.pixels);
}

} // verus!
