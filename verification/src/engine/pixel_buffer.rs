//! The decoded image: a width, a height and the colors of its pixels, row by row.

use crate::engine::image_filters::ColorRgba;
use vstd::prelude::*;

verus! {

/// What a pixel buffer holds, as a mathematical value: the model that every
/// contract of the engine speaks of.
#[verifier::ext_equal]
pub struct Raster {
    pub width: nat,
    pub height: nat,
    /// The colors in row-major order: the pixel at `(x, y)` is at `y * width + x`.
    pub pixels: Seq<ColorRgba>,
}

impl Raster {
    /// There is exactly one color for each pixel.
    pub open spec fn wf(self) -> bool {
        self.pixels.len() == self.width * self.height
    }

    /// `(x, y)` is a pixel of this raster.
    pub open spec fn contains(self, x: int, y: int) -> bool {
        0 <= x < self.width && 0 <= y < self.height
    }

    /// The color of the pixel in column `x` of row `y`.
    pub open spec fn at(self, x: int, y: int) -> ColorRgba {
        self.pixels[y * self.width + x]
    }

    /// The raster of the given size whose pixels all have the given color.
    pub open spec fn uniform(width: nat, height: nat, color: ColorRgba) -> Raster {
        Raster { width, height, pixels: Seq::new(width * height, |i: int| color) }
    }

    /// The raster of the given size whose pixel at `(x, y)` has the color
    /// `color_at(x, y)`.
    pub open spec fn build(
        width: nat,
        height: nat,
        color_at: spec_fn(int, int) -> ColorRgba,
    ) -> Raster {
        Raster {
            width,
            height,
            pixels: Seq::new(
                width * height,
                |i: int| color_at(i % (width as int), i / (width as int)),
            ),
        }
    }

    /// The raster has no pixel: its width or its height is 0.
    pub open spec fn is_empty(self) -> bool {
        self.width == 0 || self.height == 0
    }

    /// Both rasters have the same width and the same height.
    pub open spec fn same_size(self, other: Raster) -> bool {
        self.width == other.width && self.height == other.height
    }
}

/// The colors that a run of bytes spells, four bytes to a color:
/// red, green, blue, alpha.
pub open spec fn colors_of(bytes: Seq<u8>) -> Seq<ColorRgba> {
    Seq::new(
        (bytes.len() / 4) as nat,
        |i: int|
            ColorRgba {
                red: bytes[4 * i],
                green: bytes[4 * i + 1],
                blue: bytes[4 * i + 2],
                alpha: bytes[4 * i + 3],
            },
    )
}

/// A pixel lies inside the storage: `y * width + x` is below `width * height`.
pub proof fn lemma_index_in_bounds(x: int, y: int, width: int, height: int)
    requires
        0 <= x < width,
        0 <= y < height,
    ensures
        0 <= y * width + x < width * height,
        y * width + x + 1 <= width * height,
{
    assert(y * width >= 0) by (nonlinear_arith)
        requires
            y >= 0,
            width > 0,
    ;
    assert((y + 1) * width <= height * width) by (nonlinear_arith)
        requires
            y + 1 <= height,
            width > 0,
    ;
    assert((y + 1) * width == y * width + width) by (nonlinear_arith);
    assert(height * width == width * height) by (nonlinear_arith);
}

/// The pixel at `(x, y)` of a raster built from `color_at` has the color
/// `color_at(x, y)`.
pub proof fn lemma_build_at(
    width: nat,
    height: nat,
    color_at: spec_fn(int, int) -> ColorRgba,
    x: int,
    y: int,
)
    requires
        0 <= x < width,
        0 <= y < height,
    ensures
        Raster::build(width, height, color_at).wf(),
        Raster::build(width, height, color_at).at(x, y) == color_at(x, y),
{
    lemma_index_in_bounds(x, y, width as int, height as int);
    vstd::arithmetic::div_mod::lemma_fundamental_div_mod_converse(
        y * width + x,
        width as int,
        y,
        x,
    );
}

/// A well-formed raster of width 0 or height 0 holds no color.
pub proof fn lemma_empty_raster(image: Raster)
    requires
        image.wf(),
        image.is_empty(),
    ensures
        image.pixels.len() == 0,
{
    assert(image.width * image.height == 0) by (nonlinear_arith)
        requires
            image.width == 0 || image.height == 0,
    ;
}

/// A raster built from a function has one color for each pixel.
pub proof fn lemma_build_wf(width: nat, height: nat, color_at: spec_fn(int, int) -> ColorRgba)
    ensures
        Raster::build(width, height, color_at).wf(),
        Raster::build(width, height, color_at).width == width,
        Raster::build(width, height, color_at).height == height,
{
    assert(0 <= width * height) by (nonlinear_arith)
        requires
            0 <= width,
            0 <= height,
    ;
}

/// Two well-formed rasters of one size are equal where they agree at every
/// pixel.
pub proof fn lemma_equal_by_pixels(a: Raster, b: Raster)
    requires
        a.wf(),
        b.wf(),
        a.same_size(b),
        forall|x: int, y: int| a.contains(x, y) ==> a.at(x, y) == b.at(x, y),
    ensures
        a == b,
{
    assert forall|i: int| 0 <= i < a.pixels.len() implies a.pixels[i] == b.pixels[i] by {
        lemma_position_in_bounds(i, a.width as int, a.height as int);
        let x = i % (a.width as int);
        let y = i / (a.width as int);
        vstd::arithmetic::div_mod::lemma_fundamental_div_mod(i, a.width as int);
        assert(a.width * y == y * a.width) by (nonlinear_arith);
        assert(a.contains(x, y));
        assert(a.at(x, y) == b.at(x, y));
    }
    assert(a.pixels =~= b.pixels);
    assert(a =~= b);
}

/// Where four bytes for each pixel fit in memory, so does the number of pixels.
pub proof fn lemma_storage_fits(width: int, height: int)
    requires
        0 <= width,
        0 <= height,
        4 * width * height <= usize::MAX,
    ensures
        0 <= width * height,
        4 * (width * height) <= usize::MAX,
        4 * (width * height) == 4 * width * height,
{
    assert(4 * width * height == 4 * (width * height)) by (nonlinear_arith);
    assert(0 <= width * height) by (nonlinear_arith)
        requires
            0 <= width,
            0 <= height,
    ;
}

/// The pixel with the given row-major position lies inside the image.
pub proof fn lemma_position_in_bounds(position: int, width: int, height: int)
    requires
        0 <= position < width * height,
        0 <= width,
        0 <= height,
    ensures
        0 <= position % width < width,
        0 <= position / width < height,
{
    assert(width > 0) by (nonlinear_arith)
        requires
            0 <= position < width * height,
            0 <= width,
    ;
    vstd::arithmetic::div_mod::lemma_fundamental_div_mod(position, width);
    vstd::arithmetic::div_mod::lemma_mod_bound(position, width);
    let q = position / width;
    assert(0 <= q) by (nonlinear_arith)
        requires
            position == width * q + position % width,
            0 <= position % width < width,
            0 <= position,
            width > 0,
    ;
    assert(q < height) by (nonlinear_arith)
        requires
            position == width * q + position % width,
            0 <= position % width,
            position < width * height,
            width > 0,
    ;
}

/// An image in memory: eight-bit red, green, blue and alpha for each pixel.
#[derive(Debug)]
pub struct PixelBuffer {
    pub(crate) width: u32,
    pub(crate) height: u32,
    pub(crate) data: Vec<u8>,
}

impl View for PixelBuffer {
    type V = Raster;

    open spec fn view(&self) -> Raster {
        Raster {
            width: self.spec_width() as nat,
            height: self.spec_height() as nat,
            pixels: colors_of(self.raw()),
        }
    }
}

impl PixelBuffer {
    pub closed spec fn spec_width(&self) -> u32 {
        self.width
    }

    pub closed spec fn spec_height(&self) -> u32 {
        self.height
    }

    /// The stored bytes: four for each pixel, row by row.
    pub closed spec fn raw(&self) -> Seq<u8> {
        self.data@
    }

    /// The storage holds four bytes for each pixel and no more.
    pub open spec fn wf(&self) -> bool {
        self.raw().len() == 4 * self.spec_width() * self.spec_height()
    }

    /// The bytes of a well-formed buffer fit in memory.
    pub proof fn lemma_fits(&self)
        requires
            self.wf(),
        ensures
            4 * self.spec_width() * self.spec_height() <= usize::MAX,
    {
        assert(self.data@.len() == self.data.len());
    }

    /// A well-formed buffer has a well-formed view.
    pub proof fn lemma_view_wf(&self)
        requires
            self.wf(),
        ensures
            self@.wf(),
            self@.width == self.spec_width(),
            self@.height == self.spec_height(),
    {
        let w = self.spec_width() as int;
        let h = self.spec_height() as int;
        assert(4 * w * h == 4 * (w * h)) by (nonlinear_arith);
    }

    /// A buffer of the given size whose pixels are all transparent black.
    pub fn new(width: u32, height: u32) -> (buffer: PixelBuffer)
        requires
            4 * width * height <= usize::MAX,
        ensures
            buffer.wf(),
            buffer@ == Raster::uniform(
                width as nat,
                height as nat,
                ColorRgba { red: 0, green: 0, blue: 0, alpha: 0 },
            ),
    {
        PixelBuffer::from_pixel(width, height, ColorRgba { red: 0, green: 0, blue: 0, alpha: 0 })
    }

    /// A buffer of the given size whose pixels all have the given color.
    pub fn from_pixel(width: u32, height: u32, color: ColorRgba) -> (buffer: PixelBuffer)
        requires
            4 * width * height <= usize::MAX,
        ensures
            buffer.wf(),
            buffer@ == Raster::uniform(width as nat, height as nat, color),
    {
        proof {
            lemma_storage_fits(width as int, height as int);
        }
        let count: usize = (width as usize) * (height as usize);
        let mut data: Vec<u8> = Vec::new();
        let mut done: usize = 0;
        while done < count
            invariant
                done <= count,
                4 * count <= usize::MAX,
                data@.len() == 4 * done,
                forall|i: int| 0 <= i < done ==> #[trigger] colors_of(data@)[i] == color,
            decreases count - done,
        {
            let ghost before = data@;
            data.push(color.red);
            data.push(color.green);
            data.push(color.blue);
            data.push(color.alpha);
            done = done + 1;
            assert forall|i: int| 0 <= i < done implies #[trigger] colors_of(data@)[i] == color by {
                if i < done - 1 {
                    assert(colors_of(before)[i] == color);
                }
            }
        }
        let buffer = PixelBuffer { width, height, data };
        assert(buffer@.pixels =~= Raster::uniform(width as nat, height as nat, color).pixels);
        buffer
    }

    /// A buffer of the given size whose pixel at `(x, y)` has the color that
    /// `color_at` gives for `x` and `y`.
    pub fn from_fn<F: Fn(u32, u32) -> ColorRgba>(width: u32, height: u32, color_at: F) -> (buffer:
        PixelBuffer)
        requires
            4 * width * height <= usize::MAX,
            forall|x: u32, y: u32| x < width && y < height ==> call_requires(color_at, (x, y)),
        ensures
            buffer.wf(),
            buffer@.wf(),
            buffer@.width == width,
            buffer@.height == height,
            forall|x: u32, y: u32|
                x < width && y < height ==> call_ensures(
                    color_at,
                    (x, y),
                    #[trigger] buffer@.at(x as int, y as int),
                ),
    {
        proof {
            lemma_storage_fits(width as int, height as int);
        }
        let count: usize = (width as usize) * (height as usize);
        let mut data: Vec<u8> = Vec::new();
        let mut done: usize = 0;
        while done < count
            invariant
                done <= count,
                count == width * height,
                4 * count <= usize::MAX,
                data@.len() == 4 * done,
                forall|x: u32, y: u32| x < width && y < height ==> call_requires(color_at, (x, y)),
                forall|i: int|
                    0 <= i < done ==> call_ensures(
                        color_at,
                        ((i % width as int) as u32, (i / width as int) as u32),
                        #[trigger] colors_of(data@)[i],
                    ),
            decreases count - done,
        {
            let ghost before = data@;
            proof {
                lemma_position_in_bounds(done as int, width as int, height as int);
            }
            let x: u32 = (done % (width as usize)) as u32;
            let y: u32 = (done / (width as usize)) as u32;
            let color = color_at(x, y);
            data.push(color.red);
            data.push(color.green);
            data.push(color.blue);
            data.push(color.alpha);
            done = done + 1;
            assert forall|i: int| 0 <= i < done implies call_ensures(
                color_at,
                ((i % width as int) as u32, (i / width as int) as u32),
                #[trigger] colors_of(data@)[i],
            ) by {
                if i < done - 1 {
                    assert(colors_of(data@)[i] == colors_of(before)[i]);
                } else {
                    assert(colors_of(data@)[i] == color);
                }
            }
        }
        let buffer = PixelBuffer { width, height, data };
        proof {
            buffer.lemma_view_wf();
            assert forall|x: u32, y: u32| x < width && y < height implies call_ensures(
                color_at,
                (x, y),
                #[trigger] buffer@.at(x as int, y as int),
            ) by {
                let i = y * width + x;
                lemma_index_in_bounds(x as int, y as int, width as int, height as int);
                vstd::arithmetic::div_mod::lemma_fundamental_div_mod_converse(
                    i,
                    width as int,
                    y as int,
                    x as int,
                );
                assert(buffer@.at(x as int, y as int) == colors_of(buffer.data@)[i]);
            }
        }
        buffer
    }

    /// The buffer over the given bytes, four for each pixel, row by row; `None`
    /// where their number is not four times `width` times `height`.
    pub fn from_raw(width: u32, height: u32, data: Vec<u8>) -> (buffer: Option<PixelBuffer>)
        ensures
            buffer is Some <==> data@.len() == 4 * width * height,
            buffer matches Some(b) ==> b.wf() && b.spec_width() == width && b.spec_height()
                == height && b.raw() == data@,
    {
        let expected: u64 = 4 * (width as u64);
        assert(expected * height <= u128::MAX) by (nonlinear_arith)
            requires
                expected <= 0x4_0000_0000u64,
                height <= u32::MAX,
        ;
        let expected: u128 = (expected as u128) * (height as u128);
        assert(expected == 4 * width * height) by (nonlinear_arith)
            requires
                expected == (4 * width) * height,
        ;
        if data.len() as u128 == expected {
            Some(PixelBuffer { width, height, data })
        } else {
            None
        }
    }

    /// The stored bytes, four for each pixel, row by row.
    pub fn into_raw(self) -> (data: Vec<u8>)
        ensures
            data@ == self.raw(),
    {
        self.data
    }

    /// A look at the stored bytes, four for each pixel, row by row.
    pub fn as_raw(&self) -> (data: &Vec<u8>)
        ensures
            data@ == self.raw(),
    {
        &self.data
    }

    /// A second buffer with the same pixels.
    pub fn duplicate(&self) -> (copy: PixelBuffer)
        ensures
            copy@ == self@,
            copy.raw() == self.raw(),
            copy.spec_width() == self.spec_width(),
            copy.spec_height() == self.spec_height(),
            self.wf() ==> copy.wf(),
    {
        let data = self.data.clone();
        assert(data@ =~= self.data@);
        PixelBuffer { width: self.width, height: self.height, data }
    }

    /// The color of the pixel in column `x` of row `y`.
    pub fn get_pixel(&self, x: u32, y: u32) -> (color: ColorRgba)
        requires
            self.wf(),
            x < self.spec_width(),
            y < self.spec_height(),
        ensures
            color == self@.at(x as int, y as int),
    {
        proof {
            self.lemma_fits();
            lemma_index_in_bounds(
                x as int,
                y as int,
                self.spec_width() as int,
                self.spec_height() as int,
            );
            lemma_storage_fits(self.spec_width() as int, self.spec_height() as int);
        }
        let at: usize = 4 * ((y as usize) * (self.width as usize) + (x as usize));
        ColorRgba {
            red: self.data[at],
            green: self.data[at + 1],
            blue: self.data[at + 2],
            alpha: self.data[at + 3],
        }
    }

    /// Gives the pixel in column `x` of row `y` the given color.
    pub fn put_pixel(&mut self, x: u32, y: u32, color: ColorRgba)
        requires
            old(self).wf(),
            x < old(self).spec_width(),
            y < old(self).spec_height(),
        ensures
            final(self).wf(),
            final(self)@ == (Raster {
                width: old(self)@.width,
                height: old(self)@.height,
                pixels: old(self)@.pixels.update(y * old(self)@.width + x, color),
            }),
    {
        proof {
            self.lemma_fits();
            lemma_index_in_bounds(
                x as int,
                y as int,
                self.spec_width() as int,
                self.spec_height() as int,
            );
            lemma_storage_fits(self.spec_width() as int, self.spec_height() as int);
        }
        let at: usize = 4 * ((y as usize) * (self.width as usize) + (x as usize));
        self.data.set(at, color.red);
        self.data.set(at + 1, color.green);
        self.data.set(at + 2, color.blue);
        self.data.set(at + 3, color.alpha);
        assert(self@.pixels =~= old(self)@.pixels.update(y * old(self)@.width + x, color));
    }

    /// Whether the image has no pixel.
    pub fn is_empty(&self) -> (empty: bool)
        ensures
            empty == self@.is_empty(),
    {
        self.width == 0 || self.height == 0
    }

    #[verifier::when_used_as_spec(spec_width)]
    pub fn width(&self) -> (width: u32)
        ensures
            width == self.spec_width(),
    {
        self.width
    }

    #[verifier::when_used_as_spec(spec_height)]
    pub fn height(&self) -> (height: u32)
        ensures
            height == self.spec_height(),
    {
        self.height
    }
}

} // verus!
