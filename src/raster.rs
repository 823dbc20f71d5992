use vstd::prelude::*;

verus! {

/// An 8-bit RGB image buffer of the image crate, seen through `pixels_of`
/// and `dimensions_of`.
#[verifier::external_body]
pub struct RgbBuffer {
    buf: image::RgbImage,
}

/// The pixels of an 8-bit RGB image buffer, row-major: the pixel at column
/// `x` and row `y` (row 0 on top) stands at `y * width + x`.
pub uninterp spec fn pixels_of(img: RgbBuffer) -> Seq<(u8, u8, u8)>;

/// The width and height of an 8-bit RGB image buffer.
pub uninterp spec fn dimensions_of(img: RgbBuffer) -> (u32, u32);

/// Position of pixel `(x, y)` in the row-major sequence of an image `width` wide.
pub open spec fn index_of(width: u32, x: u32, y: u32) -> int {
    y * width + x
}

/// Relies on image::ImageBuffer::new: a buffer of the given dimensions whose
/// subpixels are all zero. It panics when 3 * width * height overflows usize,
/// and no vector holds more than isize::MAX bytes.
#[verifier::external_body]
fn new_buffer(width: u32, height: u32) -> (r: RgbBuffer)
    requires
        3 * width * height <= isize::MAX,
    ensures
        dimensions_of(r) == (width, height),
        pixels_of(r) == Seq::new((width * height) as nat, |i: int| (0u8, 0u8, 0u8)),
{
    RgbBuffer { buf: image::RgbImage::new(width, height) }
}

/// Relies on image::ImageBuffer::dimensions: it returns the width and height
/// the buffer was made with.
#[verifier::external_body]
fn buffer_dimensions(img: &RgbBuffer) -> (r: (u32, u32))
    ensures
        r == dimensions_of(*img),
{
    img.buf.dimensions()
}

/// Relies on image::ImageBuffer::get_pixel: the three channels stored for
/// `(x, y)`. It panics outside the bounds.
#[verifier::external_body]
fn buffer_pixel(img: &RgbBuffer, x: u32, y: u32) -> (r: (u8, u8, u8))
    requires
        x < dimensions_of(*img).0,
        y < dimensions_of(*img).1,
        pixels_of(*img).len() == dimensions_of(*img).0 * dimensions_of(*img).1,
    ensures
        r == pixels_of(*img)[index_of(dimensions_of(*img).0, x, y)],
{
    let p = img.buf.get_pixel(x, y);
    (p.0[0], p.0[1], p.0[2])
}

/// Relies on image::ImageBuffer::put_pixel: overwrites the channels of
/// `(x, y)` and nothing else. It panics outside the bounds.
#[verifier::external_body]
fn buffer_put_pixel(img: &mut RgbBuffer, x: u32, y: u32, rgb: (u8, u8, u8))
    requires
        x < dimensions_of(*old(img)).0,
        y < dimensions_of(*old(img)).1,
        pixels_of(*old(img)).len() == dimensions_of(*old(img)).0 * dimensions_of(*old(img)).1,
    ensures
        dimensions_of(*final(img)) == dimensions_of(*old(img)),
        pixels_of(*final(img)) == pixels_of(*old(img)).update(
            index_of(dimensions_of(*old(img)).0, x, y),
            rgb,
        ),
{
    img.buf.put_pixel(x, y, image::Rgb([rgb.0, rgb.1, rgb.2]))
}

/// Relies on image::ImageBuffer::into_raw: the subpixels in the buffer's
/// row-major order, three for each pixel.
#[verifier::external_body]
fn buffer_into_raw(img: RgbBuffer) -> (r: Vec<u8>)
    ensures
        r@.len() == 3 * pixels_of(img).len(),
        forall|k: int|
            0 <= k < pixels_of(img).len() ==> {
                &&& r@[3 * k] == (#[trigger] pixels_of(img)[k]).0
                &&& r@[3 * k + 1] == pixels_of(img)[k].1
                &&& r@[3 * k + 2] == pixels_of(img)[k].2
            },
{
    img.buf.into_raw()
}

/// The finished picture: a grid of 8-bit RGB pixels, row 0 on top.
pub struct Canvas {
    img: RgbBuffer,
}

/// Row of the picture that the renderer's row `j` lands in: the renderer
/// counts rows upward from the bottom, the picture downward from the top.
pub open spec fn picture_row(j: u32, height: u32) -> u32 {
    (height - 1 - j) as u32
}

impl Canvas {
    pub closed spec fn width_spec(&self) -> u32 {
        dimensions_of(self.img).0
    }

    pub closed spec fn height_spec(&self) -> u32 {
        dimensions_of(self.img).1
    }

    /// The pixels, row-major from the top-left corner.
    pub closed spec fn pixels(&self) -> Seq<(u8, u8, u8)> {
        pixels_of(self.img)
    }

    pub open spec fn pixel_spec(&self, x: u32, y: u32) -> (u8, u8, u8) {
        self.pixels()[index_of(self.width_spec(), x, y)]
    }

    pub open spec fn wf(&self) -> bool {
        self.pixels().len() == self.width_spec() * self.height_spec()
    }

    /// An all-black picture of the given size.
    pub fn new(width: u32, height: u32) -> (r: Canvas)
        requires
            3 * width * height <= isize::MAX,
        ensures
            r.wf(),
            r.width_spec() == width,
            r.height_spec() == height,
            forall|x: u32, y: u32| x < width && y < height ==> #[trigger] r.pixel_spec(x, y) == (0u8, 0u8, 0u8),
    {
        let img = new_buffer(width, height);
        let r = Canvas { img };
        assert forall|x: u32, y: u32| x < width && y < height implies #[trigger] r.pixel_spec(x, y) == (0u8, 0u8, 0u8) by {
            assert(0 <= index_of(width, x, y) < width * height) by (nonlinear_arith)
                requires x < width, y < height;
        }
        r
    }

    pub fn width(&self) -> (r: u32)
        ensures
            r == self.width_spec(),
    {
        buffer_dimensions(&self.img).0
    }

    pub fn height(&self) -> (r: u32)
        ensures
            r == self.height_spec(),
    {
        buffer_dimensions(&self.img).1
    }

    /// The pixel in column `x` of row `y`, counted from the top.
    pub fn pixel(&self, x: u32, y: u32) -> (r: (u8, u8, u8))
        requires
            self.wf(),
            x < self.width_spec(),
            y < self.height_spec(),
        ensures
            r == self.pixel_spec(x, y),
    {
        buffer_pixel(&self.img, x, y)
    }

    /// Writes the pixel in column `x` of row `y`, counted from the top;
    /// every other pixel keeps its value.
    pub fn set_pixel(&mut self, x: u32, y: u32, rgb: (u8, u8, u8))
        requires
            old(self).wf(),
            x < old(self).width_spec(),
            y < old(self).height_spec(),
        ensures
            final(self).wf(),
            final(self).width_spec() == old(self).width_spec(),
            final(self).height_spec() == old(self).height_spec(),
            final(self).pixel_spec(x, y) == rgb,
            forall|a: u32, b: u32|
                a < old(self).width_spec() && b < old(self).height_spec() && (a != x || b != y)
                    ==> #[trigger] final(self).pixel_spec(a, b) == old(self).pixel_spec(a, b),
    {
        let ghost w = self.width_spec();
        let ghost h = self.height_spec();
        buffer_put_pixel(&mut self.img, x, y, rgb);
        assert(0 <= index_of(w, x, y) < w * h) by (nonlinear_arith)
            requires x < w, y < h;
        assert forall|a: u32, b: u32|
            a < w && b < h && (a != x || b != y)
                implies #[trigger] self.pixel_spec(a, b) == old(self).pixel_spec(a, b) by {
            assert(0 <= index_of(w, a, b) < w * h) by (nonlinear_arith)
                requires a < w, b < h;
            assert(index_of(w, a, b) != index_of(w, x, y)) by (nonlinear_arith)
                requires a < w, x < w, a != x || b != y;
        }
    }

    /// Writes the pixel the renderer computed for column `i` of its row `j`,
    /// rows counted upward from the bottom of the picture.
    pub fn set_traced(&mut self, i: u32, j: u32, rgb: (u8, u8, u8))
        requires
            old(self).wf(),
            i < old(self).width_spec(),
            j < old(self).height_spec(),
        ensures
            final(self).wf(),
            final(self).width_spec() == old(self).width_spec(),
            final(self).height_spec() == old(self).height_spec(),
            final(self).pixel_spec(i, picture_row(j, old(self).height_spec())) == rgb,
            forall|a: u32, b: u32|
                a < old(self).width_spec() && b < old(self).height_spec() && (a != i || b
                    != picture_row(j, old(self).height_spec())) ==> #[trigger] final(self).pixel_spec(a, b)
                    == old(self).pixel_spec(a, b),
    {
        let h: u32 = self.height();
        self.set_pixel(i, h - 1 - j, rgb);
    }

    /// The channels of all pixels, row-major from the top-left corner,
    /// red, green and blue for each.
    pub fn into_raw(self) -> (r: Vec<u8>)
        requires
            self.wf(),
        ensures
            r@.len() == 3 * self.pixels().len(),
            forall|k: int|
                0 <= k < self.pixels().len() ==> {
                    &&& r@[3 * k] == (#[trigger] self.pixels()[k]).0
                    &&& r@[3 * k + 1] == self.pixels()[k].1
                    &&& r@[3 * k + 2] == self.pixels()[k].2
                },
    {
        buffer_into_raw(self.img)
    }
}

/// Renders a `width` by `height` picture. The renderer's rows are visited
/// from the top of the picture (`j = height - 1`) down to `j = 0`, and in
/// each row the columns from `i = 0` upward; `shade(i, j)` is called once
/// for each pixel in that order, and its colour lands in column `i` of
/// picture row `height - 1 - j`.
pub fn render<F>(width: u32, height: u32, shade: F) -> (r: Canvas) where
    F: Fn(u32, u32) -> (u8, u8, u8),

    requires
        3 * width * height <= isize::MAX,
        forall|i: u32, j: u32| i < width && j < height ==> shade.requires((i, j)),
    ensures
        r.wf(),
        r.width_spec() == width,
        r.height_spec() == height,
        forall|x: u32, y: u32|
            x < width && y < height ==> shade.ensures(
                (x, picture_row(y, height)),
                #[trigger] r.pixel_spec(x, y),
            ),
{
    let mut canvas = Canvas::new(width, height);
    let mut row: u32 = 0;
    while row < height
        invariant
            3 * width * height <= isize::MAX,
            forall|i: u32, j: u32| i < width && j < height ==> shade.requires((i, j)),
            canvas.wf(),
            canvas.width_spec() == width,
            canvas.height_spec() == height,
            row <= height,
            forall|x: u32, y: u32|
                x < width && y < row ==> shade.ensures(
                    (x, picture_row(y, height)),
                    #[trigger] canvas.pixel_spec(x, y),
                ),
        decreases height - row,
    {
        let j: u32 = height - 1 - row;
        let mut i: u32 = 0;
        while i < width
            invariant
                forall|i: u32, j: u32| i < width && j < height ==> shade.requires((i, j)),
                canvas.wf(),
                canvas.width_spec() == width,
                canvas.height_spec() == height,
                row < height,
                j == height - 1 - row,
                i <= width,
                forall|x: u32, y: u32|
                    x < width && y < row ==> shade.ensures(
                        (x, picture_row(y, height)),
                        #[trigger] canvas.pixel_spec(x, y),
                    ),
                forall|x: u32|
                    x < i ==> shade.ensures(
                        (x, j),
                        #[trigger] canvas.pixel_spec(x, row),
                    ),
            decreases width - i,
        {
            let rgb = shade(i, j);
            canvas.set_traced(i, j, rgb);
            i = i + 1;
        }
        assert forall|x: u32, y: u32|
            x < width && y < row + 1 implies shade.ensures(
                (x, picture_row(y, height)),
                #[trigger] canvas.pixel_spec(x, y),
            ) by {
            if y == row {
                assert(picture_row(y, height) == j);
            }
        }
        row = row + 1;
    }
    canvas
}

} // verus!
