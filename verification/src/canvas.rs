//! The pixel buffer that overlays are drawn into: an RGBA image of the
//! `image` crate, seen through its size and the color at each coordinate.

use vstd::prelude::*;
use crate::color::Color;

verus! {

/// A 2-D grid of RGBA pixels, held in an `image::RgbaImage`.
#[verifier::external_body]
pub struct Canvas {
    image: image::RgbaImage,
}

/// The number of pixel columns of a canvas.
pub uninterp spec fn canvas_width(canvas: Canvas) -> nat;

/// The number of pixel rows of a canvas.
pub uninterp spec fn canvas_height(canvas: Canvas) -> nat;

/// The colors of a canvas by coordinate `(x, y)`: `x` counts columns from the
/// left edge, `y` rows from the top edge.
pub uninterp spec fn canvas_pixels(canvas: Canvas) -> Map<(int, int), Color>;

/// The index in a row-major RGBA byte buffer of the first channel of the
/// pixel `(x, y)`, for rows of `width` pixels.
pub open spec fn pixel_offset(width: int, x: int, y: int) -> int {
    4 * (y * width + x)
}

/// The color whose four channels stand at `offset` in a byte buffer.
pub open spec fn color_at(data: Seq<u8>, offset: int) -> Color {
    Color {
        red: data[offset],
        green: data[offset + 1],
        blue: data[offset + 2],
        alpha: data[offset + 3],
    }
}

/// Whether a buffer of `len` bytes can hold an image of `width` by `height`
/// RGBA pixels: the bytes of one row can be counted in a `usize`, and the
/// buffer has four bytes for every pixel.
pub open spec fn holds_image(width: nat, height: nat, len: nat) -> bool {
    4 * width <= usize::MAX && 4 * width * height <= len
}

/// Calls `ImageBuffer::from_raw`. Trusted: it accepts the buffer exactly when
/// the bytes of one row can be counted in a `usize` and the buffer holds at
/// least four bytes for each of the `width * height` pixels; the image then
/// has that size and reads its pixels from the buffer row by row, four bytes
/// each.
#[verifier::external_body]
fn image_from_raw(width: u32, height: u32, data: Vec<u8>) -> (r: Option<Canvas>)
    ensures
        r is Some <==> holds_image(width as nat, height as nat, data@.len()),
        r matches Some(canvas) ==> {
            &&& canvas_width(canvas) == width
            &&& canvas_height(canvas) == height
            &&& forall|x: int, y: int|
                0 <= x < width && 0 <= y < height ==> #[trigger] canvas_pixels(canvas)[(x, y)]
                    == color_at(data@, pixel_offset(width as int, x, y))
        },
{
    match image::RgbaImage::from_raw(width, height, data) {
        Some(image) => Some(Canvas { image }),
        None => None,
    }
}

/// Calls `ImageBuffer::into_raw`. Trusted: the buffer that comes out holds the
/// canvas's pixels row by row, four bytes each.
#[verifier::external_body]
fn image_into_raw(canvas: Canvas) -> (data: Vec<u8>)
    ensures
        data@.len() >= 4 * canvas_width(canvas) * canvas_height(canvas),
        forall|x: int, y: int|
            0 <= x < canvas_width(canvas) && 0 <= y < canvas_height(canvas) ==> color_at(
                data@,
                pixel_offset(canvas_width(canvas) as int, x, y),
            ) == #[trigger] canvas_pixels(canvas)[(x, y)],
{
    canvas.image.into_raw()
}

/// Calls `ImageBuffer::width`. Trusted: it returns the number of columns.
#[verifier::external_body]
fn image_width(canvas: &Canvas) -> (w: u32)
    ensures
        w == canvas_width(*canvas),
{
    canvas.image.width()
}

/// Calls `ImageBuffer::height`. Trusted: it returns the number of rows.
#[verifier::external_body]
fn image_height(canvas: &Canvas) -> (h: u32)
    ensures
        h == canvas_height(*canvas),
{
    canvas.image.height()
}

/// Calls `ImageBuffer::get_pixel`, which panics outside the image. Trusted:
/// inside it returns the color stored at `(x, y)`.
#[verifier::external_body]
pub(crate) fn image_get_pixel(canvas: &Canvas, x: u32, y: u32) -> (c: Color)
    requires
        canvas.in_bounds(x as int, y as int),
    ensures
        c == canvas_pixels(*canvas)[(x as int, y as int)],
{
    let p = canvas.image.get_pixel(x, y);
    Color { red: p.0[0], green: p.0[1], blue: p.0[2], alpha: p.0[3] }
}

/// Calls `ImageBuffer::put_pixel`, which panics outside the image. Trusted:
/// inside it stores `c` at `(x, y)` and changes neither the size of the image
/// nor any other of its pixels.
#[verifier::external_body]
pub(crate) fn image_put_pixel(canvas: &mut Canvas, x: u32, y: u32, c: Color)
    requires
        old(canvas).in_bounds(x as int, y as int),
    ensures
        canvas_width(*final(canvas)) == canvas_width(*old(canvas)),
        canvas_height(*final(canvas)) == canvas_height(*old(canvas)),
        canvas_pixels(*final(canvas))[(x as int, y as int)] == c,
        forall|i: int, j: int|
            old(canvas).in_bounds(i, j) && (i != x || j != y) ==> #[trigger] canvas_pixels(
                *final(canvas),
            )[(i, j)] == canvas_pixels(*old(canvas))[(i, j)],
{
    canvas.image.put_pixel(x, y, image::Rgba([c.red, c.green, c.blue, c.alpha]));
}

/// The source coordinate that the nearest-neighbor resize of the `image` crate
/// reads for the output coordinate `i`, along an axis that is resized from
/// `len` to `new_len` pixels.
pub uninterp spec fn nearest_source(len: nat, new_len: nat, i: nat) -> nat;

/// A source coordinate as the sampling leaves it: inside the `len` pixels of
/// the source.
pub open spec fn clamp_to(source: nat, len: nat) -> nat {
    if source < len {
        source
    } else {
        (len - 1) as nat
    }
}

/// The source coordinate that a nearest-neighbor resize reads for the output
/// coordinate `i`, along an axis that is resized from `len` to `new_len`.
pub open spec fn sampled(len: nat, new_len: nat, i: nat) -> nat {
    clamp_to(nearest_source(len, new_len, i), len)
}

/// The length that is left of a window of `len` pixels that starts at `offset`
/// in an axis of `full` pixels, once the window is cut off at the far edge.
pub open spec fn cropped_len(offset: nat, len: nat, full: nat) -> nat {
    let start = if offset < full { offset } else { full };
    if len <= full - start {
        len
    } else {
        (full - start) as nat
    }
}

/// Whether a buffer of `width` by `height` RGBA pixels can be allocated at
/// all: the bytes of one row can be counted in a `usize`, and a `Vec` holds
/// at most `isize::MAX` bytes.
pub open spec fn allocatable(width: nat, height: nat) -> bool {
    4 * width <= usize::MAX && 4 * width * height <= isize::MAX
}

/// Calls `image::imageops::resize` with `FilterType::Nearest`. Trusted: the
/// new image has the size asked for, and each of its pixels is a copy of the
/// source pixel whose coordinates the sampling picks, axis by axis, clamped to
/// the source. The outside code samples into a buffer as wide as the source
/// and as high as the result, then into the result; it panics where one of
/// the two cannot be allocated, and reads outside an empty source.
#[verifier::external_body]
pub(crate) fn image_resize_nearest(canvas: &Canvas, width: u32, height: u32) -> (r: Canvas)
    requires
        canvas_width(*canvas) > 0,
        canvas_height(*canvas) > 0,
        allocatable(canvas_width(*canvas), height as nat),
        allocatable(width as nat, height as nat),
    ensures
        canvas_width(r) == width,
        canvas_height(r) == height,
        forall|x: int, y: int|
            0 <= x < width && 0 <= y < height ==> #[trigger] canvas_pixels(r)[(x, y)]
                == canvas_pixels(*canvas)[(
                clamp_to(
                    nearest_source(canvas_width(*canvas), width as nat, x as nat),
                    canvas_width(*canvas),
                ) as int,
                clamp_to(
                    nearest_source(canvas_height(*canvas), height as nat, y as nat),
                    canvas_height(*canvas),
                ) as int,
            )],
{
    let filter = image::imageops::FilterType::Nearest;
    Canvas { image: image::imageops::resize(&canvas.image, width, height, filter) }
}

/// Calls `image::imageops::crop` and copies the view with
/// `SubImage::to_image`. Trusted: the window starts at `(x, y)`, moved back to
/// the far edge where it starts past it, and is cut off at the far edges; the
/// new image holds the pixels of the source inside that window.
#[verifier::external_body]
pub(crate) fn image_crop(canvas: Canvas, x: u32, y: u32, width: u32, height: u32) -> (r: Canvas)
    ensures
        canvas_width(r) == cropped_len(x as nat, width as nat, canvas_width(canvas)),
        canvas_height(r) == cropped_len(y as nat, height as nat, canvas_height(canvas)),
        forall|i: int, j: int|
            0 <= i < canvas_width(r) && 0 <= j < canvas_height(r) ==> #[trigger] canvas_pixels(
                r,
            )[(i, j)] == canvas_pixels(canvas)[(
                i + if x < canvas_width(canvas) { x as int } else { canvas_width(canvas) as int },
                j + if y < canvas_height(canvas) { y as int } else { canvas_height(canvas) as int },
            )],
{
    let mut image = canvas.image;
    Canvas { image: image::imageops::crop(&mut image, x, y, width, height).to_image() }
}

impl Canvas {
    /// Whether `(x, y)` is a coordinate of this canvas.
    pub open spec fn in_bounds(self, x: int, y: int) -> bool {
        0 <= x < canvas_width(self) && 0 <= y < canvas_height(self)
    }

    /// The color at `(x, y)`.
    pub open spec fn pixel(self, x: int, y: int) -> Color {
        canvas_pixels(self)[(x, y)]
    }

    /// Takes over a row-major RGBA byte buffer as a canvas of `width` by
    /// `height` pixels; `None` when the buffer cannot hold an image of that
    /// size.
    pub fn from_raw(width: u32, height: u32, data: Vec<u8>) -> (r: Option<Canvas>)
        ensures
            r is Some <==> holds_image(width as nat, height as nat, data@.len()),
            r matches Some(canvas) ==> {
                &&& canvas_width(canvas) == width
                &&& canvas_height(canvas) == height
                &&& forall|x: int, y: int|
                    0 <= x < width && 0 <= y < height ==> #[trigger] canvas.pixel(x, y)
                        == color_at(data@, pixel_offset(width as int, x, y))
            },
    {
        image_from_raw(width, height, data)
    }

    /// Gives the pixels back as a row-major RGBA byte buffer.
    pub fn into_raw(self) -> (data: Vec<u8>)
        ensures
            data@.len() >= 4 * canvas_width(self) * canvas_height(self),
            forall|x: int, y: int|
                0 <= x < canvas_width(self) && 0 <= y < canvas_height(self) ==> color_at(
                    data@,
                    pixel_offset(canvas_width(self) as int, x, y),
                ) == #[trigger] self.pixel(x, y),
    {
        image_into_raw(self)
    }

    /// The number of pixel columns.
    pub fn width(&self) -> (w: u32)
        ensures
            w == canvas_width(*self),
    {
        image_width(self)
    }

    /// The number of pixel rows.
    pub fn height(&self) -> (h: u32)
        ensures
            h == canvas_height(*self),
    {
        image_height(self)
    }

    /// The color at `(x, y)`, or `None` outside the canvas.
    pub fn get_pixel(&self, x: u32, y: u32) -> (r: Option<Color>)
        ensures
            r == if self.in_bounds(x as int, y as int) {
                Some(self.pixel(x as int, y as int))
            } else {
                None
            },
    {
        if x < image_width(self) && y < image_height(self) {
            Some(image_get_pixel(self, x, y))
        } else {
            None
        }
    }

    /// Stores `c` at `(x, y)` and reports whether the coordinate lies inside
    /// the canvas; outside it nothing changes.
    pub fn put_pixel(&mut self, x: u32, y: u32, c: Color) -> (written: bool)
        ensures
            written == old(self).in_bounds(x as int, y as int),
            !written ==> *final(self) == *old(self),
            canvas_width(*final(self)) == canvas_width(*old(self)),
            canvas_height(*final(self)) == canvas_height(*old(self)),
            forall|i: int, j: int|
                old(self).in_bounds(i, j) ==> #[trigger] final(self).pixel(i, j) == if i == x && j
                    == y {
                    c
                } else {
                    old(self).pixel(i, j)
                },
    {
        if x < image_width(self) && y < image_height(self) {
            image_put_pixel(self, x, y, c);
            true
        } else {
            false
        }
    }
}

} // verus!
