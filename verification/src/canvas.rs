//! Decoded images. The pixels live in an image buffer of the `image` crate.
//! The library reads and cuts it through the private functions below, each a
//! single call into that crate whose contract is assumed, not proved.

use vstd::prelude::*;
use crate::grid::{
    grid_height, grid_width, in_grid, is_grid, pixel_of_raw, rows_of_raw, sub_grid,
};
use crate::pixel::Pixel;

verus! {

/// `image::DynamicImage`: a decoded image of any colour model, carried
/// through as it is.
#[verifier::external_type_specification]
#[verifier::external_body]
pub struct ExDynamicImage(image::DynamicImage);

/// The pixels of a decoded image in 8-bit RGBA, as rows from top to bottom,
/// each row from left to right.
pub uninterp spec fn rgba_rows(decoded: image::DynamicImage) -> Seq<Seq<Pixel>>;

/// Whether the colour model of a decoded image carries an alpha channel.
pub uninterp spec fn carries_alpha(decoded: image::DynamicImage) -> bool;

/// `image::RgbaImage`: a buffer of 8-bit RGBA pixels. Proofs see nothing
/// inside it but what `pixel_rows` names.
#[verifier::external_body]
pub struct RgbaBuffer {
    inner: image::RgbaImage,
}

/// The pixels of a buffer as rows from top to bottom, each row from left to
/// right.
pub uninterp spec fn pixel_rows(buffer: RgbaBuffer) -> Seq<Seq<Pixel>>;

/// `ImageBuffer::from_raw` on a packed RGBA byte vector. It accepts the
/// vector iff four samples for each of `width * height` pixels fit in it
/// (and in `usize`); the pixel in column `x` of row `y` is then made of the
/// four samples that start at `4 * (y * width + x)`.
#[verifier::external_body]
fn buffer_from_raw(width: u32, height: u32, data: Vec<u8>) -> (made: Option<RgbaBuffer>)
    ensures
        made.is_some() == (4 * width <= usize::MAX && 4 * width * height <= data@.len()),
        made.is_some() ==> pixel_rows(made.unwrap()) == rows_of_raw(
            width as nat,
            height as nat,
            data@,
        ),
{
    match image::RgbaImage::from_raw(width, height, data) {
        Some(inner) => Some(RgbaBuffer { inner }),
        None => None,
    }
}

/// `ImageBuffer::width`: the number of pixels in every row.
#[verifier::external_body]
fn buffer_width(buffer: &RgbaBuffer) -> (width: u32)
    ensures
        forall|y: int|
            0 <= y < pixel_rows(*buffer).len() ==> (#[trigger] pixel_rows(*buffer)[y]).len()
                == width,
{
    buffer.inner.width()
}

/// `ImageBuffer::height`: the number of rows.
#[verifier::external_body]
fn buffer_height(buffer: &RgbaBuffer) -> (height: u32)
    ensures
        pixel_rows(*buffer).len() == height,
{
    buffer.inner.height()
}

/// `ImageBuffer::get_pixel`: the pixel in column `x` of row `y`. The position
/// must lie inside the image, since the call panics elsewhere.
#[verifier::external_body]
fn buffer_pixel(buffer: &RgbaBuffer, x: u32, y: u32) -> (pixel: Pixel)
    requires
        in_grid(pixel_rows(*buffer), x as int, y as int),
    ensures
        pixel == pixel_rows(*buffer)[y as int][x as int],
{
    let channels = buffer.inner.get_pixel(x, y).0;
    Pixel { red: channels[0], green: channels[1], blue: channels[2], alpha: channels[3] }
}

/// `imageops::crop_imm` followed by `SubImage::to_image`: a copy of the
/// rectangle that starts at column `x` of row `y`. The rectangle must lie
/// inside the image; the outside function would otherwise shrink it.
#[verifier::external_body]
fn buffer_crop(buffer: &RgbaBuffer, x: u32, y: u32, width: u32, height: u32) -> (cut: RgbaBuffer)
    requires
        y + height <= pixel_rows(*buffer).len(),
        forall|j: int|
            0 <= j < pixel_rows(*buffer).len() ==> x + width <= (#[trigger] pixel_rows(
                *buffer,
            )[j]).len(),
    ensures
        pixel_rows(cut) == sub_grid(
            pixel_rows(*buffer),
            x as int,
            y as int,
            width as nat,
            height as nat,
        ),
{
    RgbaBuffer { inner: image::imageops::crop_imm(&buffer.inner, x, y, width, height).to_image() }
}

/// `DynamicImage::color` followed by `ColorType::has_alpha`: whether the
/// colour model of the image carries an alpha channel.
#[verifier::external_body]
pub(crate) fn decoded_has_alpha(decoded: &image::DynamicImage) -> (found: bool)
    ensures
        found == carries_alpha(*decoded),
{
    decoded.color().has_alpha()
}

/// `DynamicImage::into_rgba8`: the image converted to 8-bit RGBA. Which value
/// each pixel of another colour model becomes is that crate's business;
/// `rgba_rows` names the outcome.
#[verifier::external_body]
fn decoded_into_buffer(decoded: image::DynamicImage) -> (buffer: RgbaBuffer)
    ensures
        pixel_rows(buffer) == rgba_rows(decoded),
{
    RgbaBuffer { inner: decoded.into_rgba8() }
}

/// `DynamicImage::ImageRgba8`: the buffer as a decoded image. Its colour model
/// is 8-bit RGBA, which carries alpha, and converting it to 8-bit RGBA gives
/// the buffer back.
#[verifier::external_body]
fn buffer_into_decoded(buffer: RgbaBuffer) -> (decoded: image::DynamicImage)
    ensures
        rgba_rows(decoded) == pixel_rows(buffer),
        carries_alpha(decoded),
{
    image::DynamicImage::ImageRgba8(buffer.inner)
}

/// `ImageBuffer::into_raw`: the samples that the image was made of, four for
/// each pixel, row after row from the top.
#[verifier::external_body]
fn buffer_into_raw(buffer: RgbaBuffer) -> (data: Vec<u8>)
    ensures
        forall|x: int, y: int| #[trigger]
            in_grid(pixel_rows(buffer), x, y) ==> 4 * (y * pixel_rows(buffer)[y].len() + x) + 4
                <= data@.len() && pixel_rows(buffer)[y][x] == pixel_of_raw(
                data@,
                y * pixel_rows(buffer)[y].len() + x,
            ),
{
    buffer.inner.into_raw()
}

/// A decoded image: a grid of RGBA pixels with at least one row and one
/// column.
pub struct Canvas {
    buffer: RgbaBuffer,
}

impl View for Canvas {
    type V = Seq<Seq<Pixel>>;

    closed spec fn view(&self) -> Seq<Seq<Pixel>> {
        pixel_rows(self.buffer)
    }
}

impl Canvas {
    #[verifier::type_invariant]
    spec fn inv(self) -> bool {
        is_grid(pixel_rows(self.buffer))
    }

    /// Builds an image from packed, row-major RGBA samples. The image must
    /// have at least one pixel, and `data` must hold four samples for each.
    pub fn from_raw(width: u32, height: u32, data: Vec<u8>) -> (made: Option<Canvas>)
        ensures
            made is Some <==> width >= 1 && height >= 1 && 4 * width * height <= data@.len(),
            made matches Some(canvas) ==> canvas@ == rows_of_raw(
                width as nat,
                height as nat,
                data@,
            ) && is_grid(canvas@),
    {
        if width == 0 || height == 0 {
            return None;
        }
        let len = data.len();
        proof {
            assert(4 * width * height <= len ==> 4 * width <= usize::MAX) by (nonlinear_arith)
                requires
                    height >= 1,
                    width >= 1,
                    len <= usize::MAX,
            ;
        }
        match buffer_from_raw(width, height, data) {
            Some(buffer) => {
                Some(Canvas { buffer })
            },
            None => None,
        }
    }

    /// The pixels of a decoded image, converted to 8-bit RGBA, if it has any.
    pub fn from_decoded(decoded: image::DynamicImage) -> (made: Option<Canvas>)
        ensures
            made is Some <==> is_grid(rgba_rows(decoded)),
            made matches Some(canvas) ==> canvas@ == rgba_rows(decoded),
    {
        let buffer = decoded_into_buffer(decoded);
        let width = buffer_width(&buffer);
        let height = buffer_height(&buffer);
        if width == 0 || height == 0 {
            return None;
        }
        Some(Canvas { buffer })
    }

    /// The image as the `image` crate holds decoded images, ready to be
    /// encoded.
    pub fn into_decoded(self) -> (decoded: image::DynamicImage)
        ensures
            rgba_rows(decoded) == self@,
            carries_alpha(decoded),
    {
        buffer_into_decoded(self.buffer)
    }

    /// A copy of the rectangle that starts at column `x` of row `y` and spans
    /// `width` columns and `height` rows, if it holds a pixel and lies
    /// inside the image.
    pub fn crop(&self, x: u32, y: u32, width: u32, height: u32) -> (cut: Option<Canvas>)
        ensures
            cut is Some <==> width >= 1 && height >= 1 && x + width <= grid_width(self@) && y
                + height <= grid_height(self@),
            cut matches Some(canvas) ==> canvas@ == sub_grid(
                self@,
                x as int,
                y as int,
                width as nat,
                height as nat,
            ) && is_grid(canvas@),
    {
        proof {
            use_type_invariant(self);
        }
        let full_width = buffer_width(&self.buffer);
        let full_height = buffer_height(&self.buffer);
        if width == 0 || height == 0 || x > full_width || width > full_width - x || y > full_height
            || height > full_height - y {
            return None;
        }
        let buffer = buffer_crop(&self.buffer, x, y, width, height);
        Some(Canvas { buffer })
    }

    /// The packed, row-major RGBA samples of the image. They may be followed
    /// by samples that belong to no pixel.
    pub fn into_raw(self) -> (data: Vec<u8>)
        ensures
            4 * grid_width(self@) * grid_height(self@) <= data@.len(),
            rows_of_raw(grid_width(self@), grid_height(self@), data@) == self@,
    {
        proof {
            use_type_invariant(&self);
        }
        let ghost rows = pixel_rows(self.buffer);
        let data = buffer_into_raw(self.buffer);
        proof {
            let width = grid_width(rows) as int;
            let height = grid_height(rows) as int;
            assert(in_grid(rows, width - 1, height - 1));
            assert(4 * ((height - 1) * width + (width - 1)) + 4 == 4 * width * height)
                by (nonlinear_arith);
            let packed = rows_of_raw(width as nat, height as nat, data@);
            assert forall|y: int| 0 <= y < height implies packed[y] == rows[y] by {
                assert forall|x: int| 0 <= x < width implies packed[y][x] == rows[y][x] by {
                    assert(in_grid(rows, x, y));
                }
            }
        }
        data
    }

    /// The number of columns.
    pub fn width(&self) -> (width: u32)
        ensures
            width == grid_width(self@),
            width >= 1,
            is_grid(self@),
    {
        proof {
            use_type_invariant(self);
        }
        let width = buffer_width(&self.buffer);
        width
    }

    /// The number of rows.
    pub fn height(&self) -> (height: u32)
        ensures
            height == grid_height(self@),
            height >= 1,
            is_grid(self@),
    {
        proof {
            use_type_invariant(self);
        }
        buffer_height(&self.buffer)
    }

    /// The pixel in column `x` of row `y` of the image.
    pub fn get_pixel(&self, x: u32, y: u32) -> (pixel: Pixel)
        requires
            in_grid(self@, x as int, y as int),
        ensures
            pixel == self@[y as int][x as int],
    {
        buffer_pixel(&self.buffer, x, y)
    }

    /// The pixel in column `x` of row `y`, if the image has one there.
    pub fn get_pixel_checked(&self, x: u32, y: u32) -> (found: Option<Pixel>)
        ensures
            found is Some <==> in_grid(self@, x as int, y as int),
            found matches Some(pixel) ==> pixel == self@[y as int][x as int],
    {
        proof {
            use_type_invariant(self);
        }
        if y < buffer_height(&self.buffer) && x < buffer_width(&self.buffer) {
            Some(buffer_pixel(&self.buffer, x, y))
        } else {
            None
        }
    }
}

} // verus!
