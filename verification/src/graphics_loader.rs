//! Images for textures: pixel data as the renderer takes it, RGBA bytes row
//! after row with the bottom row first.
use vstd::prelude::*;
use crate::scalar::{Scalar, is_ratio, is_product, is_floor, is_byte};

verus! {

/// The type `image::ImageFormat`: the file format of an encoded image.
#[verifier::external_type_specification]
#[verifier::external_body]
pub struct ExImageFormat(image::ImageFormat);

/// The type `image::ImageError`: why an image could not be decoded.
#[verifier::external_type_specification]
#[verifier::external_body]
pub struct ExImageError(image::ImageError);

/// An image buffer of the `image` crate with four bytes to the pixel:
/// `image::RgbaImage`.
#[verifier::external_body]
pub struct PixelBuffer {
    inner: image::RgbaImage,
}

/// The bytes of a buffer: the pixels row after row, top row first, each as
/// red, green, blue and alpha.
pub uninterp spec fn buffer_bytes(buffer: PixelBuffer) -> Seq<u8>;

/// The number of pixels in a row of a buffer.
pub uninterp spec fn buffer_width(buffer: PixelBuffer) -> u32;

/// What decoding `bytes` as an image of `format` gives: the RGBA bytes of
/// the picture with its width and height, or nothing where `bytes` are no
/// such image.
pub uninterp spec fn decoded_rgba(bytes: Seq<u8>, format: image::ImageFormat) -> Option<
    (Seq<u8>, u32, u32),
>;

/// `bytes` with the four bytes from `at` on replaced by `rgba`.
pub open spec fn with_pixel(bytes: Seq<u8>, at: int, rgba: [u8; 4]) -> Seq<u8> {
    bytes.update(at, rgba[0]).update(at + 1, rgba[1]).update(at + 2, rgba[2]).update(
        at + 3,
        rgba[3],
    )
}

/// `data`, cut into rows of `row` bytes, with the rows in reverse order.
pub open spec fn rows_reversed(data: Seq<u8>, row: int) -> Seq<u8> {
    Seq::new(data.len(), |i: int| data[(data.len() as int / row - 1 - i / row) * row + i % row])
}

/// Calls `image::ImageBuffer::new`: a buffer of `width` by `height` pixels
/// with every byte zero. The call panics where the buffer cannot be
/// allocated, so its size has to fit.
#[verifier::external_body]
fn new_buffer(width: u32, height: u32) -> (r: PixelBuffer)
    requires
        4 * width * height <= isize::MAX,
    ensures
        buffer_width(r) == width,
        buffer_bytes(r) == Seq::new((4 * width * height) as nat, |i: int| 0u8),
{
    PixelBuffer { inner: image::ImageBuffer::new(width, height) }
}

/// Calls `image::ImageBuffer::put_pixel`: the pixel in column `x` of row `y`
/// becomes `rgba`, which is to say the four bytes from `4 * (y * width + x)`
/// on. The call panics outside the buffer; a pixel is inside if its column
/// is below the width and its four bytes lie within the bytes of the buffer,
/// which are four for each pixel of each row.
#[verifier::external_body]
fn put_pixel(buffer: &mut PixelBuffer, x: u32, y: u32, rgba: [u8; 4])
    requires
        x < buffer_width(*old(buffer)),
        4 * (y * buffer_width(*old(buffer)) + x) + 4 <= buffer_bytes(*old(buffer)).len(),
    ensures
        buffer_width(*final(buffer)) == buffer_width(*old(buffer)),
        buffer_bytes(*final(buffer)) == with_pixel(
            buffer_bytes(*old(buffer)),
            4 * (y * buffer_width(*old(buffer)) + x),
            rgba,
        ),
{
    buffer.inner.put_pixel(x, y, image::Rgba(rgba))
}

/// Calls `image::ImageBuffer::into_raw`: the bytes of the buffer.
#[verifier::external_body]
fn into_raw(buffer: PixelBuffer) -> (r: Vec<u8>)
    ensures
        r@ == buffer_bytes(buffer),
{
    buffer.inner.into_raw()
}

/// Calls `glium::texture::RawImage2d::from_raw_rgba_reversed` and hands back
/// the data of the image it makes: the rows of `data`, each of `width`
/// pixels, last row first. The call panics on rows of no pixels.
#[verifier::external_body]
fn flip_rows(data: &[u8], width: u32, height: u32) -> (r: Vec<u8>)
    requires
        0 < width,
        4 * width <= usize::MAX,
        data@.len() == 4 * width * height,
    ensures
        r@ == rows_reversed(data@, 4 * width),
{
    glium::texture::RawImage2d::from_raw_rgba_reversed(data, (width, height)).data.into_owned()
}

/// Calls `image::load` on `bytes` and `image::DynamicImage::to_rgba8` on the
/// picture that comes out, and takes the picture apart: its RGBA bytes, four
/// for each pixel, with its width and height, or the error of the decoder.
/// What the decoder makes of given bytes is not stated, only named.
#[verifier::external_body]
fn decode_rgba(bytes: &[u8], format: image::ImageFormat) -> (r: Result<
    (Vec<u8>, u32, u32),
    image::ImageError,
>)
    ensures
        match r {
            Ok(d) => decoded_rgba(bytes@, format) == Some((d.0@, d.1, d.2)) && d.0@.len() == 4
                * d.1 * d.2,
            Err(_) => decoded_rgba(bytes@, format) is None,
        },
{
    let picture = image::load(std::io::Cursor::new(bytes), format)?.to_rgba8();
    let (width, height) = picture.dimensions();
    Ok((picture.into_raw(), width, height))
}

/// The pixel data of an image, as the renderer uploads it: `width * height`
/// pixels of four bytes, red, green, blue and alpha, bottom row first.
#[derive(Debug, Clone, PartialEq, Eq)]
pub struct RawImage {
    pub data: Vec<u8>,
    pub width: u32,
    pub height: u32,
}

/// Why no image was made.
#[derive(Debug, Clone, Copy, PartialEq, Eq)]
pub enum LoadError {
    /// The bytes are no image of the format named.
    Decode,
    /// The pixel data does not make rows of `width` pixels.
    Dimensions,
}

/// `data` holds `height` rows of `width` pixels, and a row holds something.
pub open spec fn fits(data: Seq<u8>, width: u32, height: u32) -> bool {
    &&& 0 < width
    &&& 4 * width <= usize::MAX
    &&& data.len() == 4 * width * height
}

/// The image that pixel data with the top row first makes, if it makes one.
pub open spec fn flipped(
    data: Seq<u8>,
    width: u32,
    height: u32,
    r: Result<RawImage, LoadError>,
) -> bool {
    match r {
        Ok(image) => {
            &&& fits(data, width, height)
            &&& image.width == width
            &&& image.height == height
            &&& image.data@ == rows_reversed(data, 4 * width)
        },
        Err(e) => !fits(data, width, height) && e == LoadError::Dimensions,
    }
}

/// `r` is the byte for the color channel `c`, a number from 0 to 1:
/// `c * 255`, rounded down to `floored`.
pub open spec fn channel_steps<S: Scalar>(c: S, top: S, scaled: S, floored: S, r: u8) -> bool {
    &&& is_ratio(255, 1, top)
    &&& is_product(c, top, scaled)
    &&& is_floor(scaled, floored)
    &&& is_byte(floored, r)
}

/// `r` is the byte for the color channel `c`: `floor(c * 255)`.
pub open spec fn is_channel<S: Scalar>(c: S, r: u8) -> bool {
    exists|top: S, scaled: S, floored: S| #[trigger] channel_steps(c, top, scaled, floored, r)
}

/// The pixel data of `pixels` pixels that are all `rgba`.
pub open spec fn solid(pixels: nat, rgba: [u8; 4]) -> Seq<u8> {
    Seq::new(4 * pixels, |i: int| rgba[i % 4])
}

/// `image` is the square of `SIDE` by `SIDE` opaque pixels of the color
/// with the channels `red`, `green` and `blue`.
pub open spec fn color_image_steps<S: Scalar>(
    color: [S; 3],
    red: u8,
    green: u8,
    blue: u8,
    image: RawImage,
) -> bool {
    &&& is_channel(color[0], red)
    &&& is_channel(color[1], green)
    &&& is_channel(color[2], blue)
    &&& image.width == SIDE
    &&& image.height == SIDE
    &&& image.data@ == solid((SIDE * SIDE) as nat, [red, green, blue, 255u8])
}

/// `image` is the image of one color: every pixel has the channels of
/// `color`, each `floor(c * 255)`, and is opaque.
pub open spec fn is_color_image<S: Scalar>(color: [S; 3], image: RawImage) -> bool {
    exists|red: u8, green: u8, blue: u8| #[trigger]
        color_image_steps(color, red, green, blue, image)
}

/// The side of an image of one color, in pixels.
pub const SIDE: u32 = 512;

/// The byte for the color channel `c`.
fn channel<S: Scalar>(c: S) -> (r: u8)
    ensures
        is_channel(c, r),
{
    let top = S::from_ratio(255, 1);
    let scaled = c.mul(top);
    let floored = scaled.floor();
    let r = floored.to_u8();
    assert(channel_steps(c, top, scaled, floored, r));
    r
}

/// Reversing the rows of pixels that are all alike changes nothing.
proof fn lemma_solid_rows_reversed(rgba: [u8; 4])
    ensures
        rows_reversed(solid((SIDE * SIDE) as nat, rgba), 4 * SIDE) == solid(
            (SIDE * SIDE) as nat,
            rgba,
        ),
{
    let data = solid((SIDE * SIDE) as nat, rgba);
    assert forall|i: int| 0 <= i < data.len() implies rows_reversed(data, 4 * SIDE)[i]
        == data[i] by {
        let row = i / 2048;
        let column = i % 2048;
        let j = (511 - row) * 2048 + column;
        assert(0 <= j < data.len());
        assert(j % 4 == i % 4);
    }
    assert(rows_reversed(data, 4 * SIDE) =~= data);
}

/// Makes the images that become textures.
pub struct GraphicsLoader {}

impl GraphicsLoader {
    /// The image that pixel data with the top row first makes: the same
    /// rows, bottom row first. There is none where the data does not hold
    /// `height` rows of `width` pixels, or where a row would be empty.
    pub fn from_raw_rgba_reversed(data: Vec<u8>, width: u32, height: u32) -> (r: Result<
        RawImage,
        LoadError,
    >)
        ensures
            flipped(data@, width, height, r),
    {
        if width == 0 || width as u128 * 4 > usize::MAX as u128 {
            return Err(LoadError::Dimensions);
        }
        assert((width as u128) * (height as u128) <= 0xffff_ffff * 0xffff_ffff) by (nonlinear_arith)
            requires
                width <= 0xffff_ffff,
                height <= 0xffff_ffff,
        ;
        let size: u128 = 4 * ((width as u128) * (height as u128));
        assert(size == 4 * width * height) by (nonlinear_arith)
            requires
                size == 4 * ((width as u128) * (height as u128)),
        ;
        if data.len() as u128 != size {
            return Err(LoadError::Dimensions);
        }
        let flipped = flip_rows(data.as_slice(), width, height);
        Ok(RawImage { data: flipped, width, height })
    }

    /// Decodes `bytes`, an image file of `format` held in memory, to the
    /// pixel data of the picture.
    pub fn load_image(bytes: &[u8], format: image::ImageFormat) -> (r: Result<RawImage, LoadError>)
        ensures
            match decoded_rgba(bytes@, format) {
                Some(d) => flipped(d.0, d.1, d.2, r),
                None => r == Err::<RawImage, LoadError>(LoadError::Decode),
            },
    {
        match decode_rgba(bytes, format) {
            Ok(d) => Self::from_raw_rgba_reversed(d.0, d.1, d.2),
            Err(_) => Err(LoadError::Decode),
        }
    }

    /// The image of `SIDE` by `SIDE` pixels of the one color `color`, whose
    /// channels are red, green and blue from 0 to 1.
    pub fn load_image_from_color<S: Scalar>(color: [S; 3]) -> (r: RawImage)
        ensures
            is_color_image(color, r),
    {
        let red = channel(color[0]);
        let green = channel(color[1]);
        let blue = channel(color[2]);
        let rgba: [u8; 4] = [red, green, blue, 255];
        let mut buffer = new_buffer(SIDE, SIDE);
        let mut y: u32 = 0;
        while y < SIDE
            invariant
                y <= 512,
                buffer_width(buffer) == 512,
                buffer_bytes(buffer).len() == 4 * 512 * 512,
                forall|i: int| 0 <= i < 4 * (512 * y) ==> buffer_bytes(buffer)[i] == rgba[i % 4],
            decreases 512 - y,
        {
            let mut x: u32 = 0;
            while x < SIDE
                invariant
                    y < 512,
                    x <= 512,
                    buffer_width(buffer) == 512,
                    buffer_bytes(buffer).len() == 4 * 512 * 512,
                    forall|i: int|
                        0 <= i < 4 * (512 * y + x) ==> buffer_bytes(buffer)[i] == rgba[i % 4],
                decreases 512 - x,
            {
                put_pixel(&mut buffer, x, y, rgba);
                x += 1;
            }
            y += 1;
        }
        let raw = into_raw(buffer);
        assert(raw@ =~= solid((SIDE * SIDE) as nat, rgba));
        let data = flip_rows(raw.as_slice(), SIDE, SIDE);
        proof {
            lemma_solid_rows_reversed(rgba);
        }
        let r = RawImage { data, width: SIDE, height: SIDE };
        assert(color_image_steps(color, red, green, blue, r));
        r
    }
}

} // verus!
