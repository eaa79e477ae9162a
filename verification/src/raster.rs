//! Rasterization of a colour ramp into an RGBA preview image.
//!
//! The image is a one-dimensional ramp stretched vertically: it starts out
//! filled with a base colour, and the colour sampled for a pixel column is
//! alpha-composited over every pixel of that column.

use vstd::arithmetic::div_mod::lemma_fundamental_div_mod_converse;
use vstd::prelude::*;

verus! {

/// An RGBA image with 8 bits per channel, held in an `image::RgbaImage`.
#[verifier::external_body]
pub struct PixelBuffer {
    buffer: image::RgbaImage,
}

/// Width and height of the image in a pixel buffer.
pub uninterp spec fn buffer_size(buffer: PixelBuffer) -> (nat, nat);

/// The pixels that a pixel buffer holds, row by row; each pixel is its four
/// channels in the order red, green, blue, alpha.
pub uninterp spec fn buffer_pixels(buffer: PixelBuffer) -> Seq<Seq<u8>>;

/// What `image::Pixel::blend` leaves in an `Rgba<u8>` pixel `under` when the
/// pixel `over`, which is neither fully transparent nor fully opaque, is
/// blended over it.
pub uninterp spec fn blended(under: Seq<u8>, over: Seq<u8>) -> Seq<u8>;

/// The colour `over` alpha-composited over the colour `under`.
///
/// A fully transparent colour leaves `under` as it is and a fully opaque one
/// replaces it; anything between is blended.
pub open spec fn composite(under: Seq<u8>, over: Seq<u8>) -> Seq<u8> {
    if over[3] == 0 {
        under
    } else if over[3] == 255 {
        over
    } else {
        blended(under, over)
    }
}

/// The bytes of a row-major RGBA image with the given pixels.
pub open spec fn raw_bytes(pixels: Seq<Seq<u8>>) -> Seq<u8> {
    Seq::new(4 * pixels.len(), |b: int| pixels[b / 4][b % 4])
}

/// Calls `image::ImageBuffer::from_pixel`. It computes the length of the
/// buffer as four times the width, times the height, and panics when either
/// product overflows or the buffer would be larger than a vector can be. The
/// new image has the given dimensions and every pixel of it is `color`.
#[verifier::external_body]
fn buffer_from_pixel(width: u32, height: u32, color: [u8; 4]) -> (buffer: PixelBuffer)
    requires
        4 * width <= usize::MAX,
        4 * (width * height) <= isize::MAX,
    ensures
        buffer_size(buffer) == (width as nat, height as nat),
        buffer_pixels(buffer) == Seq::new((width * height) as nat, |k: int| color@),
{
    PixelBuffer { buffer: image::ImageBuffer::from_pixel(width, height, image::Rgba(color)) }
}

/// Calls `image::ImageBuffer::get_pixel`, which panics outside the image.
/// The pixel `(x, y)` is entry `y * width + x` of the pixels.
#[verifier::external_body]
fn buffer_get_pixel(buffer: &PixelBuffer, x: u32, y: u32) -> (color: [u8; 4])
    requires
        x < buffer_size(*buffer).0,
        y < buffer_size(*buffer).1,
    ensures
        color@ == buffer_pixels(*buffer)[y * buffer_size(*buffer).0 + x],
{
    buffer.buffer.get_pixel(x, y).0
}

/// Calls `image::ImageBuffer::put_pixel`, which panics outside the image.
/// The pixel `(x, y)` becomes `color`; the dimensions and the other pixels
/// stay as they are.
#[verifier::external_body]
fn buffer_put_pixel(buffer: &mut PixelBuffer, x: u32, y: u32, color: [u8; 4])
    requires
        x < buffer_size(*old(buffer)).0,
        y < buffer_size(*old(buffer)).1,
    ensures
        buffer_size(*final(buffer)) == buffer_size(*old(buffer)),
        buffer_pixels(*final(buffer)) == buffer_pixels(*old(buffer)).update(
            y * buffer_size(*old(buffer)).0 + x,
            color@,
        ),
{
    buffer.buffer.put_pixel(x, y, image::Rgba(color));
}

/// Calls `image::ImageBuffer::into_raw` on a buffer that
/// `image::ImageBuffer::from_pixel` made: the result is the channels of all
/// pixels, row by row.
#[verifier::external_body]
fn buffer_into_raw(buffer: PixelBuffer) -> (raw: Vec<u8>)
    ensures
        raw@ == raw_bytes(buffer_pixels(buffer)),
{
    buffer.buffer.into_raw()
}

/// Calls `image::Pixel::blend` on `Rgba<u8>` pixels. It returns `under` when
/// the alpha of `over` is 0 and `over` when that alpha is 255; otherwise the
/// result is computed in floating point from the two pixels alone.
#[verifier::external_body]
fn blend_pixel(under: [u8; 4], over: [u8; 4]) -> (out: [u8; 4])
    ensures
        out@ == (if over@[3] == 0 {
            under@
        } else if over@[3] == 255 {
            over@
        } else {
            blended(under@, over@)
        }),
{
    let mut pixel = image::Rgba(under);
    image::Pixel::blend(&mut pixel, &image::Rgba(over));
    pixel.0
}

/// An RGBA image with 8 bits per channel: `data` holds the channels of the
/// pixels row by row, four bytes for each pixel.
#[derive(Debug, PartialEq, Eq)]
pub struct GradientImage {
    pub width: u32,
    pub height: u32,
    pub data: Vec<u8>,
}

/// Why a gradient image cannot be rasterized.
#[derive(Clone, Copy, Debug, PartialEq, Eq, Structural)]
pub enum RasterError {
    /// The bytes of a row, or of the whole image, would not fit in a vector.
    ImageTooLarge,
    /// The number of column colours is not the width of the image.
    ColumnCount,
}

/// Whether the bytes of a `width x height` image fit in a vector: a row of
/// four bytes for each pixel can be counted, and all rows together stay
/// within the largest allocation.
pub open spec fn image_fits(width: int, height: int) -> bool {
    &&& 4 * width <= usize::MAX
    &&& 4 * (width * height) <= isize::MAX
}

/// Pixels of the `width x height` image of a ramp: the pixel `k` lies in
/// column `k % width` and is the colour of that column over the base colour.
pub open spec fn ramp_pixels(width: int, height: int, base: Seq<u8>, columns: Seq<[u8; 4]>) -> Seq<
    Seq<u8>,
> {
    Seq::new((width * height) as nat, |k: int| composite(base, columns[k % width]@))
}

/// The pixel `(x, y)` of a row-major image is entry `y * width + x` of its
/// pixels, and that entry lies in column `x`.
proof fn lemma_pixel_index(width: int, height: int, x: int, y: int)
    requires
        0 <= x < width,
        0 <= y < height,
    ensures
        0 <= y * width,
        y * width + x < width * height,
        (y + 1) * width == y * width + width,
        (y * width + x) % width == x,
{
    assert(0 <= y * width && (y + 1) * width <= width * height && (y + 1) * width == y * width
        + width) by (nonlinear_arith)
        requires
            0 <= y < height,
            0 <= width,
    ;
    lemma_fundamental_div_mod_converse(y * width + x, width, y, x);
}

/// Channel `channel` of the pixel `(x, y)` of an image stands at byte
/// `4 * (y * width + x) + channel`; in the image of a ramp it is that channel
/// of the colour of column `x` over the base colour, whatever the row.
pub proof fn lemma_ramp_byte(
    width: int,
    height: int,
    base: Seq<u8>,
    columns: Seq<[u8; 4]>,
    x: int,
    y: int,
    channel: int,
)
    requires
        0 <= x < width,
        0 <= y < height,
        0 <= channel < 4,
    ensures
        0 <= 4 * (y * width + x) + channel < raw_bytes(
            ramp_pixels(width, height, base, columns),
        ).len(),
        raw_bytes(ramp_pixels(width, height, base, columns))[4 * (y * width + x) + channel]
            == composite(base, columns[x]@)[channel],
{
    lemma_pixel_index(width, height, x, y);
}

/// Rasterizes a colour ramp: `columns[x]` is the colour sampled for pixel
/// column `x`, and it is composited over `base` in every row of the image.
///
/// An image whose bytes would not fit in a vector is refused, also where it
/// has no rows; otherwise there has to be exactly one colour for each column.
pub fn rasterize_gradient(width: u32, height: u32, base: [u8; 4], columns: &Vec<[u8; 4]>) -> (result:
    Result<GradientImage, RasterError>)
    ensures
        match result {
            Ok(image) => {
                &&& image_fits(width as int, height as int)
                &&& columns@.len() == width
                &&& image.width == width
                &&& image.height == height
                &&& image.data@ == raw_bytes(
                    ramp_pixels(width as int, height as int, base@, columns@),
                )
            },
            Err(RasterError::ImageTooLarge) => !image_fits(width as int, height as int),
            Err(RasterError::ColumnCount) => image_fits(width as int, height as int)
                && columns@.len() != width,
        },
{
    assert(width * height <= u64::MAX) by (nonlinear_arith)
        requires
            0 <= width <= u32::MAX,
            0 <= height <= u32::MAX,
    ;
    if width as u64 > (usize::MAX as u64) / 4 {
        return Err(RasterError::ImageTooLarge);
    }
    let pixel_count: u64 = width as u64 * height as u64;
    if pixel_count > (isize::MAX as u64) / 4 {
        return Err(RasterError::ImageTooLarge);
    }
    if columns.len() != width as usize {
        return Err(RasterError::ColumnCount);
    }
    let mut buffer = buffer_from_pixel(width, height, base);
    let mut y: u32 = 0;
    while y < height
        invariant
            y <= height,
            columns@.len() == width,
            buffer_size(buffer) == (width as nat, height as nat),
            buffer_pixels(buffer).len() == width * height,
            forall|k: int|
                0 <= k < y * width ==> #[trigger] buffer_pixels(buffer)[k] == composite(
                    base@,
                    columns@[k % width as int]@,
                ),
            forall|k: int|
                y * width <= k < width * height ==> #[trigger] buffer_pixels(buffer)[k] == base@,
        decreases height - y,
    {
        let mut x: u32 = 0;
        while x < width
            invariant
                y < height,
                x <= width,
                columns@.len() == width,
                buffer_size(buffer) == (width as nat, height as nat),
                buffer_pixels(buffer).len() == width * height,
                forall|k: int|
                    0 <= k < y * width + x ==> #[trigger] buffer_pixels(buffer)[k] == composite(
                        base@,
                        columns@[k % width as int]@,
                    ),
                forall|k: int|
                    y * width + x <= k < width * height ==> #[trigger] buffer_pixels(buffer)[k]
                        == base@,
            decreases width - x,
        {
            proof {
                lemma_pixel_index(width as int, height as int, x as int, y as int);
            }
            let under = buffer_get_pixel(&buffer, x, y);
            let over = columns[x as usize];
            let out = blend_pixel(under, over);
            buffer_put_pixel(&mut buffer, x, y, out);
            x += 1;
        }
        proof {
            assert((y + 1) * width == y * width + width) by (nonlinear_arith);
        }
        y += 1;
    }
    proof {
        let pixels = ramp_pixels(width as int, height as int, base@, columns@);
        assert(y * width == width * height) by (nonlinear_arith)
            requires
                y == height,
        ;
        assert(pixels.len() == buffer_pixels(buffer).len());
        assert forall|k: int| 0 <= k < pixels.len() implies buffer_pixels(buffer)[k] == pixels[k] by {
            assert(0 <= k < y * width);
        }
        assert(buffer_pixels(buffer) =~= pixels);
    }
    let data = buffer_into_raw(buffer);
    Ok(GradientImage { width, height, data })
}

} // verus!
