use vstd::prelude::*;

verus! {

/// An 8-bit RGB image: `data` holds the pixels row by row, three
/// channel values per pixel.
#[derive(Debug, Clone)]
pub struct Raster {
    pub width: u32,
    pub height: u32,
    pub data: Vec<u8>,
}

impl Raster {
    pub open spec fn wf(&self) -> bool {
        self.data@.len() == 3 * self.width * self.height
    }
}

#[verifier::external_type_specification]
#[verifier::external_body]
pub struct ExImageError(image::ImageError);

/// Pixels the largest image edge may have for drawing: outline edges are
/// drawn with `f32` coordinates, which are exact below this, and compared
/// with the image size as `i32`.
pub const MAX_DRAW_EXTENT: u32 = 16777215;

/// The width and height of the image that `bytes` encode, or `None` when
/// they encode no image the decoder understands.
pub uninterp spec fn decoded_size(bytes: Seq<u8>) -> Option<(u32, u32)>;

/// The pixels of a `width` x `height` image resized to `new_width` x
/// `new_height` with a triangle (bilinear) filter.
pub uninterp spec fn resized_pixels(
    pixels: Seq<u8>,
    width: u32,
    height: u32,
    new_width: u32,
    new_height: u32,
) -> Seq<u8>;

/// Whether pixel (`x`, `y`) lies on the outline of the `w` x `h`
/// rectangle at (`left`, `top`): its top or bottom row, or its left or
/// right column.
pub open spec fn on_outline(x: int, y: int, left: int, top: int, w: int, h: int) -> bool {
    let right = left + w - 1;
    let bottom = top + h - 1;
    ||| (y == top || y == bottom) && left <= x <= right
    ||| (x == left || x == right) && top <= y <= bottom
}

/// The pixels of an image `width` pixels wide after the outline of the
/// `w` x `h` rectangle at (`left`, `top`) is drawn on it in `color`: the
/// outline's pixels take the color, all others keep their value.
pub open spec fn outlined_pixels(
    pixels: Seq<u8>,
    width: u32,
    left: int,
    top: int,
    w: int,
    h: int,
    color: Seq<u8>,
) -> Seq<u8> {
    Seq::new(
        pixels.len(),
        |p: int|
            {
                let i = p / 3;
                if on_outline(i % width as int, i / width as int, left, top, w, h) {
                    color[p % 3]
                } else {
                    pixels[p]
                }
            },
    )
}

/// Relies on `image::guess_format`, which picks the format from the
/// leading bytes by a fixed table, and `image::load_from_memory_with_format`,
/// which decodes with that built-in format (no user-registered hooks), and
/// on `DynamicImage::to_rgb8`, which converts the result to an RGB buffer
/// of exactly `3 * width * height` values. Whether the bytes decode, and to
/// what size, follows from the bytes; the pixel values are not named, since
/// the JPEG decoder picks a SIMD or scalar path by the machine it runs on.
#[verifier::external_body]
pub(crate) fn decode_rgb(bytes: &[u8]) -> (r: Result<Raster, image::ImageError>)
    ensures
        match r {
            Ok(img) => img.wf() && decoded_size(bytes@) == Some((img.width, img.height)),
            Err(_) => decoded_size(bytes@).is_none(),
        },
{
    let format = image::guess_format(bytes)?;
    match image::load_from_memory_with_format(bytes, format) {
        Ok(img) => {
            let rgb = img.to_rgb8();
            Ok(Raster { width: rgb.width(), height: rgb.height(), data: rgb.into_raw() })
        },
        Err(e) => Err(e),
    }
}

/// Relies on `image::imageops::resize` with `FilterType::Triangle`: it
/// returns a new buffer of exactly the requested size.
#[verifier::external_body]
pub(crate) fn resize_triangle(src: &Raster, new_width: u32, new_height: u32) -> (r: Raster)
    requires
        src.wf(),
        3 * new_width * new_height <= usize::MAX,
    ensures
        r.width == new_width,
        r.height == new_height,
        r.wf(),
        r.data@ == resized_pixels(src.data@, src.width, src.height, new_width, new_height),
{
    let buf = image::RgbImage::from_raw(src.width, src.height, src.data.clone()).unwrap();
    let out = image::imageops::resize(&buf, new_width, new_height, image::imageops::FilterType::Triangle);
    Raster { width: out.width(), height: out.height(), data: out.into_raw() }
}

/// Relies on `imageproc::drawing::draw_hollow_rect_mut` with
/// `imageproc::rect::Rect::at(left, top).of_size(w, h)`: it draws the four
/// edges with `draw_line_segment_mut`, whose Bresenham walk along an
/// axis-aligned edge visits every pixel from one end to the other, and
/// sets those inside the image to `color`. The edges are converted to
/// `f32`, which is exact below 2^24; pixels are kept only where they are
/// below the image size taken as `i32`; `of_size` panics on a zero size.
#[verifier::external_body]
pub(crate) fn draw_outline(img: &mut Raster, left: i32, top: i32, w: u32, h: u32, color: [u8; 3])
    requires
        old(img).wf(),
        old(img).width <= MAX_DRAW_EXTENT,
        old(img).height <= MAX_DRAW_EXTENT,
        0 <= left,
        0 <= top,
        0 < w,
        0 < h,
        left + w <= 0x100_0000,
        top + h <= 0x100_0000,
    ensures
        final(img).width == old(img).width,
        final(img).height == old(img).height,
        final(img).data@ == outlined_pixels(
            old(img).data@,
            old(img).width,
            left as int,
            top as int,
            w as int,
            h as int,
            color@,
        ),
{
    let data = std::mem::take(&mut img.data);
    let mut buf = image::RgbImage::from_raw(img.width, img.height, data).unwrap();
    let rect = imageproc::rect::Rect::at(left, top).of_size(w, h);
    imageproc::drawing::draw_hollow_rect_mut(&mut buf, rect, image::Rgb(color));
    img.data = buf.into_raw();
}

} // verus!
