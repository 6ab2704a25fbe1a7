//! Trusted boundary to the image, imageproc and rusttype crates.
//!
//! Everything the renderer and the batch pipeline need from those crates is
//! reached through the wrappers below.  Results that are functions of the
//! arguments alone but too intricate to state (a decoded raster, a Lanczos
//! resample, a rasterized glyph, a PNG stream) are given names by bodyless
//! spec functions, so that callers can state exact contracts over them.

use vstd::prelude::*;

verus! {

#[verifier::external_type_specification]
#[verifier::external_body]
pub struct ExDynamicImage(image::DynamicImage);

#[verifier::external_type_specification]
#[verifier::external_body]
pub struct ExImageError(image::error::ImageError);

#[verifier::external_type_specification]
#[verifier::external_body]
pub struct ExFont<'a>(rusttype::Font<'a>);

/// The width and height, in pixels, of a decoded image.
pub uninterp spec fn img_dims(img: image::DynamicImage) -> (int, int);

/// The pixel contents of a decoded image, as RGBA bytes in row-major order,
/// four bytes per pixel.
pub uninterp spec fn img_rgba(img: image::DynamicImage) -> Seq<u8>;

/// The raw bytes a parsed font was built from.
pub uninterp spec fn font_data_of(f: rusttype::Font<'static>) -> Seq<u8>;

/// What image::load_from_memory yields for a byte buffer: `None` where the
/// buffer does not decode, otherwise the dimensions and RGBA contents of the
/// decoded image.
pub uninterp spec fn decoded_of(bytes: Seq<u8>) -> Option<((int, int), Seq<u8>)>;

/// The decoded image value itself for a byte buffer that decodes: decoding
/// is a pure function of the bytes.  The value keeps the image's native
/// color depth, which `img_dims` and `img_rgba` project away.
pub uninterp spec fn decoded_img_of(bytes: Seq<u8>) -> image::DynamicImage;

/// What DynamicImage::resize with the Lanczos3 filter yields: the dimensions
/// and RGBA contents of the resample of the given image within the given
/// bounds.  Its parameter is the image value itself: resampling works in the
/// image's native color depth, so the result is not a function of the 8-bit
/// RGBA view alone.
pub uninterp spec fn resized_of(img: image::DynamicImage, tw: int, th: int) -> ((int, int), Seq<u8>);

/// The hull, relative to the draw position, of the pixel rectangle that
/// rasterizing this text may touch: the union of the glyph bounding boxes
/// that rusttype's layout yields for this font data, scale and text, as
/// ((min x, min y), (max x, max y)), each a pure function of those
/// arguments.
pub uninterp spec fn glyph_box_of(font: Seq<u8>, sx: int, sy: int, text: Seq<char>) -> ((int, int), (int, int));

/// Whether byte `j` of a `w`-pixel-wide RGBA buffer lies inside the pixel
/// rectangle of box `b` translated to position `(x, y)`.
pub open spec fn in_draw_box(j: int, w: int, x: int, y: int, b: ((int, int), (int, int))) -> bool {
    let px = (j / 4) % w;
    let py = (j / 4) / w;
    &&& x + b.0.0 <= px < x + b.1.0
    &&& y + b.0.1 <= py < y + b.1.1
}

/// What imageproc::drawing::draw_text_mut yields: the RGBA contents of a
/// canvas of the given dimensions after the given text is rasterized onto it
/// at the given position, color and scale, with the font parsed from the
/// given bytes.
pub uninterp spec fn draw_of(
    canvas: Seq<u8>,
    w: int,
    h: int,
    color: (u8, u8, u8, u8),
    x: int,
    y: int,
    sx: int,
    sy: int,
    font: Seq<u8>,
    text: Seq<char>,
) -> Seq<u8>;

/// What ImageBuffer::write_to yields for an RGBA buffer of the given
/// dimensions and the PNG format.
pub uninterp spec fn png_of(rgba: Seq<u8>, w: int, h: int) -> Seq<u8>;

/// Relies on image::load_from_memory: decoding is a pure function of the
/// bytes; a decoded image has dimensions that fit in u32 and an RGBA buffer
/// of four bytes per pixel.
#[verifier::external_body]
pub(crate) fn decode_image(bytes: &[u8]) -> (r: Result<image::DynamicImage, image::error::ImageError>)
    ensures
        match r {
            Ok(img) => {
                &&& decoded_of(bytes@) == Some((img_dims(img), img_rgba(img)))
                &&& img == decoded_img_of(bytes@)
                &&& 0 <= img_dims(img).0 <= u32::MAX
                &&& 0 <= img_dims(img).1 <= u32::MAX
                &&& img_rgba(img).len() == 4 * img_dims(img).0 * img_dims(img).1
            },
            Err(_) => decoded_of(bytes@) is None,
        },
{
    image::load_from_memory(bytes)
}

/// Relies on image::GenericImageView::dimensions: it reports the image's
/// width and height.
#[verifier::external_body]
pub(crate) fn image_dims(img: &image::DynamicImage) -> (d: (u32, u32))
    ensures
        d.0 as int == img_dims(*img).0,
        d.1 as int == img_dims(*img).1,
{
    image::GenericImageView::dimensions(img)
}

/// Relies on DynamicImage::resize with the Lanczos3 filter: resampling is a
/// pure function of the image and the bounds; the result preserves the
/// aspect ratio and is the largest size that fits within the bounds, so for
/// positive inputs each result dimension is at least 1 and at most its bound.
#[verifier::external_body]
pub(crate) fn resize_image(img: &image::DynamicImage, tw: u32, th: u32) -> (r: image::DynamicImage)
    requires
        1 <= img_dims(*img).0,
        1 <= img_dims(*img).1,
        1 <= tw,
        1 <= th,
    ensures
        (img_dims(r), img_rgba(r)) == resized_of(*img, tw as int, th as int),
        1 <= img_dims(r).0 <= tw,
        1 <= img_dims(r).1 <= th,
        img_rgba(r).len() == 4 * img_dims(r).0 * img_dims(r).1,
{
    img.resize(tw, th, image::imageops::FilterType::Lanczos3)
}

/// Relies on DynamicImage::to_rgba8 and ImageBuffer::into_raw: they hand out
/// the image's pixels as RGBA bytes in row-major order.
#[verifier::external_body]
pub(crate) fn image_rgba_bytes(img: &image::DynamicImage) -> (v: Vec<u8>)
    ensures
        v@ == img_rgba(*img),
{
    img.to_rgba8().into_raw()
}

/// Relies on imageproc::drawing::draw_text_mut (and ImageBuffer::from_raw /
/// into_raw to convert the buffer): rasterization is a pure function of the
/// canvas contents, the color, the position, the scale, the font bytes and
/// the text; it blends glyph coverage into the canvas in place, never
/// changes the buffer's length, and writes only inside the glyph bounding
/// boxes of the laid-out text, so every pixel outside that hull keeps its
/// value.  The position and scale bounds keep its internal i32 coordinate
/// arithmetic and its coverage buffers small enough not to overflow.
#[verifier::external_body]
pub(crate) fn draw_text_rgba(
    data: Vec<u8>,
    w: u32,
    h: u32,
    color: (u8, u8, u8, u8),
    x: i32,
    y: i32,
    sx: u32,
    sy: u32,
    font: &rusttype::Font<'static>,
    text: &str,
) -> (out: Vec<u8>)
    requires
        data@.len() == 4 * w * h,
        -0x4000_0000 <= x <= 0x4000_0000,
        -0x4000_0000 <= y <= 0x4000_0000,
        1 <= sx <= 0x1_0000,
        1 <= sy <= 0x1_0000,
    ensures
        out@ == draw_of(
            data@,
            w as int,
            h as int,
            color,
            x as int,
            y as int,
            sx as int,
            sy as int,
            font_data_of(*font),
            text@,
        ),
        out@.len() == data@.len(),
        forall|j: int|
            0 <= j < data@.len() && !in_draw_box(
                j,
                w as int,
                x as int,
                y as int,
                glyph_box_of(font_data_of(*font), sx as int, sy as int, text@),
            ) ==> out@[j] == data@[j],
{
    let mut buf = image::RgbaImage::from_raw(w, h, data).unwrap();
    let scale = rusttype::Scale { x: sx as _, y: sy as _ };
    let rgba = image::Rgba([color.0, color.1, color.2, color.3]);
    imageproc::drawing::draw_text_mut(&mut buf, rgba, x, y, scale, font, text);
    buf.into_raw()
}

/// Relies on ImageBuffer::write_to with the PNG format (and
/// ImageBuffer::from_raw / io::Cursor to convert the buffer): PNG encoding
/// is a pure function of the pixel contents and the dimensions, and for an
/// exact-length RGBA buffer with nonzero dimensions written to an in-memory
/// cursor it cannot fail (only zero dimensions or a writer error can).
#[verifier::external_body]
pub(crate) fn encode_png(data: &Vec<u8>, w: u32, h: u32) -> (r: Result<Vec<u8>, image::error::ImageError>)
    requires
        data@.len() == 4 * w * h,
    ensures
        r matches Ok(v) ==> v@ == png_of(data@, w as int, h as int),
        1 <= w && 1 <= h ==> r is Ok,
{
    let buf = image::RgbaImage::from_raw(w, h, data.clone()).unwrap();
    let mut cur = std::io::Cursor::new(Vec::new());
    match buf.write_to(&mut cur, image::ImageOutputFormat::Png) {
        Ok(()) => Ok(cur.into_inner()),
        Err(e) => Err(e),
    }
}

} // verus!
