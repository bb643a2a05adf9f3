//! The adapter around the external image codec. The codec decodes byte
//! streams, encodes bitmaps into container formats, and performs the
//! pixel-level work of the queued operations. Every bitmap handed around by
//! the pipeline is kept in its canonical 8-bit RGBA form, so the raster of a
//! bitmap (a row-major RGBA byte sequence) is a complete description of its
//! pixel content.

use vstd::prelude::*;

use crate::error::TransformError;
use crate::format::ContainerFormat;
use crate::format::FilterKind;
use crate::ops::nan_bits;
use crate::ops::positive_normal_bits;
use crate::raster::brighten_raster;
use crate::raster::equal_color_channels;
use crate::raster::opaque_raster;
use crate::raster::crop_raster;
use crate::raster::fliph_raster;
use crate::raster::flipv_raster;
use crate::raster::invert_raster;
use crate::raster::rot180_raster;
use crate::raster::rot270_raster;
use crate::raster::rot90_raster;

verus! {

#[verifier::external_type_specification]
#[verifier::external_body]
pub struct ExDynamicImage(image::DynamicImage);

#[verifier::external_type_specification]
#[verifier::external_body]
pub struct ExFilterType(image::imageops::FilterType);

/// The canonical 8-bit RGBA raster held by a decoded image, row-major.
pub uninterp spec fn pixels_of(img: image::DynamicImage) -> Seq<u8>;

/// The width and height of a decoded image.
pub uninterp spec fn image_dims(img: image::DynamicImage) -> (u32, u32);

/// The resampling filter a filter value stands for.
pub uninterp spec fn filter_model(f: image::imageops::FilterType) -> FilterKind;

/// What decoding a byte stream yields: the bitmap's width, height and
/// canonical raster, or nothing when the stream is rejected.
pub uninterp spec fn decode_of(bytes: Seq<u8>) -> Option<(u32, u32, Seq<u8>)>;

/// Whether the codec rejects a byte stream for its container format (no
/// registered codec claims it), as opposed to failing to decode a stream it
/// recognized. Only meaningful where decode_of yields nothing.
pub uninterp spec fn rejected_as_unsupported(bytes: Seq<u8>) -> bool;

/// What encoding a raster to PNG yields.
pub uninterp spec fn png_encode_of(w: u32, h: u32, p: Seq<u8>) -> Option<Seq<u8>>;

/// What encoding a raster to baseline JPEG yields; the alpha channel is
/// dropped before encoding.
pub uninterp spec fn jpeg_encode_of(w: u32, h: u32, p: Seq<u8>) -> Option<Seq<u8>>;

/// What encoding a raster to GIF yields.
pub uninterp spec fn gif_encode_of(w: u32, h: u32, p: Seq<u8>) -> Option<Seq<u8>>;

/// What encoding a raster to BMP yields.
pub uninterp spec fn bmp_encode_of(w: u32, h: u32, p: Seq<u8>) -> Option<Seq<u8>>;

/// What encoding a raster to WebP yields.
pub uninterp spec fn webp_encode_of(w: u32, h: u32, p: Seq<u8>) -> Option<Seq<u8>>;

/// What the aspect-preserving resize of a raster into a bounding box yields:
/// the new width, height and raster.
pub uninterp spec fn resize_aspect_of(
    w: u32,
    h: u32,
    p: Seq<u8>,
    tw: u32,
    th: u32,
    f: FilterKind,
) -> (u32, u32, Seq<u8>);

/// What resizing a raster to exactly tw by th yields.
pub uninterp spec fn resize_exact_of(
    w: u32,
    h: u32,
    p: Seq<u8>,
    tw: u32,
    th: u32,
    f: FilterKind,
) -> Seq<u8>;

/// What the luminance conversion of a raster yields.
pub uninterp spec fn gray_of(w: u32, h: u32, p: Seq<u8>) -> Seq<u8>;

/// What the Gaussian blur of a raster yields; sigma is given as the bit
/// pattern of an IEEE 754 single-precision value.
pub uninterp spec fn blur_of(w: u32, h: u32, p: Seq<u8>, sigma_bits: u32) -> Seq<u8>;

/// What the contrast adjustment of a raster yields; the amount is given as
/// the bit pattern of an IEEE 754 single-precision value.
pub uninterp spec fn contrast_of(w: u32, h: u32, p: Seq<u8>, amount_bits: u32) -> Seq<u8>;

/// What the unsharp mask of a raster yields; sigma is given as the bit
/// pattern of an IEEE 754 single-precision value.
pub uninterp spec fn unsharpen_of(
    w: u32,
    h: u32,
    p: Seq<u8>,
    sigma_bits: u32,
    threshold: i32,
) -> Seq<u8>;

/// A decoded bitmap: its dimensions as plain values, and the decoded image
/// held by the external codec.
pub struct Bitmap {
    pub width: u32,
    pub height: u32,
    pub image: image::DynamicImage,
}

impl Bitmap {
    /// The dimension fields describe the held image, both are positive, and
    /// the raster has exactly four bytes per pixel.
    pub open spec fn wf(self) -> bool {
        &&& self.width >= 1
        &&& self.height >= 1
        &&& image_dims(self.image) == (self.width, self.height)
        &&& pixels_of(self.image).len() == self.width * self.height * 4
    }
}

/// The container formats whose encoding in this adapter is lossless for
/// 8-bit RGBA content: the produced bytes decode back to the exact raster.
pub open spec fn lossless_format(f: ContainerFormat) -> bool {
    f == ContainerFormat::Png || f == ContainerFormat::Bmp || f == ContainerFormat::WebP
}

/// What encoding a raster into the given container format yields.
pub open spec fn encode_model(f: ContainerFormat, w: u32, h: u32, p: Seq<u8>) -> Option<Seq<u8>> {
    match f {
        ContainerFormat::Png => png_encode_of(w, h, p),
        ContainerFormat::Jpeg => jpeg_encode_of(w, h, p),
        ContainerFormat::Gif => gif_encode_of(w, h, p),
        ContainerFormat::Bmp => bmp_encode_of(w, h, p),
        ContainerFormat::WebP => webp_encode_of(w, h, p),
    }
}

/// Relies on image::load_from_memory: it guesses the container format from
/// the bytes alone and decodes, and it is deterministic in its input. The
/// decoded image is stored in its canonical 8-bit RGBA form. An unrecognized
/// or unsupported container is reported as ImageError::Unsupported, here
/// named rejected_as_unsupported; every other failure is a malformed stream.
#[verifier::external_body]
pub(crate) fn decode_image(data: &[u8]) -> (r: Result<Bitmap, TransformError>)
    ensures
        r is Ok <==> decode_of(data@) is Some,
        r matches Ok(bm) ==> decode_of(data@) == Some((bm.width, bm.height, pixels_of(bm.image)))
            && image_dims(bm.image) == (bm.width, bm.height)
            && pixels_of(bm.image).len() == bm.width * bm.height * 4,
        r matches Err(e) ==> e == (if rejected_as_unsupported(data@) {
            TransformError::UnsupportedFormat
        } else {
            TransformError::DecodeError
        }),
{
    match image::load_from_memory(data) {
        Ok(img) => {
            let buf = img.to_rgba8();
            let (width, height) = (buf.width(), buf.height());
            Ok(Bitmap { width, height, image: image::DynamicImage::ImageRgba8(buf) })
        },
        Err(image::ImageError::Unsupported(_)) => Err(TransformError::UnsupportedFormat),
        Err(_) => Err(TransformError::DecodeError),
    }
}

/// Relies on image::write_buffer_with_format with the PNG encoder. PNG is
/// lossless for 8-bit RGBA, so on success the produced bytes decode back to
/// exactly the encoded raster and dimensions.
#[verifier::external_body]
fn encode_png(bm: &Bitmap) -> (r: Result<Vec<u8>, TransformError>)
    requires
        bm.wf(),
    ensures
        r is Ok <==> png_encode_of(bm.width, bm.height, pixels_of(bm.image)) is Some,
        r matches Ok(v) ==> Some(v@) == png_encode_of(bm.width, bm.height, pixels_of(bm.image))
            && decode_of(v@) == Some((bm.width, bm.height, pixels_of(bm.image))),
        r matches Err(e) ==> e == TransformError::EncodeError,
{
    let buf = bm.image.to_rgba8();
    let mut cur = std::io::Cursor::new(Vec::new());
    let res = image::write_buffer_with_format(
        &mut cur,
        buf.as_raw(),
        bm.width,
        bm.height,
        image::ExtendedColorType::Rgba8,
        image::ImageFormat::Png,
    );
    match res {
        Ok(()) => Ok(cur.into_inner()),
        Err(_) => Err(TransformError::EncodeError),
    }
}

/// Relies on image::write_buffer_with_format with the JPEG encoder, after
/// dropping the alpha channel (baseline JPEG has none). JPEG is lossy, so
/// only the dimensions are promised to survive a round trip; the decoded
/// output carries no transparency, so its canonical raster is fully opaque.
#[verifier::external_body]
fn encode_jpeg(bm: &Bitmap) -> (r: Result<Vec<u8>, TransformError>)
    requires
        bm.wf(),
    ensures
        r is Ok <==> jpeg_encode_of(bm.width, bm.height, pixels_of(bm.image)) is Some,
        r matches Ok(v) ==> Some(v@) == jpeg_encode_of(bm.width, bm.height, pixels_of(bm.image))
            && (decode_of(v@) matches Some(t) && t.0 == bm.width && t.1 == bm.height
            && opaque_raster(t.2)),
        r matches Err(e) ==> e == TransformError::EncodeError,
{
    let buf = image::DynamicImage::ImageRgba8(bm.image.to_rgba8()).to_rgb8();
    let mut cur = std::io::Cursor::new(Vec::new());
    let res = image::write_buffer_with_format(
        &mut cur,
        buf.as_raw(),
        bm.width,
        bm.height,
        image::ExtendedColorType::Rgb8,
        image::ImageFormat::Jpeg,
    );
    match res {
        Ok(()) => Ok(cur.into_inner()),
        Err(_) => Err(TransformError::EncodeError),
    }
}

/// Relies on image::write_buffer_with_format with the GIF encoder. GIF
/// quantizes colors, so only the dimensions are promised to survive a round
/// trip.
#[verifier::external_body]
fn encode_gif(bm: &Bitmap) -> (r: Result<Vec<u8>, TransformError>)
    requires
        bm.wf(),
    ensures
        r is Ok <==> gif_encode_of(bm.width, bm.height, pixels_of(bm.image)) is Some,
        r matches Ok(v) ==> Some(v@) == gif_encode_of(bm.width, bm.height, pixels_of(bm.image))
            && (decode_of(v@) matches Some(t) && t.0 == bm.width && t.1 == bm.height),
        r matches Err(e) ==> e == TransformError::EncodeError,
{
    let buf = bm.image.to_rgba8();
    let mut cur = std::io::Cursor::new(Vec::new());
    let res = image::write_buffer_with_format(
        &mut cur,
        buf.as_raw(),
        bm.width,
        bm.height,
        image::ExtendedColorType::Rgba8,
        image::ImageFormat::Gif,
    );
    match res {
        Ok(()) => Ok(cur.into_inner()),
        Err(_) => Err(TransformError::EncodeError),
    }
}

/// Relies on image::write_buffer_with_format with the BMP encoder: 8-bit
/// RGBA is written as a 32-bit bitmap with an alpha mask, losslessly, so on
/// success the produced bytes decode back to exactly the encoded raster.
#[verifier::external_body]
fn encode_bmp(bm: &Bitmap) -> (r: Result<Vec<u8>, TransformError>)
    requires
        bm.wf(),
    ensures
        r is Ok <==> bmp_encode_of(bm.width, bm.height, pixels_of(bm.image)) is Some,
        r matches Ok(v) ==> Some(v@) == bmp_encode_of(bm.width, bm.height, pixels_of(bm.image))
            && decode_of(v@) == Some((bm.width, bm.height, pixels_of(bm.image))),
        r matches Err(e) ==> e == TransformError::EncodeError,
{
    let buf = bm.image.to_rgba8();
    let mut cur = std::io::Cursor::new(Vec::new());
    let res = image::write_buffer_with_format(
        &mut cur,
        buf.as_raw(),
        bm.width,
        bm.height,
        image::ExtendedColorType::Rgba8,
        image::ImageFormat::Bmp,
    );
    match res {
        Ok(()) => Ok(cur.into_inner()),
        Err(_) => Err(TransformError::EncodeError),
    }
}

/// Relies on image::write_buffer_with_format with the lossless WebP encoder:
/// on success the produced bytes decode back to exactly the encoded raster.
#[verifier::external_body]
fn encode_webp(bm: &Bitmap) -> (r: Result<Vec<u8>, TransformError>)
    requires
        bm.wf(),
    ensures
        r is Ok <==> webp_encode_of(bm.width, bm.height, pixels_of(bm.image)) is Some,
        r matches Ok(v) ==> Some(v@) == webp_encode_of(bm.width, bm.height, pixels_of(bm.image))
            && decode_of(v@) == Some((bm.width, bm.height, pixels_of(bm.image))),
        r matches Err(e) ==> e == TransformError::EncodeError,
{
    let buf = bm.image.to_rgba8();
    let mut cur = std::io::Cursor::new(Vec::new());
    let res = image::write_buffer_with_format(
        &mut cur,
        buf.as_raw(),
        bm.width,
        bm.height,
        image::ExtendedColorType::Rgba8,
        image::ImageFormat::WebP,
    );
    match res {
        Ok(()) => Ok(cur.into_inner()),
        Err(_) => Err(TransformError::EncodeError),
    }
}

/// Encodes a bitmap into the requested container format.
pub(crate) fn encode_bitmap(bm: &Bitmap, format: ContainerFormat) -> (r: Result<
    Vec<u8>,
    TransformError,
>)
    requires
        bm.wf(),
    ensures
        r is Ok <==> encode_model(format, bm.width, bm.height, pixels_of(bm.image)) is Some,
        r matches Ok(v) ==> Some(v@) == encode_model(format, bm.width, bm.height, pixels_of(bm.image))
            && (decode_of(v@) matches Some(t) && t.0 == bm.width && t.1 == bm.height),
        lossless_format(format) ==> (r matches Ok(v) ==> decode_of(v@) == Some(
            (bm.width, bm.height, pixels_of(bm.image)),
        )),
        format == ContainerFormat::Jpeg ==> (r matches Ok(v) ==> (decode_of(v@) matches Some(t)
            && opaque_raster(t.2))),
        r matches Err(e) ==> e == TransformError::EncodeError,
{
    match format {
        ContainerFormat::Png => encode_png(bm),
        ContainerFormat::Jpeg => encode_jpeg(bm),
        ContainerFormat::Gif => encode_gif(bm),
        ContainerFormat::Bmp => encode_bmp(bm),
        ContainerFormat::WebP => encode_webp(bm),
    }
}

/// Relies on image::imageops::FilterType::Nearest being a plain constant.
#[verifier::external_body]
fn filter_nearest() -> (r: image::imageops::FilterType)
    ensures
        filter_model(r) == FilterKind::Nearest,
{
    image::imageops::FilterType::Nearest
}

/// Relies on image::imageops::FilterType::Triangle being a plain constant.
#[verifier::external_body]
fn filter_triangle() -> (r: image::imageops::FilterType)
    ensures
        filter_model(r) == FilterKind::Triangle,
{
    image::imageops::FilterType::Triangle
}

/// Relies on image::imageops::FilterType::CatmullRom being a plain constant.
#[verifier::external_body]
fn filter_catmull_rom() -> (r: image::imageops::FilterType)
    ensures
        filter_model(r) == FilterKind::CatmullRom,
{
    image::imageops::FilterType::CatmullRom
}

/// Relies on image::imageops::FilterType::Gaussian being a plain constant.
#[verifier::external_body]
fn filter_gaussian() -> (r: image::imageops::FilterType)
    ensures
        filter_model(r) == FilterKind::Gaussian,
{
    image::imageops::FilterType::Gaussian
}

/// Relies on image::imageops::FilterType::Lanczos3 being a plain constant.
#[verifier::external_body]
fn filter_lanczos3() -> (r: image::imageops::FilterType)
    ensures
        filter_model(r) == FilterKind::Lanczos3,
{
    image::imageops::FilterType::Lanczos3
}

/// The codec's filter value for a filter kind.
pub(crate) fn filter_of_kind(f: FilterKind) -> (r: image::imageops::FilterType)
    ensures
        filter_model(r) == f,
{
    match f {
        FilterKind::Nearest => filter_nearest(),
        FilterKind::Triangle => filter_triangle(),
        FilterKind::CatmullRom => filter_catmull_rom(),
        FilterKind::Gaussian => filter_gaussian(),
        FilterKind::Lanczos3 => filter_lanczos3(),
    }
}

/// Relies on image::DynamicImage::resize: the result preserves the aspect
/// ratio and is the largest size that fits within the tw-by-th box, with both
/// sides at least 1 and the constraining side met exactly.
#[verifier::external_body]
pub(crate) fn apply_resize_aspect(bm: Bitmap, tw: u32, th: u32, ft: image::imageops::FilterType) -> (r:
    Bitmap)
    requires
        bm.wf(),
        tw >= 1,
        th >= 1,
    ensures
        r.wf(),
        (r.width, r.height, pixels_of(r.image)) == resize_aspect_of(
            bm.width,
            bm.height,
            pixels_of(bm.image),
            tw,
            th,
            filter_model(ft),
        ),
        r.width <= tw,
        r.height <= th,
        r.width == tw || r.height == th,
{
    let img = image::DynamicImage::ImageRgba8(bm.image.to_rgba8()).resize(tw, th, ft);
    Bitmap { width: img.width(), height: img.height(), image: img }
}

/// Relies on image::DynamicImage::resize_exact: the result has exactly the
/// requested dimensions.
#[verifier::external_body]
pub(crate) fn apply_resize_exact(bm: Bitmap, tw: u32, th: u32, ft: image::imageops::FilterType) -> (r:
    Bitmap)
    requires
        bm.wf(),
        tw >= 1,
        th >= 1,
    ensures
        r.wf(),
        r.width == tw,
        r.height == th,
        pixels_of(r.image) == resize_exact_of(
            bm.width,
            bm.height,
            pixels_of(bm.image),
            tw,
            th,
            filter_model(ft),
        ),
{
    let img = image::DynamicImage::ImageRgba8(bm.image.to_rgba8()).resize_exact(tw, th, ft);
    Bitmap { width: img.width(), height: img.height(), image: img }
}

/// Relies on image::DynamicImage::crop_imm: for a region that lies within the
/// bitmap it returns exactly that region.
#[verifier::external_body]
pub(crate) fn apply_crop(bm: Bitmap, x: u32, y: u32, cw: u32, ch: u32) -> (r: Bitmap)
    requires
        bm.wf(),
        cw >= 1,
        ch >= 1,
        x + cw <= bm.width,
        y + ch <= bm.height,
    ensures
        r.wf(),
        r.width == cw,
        r.height == ch,
        pixels_of(r.image) == crop_raster(bm.width, pixels_of(bm.image), x, y, cw, ch),
{
    let img = image::DynamicImage::ImageRgba8(bm.image.to_rgba8()).crop_imm(x, y, cw, ch);
    Bitmap { width: img.width(), height: img.height(), image: img }
}

/// Relies on image::DynamicImage::rotate90 (clockwise).
#[verifier::external_body]
pub(crate) fn apply_rotate90(bm: Bitmap) -> (r: Bitmap)
    requires
        bm.wf(),
    ensures
        r.wf(),
        r.width == bm.height,
        r.height == bm.width,
        pixels_of(r.image) == rot90_raster(bm.width, bm.height, pixels_of(bm.image)),
{
    let img = image::DynamicImage::ImageRgba8(bm.image.to_rgba8()).rotate90();
    Bitmap { width: img.width(), height: img.height(), image: img }
}

/// Relies on image::DynamicImage::rotate180.
#[verifier::external_body]
pub(crate) fn apply_rotate180(bm: Bitmap) -> (r: Bitmap)
    requires
        bm.wf(),
    ensures
        r.wf(),
        r.width == bm.width,
        r.height == bm.height,
        pixels_of(r.image) == rot180_raster(bm.width, bm.height, pixels_of(bm.image)),
{
    let img = image::DynamicImage::ImageRgba8(bm.image.to_rgba8()).rotate180();
    Bitmap { width: img.width(), height: img.height(), image: img }
}

/// Relies on image::DynamicImage::rotate270 (clockwise).
#[verifier::external_body]
pub(crate) fn apply_rotate270(bm: Bitmap) -> (r: Bitmap)
    requires
        bm.wf(),
    ensures
        r.wf(),
        r.width == bm.height,
        r.height == bm.width,
        pixels_of(r.image) == rot270_raster(bm.width, bm.height, pixels_of(bm.image)),
{
    let img = image::DynamicImage::ImageRgba8(bm.image.to_rgba8()).rotate270();
    Bitmap { width: img.width(), height: img.height(), image: img }
}

/// Relies on image::DynamicImage::fliph.
#[verifier::external_body]
pub(crate) fn apply_flip_horizontal(bm: Bitmap) -> (r: Bitmap)
    requires
        bm.wf(),
    ensures
        r.wf(),
        r.width == bm.width,
        r.height == bm.height,
        pixels_of(r.image) == fliph_raster(bm.width, pixels_of(bm.image)),
{
    let img = image::DynamicImage::ImageRgba8(bm.image.to_rgba8()).fliph();
    Bitmap { width: img.width(), height: img.height(), image: img }
}

/// Relies on image::DynamicImage::flipv.
#[verifier::external_body]
pub(crate) fn apply_flip_vertical(bm: Bitmap) -> (r: Bitmap)
    requires
        bm.wf(),
    ensures
        r.wf(),
        r.width == bm.width,
        r.height == bm.height,
        pixels_of(r.image) == flipv_raster(bm.width, bm.height, pixels_of(bm.image)),
{
    let img = image::DynamicImage::ImageRgba8(bm.image.to_rgba8()).flipv();
    Bitmap { width: img.width(), height: img.height(), image: img }
}

/// Relies on image::DynamicImage::grayscale: dimensions are preserved and
/// the result is a deterministic integer luminance conversion of the raster.
/// Every pixel of the result has equal color channels, and converting an
/// already-gray raster changes nothing, so the conversion is idempotent.
#[verifier::external_body]
pub(crate) fn apply_grayscale(bm: Bitmap) -> (r: Bitmap)
    requires
        bm.wf(),
    ensures
        r.wf(),
        r.width == bm.width,
        r.height == bm.height,
        pixels_of(r.image) == gray_of(bm.width, bm.height, pixels_of(bm.image)),
        equal_color_channels(pixels_of(r.image)),
        gray_of(r.width, r.height, pixels_of(r.image)) == pixels_of(r.image),
{
    let img = image::DynamicImage::ImageRgba8(bm.image.to_rgba8()).grayscale();
    Bitmap { width: img.width(), height: img.height(), image: img }
}

/// Relies on image::DynamicImage::invert: every color channel is complemented
/// in place and alpha is preserved.
#[verifier::external_body]
pub(crate) fn apply_invert(bm: Bitmap) -> (r: Bitmap)
    requires
        bm.wf(),
    ensures
        r.wf(),
        r.width == bm.width,
        r.height == bm.height,
        pixels_of(r.image) == invert_raster(pixels_of(bm.image)),
{
    let mut img = image::DynamicImage::ImageRgba8(bm.image.to_rgba8());
    img.invert();
    Bitmap { width: img.width(), height: img.height(), image: img }
}

/// Relies on image::DynamicImage::blur: a Gaussian blur that preserves
/// dimensions. Sigma arrives as a bit pattern and is reassembled into the
/// codec's floating-point parameter without change of value; the codec
/// asserts that sigma is positive, normal and finite, so only such patterns
/// are admitted.
#[verifier::external_body]
pub(crate) fn apply_blur(bm: Bitmap, sigma_bits: u32) -> (r: Bitmap)
    requires
        bm.wf(),
        positive_normal_bits(sigma_bits),
    ensures
        r.wf(),
        r.width == bm.width,
        r.height == bm.height,
        pixels_of(r.image) == blur_of(bm.width, bm.height, pixels_of(bm.image), sigma_bits),
{
    let img = image::DynamicImage::ImageRgba8(bm.image.to_rgba8()).blur(
        bytemuck::cast(sigma_bits),
    );
    Bitmap { width: img.width(), height: img.height(), image: img }
}

/// Relies on image::DynamicImage::brighten: every color channel is shifted
/// by delta and clamped to the byte range; alpha is preserved. The codec
/// adds the channel value and delta in 32-bit arithmetic, so delta is
/// bounded to leave room for a channel value.
#[verifier::external_body]
pub(crate) fn apply_brighten(bm: Bitmap, delta: i32) -> (r: Bitmap)
    requires
        bm.wf(),
        -(i32::MAX - 255) <= delta <= i32::MAX - 255,
    ensures
        r.wf(),
        r.width == bm.width,
        r.height == bm.height,
        pixels_of(r.image) == brighten_raster(pixels_of(bm.image), delta),
{
    let img = image::DynamicImage::ImageRgba8(bm.image.to_rgba8()).brighten(delta);
    Bitmap { width: img.width(), height: img.height(), image: img }
}

/// Relies on image::DynamicImage::adjust_contrast: dimensions are preserved.
/// The amount arrives as a bit pattern and is reassembled into the codec's
/// floating-point parameter without change of value; a NaN amount would make
/// the codec's numeric conversion fail, so NaN patterns are not admitted.
#[verifier::external_body]
pub(crate) fn apply_contrast(bm: Bitmap, amount_bits: u32) -> (r: Bitmap)
    requires
        bm.wf(),
        !nan_bits(amount_bits),
    ensures
        r.wf(),
        r.width == bm.width,
        r.height == bm.height,
        pixels_of(r.image) == contrast_of(bm.width, bm.height, pixels_of(bm.image), amount_bits),
{
    let img = image::DynamicImage::ImageRgba8(bm.image.to_rgba8()).adjust_contrast(
        bytemuck::cast(amount_bits),
    );
    Bitmap { width: img.width(), height: img.height(), image: img }
}

/// Relies on image::DynamicImage::unsharpen: dimensions are preserved.
/// Sigma arrives as a bit pattern and is reassembled into the codec's
/// floating-point parameter without change of value; the codec asserts that
/// sigma is positive, normal and finite, so only such patterns are admitted.
#[verifier::external_body]
pub(crate) fn apply_unsharpen(bm: Bitmap, sigma_bits: u32, threshold: i32) -> (r: Bitmap)
    requires
        bm.wf(),
        positive_normal_bits(sigma_bits),
    ensures
        r.wf(),
        r.width == bm.width,
        r.height == bm.height,
        pixels_of(r.image) == unsharpen_of(
            bm.width,
            bm.height,
            pixels_of(bm.image),
            sigma_bits,
            threshold,
        ),
{
    let img = image::DynamicImage::ImageRgba8(bm.image.to_rgba8()).unsharpen(
        bytemuck::cast(sigma_bits),
        threshold,
    );
    Bitmap { width: img.width(), height: img.height(), image: img }
}

} // verus!
