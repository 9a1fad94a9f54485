//! JPEG container detection, and the calls into the `image` and `exif`
//! crates: decoding, resampling, encoding and reading the EXIF orientation.
use vstd::prelude::*;
use crate::error::TransformError;
use crate::raster::{Picture, Pixel, Raster};

verus! {

#[verifier::external_type_specification]
#[verifier::external_body]
pub struct ExImageError(image::ImageError);

/// The buffer starts with the JPEG start-of-image marker and the first byte
/// of the next marker.
pub open spec fn jpeg_signature(b: Seq<u8>) -> bool {
    b.len() >= 3 && b[0] == 0xff && b[1] == 0xd8 && b[2] == 0xff
}

/// The image that `image::load_from_memory` reads from `b`, as width, height
/// and RGBA pixels; `None` where it fails.
pub uninterp spec fn decoded(b: Seq<u8>) -> Option<(nat, nat, Seq<Pixel>)>;

/// What `image`'s JPEG encoder writes for a picture at `quality`; `None`
/// where it fails.
pub uninterp spec fn jpeg_encoding(w: nat, h: nat, px: Seq<Pixel>, quality: u8) -> Option<Seq<u8>>;

/// What `image`'s PNG encoder writes for a picture; `None` where it fails.
pub uninterp spec fn png_encoding(w: nat, h: nat, px: Seq<Pixel>) -> Option<Seq<u8>>;

/// The first value of the primary Orientation field that `exif` reads from
/// the container `b`: `None` where the reader fails, `Some(None)` where the
/// field is absent or holds no unsigned integer.
pub uninterp spec fn exif_orientation(b: Seq<u8>) -> Option<Option<u32>>;

/// Whether `bytes` is a JPEG container: it starts with the start-of-image
/// marker and the first byte of the next marker.
pub fn is_jpeg_container(bytes: &[u8]) -> (r: bool)
    ensures
        r == jpeg_signature(bytes@),
{
    bytes.len() >= 3 && bytes[0] == 0xff && bytes[1] == 0xd8 && bytes[2] == 0xff
}

/// Relies on `image::load_from_memory`, which detects the format from the
/// content; the result is converted to RGBA pixels.
#[verifier::external_body]
fn load_from_memory(bytes: &[u8]) -> (r: Result<Raster, image::ImageError>)
    ensures
        match r {
            Ok(img) => img.wf() && decoded(bytes@) == Some(
                (img.width as nat, img.height as nat, img.pixels@),
            ),
            Err(_) => decoded(bytes@) is None,
        },
{
    let buf = image::load_from_memory(bytes)?.to_rgba8();
    Ok(Raster { width: buf.width(), height: buf.height(), pixels: buf.pixels().map(|p| p.0).collect() })
}

/// Relies on `image::imageops::resize` with `FilterType::Lanczos3`, which
/// returns a buffer of exactly the requested size; it panics only where
/// that buffer's length overflows `usize`. The filter weights come from
/// floating-point `sin`, whose precision std leaves open, so nothing is
/// claimed of the pixel values.
#[verifier::external_body]
fn lanczos3_resize(img: &Raster, width: u32, height: u32) -> (r: Raster)
    requires
        img.wf(),
        0 < width,
        0 < height,
        width as nat * height as nat * 4 <= usize::MAX,
    ensures
        r.wf(),
        r.width == width,
        r.height == height,
{
    let src = image::RgbaImage::from_raw(img.width, img.height, img.pixels.concat()).unwrap();
    let out = image::imageops::resize(&src, width, height, image::imageops::FilterType::Lanczos3);
    Raster { width: out.width(), height: out.height(), pixels: out.pixels().map(|p| p.0).collect() }
}

/// Relies on `image::codecs::jpeg::JpegEncoder::encode_image`, writing into
/// memory at the given quality.
#[verifier::external_body]
fn jpeg_encode(img: &Raster, quality: u8) -> (r: Result<Vec<u8>, image::ImageError>)
    requires
        img.wf(),
    ensures
        match r {
            Ok(b) => jpeg_encoding(img.width as nat, img.height as nat, img.pixels@, quality)
                == Some(b@),
            Err(_) => jpeg_encoding(img.width as nat, img.height as nat, img.pixels@, quality) is None,
        },
{
    let src = image::RgbaImage::from_raw(img.width, img.height, img.pixels.concat()).unwrap();
    let mut out: Vec<u8> = Vec::new();
    image::codecs::jpeg::JpegEncoder::new_with_quality(&mut out, quality).encode_image(&src)?;
    Ok(out)
}

/// Relies on `image::DynamicImage::write_to` with `ImageFormat::Png`, writing
/// into memory.
#[verifier::external_body]
fn png_encode(img: &Raster) -> (r: Result<Vec<u8>, image::ImageError>)
    requires
        img.wf(),
    ensures
        match r {
            Ok(b) => png_encoding(img.width as nat, img.height as nat, img.pixels@) == Some(b@),
            Err(_) => png_encoding(img.width as nat, img.height as nat, img.pixels@) is None,
        },
{
    let src = image::RgbaImage::from_raw(img.width, img.height, img.pixels.concat()).unwrap();
    let mut out: Vec<u8> = Vec::new();
    image::DynamicImage::ImageRgba8(src).write_to(&mut std::io::Cursor::new(&mut out), image::ImageFormat::Png)?;
    Ok(out)
}

/// Relies on `exif::Reader::read_from_container` and on the first unsigned
/// value of the primary Orientation field; the reader's error is turned into
/// its message.
#[verifier::external_body]
pub(crate) fn read_orientation(bytes: &[u8]) -> (r: Result<Option<u32>, String>)
    ensures
        match r {
            Ok(t) => exif_orientation(bytes@) == Some(t),
            Err(_) => exif_orientation(bytes@) is None,
        },
{
    let meta = exif::Reader::new().read_from_container(&mut std::io::Cursor::new(bytes)).map_err(|e| e.to_string())?;
    Ok(meta.get_field(exif::Tag::Orientation, exif::In::PRIMARY).and_then(|f| f.value.get_uint(0)))
}

/// How the final image is encoded.
#[derive(Clone, Copy, Debug, PartialEq, Eq, Structural)]
pub enum OutputFormat {
    Jpeg { quality: u8 },
    Png,
}

/// The bytes that encoding `p` in `format` gives; `None` where it fails.
pub open spec fn encoding(format: OutputFormat, p: Picture) -> Option<Seq<u8>> {
    match format {
        OutputFormat::Jpeg { quality } => jpeg_encoding(p.width, p.height, p.pixels, quality),
        OutputFormat::Png => png_encoding(p.width, p.height, p.pixels),
    }
}

/// Decodes an image, detecting its format from the content.
pub fn decode(bytes: &[u8]) -> (r: Result<Raster, TransformError>)
    ensures
        match r {
            Ok(img) => img.wf() && decoded(bytes@) == Some(
                (img.width as nat, img.height as nat, img.pixels@),
            ),
            Err(e) => e == TransformError::Decode && decoded(bytes@) is None,
        },
{
    match load_from_memory(bytes) {
        Ok(img) => Ok(img),
        Err(_) => Err(TransformError::Decode),
    }
}

/// Resamples `img` to `width` × `height` with a Lanczos3 filter. The pixel
/// values depend on floating-point rounding, so only the size is stated.
pub fn resample(img: &Raster, width: u32, height: u32) -> (r: Raster)
    requires
        img.wf(),
        0 < width,
        0 < height,
        width as nat * height as nat * 4 <= usize::MAX,
    ensures
        r.wf(),
        r.width == width,
        r.height == height,
{
    lanczos3_resize(img, width, height)
}

/// Encodes `img` in `format`.
pub fn encode(img: &Raster, format: OutputFormat) -> (r: Result<Vec<u8>, TransformError>)
    requires
        img.wf(),
    ensures
        match r {
            Ok(b) => encoding(format, img@) == Some(b@),
            Err(e) => e == TransformError::Encode && encoding(format, img@) is None,
        },
{
    let out = match format {
        OutputFormat::Jpeg { quality } => jpeg_encode(img, quality),
        OutputFormat::Png => png_encode(img),
    };
    match out {
        Ok(b) => Ok(b),
        Err(_) => Err(TransformError::Encode),
    }
}

} // verus!
