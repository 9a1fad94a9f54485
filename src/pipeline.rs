//! The transformation pipeline: decode, resize, correct orientation, encode.
use vstd::prelude::*;
use vstd::string::StrSliceExecFns;
use crate::codec::{
    OutputFormat, decode, decoded, encode, encoding, exif_orientation, is_jpeg_container,
    jpeg_signature, read_orientation, resample,
};
use crate::error::TransformError;
use crate::orientation::{oriented, rotate_image};
use crate::raster::{Picture, Raster};
use crate::sizing::{TargetWidth, resize_possible, resized_dimensions, target_dims};

verus! {

/// Quality of every JPEG the pipeline writes.
pub const JPEG_QUALITY: u8 = 90;

/// The output format for a requested MIME type: PNG for `image/png`, JPEG at
/// quality 90 for anything else.
pub open spec fn format_for(mime: Seq<char>) -> OutputFormat {
    if mime == "image/png"@ {
        OutputFormat::Png
    } else {
        OutputFormat::Jpeg { quality: 90 }
    }
}

fn same_text(a: &str, b: &str) -> (r: bool)
    ensures
        r == (a@ == b@),
{
    let n = a.unicode_len();
    let m = b.unicode_len();
    if n != m {
        return false;
    }
    let mut i: usize = 0;
    while i < n
        invariant
            n == a@.len(),
            m == b@.len(),
            n == m,
            i <= n,
            forall|j: int| 0 <= j < i ==> a@[j] == b@[j],
        decreases n - i,
    {
        if a.get_char(i) != b.get_char(i) {
            return false;
        }
        i += 1;
    }
    assert(a@ =~= b@);
    true
}

/// Chooses the output format from the requested MIME type.
pub fn get_image_format(mime_type: &str) -> (r: OutputFormat)
    ensures
        r == format_for(mime_type@),
{
    if same_text(mime_type, "image/png") {
        OutputFormat::Png
    } else {
        OutputFormat::Jpeg { quality: JPEG_QUALITY }
    }
}

/// Resizes `img` to the target width, keeping its aspect ratio.
pub fn resize_image(img: &Raster, new_w: TargetWidth) -> (r: Result<Raster, TransformError>)
    requires
        img.wf(),
    ensures
        r is Ok <==> resize_possible(img.width as nat, img.height as nat, new_w),
        r matches Ok(out) ==> out.wf() && (out.width as nat, out.height as nat) == target_dims(
            img.width as nat,
            img.height as nat,
            new_w,
        ),
        r is Err ==> r == Err::<Raster, TransformError>(TransformError::Resize),
{
    match resized_dimensions(img.width, img.height, new_w) {
        Ok((nw, nh)) => Ok(resample(img, nw, nh)),
        Err(e) => Err(e),
    }
}

/// What an EXIF reading tells: `None` where the metadata could not be read.
pub open spec fn reading_view(reading: Result<Option<u32>, String>) -> Option<Option<u32>> {
    match reading {
        Ok(t) => Some(t),
        Err(_) => None,
    }
}

/// The orientation tag to correct: only a JPEG source's, and only when its
/// metadata was read and holds one.
pub open spec fn applied_tag(source_is_jpeg: bool, reading: Option<Option<u32>>) -> Option<u32> {
    if source_is_jpeg {
        match reading {
            Some(Some(t)) => Some(t),
            _ => None,
        }
    } else {
        None
    }
}

/// `p` with the orientation `tag` corrected, or as it is without a tag.
pub open spec fn corrected(p: Picture, tag: Option<u32>) -> Picture {
    match tag {
        Some(t) => oriented(t, p),
        None => p,
    }
}

/// A resized image after the orientation stage.
pub struct Oriented {
    pub image: Raster,
    /// The message of the EXIF reader, where it failed on a JPEG source.
    pub exif_error: Option<String>,
}

/// The orientation stage. `reading` is what the EXIF reader gave on the
/// source bytes; it is ignored when the source is not JPEG. A failed reading
/// is no error: the image stays as it is and the message is handed on.
pub fn correct_orientation(
    resized: Raster,
    source_is_jpeg: bool,
    reading: Result<Option<u32>, String>,
) -> (r: Oriented)
    requires
        resized.wf(),
    ensures
        r.image.wf(),
        r.image@ == corrected(resized@, applied_tag(source_is_jpeg, reading_view(reading))),
        r.exif_error == (if source_is_jpeg && reading is Err {
            Some(reading->Err_0)
        } else {
            None::<String>
        }),
{
    if !source_is_jpeg {
        return Oriented { image: resized, exif_error: None };
    }
    match reading {
        Ok(Some(tag)) => Oriented { image: rotate_image(resized, tag), exif_error: None },
        Ok(None) => Oriented { image: resized, exif_error: None },
        Err(message) => Oriented { image: resized, exif_error: Some(message) },
    }
}

/// The size of a `w` × `h` picture once `tag` is corrected: tags 5 to 8
/// involve one quarter turn and swap width and height.
pub open spec fn oriented_size(w: nat, h: nat, tag: Option<u32>) -> (nat, nat) {
    match tag {
        Some(t) => if 5 <= t <= 8 {
            (h, w)
        } else {
            (w, h)
        },
        None => (w, h),
    }
}

/// The encoded result of a transformation.
pub struct Transformed {
    pub bytes: Vec<u8>,
    pub width: u32,
    pub height: u32,
    /// The message of the EXIF reader, where it failed on a JPEG source.
    pub exif_error: Option<String>,
}

/// The stages after resampling: corrects the orientation of `resampled`
/// (see [`correct_orientation`]) and encodes it in the format that
/// `mime_type` asks for.
pub fn finish(
    resampled: Raster,
    source_is_jpeg: bool,
    reading: Result<Option<u32>, String>,
    mime_type: &str,
) -> (r: Result<Transformed, TransformError>)
    requires
        resampled.wf(),
    ensures
        ({
            let fin = corrected(resampled@, applied_tag(source_is_jpeg, reading_view(reading)));
            match r {
                Ok(t) => encoding(format_for(mime_type@), fin) == Some(t.bytes@) && t.width
                    == fin.width && t.height == fin.height && t.exif_error == (if source_is_jpeg
                    && reading is Err {
                    Some(reading->Err_0)
                } else {
                    None::<String>
                }),
                Err(e) => e == TransformError::Encode && encoding(format_for(mime_type@), fin) is None,
            }
        }),
{
    let fin = correct_orientation(resampled, source_is_jpeg, reading);
    let format = get_image_format(mime_type);
    match encode(&fin.image, format) {
        Ok(bytes) => Ok(
            Transformed {
                bytes,
                width: fin.image.width,
                height: fin.image.height,
                exif_error: fin.exif_error,
            },
        ),
        Err(e) => Err(e),
    }
}

/// The picture that comes out of the orientation stage when `q` is the
/// resampled picture of a transformation of the bytes `source`.
pub open spec fn corrected_for(source: Seq<u8>, q: Picture) -> Picture {
    corrected(q, applied_tag(jpeg_signature(source), exif_orientation(source)))
}

/// `q` is a picture of the size that `target` asks of the image decoded
/// from `source`.
pub open spec fn resampled_candidate(source: Seq<u8>, target: TargetWidth, q: Picture) -> bool {
    match decoded(source) {
        Some((w, h, _)) => q.wf() && (q.width, q.height) == target_dims(w, h, target),
        None => false,
    }
}

/// Decodes `source`, resizes it to `target`, corrects its EXIF orientation
/// if it is a JPEG, and encodes it in the format that `mime_type` asks for.
/// The resampled pixels depend on floating-point rounding: what is stated
/// holds for every picture of the target size that the resampler returns.
pub fn transform(source: &[u8], target: TargetWidth, mime_type: &str) -> (r: Result<
    Transformed,
    TransformError,
>)
    ensures
        (r == Err::<Transformed, TransformError>(TransformError::Decode)) <==> decoded(
            source@,
        ) is None,
        (r == Err::<Transformed, TransformError>(TransformError::Resize)) <==> (decoded(
            source@,
        ) matches Some((w, h, _)) && !resize_possible(w, h, target)),
        r matches Err(e) ==> e == TransformError::Decode || e == TransformError::Resize || (
        e == TransformError::Encode && exists|q: Picture|
            #[trigger] resampled_candidate(source@, target, q) && encoding(
                format_for(mime_type@),
                corrected_for(source@, q),
            ) is None),
        r matches Ok(t) ==> decoded(source@) matches Some((w, h, _)) && resize_possible(
            w,
            h,
            target,
        ) && ({
            let (nw, nh) = target_dims(w, h, target);
            (t.width as nat, t.height as nat) == oriented_size(
                nw,
                nh,
                applied_tag(jpeg_signature(source@), exif_orientation(source@)),
            )
        }),
        r matches Ok(t) ==> exists|q: Picture|
            #[trigger] resampled_candidate(source@, target, q) && encoding(
                format_for(mime_type@),
                corrected_for(source@, q),
            ) == Some(t.bytes@),
        r matches Ok(t) ==> (t.exif_error is Some <==> (jpeg_signature(source@)
            && exif_orientation(source@) is None)),
{
    let img = match decode(source) {
        Ok(img) => img,
        Err(e) => return Err(e),
    };
    let scaled = match resize_image(&img, target) {
        Ok(s) => s,
        Err(e) => return Err(e),
    };
    let ghost q = scaled@;
    let is_jpeg = is_jpeg_container(source);
    let reading = if is_jpeg {
        read_orientation(source)
    } else {
        Ok(None)
    };
    let r = finish(scaled, is_jpeg, reading, mime_type);
    proof {
        assert(resampled_candidate(source@, target, q));
        let tag = applied_tag(jpeg_signature(source@), exif_orientation(source@));
        assert(applied_tag(is_jpeg, reading_view(reading)) == tag);
        match tag {
            Some(t) => crate::orientation::lemma_oriented_dimensions(q, t),
            None => {},
        }
    }
    r
}

/// A source that is not a JPEG is never reoriented, whatever metadata it
/// carries: the picture handed to the encoder is the resampled one.
pub proof fn lemma_non_jpeg_not_reoriented(source: Seq<u8>, q: Picture)
    requires
        !jpeg_signature(source),
    ensures
        corrected_for(source, q) == q,
{
}

/// EXIF metadata that cannot be read does not stop a JPEG source: the
/// picture handed to the encoder is the resampled one, with no orientation
/// applied.
pub proof fn lemma_unreadable_exif_keeps_orientation(source: Seq<u8>, q: Picture)
    requires
        jpeg_signature(source),
        exif_orientation(source) is None,
    ensures
        corrected_for(source, q) == q,
{
}

/// A JPEG source whose metadata holds no orientation is not reoriented.
pub proof fn lemma_absent_tag_keeps_orientation(source: Seq<u8>, q: Picture)
    requires
        exif_orientation(source) == Some(None::<u32>),
    ensures
        corrected_for(source, q) == q,
{
}

/// Correcting with tag 1, or with no tag at all, leaves a picture as it is.
pub proof fn lemma_identity_orientation(p: Picture)
    ensures
        corrected(p, Some(1u32)) == p,
        corrected(p, None) == p,
{
    crate::orientation::lemma_orientation_table(p, 1);
}

} // verus!
