//! Rendering of the thumbnail of a stored image.

use vstd::prelude::*;
use vstd::string::*;
use crate::names::{
    all_safe, is_safe_segment, is_segment, lemma_preview_name_is_segment, path_in, path_of,
    preview_name, preview_name_of,
};
use crate::source::{append_bytes, ResolvedPayload};

verus! {

/// The width and the height of the box that a thumbnail fits into.
pub const PREVIEW_SIDE: u32 = 100;

/// A decoded picture of the `image` crate.
#[verifier::external_type_specification]
#[verifier::external_body]
pub struct ExDynamicImage(image::DynamicImage);

/// The error of the `image` crate.
#[verifier::external_type_specification]
#[verifier::external_body]
pub struct ExImageError(image::ImageError);

/// A file format of the `image` crate.
#[verifier::external_type_specification]
#[verifier::external_body]
pub struct ExImageFormat(image::ImageFormat);

/// The way a picture is sampled when it is scaled, one for each filter of the
/// `image` crate.
#[derive(Debug, Clone, Copy, PartialEq, Eq, Structural)]
pub enum Filter {
    Nearest,
    Triangle,
    CatmullRom,
    Gaussian,
    Lanczos3,
}

/// What `image::guess_format` returns for the bytes: the format that their
/// first bytes are the signature of, where there is one.
pub uninterp spec fn guessed_format(bytes: Seq<u8>) -> Option<image::ImageFormat>;

/// What `image::load_from_memory_with_format` returns for the bytes read in
/// a format: the picture, where they decode.
pub uninterp spec fn decoded_as(bytes: Seq<u8>, format: image::ImageFormat) -> Option<
    image::DynamicImage,
>;

/// What `image::ImageFormat::from_path` returns for a file name: the format
/// that its extension names, where it names one.
pub uninterp spec fn format_named(name: Seq<char>) -> Option<image::ImageFormat>;

/// What `image::DynamicImage::resize` returns: the picture scaled to fit
/// `width` by `height`.
pub uninterp spec fn scaled(
    picture: image::DynamicImage,
    width: u32,
    height: u32,
    filter: Filter,
) -> image::DynamicImage;

/// What `image::GenericImageView::dimensions` returns: the width and the
/// height of a picture.
pub uninterp spec fn picture_size(picture: image::DynamicImage) -> (u32, u32);

/// What `image::DynamicImage::write_to` writes for a picture in a format:
/// the encoded bytes, where the format can hold the picture.
pub uninterp spec fn encoded_as(picture: image::DynamicImage, format: image::ImageFormat) -> Option<
    Seq<u8>,
>;

/// Why no thumbnail was made.
#[derive(Debug, Clone, Copy, PartialEq, Eq, Structural)]
pub enum PreviewError {
    /// The bytes are not a picture.
    Decode,
    /// The thumbnail could not be written in the format that its path names.
    Encode,
    /// The thumbnail's file could not be written.
    Write,
}

/// The bytes to make a thumbnail of and the name that its own name derives
/// from.
#[derive(Debug, Clone, PartialEq, Eq)]
pub struct PreviewRequest {
    pub bytes: Vec<u8>,
    pub base_name: String,
}

impl PreviewRequest {
    /// The base name is one safe path segment.
    pub open spec fn wf(&self) -> bool {
        is_segment(self.base_name@)
    }

    /// Tests `wf`.
    pub fn is_valid(&self) -> (out: bool)
        ensures
            out == self.wf(),
    {
        is_safe_segment(self.base_name.as_str())
    }
}

/// A rendered thumbnail, the path to store it at, and the size that the
/// picture had when it was encoded.
#[derive(Debug, Clone, PartialEq, Eq)]
pub struct PreviewFile {
    pub path: String,
    pub bytes: Vec<u8>,
    pub width: u32,
    pub height: u32,
}

/// A rendered thumbnail as plain values.
pub struct PreviewFileView {
    pub path: Seq<char>,
    pub bytes: Seq<u8>,
    pub width: u32,
    pub height: u32,
}

impl View for PreviewFile {
    type V = PreviewFileView;

    open spec fn view(&self) -> PreviewFileView {
        PreviewFileView {
            path: self.path@,
            bytes: self.bytes@,
            width: self.width,
            height: self.height,
        }
    }
}

impl PreviewFile {
    /// The thumbnail fits the box.
    pub open spec fn wf(&self) -> bool {
        fits_box(self.width, self.height)
    }
}

/// Whether a picture of this size fits the box.
pub open spec fn fits_box(width: u32, height: u32) -> bool {
    width <= PREVIEW_SIDE && height <= PREVIEW_SIDE
}

/// The outcome of a rendering as plain values.
pub open spec fn outcome_view(out: Result<PreviewFile, PreviewError>) -> Result<
    PreviewFileView,
    PreviewError,
> {
    match out {
        Ok(f) => Ok(f@),
        Err(e) => Err(e),
    }
}

/// The bytes that the encoder gave, where it gave any.
pub open spec fn encoded_view(encoded: Option<Vec<u8>>) -> Option<Seq<u8>> {
    match encoded {
        Some(b) => Some(b@),
        None => None,
    }
}

/// The path of the thumbnail of `base_name` in `dir`.
pub open spec fn preview_path(dir: Seq<char>, base_name: Seq<char>) -> Seq<char> {
    path_in(dir, preview_name(base_name))
}

/// What rendering gives once the encoder has answered: the file with the
/// encoded bytes where the scaled picture fits the box and was encoded, an
/// encoding failure otherwise.
pub open spec fn finished(path: Seq<char>, width: u32, height: u32, encoded: Option<Seq<u8>>) -> Result<
    PreviewFileView,
    PreviewError,
> {
    match encoded {
        Some(bytes) if fits_box(width, height) => Ok(
            PreviewFileView { path, bytes, width, height },
        ),
        _ => Err(PreviewError::Encode),
    }
}

/// The thumbnail of `bytes` under the base name `base_name` in `dir`. The
/// format of the bytes is guessed from their signature and they are decoded
/// in it; the picture is scaled into the box with the triangle filter and
/// encoded in the format that the thumbnail's name names. Bytes without a
/// known signature, or that do not decode, are a decoding failure; a name
/// without a format, or a picture that the format cannot hold, is an
/// encoding failure.
pub open spec fn thumbnail(dir: Seq<char>, bytes: Seq<u8>, base_name: Seq<char>) -> Result<
    PreviewFileView,
    PreviewError,
> {
    match guessed_format(bytes) {
        None => Err(PreviewError::Decode),
        Some(source) => match decoded_as(bytes, source) {
            None => Err(PreviewError::Decode),
            Some(picture) => {
                let small = scaled(picture, PREVIEW_SIDE, PREVIEW_SIDE, Filter::Triangle);
                match format_named(preview_name(base_name)) {
                    None => Err(PreviewError::Encode),
                    Some(target) => finished(
                        preview_path(dir, base_name),
                        picture_size(small).0,
                        picture_size(small).1,
                        encoded_as(small, target),
                    ),
                }
            },
        },
    }
}

/// The bytes have a known signature and decode in its format, the
/// thumbnail's name names a format, and that format can hold the scaled
/// picture: all that a thumbnail takes.
pub open spec fn renderable(bytes: Seq<u8>, base_name: Seq<char>) -> bool {
    guessed_format(bytes) matches Some(source) && decoded_as(bytes, source) matches Some(picture)
        && format_named(preview_name(base_name)) matches Some(target) && encoded_as(
        scaled(picture, PREVIEW_SIDE, PREVIEW_SIDE, Filter::Triangle),
        target,
    ) is Some
}

/// Calls `image::guess_format`, which compares the first bytes with the
/// signatures of the formats it knows. The contract names the result.
#[verifier::external_body]
fn guess_format(bytes: &[u8]) -> (out: Result<image::ImageFormat, image::ImageError>)
    ensures
        match out {
            Ok(format) => guessed_format(bytes@) == Some(format),
            Err(_) => guessed_format(bytes@) is None,
        },
{
    image::guess_format(bytes)
}

/// Calls `image::load_from_memory_with_format`, which decodes the bytes with
/// the decoder of the given format. The contract names the result.
#[verifier::external_body]
fn decode(bytes: &[u8], format: image::ImageFormat) -> (out: Result<
    image::DynamicImage,
    image::ImageError,
>)
    ensures
        match out {
            Ok(picture) => decoded_as(bytes@, format) == Some(picture),
            Err(_) => decoded_as(bytes@, format) is None,
        },
{
    image::load_from_memory_with_format(bytes, format)
}

/// Calls `image::ImageFormat::from_path` on a file name, which reads the
/// format off the name's extension. The name is to hold no separator, so that
/// every platform takes it for one path component. The contract names the
/// result.
#[verifier::external_body]
fn format_of_name(name: &str) -> (out: Result<image::ImageFormat, image::ImageError>)
    requires
        all_safe(name@),
    ensures
        match out {
            Ok(format) => format_named(name@) == Some(format),
            Err(_) => format_named(name@) is None,
        },
{
    image::ImageFormat::from_path(name)
}

/// Calls `image::DynamicImage::resize`: a copy scaled to the largest size
/// that fits the bounds, its aspect ratio kept, sampled with the given
/// filter. The contract names the result and claims of it what the method's
/// documentation says: that it fits the bounds.
#[verifier::external_body]
fn shrink(picture: &image::DynamicImage, width: u32, height: u32, filter: Filter) -> (out:
    image::DynamicImage)
    requires
        width >= 1,
        height >= 1,
    ensures
        out == scaled(*picture, width, height, filter),
        picture_size(out).0 <= width,
        picture_size(out).1 <= height,
{
    let sampling = match filter {
        Filter::Nearest => image::imageops::FilterType::Nearest,
        Filter::Triangle => image::imageops::FilterType::Triangle,
        Filter::CatmullRom => image::imageops::FilterType::CatmullRom,
        Filter::Gaussian => image::imageops::FilterType::Gaussian,
        Filter::Lanczos3 => image::imageops::FilterType::Lanczos3,
    };
    picture.resize(width, height, sampling)
}

/// Calls `image::GenericImageView::dimensions`: the width and the height of
/// a picture. The contract names the result.
#[verifier::external_body]
fn size_of(picture: &image::DynamicImage) -> (out: (u32, u32))
    ensures
        out == picture_size(*picture),
{
    image::GenericImageView::dimensions(picture)
}

/// Calls `image::DynamicImage::write_to` on a buffer in memory. The contract
/// names the result: the bytes written on success, nothing on an error.
#[verifier::external_body]
fn encode(picture: &image::DynamicImage, format: image::ImageFormat) -> (out: Result<
    Vec<u8>,
    image::ImageError,
>)
    ensures
        match out {
            Ok(bytes) => encoded_as(*picture, format) == Some(bytes@),
            Err(_) => encoded_as(*picture, format) is None,
        },
{
    let mut buffer = std::io::Cursor::new(Vec::new());
    picture.write_to(&mut buffer, format)?;
    Ok(buffer.into_inner())
}

/// The request for the thumbnail of a payload.
pub fn preview_request(payload: &ResolvedPayload) -> (out: PreviewRequest)
    ensures
        out.bytes@ == payload.bytes@,
        out.base_name@ == payload.target_name@,
{
    let mut bytes: Vec<u8> = Vec::new();
    append_bytes(&mut bytes, &payload.bytes);
    assert(bytes@ =~= payload.bytes@);
    PreviewRequest { bytes, base_name: payload.target_name.clone() }
}

/// Pairs the encoded thumbnail with its path and size, or reports that
/// there is none: the encoder gave nothing, or the picture does not fit the
/// box.
pub fn finish_preview(path: String, width: u32, height: u32, encoded: Option<Vec<u8>>) -> (out:
    Result<PreviewFile, PreviewError>)
    ensures
        outcome_view(out) == finished(path@, width, height, encoded_view(encoded)),
        out matches Ok(f) ==> f.wf(),
{
    if width > PREVIEW_SIDE || height > PREVIEW_SIDE {
        return Err(PreviewError::Encode);
    }
    match encoded {
        Some(bytes) => Ok(PreviewFile { path, bytes, width, height }),
        None => Err(PreviewError::Encode),
    }
}

/// Renders the thumbnail of a request: decodes the bytes by their content,
/// scales the picture to fit the box and encodes it in the format that the
/// thumbnail's name names.
pub fn render_preview(request: &PreviewRequest, dir: &str) -> (out: Result<
    PreviewFile,
    PreviewError,
>)
    requires
        request.wf(),
    ensures
        outcome_view(out) == thumbnail(dir@, request.bytes@, request.base_name@),
        out is Ok <==> renderable(request.bytes@, request.base_name@),
        out matches Ok(f) ==> f.wf(),
{
    let source = match guess_format(request.bytes.as_slice()) {
        Ok(source) => source,
        Err(_) => {
            return Err(PreviewError::Decode);
        },
    };
    let picture = match decode(request.bytes.as_slice(), source) {
        Ok(picture) => picture,
        Err(_) => {
            return Err(PreviewError::Decode);
        },
    };
    let small = shrink(&picture, PREVIEW_SIDE, PREVIEW_SIDE, Filter::Triangle);
    let name = preview_name_of(request.base_name.as_str());
    proof {
        lemma_preview_name_is_segment(request.base_name@);
    }
    let path = path_of(dir, name.as_str());
    let target = match format_of_name(name.as_str()) {
        Ok(target) => target,
        Err(_) => {
            return Err(PreviewError::Encode);
        },
    };
    let (width, height) = size_of(&small);
    let encoded = match encode(&small, target) {
        Ok(bytes) => Some(bytes),
        Err(_) => None,
    };
    finish_preview(path, width, height, encoded)
}

/// A thumbnail that was rendered lies at the thumbnail's path and fits the
/// box; one that was not failed to decode exactly where the bytes have no
/// known signature or do not decode in the format of their signature.
pub proof fn lemma_thumbnail_shape(dir: Seq<char>, bytes: Seq<u8>, base_name: Seq<char>)
    ensures
        thumbnail(dir, bytes, base_name) matches Ok(f) ==> f.path == preview_path(dir, base_name)
            && fits_box(f.width, f.height),
        thumbnail(dir, bytes, base_name) == Err::<PreviewFileView, PreviewError>(
            PreviewError::Decode,
        ) <==> (guessed_format(bytes) matches Some(source) ==> decoded_as(bytes, source) is None),
        thumbnail(dir, bytes, base_name) != Err::<PreviewFileView, PreviewError>(
            PreviewError::Write,
        ),
{
}

} // verus!
