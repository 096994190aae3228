//! The decisions of one upload request, field by field. The caller reads the
//! fields, fetches and stores what a step asks for, and hands the outcome
//! back; the first failure ends the request.

use vstd::prelude::*;
use vstd::string::*;
use crate::names::{
    is_direct_child, is_segment, lemma_paths_stay_inside, path_in, path_of, safe_name, sanitized,
    settle_name,
};
use crate::preview::{
    lemma_thumbnail_shape, preview_request, render_preview, renderable, thumbnail, PreviewError,
    PreviewFile,
};
use crate::source::{
    base64_decoded, drained_bytes, drained_text, keeps_settled_name, resolution_is_safe, resolve,
    DrainMode,
    Resolution, ResolveError, ResolvedPayload, UploadField,
};

verus! {

/// Where the artifacts go and how lost chunks are treated.
#[derive(Debug, Clone, PartialEq, Eq)]
pub struct Config {
    pub dir: String,
    pub mode: DrainMode,
}

/// Why a remote image could not be had.
#[derive(Debug, Clone, Copy, PartialEq, Eq, Structural)]
pub enum FetchFailure {
    /// The request failed or was answered with an error status.
    Request,
    /// The body of the answer could not be read.
    Body,
}

/// Why a request was ended.
#[derive(Debug, Clone, Copy, PartialEq, Eq, Structural)]
pub enum UploadError {
    Resolve(ResolveError),
    Fetch(FetchFailure),
    /// The original could not be stored.
    Io,
    Preview(PreviewError),
}

/// The answer to a request.
#[derive(Debug, Clone, PartialEq, Eq)]
pub struct Response {
    pub status: u16,
    pub body: String,
}

/// What the caller does next.
#[derive(Debug, Clone, PartialEq, Eq)]
pub enum Step {
    /// Fetch the image at `url`, then call `after_fetch`.
    Fetch { url: String, target_name: String },
    /// Write the payload's bytes to `path`, then call `after_original_stored`.
    StoreOriginal { path: String, payload: ResolvedPayload },
    /// Write the thumbnail to `path`, then call `after_preview_stored`.
    StorePreview { path: String, bytes: Vec<u8> },
    /// Read the next field.
    NextField,
    /// End the request with this answer.
    Respond(Response),
}

/// The status of a request whose fields were all stored.
pub const STATUS_OK: u16 = 200;

/// The status of a request that was ended by a failure.
pub const STATUS_BAD_REQUEST: u16 = 400;

/// The text that tells the sender what went wrong.
pub open spec fn message(error: UploadError) -> Seq<char> {
    match error {
        UploadError::Resolve(ResolveError::Decode) => "unable to read form value text"@,
        UploadError::Resolve(ResolveError::Transport) => "incomplete form value"@,
        UploadError::Fetch(FetchFailure::Request) => "unable to get image from url"@,
        UploadError::Fetch(FetchFailure::Body) => "invalid image response"@,
        UploadError::Io => "unable to save image file"@,
        UploadError::Preview(_) => "cannot make image preview"@,
    }
}

/// `out` ends the request as a bad request with the message of `error`.
pub open spec fn is_failure(out: Step, error: UploadError) -> bool {
    out matches Step::Respond(r) && r.status == STATUS_BAD_REQUEST && r.body@ == message(error)
}

/// `out` asks to store `bytes` as the entry `name` of `dir`.
pub open spec fn is_store_original(out: Step, dir: Seq<char>, bytes: Seq<u8>, name: Seq<char>) -> bool {
    out matches Step::StoreOriginal { path, payload } && path@ == path_in(dir, name)
        && payload.bytes@ == bytes && payload.target_name@ == name
}

/// `out` asks to fetch `url` for the target `name`.
pub open spec fn is_fetch(out: Step, url: Seq<char>, name: Seq<char>) -> bool {
    out matches Step::Fetch { url: u, target_name } && u@ == url && target_name@ == name
}

/// The step that follows a resolution.
pub open spec fn follows_resolution(dir: Seq<char>, resolution: Resolution, out: Step) -> bool {
    match resolution {
        Resolution::Ready(p) => is_store_original(out, dir, p.bytes@, p.target_name@),
        Resolution::Remote { url, target_name } => is_fetch(out, url@, target_name@),
        Resolution::Failed(e) => is_failure(out, UploadError::Resolve(e)),
    }
}

/// The step that a field begins with.
pub open spec fn begins(config: Config, field: UploadField, out: Step) -> bool {
    let dir = config.dir@;
    match field.filename {
        Some(f) => match drained_bytes(field.chunks@, config.mode) {
            Ok(b) => is_store_original(out, dir, b, sanitized(f@)),
            Err(e) => is_failure(out, UploadError::Resolve(e)),
        },
        None => match drained_text(field.chunks@, config.mode) {
            Ok(t) => match base64_decoded(t) {
                Some(b) => is_store_original(out, dir, b, sanitized(field.name@)),
                None => is_fetch(out, t, sanitized(field.name@)),
            },
            Err(e) => is_failure(out, UploadError::Resolve(e)),
        },
    }
}

/// The step that follows a rendering.
pub open spec fn follows_rendering(rendered: Result<PreviewFile, PreviewError>, out: Step) -> bool {
    match rendered {
        Ok(f) => out matches Step::StorePreview { path, bytes } && path@ == f.path@ && bytes@
            == f.bytes@,
        Err(e) => is_failure(out, UploadError::Preview(e)),
    }
}

/// The step that follows the writing of a payload's original: the end of
/// the request where the write failed or no thumbnail can be rendered, else
/// the storing of the thumbnail.
pub open spec fn follows_original(dir: Seq<char>, payload: ResolvedPayload, stored: bool, out: Step) -> bool {
    if !stored {
        is_failure(out, UploadError::Io)
    } else {
        match thumbnail(dir, payload.bytes@, payload.target_name@) {
            Ok(f) => out matches Step::StorePreview { path, bytes } && path@ == f.path && bytes@
                == f.bytes,
            Err(e) => is_failure(out, UploadError::Preview(e)),
        }
    }
}

/// Every path that `out` asks to write to names an entry of `dir` itself.
pub open spec fn writes_inside(out: Step, dir: Seq<char>) -> bool {
    match out {
        Step::StoreOriginal { path, payload } => is_direct_child(path@, dir) && payload.wf(),
        Step::StorePreview { path, bytes } => is_direct_child(path@, dir),
        Step::Fetch { url, target_name } => is_segment(target_name@),
        _ => true,
    }
}

/// The message of an error.
pub fn message_of(error: UploadError) -> (out: String)
    ensures
        out@ == message(error),
{
    match error {
        UploadError::Resolve(ResolveError::Decode) => String::from_str(
            "unable to read form value text",
        ),
        UploadError::Resolve(ResolveError::Transport) => String::from_str("incomplete form value"),
        UploadError::Fetch(FetchFailure::Request) => String::from_str(
            "unable to get image from url",
        ),
        UploadError::Fetch(FetchFailure::Body) => String::from_str("invalid image response"),
        UploadError::Io => String::from_str("unable to save image file"),
        UploadError::Preview(_) => String::from_str("cannot make image preview"),
    }
}

/// The answer to a request that failed: a bad request with the error's
/// message.
pub fn failure_response(error: UploadError) -> (out: Response)
    ensures
        out.status == STATUS_BAD_REQUEST,
        out.body@ == message(error),
{
    Response { status: STATUS_BAD_REQUEST, body: message_of(error) }
}

/// The answer to a request whose fields were all stored: success with an
/// empty body.
pub fn success_response() -> (out: Response)
    ensures
        out.status == STATUS_OK,
        out.body@ == Seq::<char>::empty(),
{
    Response { status: STATUS_OK, body: String::new() }
}

fn fail(error: UploadError) -> (out: Step)
    ensures
        is_failure(out, error),
{
    Step::Respond(failure_response(error))
}

fn store_original(config: &Config, payload: ResolvedPayload) -> (out: Step)
    ensures
        is_store_original(out, config.dir@, payload.bytes@, payload.target_name@),
        payload.wf() ==> writes_inside(out, config.dir@),
{
    proof {
        if payload.wf() {
            lemma_paths_stay_inside(config.dir@, payload.target_name@);
        }
    }
    let path = path_of(config.dir.as_str(), payload.target_name.as_str());
    Step::StoreOriginal { path, payload }
}

/// The step that follows a resolution: store the payload, fetch the image,
/// or end the request.
pub fn step_of_resolution(config: &Config, resolution: Resolution) -> (out: Step)
    ensures
        follows_resolution(config.dir@, resolution, out),
        resolution_is_safe(resolution) ==> writes_inside(out, config.dir@),
{
    match resolution {
        Resolution::Ready(payload) => store_original(config, payload),
        Resolution::Remote { url, target_name } => Step::Fetch { url, target_name },
        Resolution::Failed(e) => fail(UploadError::Resolve(e)),
    }
}

/// Takes up a field: resolves it and says what to do with the outcome.
pub fn begin_field(config: &Config, field: UploadField) -> (out: Step)
    ensures
        begins(*config, field, out),
        writes_inside(out, config.dir@),
        out !is Respond ==> keeps_settled_name(field),
{
    let resolution = resolve(field, config.mode);
    step_of_resolution(config, resolution)
}

/// What a fetch gave, going by the status of the answer and by its body,
/// which is absent where it could not be read: the body of an answer with a
/// status from 200 to 299.
pub open spec fn fetched(status: u16, body: Option<Seq<u8>>) -> Result<Seq<u8>, FetchFailure> {
    if !(200 <= status <= 299) {
        Err(FetchFailure::Request)
    } else {
        match body {
            Some(b) => Ok(b),
            None => Err(FetchFailure::Body),
        }
    }
}

/// The bytes of a body, where there is one.
pub open spec fn body_view(body: Option<Vec<u8>>) -> Option<Seq<u8>> {
    match body {
        Some(b) => Some(b@),
        None => None,
    }
}

/// Judges the answer to a fetch.
pub fn fetch_outcome(status: u16, body: Option<Vec<u8>>) -> (out: Result<Vec<u8>, FetchFailure>)
    ensures
        match out {
            Ok(b) => fetched(status, body_view(body)) == Ok::<Seq<u8>, FetchFailure>(b@),
            Err(e) => fetched(status, body_view(body)) == Err::<Seq<u8>, FetchFailure>(e),
        },
{
    if status < 200 || status > 299 {
        return Err(FetchFailure::Request);
    }
    match body {
        Some(bytes) => Ok(bytes),
        None => Err(FetchFailure::Body),
    }
}

/// Goes on after a fetch: the body becomes the payload under the target
/// name, settled once more; a failed fetch ends the request.
pub fn after_fetch(config: &Config, target_name: String, fetched: Result<Vec<u8>, FetchFailure>) -> (out:
    Step)
    ensures
        match fetched {
            Ok(b) => is_store_original(out, config.dir@, b@, safe_name(target_name@)),
            Err(e) => is_failure(out, UploadError::Fetch(e)),
        },
        writes_inside(out, config.dir@),
{
    match fetched {
        Ok(bytes) => {
            let name = settle_name(target_name);
            store_original(config, ResolvedPayload { bytes, target_name: name })
        },
        Err(e) => fail(UploadError::Fetch(e)),
    }
}

/// The step that follows a rendering: store the thumbnail, or end the
/// request.
pub fn step_of_rendering(rendered: Result<PreviewFile, PreviewError>) -> (out: Step)
    ensures
        follows_rendering(rendered, out),
{
    match rendered {
        Ok(file) => Step::StorePreview { path: file.path, bytes: file.bytes },
        Err(e) => fail(UploadError::Preview(e)),
    }
}

/// Goes on after the original was written: where the write failed the
/// request ends; else the thumbnail is rendered from the same bytes and is
/// to be stored beside the original, unless the bytes are no picture or the
/// thumbnail cannot be encoded.
pub fn after_original_stored(config: &Config, payload: &ResolvedPayload, stored: bool) -> (out:
    Step)
    requires
        payload.wf(),
    ensures
        follows_original(config.dir@, *payload, stored, out),
        out is StorePreview <==> stored && renderable(payload.bytes@, payload.target_name@),
        writes_inside(out, config.dir@),
{
    if !stored {
        return fail(UploadError::Io);
    }
    let request = preview_request(payload);
    let rendered = render_preview(&request, config.dir.as_str());
    proof {
        lemma_paths_stay_inside(config.dir@, payload.target_name@);
        lemma_thumbnail_shape(config.dir@, payload.bytes@, payload.target_name@);
    }
    step_of_rendering(rendered)
}

/// Goes on after the thumbnail was written: on to the next field, or the
/// end of the request where the write failed.
pub fn after_preview_stored(stored: bool) -> (out: Step)
    ensures
        stored ==> out == Step::NextField,
        !stored ==> is_failure(out, UploadError::Preview(PreviewError::Write)),
{
    if stored {
        Step::NextField
    } else {
        fail(UploadError::Preview(PreviewError::Write))
    }
}

/// The step at the end of the fields: the request succeeded.
pub fn end_of_fields() -> (out: Step)
    ensures
        out matches Step::Respond(r) && r.status == STATUS_OK && r.body@ == Seq::<char>::empty(),
{
    Step::Respond(success_response())
}

} // verus!
