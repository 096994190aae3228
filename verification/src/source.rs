//! Resolution of one form field to a byte payload and a target name.

use vstd::prelude::*;
use vstd::string::*;
use vstd::utf8::*;
use crate::names::{is_safe_segment, is_segment, is_settled, sanitize, sanitized};

verus! {

/// One piece of a field's body as the transport delivered it: either bytes,
/// or the mark of a piece that was lost on the way.
#[derive(Debug, Clone, PartialEq, Eq)]
pub enum Chunk {
    Data(Vec<u8>),
    Lost,
}

/// One part of a form submission, with its body fully received.
#[derive(Debug, Clone, PartialEq, Eq)]
pub struct UploadField {
    /// The declared file name; absent for an inline field.
    pub filename: Option<String>,
    /// The field's name in the form.
    pub name: String,
    /// The body, in arrival order.
    pub chunks: Vec<Chunk>,
}

/// What to do with a lost chunk: pass over it, or fail the field.
#[derive(Debug, Clone, Copy, PartialEq, Eq, Structural)]
pub enum DrainMode {
    Lenient,
    Strict,
}

/// Why a field's body could not be read.
#[derive(Debug, Clone, Copy, PartialEq, Eq, Structural)]
pub enum ResolveError {
    /// An inline chunk is not UTF-8 text.
    Decode,
    /// A chunk was lost and the mode is strict.
    Transport,
}

/// The bytes of an image and the name under which they are stored.
#[derive(Debug, Clone, PartialEq, Eq)]
pub struct ResolvedPayload {
    pub bytes: Vec<u8>,
    pub target_name: String,
}

impl ResolvedPayload {
    /// The target name is one safe path segment.
    pub open spec fn wf(&self) -> bool {
        is_segment(self.target_name@)
    }

    /// Tests `wf`.
    pub fn is_valid(&self) -> (out: bool)
        ensures
            out == self.wf(),
    {
        is_safe_segment(self.target_name.as_str())
    }
}

/// The outcome of resolving a field.
#[derive(Debug, Clone, PartialEq, Eq)]
pub enum Resolution {
    /// The payload is at hand.
    Ready(ResolvedPayload),
    /// The field's text is taken as the address of the image, still to be
    /// fetched.
    Remote { url: String, target_name: String },
    Failed(ResolveError),
}

/// What `base64::decode` returns for a text: the decoded bytes, or nothing
/// where the text is not base64 in the standard alphabet with padding.
pub uninterp spec fn base64_decoded(text: Seq<char>) -> Option<Seq<u8>>;

/// The bytes that a chunk adds to its body.
pub open spec fn chunk_bytes(chunk: Chunk) -> Seq<u8> {
    match chunk {
        Chunk::Data(b) => b@,
        Chunk::Lost => Seq::empty(),
    }
}

/// The bytes of a body: its chunks one after the other in arrival order. A
/// lost chunk adds nothing in lenient mode and fails the body in strict mode.
pub open spec fn drained_bytes(chunks: Seq<Chunk>, mode: DrainMode) -> Result<Seq<u8>, ResolveError>
    decreases chunks.len(),
{
    if chunks.len() == 0 {
        Ok(Seq::empty())
    } else {
        match drained_bytes(chunks.drop_last(), mode) {
            Err(e) => Err(e),
            Ok(before) => match chunks.last() {
                Chunk::Data(b) => Ok(before + b@),
                Chunk::Lost => if mode == DrainMode::Strict {
                    Err(ResolveError::Transport)
                } else {
                    Ok(before)
                },
            },
        }
    }
}

/// The text of a body: each chunk decoded as UTF-8 by itself, in arrival
/// order. The first chunk that is not UTF-8, or is lost in strict mode, fails
/// the body.
pub open spec fn drained_text(chunks: Seq<Chunk>, mode: DrainMode) -> Result<Seq<char>, ResolveError>
    decreases chunks.len(),
{
    if chunks.len() == 0 {
        Ok(Seq::empty())
    } else {
        match drained_text(chunks.drop_last(), mode) {
            Err(e) => Err(e),
            Ok(before) => match chunks.last() {
                Chunk::Data(b) => if valid_utf8(b@) {
                    Ok(before + decode_utf8(b@))
                } else {
                    Err(ResolveError::Decode)
                },
                Chunk::Lost => if mode == DrainMode::Strict {
                    Err(ResolveError::Transport)
                } else {
                    Ok(before)
                },
            },
        }
    }
}

/// What an inline field with the text `text` resolves to, given what the
/// base64 decoding of that text gave.
pub open spec fn inline_outcome(
    text: Seq<char>,
    target_name: Seq<char>,
    decoded: Option<Seq<u8>>,
    out: Resolution,
) -> bool {
    match decoded {
        Some(b) => out matches Resolution::Ready(p) && p.bytes@ == b && p.target_name@
            == target_name,
        None => out matches Resolution::Remote { url, target_name: t } && url@ == text && t@
            == target_name,
    }
}

/// The name that a field submits for what it carries: its file name, or its
/// own name where it has none.
pub open spec fn submitted_name(field: UploadField) -> Seq<char> {
    match field.filename {
        Some(f) => f@,
        None => field.name@,
    }
}

/// A submitted name that is a safe segment within the limit of length is
/// the name that the field's payload is stored under.
pub open spec fn keeps_settled_name(field: UploadField) -> bool {
    is_settled(submitted_name(field)) ==> sanitized(submitted_name(field)) == submitted_name(
        field,
    )
}

/// `out` is the resolution of `field` in `mode`.
pub open spec fn resolves_to(field: UploadField, mode: DrainMode, out: Resolution) -> bool {
    match field.filename {
        Some(f) => match drained_bytes(field.chunks@, mode) {
            Ok(b) => out matches Resolution::Ready(p) && p.bytes@ == b && p.target_name@
                == sanitized(f@),
            Err(e) => out == Resolution::Failed(e),
        },
        None => match drained_text(field.chunks@, mode) {
            Ok(t) => inline_outcome(t, sanitized(field.name@), base64_decoded(t), out),
            Err(e) => out == Resolution::Failed(e),
        },
    }
}

/// The name in a resolution, where it has one, is a safe segment.
pub open spec fn resolution_is_safe(out: Resolution) -> bool {
    match out {
        Resolution::Ready(p) => p.wf(),
        Resolution::Remote { url, target_name } => is_segment(target_name@),
        Resolution::Failed(_) => true,
    }
}

/// The error of the `base64` crate's decoder.
#[verifier::external_type_specification]
#[verifier::external_body]
pub struct ExDecodeError(base64::DecodeError);

/// Calls `base64::decode`, the standard alphabet with padding. The contract
/// names the result: the bytes on success, nothing on an error.
#[verifier::external_body]
#[allow(deprecated)]
fn decode_base64(text: &str) -> (out: Result<Vec<u8>, base64::DecodeError>)
    ensures
        match out {
            Ok(bytes) => base64_decoded(text@) == Some(bytes@),
            Err(_) => base64_decoded(text@) is None,
        },
{
    base64::decode(text)
}

/// Calls `std::str::from_utf8`: the bytes as text exactly where they are
/// valid UTF-8.
#[verifier::external_body]
fn text_of<'a>(bytes: &'a [u8]) -> (out: Option<&'a str>)
    ensures
        out is Some <==> valid_utf8(bytes@),
        out matches Some(s) ==> s@ == decode_utf8(bytes@),
{
    std::str::from_utf8(bytes).ok()
}

/// Appends `more` to `acc`.
pub fn append_bytes(acc: &mut Vec<u8>, more: &Vec<u8>)
    ensures
        final(acc)@ == old(acc)@ + more@,
{
    let ghost before = acc@;
    let mut i: usize = 0;
    while i < more.len()
        invariant
            i <= more.len(),
            acc@ == before + more@.take(i as int),
        decreases more.len() - i,
    {
        acc.push(more[i]);
        assert(more@.take(i + 1) =~= more@.take(i as int).push(more@[i as int]));
        assert(acc@ =~= before + more@.take(i + 1));
        i += 1;
    }
    assert(more@.take(more.len() as int) =~= more@);
}

/// Once a prefix of a body fails, the body fails in the same way.
pub proof fn lemma_bytes_failure_stays(chunks: Seq<Chunk>, mode: DrainMode, k: int)
    requires
        0 <= k <= chunks.len(),
        drained_bytes(chunks.take(k), mode) is Err,
    ensures
        drained_bytes(chunks, mode) == drained_bytes(chunks.take(k), mode),
    decreases chunks.len(),
{
    if k == chunks.len() {
        assert(chunks.take(k) =~= chunks);
    } else {
        assert(chunks.drop_last().take(k) =~= chunks.take(k));
        lemma_bytes_failure_stays(chunks.drop_last(), mode, k);
    }
}

/// Once a prefix of a text body fails, the body fails in the same way.
pub proof fn lemma_text_failure_stays(chunks: Seq<Chunk>, mode: DrainMode, k: int)
    requires
        0 <= k <= chunks.len(),
        drained_text(chunks.take(k), mode) is Err,
    ensures
        drained_text(chunks, mode) == drained_text(chunks.take(k), mode),
    decreases chunks.len(),
{
    if k == chunks.len() {
        assert(chunks.take(k) =~= chunks);
    } else {
        assert(chunks.drop_last().take(k) =~= chunks.take(k));
        lemma_text_failure_stays(chunks.drop_last(), mode, k);
    }
}

/// In lenient mode the bytes of a body never fail.
pub proof fn lemma_lenient_bytes_never_fail(chunks: Seq<Chunk>)
    ensures
        drained_bytes(chunks, DrainMode::Lenient) is Ok,
    decreases chunks.len(),
{
    if chunks.len() > 0 {
        lemma_lenient_bytes_never_fail(chunks.drop_last());
    }
}

/// What a strict reading gives, a lenient reading gives too.
pub proof fn lemma_strict_bytes_are_lenient_bytes(chunks: Seq<Chunk>)
    requires
        drained_bytes(chunks, DrainMode::Strict) is Ok,
    ensures
        drained_bytes(chunks, DrainMode::Lenient) == drained_bytes(chunks, DrainMode::Strict),
    decreases chunks.len(),
{
    if chunks.len() > 0 {
        lemma_strict_bytes_are_lenient_bytes(chunks.drop_last());
    }
}

/// The bytes of a body received in two parts are the bytes of the first part
/// followed by those of the second: nothing is reordered and nothing dropped.
pub proof fn lemma_bytes_in_arrival_order(first: Seq<Chunk>, second: Seq<Chunk>, mode: DrainMode)
    requires
        drained_bytes(first, mode) is Ok,
        drained_bytes(second, mode) is Ok,
    ensures
        drained_bytes(first + second, mode) == Ok::<Seq<u8>, ResolveError>(
            drained_bytes(first, mode)->Ok_0 + drained_bytes(second, mode)->Ok_0,
        ),
    decreases second.len(),
{
    if second.len() == 0 {
        assert(first + second =~= first);
        assert(drained_bytes(first, mode)->Ok_0 + Seq::<u8>::empty() =~= drained_bytes(
            first,
            mode,
        )->Ok_0);
    } else {
        assert((first + second).drop_last() =~= first + second.drop_last());
        assert((first + second).last() == second.last());
        lemma_bytes_in_arrival_order(first, second.drop_last(), mode);
        let a = drained_bytes(first, mode)->Ok_0;
        let b = drained_bytes(second.drop_last(), mode)->Ok_0;
        assert((a + b) + chunk_bytes(second.last()) =~= a + (b + chunk_bytes(second.last())));
    }
}

/// Reads a body as bytes.
pub fn drain_bytes(chunks: &Vec<Chunk>, mode: DrainMode) -> (out: Result<Vec<u8>, ResolveError>)
    ensures
        match out {
            Ok(b) => drained_bytes(chunks@, mode) == Ok::<Seq<u8>, ResolveError>(b@),
            Err(e) => drained_bytes(chunks@, mode) == Err::<Seq<u8>, ResolveError>(e),
        },
{
    let mut acc: Vec<u8> = Vec::new();
    let mut i: usize = 0;
    while i < chunks.len()
        invariant
            i <= chunks.len(),
            drained_bytes(chunks@.take(i as int), mode) == Ok::<Seq<u8>, ResolveError>(acc@),
        decreases chunks.len() - i,
    {
        proof {
            assert(chunks@.take(i + 1).drop_last() =~= chunks@.take(i as int));
            assert(chunks@.take(i + 1).last() == chunks@[i as int]);
        }
        match &chunks[i] {
            Chunk::Data(b) => {
                append_bytes(&mut acc, b);
            },
            Chunk::Lost => {
                if mode == DrainMode::Strict {
                    proof {
                        lemma_bytes_failure_stays(chunks@, mode, i + 1);
                    }
                    return Err(ResolveError::Transport);
                }
            },
        }
        i += 1;
    }
    assert(chunks@.take(chunks.len() as int) =~= chunks@);
    Ok(acc)
}

/// Reads a body as text, chunk by chunk.
pub fn drain_text(chunks: &Vec<Chunk>, mode: DrainMode) -> (out: Result<String, ResolveError>)
    ensures
        match out {
            Ok(t) => drained_text(chunks@, mode) == Ok::<Seq<char>, ResolveError>(t@),
            Err(e) => drained_text(chunks@, mode) == Err::<Seq<char>, ResolveError>(e),
        },
{
    let mut acc: String = String::new();
    let mut i: usize = 0;
    while i < chunks.len()
        invariant
            i <= chunks.len(),
            drained_text(chunks@.take(i as int), mode) == Ok::<Seq<char>, ResolveError>(acc@),
        decreases chunks.len() - i,
    {
        proof {
            assert(chunks@.take(i + 1).drop_last() =~= chunks@.take(i as int));
            assert(chunks@.take(i + 1).last() == chunks@[i as int]);
        }
        match &chunks[i] {
            Chunk::Data(b) => {
                match text_of(b.as_slice()) {
                    Some(s) => {
                        acc.append(s);
                    },
                    None => {
                        proof {
                            lemma_text_failure_stays(chunks@, mode, i + 1);
                        }
                        return Err(ResolveError::Decode);
                    },
                }
            },
            Chunk::Lost => {
                if mode == DrainMode::Strict {
                    proof {
                        lemma_text_failure_stays(chunks@, mode, i + 1);
                    }
                    return Err(ResolveError::Transport);
                }
            },
        }
        i += 1;
    }
    assert(chunks@.take(chunks.len() as int) =~= chunks@);
    Ok(acc)
}

/// Decides what an inline field resolves to once its text has been tried as
/// base64: the decoded bytes where there are any, else the text as the
/// address to fetch them from.
pub fn inline_resolution(text: String, target_name: String, decoded: Option<Vec<u8>>) -> (out:
    Resolution)
    ensures
        inline_outcome(
            text@,
            target_name@,
            match decoded {
                Some(b) => Some(b@),
                None => None,
            },
            out,
        ),
{
    match decoded {
        Some(bytes) => Resolution::Ready(ResolvedPayload { bytes, target_name }),
        None => Resolution::Remote { url: text, target_name },
    }
}

/// Resolves one field. A field with a file name carries the image itself; an
/// inline field carries it as base64 text, or else the address to fetch it
/// from. The target name is the sanitized file name, or the sanitized field
/// name for an inline field.
pub fn resolve(field: UploadField, mode: DrainMode) -> (out: Resolution)
    ensures
        resolves_to(field, mode, out),
        resolution_is_safe(out),
        out !is Failed ==> keeps_settled_name(field),
{
    match &field.filename {
        Some(f) => {
            match drain_bytes(&field.chunks, mode) {
                Ok(bytes) => Resolution::Ready(
                    ResolvedPayload { bytes, target_name: sanitize(f.as_str()) },
                ),
                Err(e) => Resolution::Failed(e),
            }
        },
        None => {
            match drain_text(&field.chunks, mode) {
                Ok(text) => {
                    let target_name = sanitize(field.name.as_str());
                    let decoded = match decode_base64(text.as_str()) {
                        Ok(bytes) => Some(bytes),
                        Err(_) => None,
                    };
                    inline_resolution(text, target_name, decoded)
                },
                Err(e) => Resolution::Failed(e),
            }
        },
    }
}

} // verus!
