//! File names that are safe to use as one path segment, and the paths of the
//! stored artifacts.

use vstd::prelude::*;
use vstd::string::*;
use vstd::utf8::{encode_utf8, is_ascii_chars, is_ascii_chars_encode_utf8};

verus! {

/// What `sanitize_filename::sanitize_with_options` returns for a name under
/// the three options.
pub uninterp spec fn stripped_name(
    raw: Seq<char>,
    windows: bool,
    truncate: bool,
    replacement: Seq<char>,
) -> Seq<char>;

/// A character that separates the segments of a path.
pub open spec fn is_separator(c: char) -> bool {
    c == '/' || c == '\\'
}

/// A mark that file systems or shells reserve.
pub open spec fn is_reserved_mark(c: char) -> bool {
    c == '?' || c == '<' || c == '>' || c == ':' || c == '*' || c == '|' || c == '"'
}

/// A control character, of the lower or of the upper block.
pub open spec fn is_control(c: char) -> bool {
    c as u32 <= 0x1f || 0x80 <= c as u32 <= 0x9f
}

/// A character that a file name must not hold.
pub open spec fn is_unsafe_char(c: char) -> bool {
    is_separator(c) || is_reserved_mark(c) || is_control(c)
}

/// No character of the name is unsafe.
pub open spec fn all_safe(s: Seq<char>) -> bool {
    forall|i: int| 0 <= i < s.len() ==> !is_unsafe_char(#[trigger] s[i])
}

/// A name made of dots alone, as the two names that lead out of a directory
/// are.
pub open spec fn only_dots(s: Seq<char>) -> bool {
    forall|i: int| 0 <= i < s.len() ==> #[trigger] s[i] == '.'
}

/// A name that stands for exactly one entry of a directory: not empty, free of
/// separators and other unsafe characters, and not made of dots alone.
pub open spec fn is_segment(s: Seq<char>) -> bool {
    &&& s.len() > 0
    &&& all_safe(s)
    &&& !only_dots(s)
}

/// The length in bytes that no stripped name exceeds.
pub open spec fn name_limit() -> nat {
    255
}

/// A segment short enough to pass the stripping as it is.
pub open spec fn is_settled(s: Seq<char>) -> bool {
    is_segment(s) && encode_utf8(s).len() <= name_limit()
}

/// The name used when nothing usable is left of the one submitted.
pub open spec fn placeholder() -> Seq<char> {
    seq!['u', 'n', 'n', 'a', 'm', 'e', 'd']
}

/// The stripped name where it is a segment, the placeholder otherwise.
pub open spec fn safe_name(stripped: Seq<char>) -> Seq<char> {
    if is_segment(stripped) {
        stripped
    } else {
        placeholder()
    }
}

/// The name with what is illegal in file names taken out, dots alone emptied
/// and the rest cut to 255 bytes; the rules of Windows are left aside, so that
/// a name is treated alike on every platform.
pub open spec fn stripped(raw: Seq<char>) -> Seq<char> {
    stripped_name(raw, false, true, Seq::empty())
}

/// The sanitized form of a submitted name.
pub open spec fn sanitized(raw: Seq<char>) -> Seq<char> {
    safe_name(stripped(raw))
}

/// The prefix that marks a thumbnail.
pub open spec fn preview_prefix() -> Seq<char> {
    seq!['p', 'r', 'e', 'v', 'i', 'e', 'w', '_']
}

/// The name of the thumbnail of `name`.
pub open spec fn preview_name(name: Seq<char>) -> Seq<char> {
    preview_prefix() + name
}

/// The path of the entry `name` of the directory `dir`.
pub open spec fn path_in(dir: Seq<char>, name: Seq<char>) -> Seq<char> {
    dir + seq!['/'] + name
}

/// `path` names an entry of `dir` itself: the directory, one separator and a
/// single segment.
pub open spec fn is_direct_child(path: Seq<char>, dir: Seq<char>) -> bool {
    &&& path.len() > dir.len() + 1
    &&& path.subrange(0, dir.len() as int) == dir
    &&& path[dir.len() as int] == '/'
    &&& is_segment(path.subrange(dir.len() as int + 1, path.len() as int))
}

/// Calls `sanitize_filename::sanitize_with_options`, which replaces the
/// characters that are illegal in file names and a name made of dots only,
/// does the same for the device names and the trailing dots and spaces that
/// Windows reserves where `windows` is set, and cuts the result to 255 bytes
/// where `truncate` is set. The contract names the result and claims two
/// things of it: that a result that was cut has at most 255 bytes, and that,
/// the rules of Windows aside, a name in which nothing is to be replaced and
/// which is short enough comes back as it is.
#[verifier::external_body]
fn strip_name(raw: &str, windows: bool, truncate: bool, replacement: &str) -> (out: String)
    ensures
        out@ == stripped_name(raw@, windows, truncate, replacement@),
        truncate ==> encode_utf8(out@).len() <= name_limit(),
        !windows && all_safe(raw@) && !only_dots(raw@) && encode_utf8(raw@).len() <= name_limit()
            ==> out@ == raw@,
{
    sanitize_filename::sanitize_with_options(
        raw,
        sanitize_filename::Options { windows, truncate, replacement },
    )
}

/// Whether a file name must not hold `c`.
pub fn is_unsafe(c: char) -> (out: bool)
    ensures
        out == is_unsafe_char(c),
{
    let code: u32 = c as u32;
    c == '/' || c == '\\' || c == '?' || c == '<' || c == '>' || c == ':' || c == '*' || c == '|'
        || c == '"' || code <= 0x1f || (0x80 <= code && code <= 0x9f)
}

/// Whether `name` can stand for one entry of a directory.
pub fn is_safe_segment(name: &str) -> (out: bool)
    ensures
        out == is_segment(name@),
{
    let n: usize = name.unicode_len();
    let mut other: bool = false;
    let mut i: usize = 0;
    while i < n
        invariant
            n == name@.len(),
            i <= n,
            forall|j: int| 0 <= j < i ==> !is_unsafe_char(#[trigger] name@[j]),
            other ==> !only_dots(name@),
            !other ==> forall|j: int| 0 <= j < i ==> #[trigger] name@[j] == '.',
        decreases n - i,
    {
        let c = name.get_char(i);
        if is_unsafe(c) {
            return false;
        }
        if c != '.' {
            other = true;
        }
        i += 1;
    }
    other
}

/// Keeps a stripped name that is a segment and replaces any other by the
/// placeholder.
pub fn settle_name(stripped: String) -> (out: String)
    ensures
        out@ == safe_name(stripped@),
        is_segment(out@),
{
    if is_safe_segment(stripped.as_str()) {
        stripped
    } else {
        proof {
            reveal_strlit("unnamed");
            lemma_placeholder_is_segment();
        }
        let fallback = String::from_str("unnamed");
        assert(fallback@ =~= placeholder());
        fallback
    }
}

/// Turns a submitted name into a safe segment. A name that is a safe segment
/// within the limit of length is kept as it is, and so sanitizing the result
/// once more gives the result itself.
pub fn sanitize(raw: &str) -> (out: String)
    ensures
        out@ == sanitized(raw@),
        is_settled(out@),
        is_settled(raw@) ==> out@ == raw@,
        sanitized(out@) == out@,
{
    proof {
        reveal_strlit("");
        lemma_placeholder_is_settled();
    }
    assert(""@ =~= Seq::<char>::empty());
    let out = settle_name(strip_name(raw, false, true, ""));
    // A settled name passes the stripping as it is: the second pass shows it.
    let again = strip_name(out.as_str(), false, true, "");
    assert(again@ == out@);
    out
}

/// The name under which the thumbnail of `name` is stored.
pub fn preview_name_of(name: &str) -> (out: String)
    ensures
        out@ == preview_name(name@),
{
    proof {
        reveal_strlit("preview_");
    }
    let mut p = String::from_str("preview_");
    assert(p@ =~= preview_prefix());
    p.append(name);
    p
}

/// The path of the entry `name` of `dir`.
pub fn path_of(dir: &str, name: &str) -> (out: String)
    ensures
        out@ == path_in(dir@, name@),
{
    proof {
        reveal_strlit("/");
    }
    let mut p = String::from_str(dir);
    p.append("/");
    assert("/"@ =~= seq!['/']);
    p.append(name);
    p
}

/// The placeholder is itself a segment.
pub proof fn lemma_placeholder_is_segment()
    ensures
        is_segment(placeholder()),
{
    let p = placeholder();
    assert(p.len() == 7);
    assert(p[0] == 'u');
    assert forall|i: int| 0 <= i < p.len() implies !is_unsafe_char(#[trigger] p[i]) by {
        assert(p[1] == 'n' && p[2] == 'n' && p[3] == 'a' && p[4] == 'm' && p[5] == 'e' && p[6]
            == 'd');
    }
}

/// The placeholder is a segment within the limit of length.
pub proof fn lemma_placeholder_is_settled()
    ensures
        is_settled(placeholder()),
{
    lemma_placeholder_is_segment();
    let p = placeholder();
    assert(p[0] == 'u' && p[1] == 'n' && p[2] == 'n' && p[3] == 'a' && p[4] == 'm' && p[5] == 'e'
        && p[6] == 'd');
    assert(is_ascii_chars(p));
    is_ascii_chars_encode_utf8(p);
}

/// A segment of at most 255 characters, all of them ASCII, is within the
/// limit of length.
pub proof fn lemma_short_ascii_segment_is_settled(name: Seq<char>)
    requires
        is_segment(name),
        is_ascii_chars(name),
        name.len() <= name_limit(),
    ensures
        is_settled(name),
{
    is_ascii_chars_encode_utf8(name);
}

/// Settling a name twice gives what settling it once gives.
pub proof fn lemma_safe_name_idempotent(stripped: Seq<char>)
    ensures
        safe_name(safe_name(stripped)) == safe_name(stripped),
        is_segment(safe_name(stripped)),
{
    lemma_placeholder_is_segment();
}

/// The thumbnail's name of a segment is a segment.
pub proof fn lemma_preview_name_is_segment(name: Seq<char>)
    requires
        is_segment(name),
    ensures
        is_segment(preview_name(name)),
{
    let p = preview_name(name);
    let pre = preview_prefix();
    assert(pre.len() == 8);
    assert(p[0] == 'p');
    assert forall|i: int| 0 <= i < p.len() implies !is_unsafe_char(#[trigger] p[i]) by {
        if i < 8 {
            assert(p[i] == pre[i]);
            assert(pre[0] == 'p' && pre[1] == 'r' && pre[2] == 'e' && pre[3] == 'v' && pre[4]
                == 'i' && pre[5] == 'e' && pre[6] == 'w' && pre[7] == '_');
        } else {
            assert(p[i] == name[i - 8]);
        }
    }
}

/// A file stored under a segment lies in the directory itself, whatever name
/// was submitted: the original and its thumbnail never leave `dir`.
pub proof fn lemma_paths_stay_inside(dir: Seq<char>, name: Seq<char>)
    requires
        is_segment(name),
    ensures
        is_direct_child(path_in(dir, name), dir),
        is_direct_child(path_in(dir, preview_name(name)), dir),
{
    lemma_preview_name_is_segment(name);
    lemma_child_of(dir, name);
    lemma_child_of(dir, preview_name(name));
}

proof fn lemma_child_of(dir: Seq<char>, name: Seq<char>)
    requires
        is_segment(name),
    ensures
        is_direct_child(path_in(dir, name), dir),
{
    let path = path_in(dir, name);
    assert(path.subrange(0, dir.len() as int) =~= dir);
    assert(path.subrange(dir.len() as int + 1, path.len() as int) =~= name);
}

} // verus!
