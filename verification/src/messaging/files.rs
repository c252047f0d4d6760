//! Names of the files this client writes and reads for messages: where a
//! downloaded attachment is saved, where an avatar is cached, where a pasted
//! image goes, and how an attachment to send is described.
use vstd::prelude::*;

use crate::messaging::types::AttachmentInfo;
use crate::text::{owned, push_char, push_str, text_contains, contains_text};

verus! {

/// What `mime_guess::get_mime_extensions_str(mime)` lists first: the usual
/// file extension for a MIME type, if it knows one.
pub uninterp spec fn mime_extension_of(mime: Seq<char>) -> Option<Seq<char>>;

/// What `mime_guess::from_path(path).first()` gives, as text: the MIME type
/// its table has for the path's extension, if any.
pub uninterp spec fn mime_of_path(path: Seq<char>) -> Option<Seq<char>>;

/// What `std::path::Path::file_name` gives for `path`: its final component,
/// none when the path ends in `..` or is a root or prefix.
pub uninterp spec fn path_file_name(path: Seq<char>) -> Option<Seq<char>>;

/// `mime_guess::get_mime_extensions_str(mime)` and its first entry.
#[verifier::external_body]
fn first_mime_extension(mime: &str) -> (r: Option<String>)
    ensures
        r.deep_view() == mime_extension_of(mime@),
{
    mime_guess::get_mime_extensions_str(mime).and_then(|exts| exts.first()).map(|e| e.to_string())
}

/// `mime_guess::from_path(path).first()`, rendered as text.
#[verifier::external_body]
fn guess_mime_from_path(path: &str) -> (r: Option<String>)
    ensures
        r.deep_view() == mime_of_path(path@),
{
    mime_guess::from_path(path).first().map(|m| m.to_string())
}

/// `std::path::Path::new(path).file_name()`, as text (lossily, as the
/// callers did).
#[verifier::external_body]
fn file_name_of_path(path: &str) -> (r: Option<String>)
    ensures
        r.deep_view() == path_file_name(path@),
{
    std::path::Path::new(path).file_name().map(|n| n.to_string_lossy().to_string())
}

/// A character allowed in an attachment's file name stem.
pub open spec fn is_safe_char(c: char) -> bool {
    ('a' <= c && c <= 'z') || ('A' <= c && c <= 'Z') || ('0' <= c && c <= '9') || c == '-' || c == '_'
}

/// The safe characters of `s`, in order.
pub open spec fn safe_chars(s: Seq<char>) -> Seq<char> {
    s.filter(|c: char| is_safe_char(c))
}

/// The stem of a saved attachment's file name: the first 128 safe
/// characters of the (sender-controlled) attachment id, or "attachment"
/// when it has none.
pub open spec fn attachment_stem(id: Seq<char>) -> Seq<char> {
    let safe = safe_chars(id);
    let kept = if safe.len() > 128 { safe.take(128) } else { safe };
    if kept.len() == 0 {
        "attachment"@
    } else {
        kept
    }
}

/// The file name a downloaded attachment is saved under:
/// `<stem>.<extension for its MIME type, else "bin">`.
pub open spec fn attachment_file_name_of(id: Seq<char>, mime: Seq<char>) -> Seq<char> {
    let ext = match mime_extension_of(mime) {
        Some(e) => e,
        None => "bin"@,
    };
    attachment_stem(id) + seq!['.'] + ext
}

fn safe_char(c: char) -> (r: bool)
    ensures
        r == is_safe_char(c),
{
    ('a' <= c && c <= 'z') || ('A' <= c && c <= 'Z') || ('0' <= c && c <= '9') || c == '-' || c == '_'
}

/// The stem of a saved attachment's file name.
pub fn attachment_stem_of(id: &str) -> (r: String)
    ensures
        r@ == attachment_stem(id@),
{
    let n = id.unicode_len();
    let mut kept = String::new();
    let mut count: usize = 0;
    let mut i: usize = 0;
    let ghost p = |c: char| is_safe_char(c);
    while i < n
        invariant
            n == id@.len(),
            i <= n,
            count == kept@.len(),
            count <= 128,
            kept@ == (if safe_chars(id@.take(i as int)).len() > 128 {
                safe_chars(id@.take(i as int)).take(128)
            } else {
                safe_chars(id@.take(i as int))
            }),
        decreases n - i,
    {
        let c = id.get_char(i);
        proof {
            reveal(Seq::filter);
            assert(id@.take(i + 1).drop_last() =~= id@.take(i as int));
            assert(id@.take(i + 1).last() == c);
            let before = safe_chars(id@.take(i as int));
            if is_safe_char(c) {
                assert(safe_chars(id@.take(i + 1)) == before.push(c));
                if before.len() >= 128 {
                    assert(before.push(c).take(128) =~= before.take(128));
                }
            } else {
                assert(safe_chars(id@.take(i + 1)) == before);
            }
        }
        if safe_char(c) && count < 128 {
            let ghost old_kept = kept@;
            push_char(&mut kept, c);
            proof {
                let before = safe_chars(id@.take(i as int));
                if before.len() == 128 {
                    assert(false);
                }
                if before.push(c).len() > 128 {
                    assert(before.len() == 128);
                }
            }
            count = count + 1;
        }
        i = i + 1;
    }
    proof {
        assert(id@.take(n as int) =~= id@);
    }
    if count == 0 {
        owned("attachment")
    } else {
        kept
    }
}

/// The file name a downloaded attachment is saved under. The attachment's
/// own file name (chosen by the sender) never takes part.
pub fn attachment_file_name(id: &str, mime: &str) -> (r: String)
    ensures
        r@ == attachment_file_name_of(id@, mime@),
{
    let mut name = attachment_stem_of(id);
    push_char(&mut name, '.');
    match first_mime_extension(mime) {
        Some(e) => push_str(&mut name, e.as_str()),
        None => push_str(&mut name, "bin"),
    }
    name
}

/// The stem of a saved attachment's name is never empty, holds at most 128
/// characters, and only letters, digits, `-` and `_`: no path separator or
/// dot can come from the sender.
pub proof fn lemma_attachment_stem_is_safe(id: Seq<char>)
    ensures
        0 < attachment_stem(id).len() <= 128,
        forall|i: int| 0 <= i < attachment_stem(id).len() ==> is_safe_char(#[trigger] attachment_stem(id)[i]),
{
    let p = |c: char| is_safe_char(c);
    id.filter_lemma(p);
    let safe = safe_chars(id);
    assert forall|i: int| 0 <= i < safe.len() implies is_safe_char(#[trigger] safe[i]) by {
        assert(p(safe[i]));
    }
    reveal_strlit("attachment");
    let stem = attachment_stem(id);
    if safe.len() > 0 {
        assert forall|i: int| 0 <= i < stem.len() implies is_safe_char(#[trigger] stem[i]) by {
            assert(stem[i] == safe[i]);
        }
    }
}

/// Whether an attachment still has to be downloaded: it has no local copy
/// yet and carries the pointer to fetch it with.
pub fn needs_download(att: &AttachmentInfo) -> (r: bool)
    ensures
        r == (att.local_path is None && att.pointer_data is Some),
{
    att.local_path.is_none() && att.pointer_data.is_some()
}

/// The extension a cached avatar gets from its content type.
pub open spec fn avatar_extension_of(content_type: Seq<char>) -> Seq<char> {
    if contains_text(content_type, "png"@) {
        "png"@
    } else if contains_text(content_type, "webp"@) {
        "webp"@
    } else if contains_text(content_type, "gif"@) {
        "gif"@
    } else {
        "jpg"@
    }
}

/// The extension a cached avatar gets from its content type.
pub fn avatar_extension(content_type: &str) -> (r: &'static str)
    ensures
        r@ == avatar_extension_of(content_type@),
{
    if text_contains(content_type, "png") {
        "png"
    } else if text_contains(content_type, "webp") {
        "webp"
    } else if text_contains(content_type, "gif") {
        "gif"
    } else {
        "jpg"
    }
}

/// The file an avatar is cached in, `<key>.<ext>`, or none for an empty
/// image (the UI then shows initials).
pub fn avatar_file_name(key: &str, content_type: &str, byte_count: usize) -> (r: Option<String>)
    ensures
        byte_count == 0 ==> r is None,
        byte_count > 0 ==> (r matches Some(n) && n@ == key@ + seq!['.'] + avatar_extension_of(content_type@)),
{
    if byte_count == 0 {
        return None;
    }
    let mut name = owned(key);
    push_char(&mut name, '.');
    push_str(&mut name, avatar_extension(content_type));
    Some(name)
}

/// An ASCII letter or digit.
pub open spec fn is_ascii_alnum(c: char) -> bool {
    ('a' <= c && c <= 'z') || ('A' <= c && c <= 'Z') || ('0' <= c && c <= '9')
}

/// The lower-case form of an ASCII character (others unchanged).
pub open spec fn ascii_lower(c: char) -> char {
    if 'A' <= c && c <= 'Z' {
        ((c as u8) + 32) as char
    } else {
        c
    }
}

/// The extension a pasted image is saved with: the first five ASCII letters
/// and digits of the extension the page gave, lower-cased, or "png" when it
/// gave none.
pub open spec fn pasted_extension_of(ext: Seq<char>) -> Seq<char> {
    let kept = ext.filter(|c: char| is_ascii_alnum(c));
    let short = if kept.len() > 5 { kept.take(5) } else { kept };
    if short.len() == 0 {
        "png"@
    } else {
        short.map_values(|c: char| ascii_lower(c))
    }
}

fn lower(c: char) -> (r: char)
    ensures
        r == ascii_lower(c),
{
    if 'A' <= c && c <= 'Z' {
        ((c as u8) + 32) as char
    } else {
        c
    }
}

/// The extension a pasted image is saved with; it ends up in a file name,
/// so nothing but letters and digits is kept.
pub fn pasted_image_extension(extension: &str) -> (r: String)
    ensures
        r@ == pasted_extension_of(extension@),
{
    let n = extension.unicode_len();
    let mut out = String::new();
    let mut count: usize = 0;
    let mut i: usize = 0;
    let ghost p = |c: char| is_ascii_alnum(c);
    let ghost f = |c: char| ascii_lower(c);
    while i < n
        invariant
            n == extension@.len(),
            i <= n,
            count == out@.len(),
            count <= 5,
            p == (|c: char| is_ascii_alnum(c)),
            f == (|c: char| ascii_lower(c)),
            out@ == (if extension@.take(i as int).filter(p).len() > 5 {
                extension@.take(i as int).filter(p).take(5)
            } else {
                extension@.take(i as int).filter(p)
            }).map_values(f),
        decreases n - i,
    {
        let c = extension.get_char(i);
        proof {
            reveal(Seq::filter);
            assert(extension@.take(i + 1).drop_last() =~= extension@.take(i as int));
            assert(extension@.take(i + 1).last() == c);
        }
        let ghost before = extension@.take(i as int).filter(p);
        let ghost old_out = out@;
        if ('a' <= c && c <= 'z') || ('A' <= c && c <= 'Z') || ('0' <= c && c <= '9') {
            proof {
                assert(extension@.take(i + 1).filter(p) == before.push(c));
            }
            if count < 5 {
                push_char(&mut out, lower(c));
                count = count + 1;
                proof {
                    assert(before.len() < 5);
                    assert(before.push(c).map_values(f) =~= before.map_values(f).push(ascii_lower(c)));
                }
            } else {
                proof {
                    assert(before.len() >= 5);
                    assert(before.push(c).take(5) =~= before.take(5));
                    if before.len() == 5 {
                        assert(before.take(5) =~= before);
                    }
                }
            }
        } else {
            proof {
                assert(extension@.take(i + 1).filter(p) == before);
            }
        }
        i = i + 1;
    }
    proof {
        assert(extension@.take(n as int) =~= extension@);
    }
    if count == 0 {
        owned("png")
    } else {
        out
    }
}

/// What is known of a file about to be uploaded as an attachment.
#[derive(Debug, Clone)]
pub struct UploadSpec {
    pub content_type: String,
    pub length: usize,
    pub file_name: Option<String>,
}

/// How a file to attach is described: the MIME type guessed from its
/// extension (else `application/octet-stream`), its length, and its file
/// name.
pub fn upload_spec(path: &str, length: usize) -> (r: UploadSpec)
    ensures
        r.content_type@ == match mime_of_path(path@) {
            Some(m) => m,
            None => "application/octet-stream"@,
        },
        r.length == length,
        r.file_name.deep_view() == path_file_name(path@),
{
    let content_type = match guess_mime_from_path(path) {
        Some(m) => m,
        None => owned("application/octet-stream"),
    };
    UploadSpec { content_type, length, file_name: file_name_of_path(path) }
}

/// The file a pasted image is written to: `paste-<millis>.<ext>`.
pub fn pasted_file_name(millis: u64, extension: &str) -> (r: String)
    ensures
        r@ == "paste-"@ + crate::text::decimal(millis as nat) + seq!['.'] + pasted_extension_of(extension@),
{
    let mut name = crate::text::with_decimal("paste-", millis);
    push_char(&mut name, '.');
    let ext = pasted_image_extension(extension);
    push_str(&mut name, ext.as_str());
    name
}

/// Below this size (bytes) a database file that holds no registration is
/// taken for an empty or broken leftover.
pub const STALE_DATABASE_BYTES: u64 = 4096;

/// Whether a database file of `size` bytes that holds no registration is
/// removed at start-up: only an empty or broken one (under 4096 bytes); a
/// larger one keeps the data of an earlier session.
pub fn discard_unregistered_database(size: u64) -> (r: bool)
    ensures
        r == (size < STALE_DATABASE_BYTES),
{
    size < STALE_DATABASE_BYTES
}

} // verus!
