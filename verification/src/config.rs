//! Upload limits and the formats the service accepts.
use vstd::prelude::*;
use crate::text::{chars_end_with, chars_of, ends_with, str_eq};

verus! {

/// Largest accepted upload, in bytes (1 GiB).
pub const MAX_UPLOAD_BYTES: i64 = 1073741824;

/// MIME types accepted at video creation.
pub open spec fn supported_mime_types() -> Seq<Seq<char>> {
    seq!["video/mp4"@, "video/quicktime"@, "video/webm"@, "video/x-msvideo"@, "video/x-matroska"@]
}

/// File extensions accepted at video creation (compared after lowercasing).
pub open spec fn supported_extensions() -> Seq<Seq<char>> {
    seq![".mp4"@, ".mov"@, ".webm"@, ".avi"@, ".mkv"@]
}

/// The accepted MIME types, in order.
pub fn supported_mime_type_list() -> (v: Vec<&'static str>)
    ensures
        v@.len() == supported_mime_types().len(),
        forall|i: int| 0 <= i < v@.len() ==> #[trigger] v@[i]@ == supported_mime_types()[i],
{
    let v = vec!["video/mp4", "video/quicktime", "video/webm", "video/x-msvideo", "video/x-matroska"];
    v
}

/// The accepted file extensions, in order.
pub fn supported_extension_list() -> (v: Vec<&'static str>)
    ensures
        v@.len() == supported_extensions().len(),
        forall|i: int| 0 <= i < v@.len() ==> #[trigger] v@[i]@ == supported_extensions()[i],
{
    let v = vec![".mp4", ".mov", ".webm", ".avi", ".mkv"];
    v
}

/// What `str::to_lowercase` returns for a string: its Unicode lowercase mapping.
pub uninterp spec fn unicode_lowercase(s: Seq<char>) -> Seq<char>;

/// Lowercases a string.
///
/// Trusted: `str::to_lowercase` returns the Unicode lowercase mapping of the
/// string, a function of the string alone, named here `unicode_lowercase`.
#[verifier::external_body]
fn lowercase(s: &str) -> (res: String)
    ensures
        res@ == unicode_lowercase(s@),
{
    s.to_lowercase()
}

/// Whether a lowercased file name ends with one of the accepted extensions.
pub open spec fn spec_has_supported_extension_lowered(lower: Seq<char>) -> bool {
    exists|i: int| 0 <= i < supported_extensions().len() && ends_with(lower, #[trigger] supported_extensions()[i])
}

/// Whether a file name, once lowercased, ends with one of the accepted extensions.
pub open spec fn spec_has_supported_extension(filename: Seq<char>) -> bool {
    spec_has_supported_extension_lowered(unicode_lowercase(filename))
}

/// Whether an already lowercased file name ends with one of the accepted extensions.
pub fn has_supported_extension_lowered(lower: &str) -> (res: bool)
    ensures
        res == spec_has_supported_extension_lowered(lower@),
{
    let cs = chars_of(lower);
    let exts = supported_extension_list();
    let mut i: usize = 0;
    while i < exts.len()
        invariant
            cs@ == lower@,
            exts@.len() == supported_extensions().len(),
            forall|k: int| 0 <= k < exts@.len() ==> #[trigger] exts@[k]@ == supported_extensions()[k],
            i <= exts@.len(),
            forall|k: int| 0 <= k < i ==> !ends_with(lower@, #[trigger] supported_extensions()[k]),
        decreases exts@.len() - i,
    {
        let ext = chars_of(exts[i]);
        if chars_end_with(cs.as_slice(), ext.as_slice()) {
            assert(ends_with(lower@, supported_extensions()[i as int]));
            return true;
        }
        i = i + 1;
    }
    false
}

/// Whether the file name has an accepted extension, ignoring case.
pub fn has_supported_extension(filename: &str) -> (res: bool)
    ensures
        res == spec_has_supported_extension(filename@),
{
    let lower = lowercase(filename);
    has_supported_extension_lowered(lower.as_str())
}

/// Whether the MIME type is one of the accepted ones (compared exactly).
pub fn is_supported_mime(mime: &str) -> (res: bool)
    ensures
        res == supported_mime_types().contains(mime@),
{
    let types = supported_mime_type_list();
    let mut i: usize = 0;
    while i < types.len()
        invariant
            types@.len() == supported_mime_types().len(),
            forall|k: int| 0 <= k < types@.len() ==> #[trigger] types@[k]@ == supported_mime_types()[k],
            i <= types@.len(),
            forall|k: int| 0 <= k < i ==> supported_mime_types()[k] != mime@,
        decreases types@.len() - i,
    {
        if str_eq(types[i], mime) {
            assert(supported_mime_types()[i as int] == mime@);
            return true;
        }
        i = i + 1;
    }
    false
}

} // verus!
