use vstd::prelude::*;
use vstd::string::{StrSliceExecFns, StringExecFns};

use crate::config::FileOpenStatus;
use crate::text::{chars_of, find_last, last_index_of};

verus! {

/// The lowercase form of a text, as `str::to_lowercase` gives it.
pub uninterp spec fn lowercase_of(s: Seq<char>) -> Seq<char>;

/// Relies on `str::to_lowercase`: the lowercase mapping of each character, which depends on
/// the text alone.
#[verifier::external_body]
fn lowercase(s: &str) -> (r: String)
    ensures
        r@ == lowercase_of(s@),
{
    s.to_lowercase()
}

/// The file that a request path names: a path ending in `/` names that directory's
/// `index.html`.
pub open spec fn file_path_of(path: Seq<char>) -> Seq<char> {
    if path.len() > 0 && path.last() == '/' {
        path + "index.html"@
    } else {
        path
    }
}

/// What follows the last `.` of a path (all of it when it holds none).
pub open spec fn extension_of(path: Seq<char>) -> Seq<char> {
    path.skip(last_index_of(path, '.') + 1)
}

/// The content type served for a lowercase extension; anything unknown is plain text.
pub open spec fn content_type_of_extension(ext: Seq<char>) -> Seq<char> {
    if ext == "html"@ {
        "text/html"@
    } else if ext == "css"@ {
        "text/css"@
    } else if ext == "js"@ {
        "text/javascript"@
    } else if ext == "json"@ {
        "application/json"@
    } else if ext == "png"@ {
        "image/png"@
    } else if ext == "jpg"@ || ext == "jpeg"@ {
        "image/jpeg"@
    } else if ext == "gif"@ {
        "image/gif"@
    } else if ext == "svg"@ {
        "image/svg+xml"@
    } else if ext == "ico"@ {
        "image/x-icon"@
    } else if ext == "pdf"@ {
        "application/pdf"@
    } else {
        "text/plain"@
    }
}

/// The HTTP status code answered for how opening the requested file went.
pub open spec fn status_code_of(s: FileOpenStatus) -> u16 {
    match s {
        FileOpenStatus::SUCCESS => 200,
        FileOpenStatus::DNE => 404,
        FileOpenStatus::ERROR => 500,
    }
}

/// The file that a request path names.
pub fn request_file_path(path: &str) -> (r: String)
    ensures
        r@ == file_path_of(path@),
{
    let v = chars_of(path);
    let mut r = String::from_str(path);
    if v.len() > 0 && v[v.len() - 1] == '/' {
        r.append("index.html");
    }
    r
}

/// The content type for a path already in lowercase.
pub fn content_type_for_lowercase(lowered: &str) -> (r: String)
    ensures
        r@ == content_type_of_extension(extension_of(lowered@)),
{
    let v = chars_of(lowered);
    let start = match find_last(&v, '.') {
        Some(i) => i + 1,
        None => 0,
    };
    let ext = lowered.substring_char(start, v.len());
    assert(ext@ =~= extension_of(lowered@));
    let t = if crate::text::same_text(ext, "html") {
        "text/html"
    } else if crate::text::same_text(ext, "css") {
        "text/css"
    } else if crate::text::same_text(ext, "js") {
        "text/javascript"
    } else if crate::text::same_text(ext, "json") {
        "application/json"
    } else if crate::text::same_text(ext, "png") {
        "image/png"
    } else if crate::text::same_text(ext, "jpg") || crate::text::same_text(ext, "jpeg") {
        "image/jpeg"
    } else if crate::text::same_text(ext, "gif") {
        "image/gif"
    } else if crate::text::same_text(ext, "svg") {
        "image/svg+xml"
    } else if crate::text::same_text(ext, "ico") {
        "image/x-icon"
    } else if crate::text::same_text(ext, "pdf") {
        "application/pdf"
    } else {
        "text/plain"
    };
    String::from_str(t)
}

/// The content type served for a file, by its extension in any case.
pub fn content_type_for(path: &str) -> (r: String)
    ensures
        r@ == content_type_of_extension(extension_of(lowercase_of(path@))),
{
    let lowered = lowercase(path);
    content_type_for_lowercase(lowered.as_str())
}

/// The status code of the answer to a `GET`.
pub fn status_code(s: FileOpenStatus) -> (r: u16)
    ensures
        r == status_code_of(s),
{
    match s {
        FileOpenStatus::SUCCESS => 200,
        FileOpenStatus::DNE => 404,
        FileOpenStatus::ERROR => 500,
    }
}

/// The body of the answer when the requested file does not exist.
pub fn not_found_body(path: &str) -> (r: String)
    ensures
        r@ == "File "@ + path@ + " not found"@,
{
    let mut r = String::from_str("File ");
    r.append(path);
    r.append(" not found");
    r
}

} // verus!
