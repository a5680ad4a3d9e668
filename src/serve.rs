//! Serving stored images to the application window: the file a request's
//! path names, and the content type to answer with.
use vstd::prelude::*;
use crate::paths::{extension_of, path_extension};

verus! {

/// The text a percent-encoded string decodes to, with invalid UTF-8 replaced.
pub uninterp spec fn percent_decoded(s: Seq<char>) -> Seq<char>;

/// Relies on `percent_encoding::percent_decode_str` followed by its
/// `decode_utf8_lossy`: the decoded text depends on the input alone.
#[verifier::external_body]
fn percent_decode(s: &str) -> (r: String)
    ensures
        r@ == percent_decoded(s@),
{
    percent_encoding::percent_decode_str(s).decode_utf8_lossy().into_owned()
}

/// The content type served for a file extension.
pub open spec fn mime_of(ext: Option<Seq<char>>) -> Seq<char> {
    match ext {
        Some(e) => if e == "png"@ {
            "image/png"@
        } else if e == "jpg"@ || e == "jpeg"@ {
            "image/jpeg"@
        } else if e == "gif"@ {
            "image/gif"@
        } else if e == "svg"@ {
            "image/svg+xml"@
        } else if e == "webp"@ {
            "image/webp"@
        } else {
            "application/octet-stream"@
        },
        None => "application/octet-stream"@,
    }
}

fn is(a: &str, b: &str) -> (r: bool)
    ensures
        r == (a@ == b@),
{
    String::from_str(a) == String::from_str(b)
}

/// The content type served for a file extension (`None`: the file has none).
pub fn mime_for_extension(ext: Option<&str>) -> (r: String)
    ensures
        r@ == mime_of(match ext { Some(e) => Some(e@), None => None }),
{
    let t = match ext {
        Some(e) => if is(e, "png") {
            "image/png"
        } else if is(e, "jpg") || is(e, "jpeg") {
            "image/jpeg"
        } else if is(e, "gif") {
            "image/gif"
        } else if is(e, "svg") {
            "image/svg+xml"
        } else if is(e, "webp") {
            "image/webp"
        } else {
            "application/octet-stream"
        },
        None => "application/octet-stream",
    };
    String::from_str(t)
}

/// The content type served for the file at `path`, by its extension.
pub fn get_mime_type(path: &str) -> (r: String)
    ensures
        r@ == mime_of(extension_of(path@)),
{
    let ext = path_extension(path);
    match ext {
        Some(e) => mime_for_extension(Some(e.as_str())),
        None => mime_for_extension(None),
    }
}

/// The file a decoded request path names: on Windows a leading `/` is
/// dropped (`/C:/...`); otherwise a leading `localhost` is.
pub open spec fn request_file(decoded: Seq<char>, windows: bool) -> Seq<char> {
    if windows && decoded.len() > 0 && decoded[0] == '/' {
        decoded.skip(1)
    } else if decoded.len() >= 9 && decoded.take(9) == "localhost"@ {
        decoded.skip(9)
    } else {
        decoded
    }
}

/// The file a decoded request path names.
pub fn strip_request_prefix(decoded: &str, windows: bool) -> (r: String)
    ensures
        r@ == request_file(decoded@, windows),
{
    let n = decoded.unicode_len();
    if windows && n > 0 && decoded.get_char(0) == '/' {
        return String::from_str(decoded.substring_char(1, n));
    }
    if n >= 9 && is(decoded.substring_char(0, 9), "localhost") {
        return String::from_str(decoded.substring_char(9, n));
    }
    assert(decoded@.skip(0) =~= decoded@);
    String::from_str(decoded)
}

/// The file a request's percent-encoded path names.
pub fn request_file_path(uri_path: &str, windows: bool) -> (r: String)
    ensures
        r@ == request_file(percent_decoded(uri_path@), windows),
{
    let decoded = percent_decode(uri_path);
    strip_request_prefix(decoded.as_str(), windows)
}

} // verus!
