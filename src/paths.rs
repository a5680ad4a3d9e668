//! Paths: the platform's path operations and directories, and the layout of
//! the files the library keeps under its storage root.
use vstd::prelude::*;

verus! {

/// The text of an optional string.
pub open spec fn text_opt(o: Option<String>) -> Option<Seq<char>> {
    match o {
        Some(s) => Some(s@),
        None => None,
    }
}

/// `part` joined onto `base` by the platform's path rules.
pub uninterp spec fn joined(base: Seq<char>, part: Seq<char>) -> Seq<char>;

/// The parent of a path, if it has one.
pub uninterp spec fn parent_of(path: Seq<char>) -> Option<Seq<char>>;

/// The extension of a path's file name, if it has one.
pub uninterp spec fn extension_of(path: Seq<char>) -> Option<Seq<char>>;

/// Relies on std's `Path::join`, whose result depends on the two paths alone.
#[verifier::external_body]
pub(crate) fn join_path(base: &str, part: &str) -> (r: String)
    ensures
        r@ == joined(base@, part@),
{
    std::path::Path::new(base).join(part).to_string_lossy().into_owned()
}

/// Relies on std's `Path::parent`, whose result depends on the path alone.
#[verifier::external_body]
pub(crate) fn parent_path(path: &str) -> (r: Option<String>)
    ensures
        match r {
            Some(p) => parent_of(path@) == Some(p@),
            None => parent_of(path@) is None,
        },
{
    std::path::Path::new(path).parent().map(|p| p.to_string_lossy().into_owned())
}

/// Relies on std's `Path::extension`, whose result depends on the path alone.
#[verifier::external_body]
pub(crate) fn path_extension(path: &str) -> (r: Option<String>)
    ensures
        match r {
            Some(e) => extension_of(path@) == Some(e@),
            None => extension_of(path@) is None,
        },
{
    std::path::Path::new(path).extension().map(|e| e.to_string_lossy().into_owned())
}

/// Relies on `dirs::config_dir`, the user's configuration directory, which
/// depends on the platform and the environment; `None` also when its path is
/// not valid UTF-8, as the library's paths are strings.
#[verifier::external_body]
pub(crate) fn platform_config_dir() -> (r: Option<String>) {
    dirs::config_dir().and_then(|p| p.into_os_string().into_string().ok())
}

/// Relies on `dirs::picture_dir`, the user's pictures directory, which
/// depends on the platform and the environment; `None` also when its path is
/// not valid UTF-8.
#[verifier::external_body]
pub(crate) fn platform_picture_dir() -> (r: Option<String>) {
    dirs::picture_dir().and_then(|p| p.into_os_string().into_string().ok())
}

/// Relies on `dirs::data_local_dir`, the user's local data directory, which
/// depends on the platform and the environment; `None` also when its path is
/// not valid UTF-8.
#[verifier::external_body]
pub(crate) fn platform_data_local_dir() -> (r: Option<String>) {
    dirs::data_local_dir().and_then(|p| p.into_os_string().into_string().ok())
}

} // verus!
