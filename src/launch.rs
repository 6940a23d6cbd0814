//! How a launch target is opened, decided from the App's type.
use vstd::prelude::*;

verus! {

/// The way a launch target is opened.
#[derive(Debug, Clone, Copy, PartialEq, Eq, Structural)]
pub enum LaunchKind {
    /// Opened by the system's URL handler.
    Web,
    /// Opened in Google Chrome.
    ChromeApp,
    /// An application bundle of macOS.
    MacApp,
    /// A program of Windows.
    WinApp,
}

/// What `str::to_lowercase` returns for a text.
pub uninterp spec fn lower_of(s: Seq<char>) -> Seq<char>;

/// Relies on `str::to_lowercase`, whose result depends on the characters alone.
#[verifier::external_body]
fn lowercase(s: &str) -> (r: String)
    ensures
        r@ == lower_of(s@),
{
    s.to_lowercase()
}

/// The way of opening that a lower-case type names; an unknown type is
/// opened as a URL.
pub open spec fn kind_of(t: Seq<char>) -> LaunchKind {
    if t == "chrome app"@ {
        LaunchKind::ChromeApp
    } else if t == "mac app"@ {
        LaunchKind::MacApp
    } else if t == "win app"@ {
        LaunchKind::WinApp
    } else {
        LaunchKind::Web
    }
}

/// The way of opening that a type already brought to lower case names.
pub fn kind_of_lowered(t: &String) -> (r: LaunchKind)
    ensures
        r == kind_of(t@),
{
    if *t == String::from_str("chrome app") {
        LaunchKind::ChromeApp
    } else if *t == String::from_str("mac app") {
        LaunchKind::MacApp
    } else if *t == String::from_str("win app") {
        LaunchKind::WinApp
    } else {
        LaunchKind::Web
    }
}

/// The way of opening an App of the given type, compared without regard to
/// case; an App without a type is opened as a URL.
pub fn launch_kind(app_type: Option<&str>) -> (r: LaunchKind)
    ensures
        r == match app_type {
            Some(t) => kind_of(lower_of(t@)),
            None => LaunchKind::Web,
        },
{
    match app_type {
        Some(t) => kind_of_lowered(&lowercase(t)),
        None => LaunchKind::Web,
    }
}

/// What `Path::file_stem` gives for a path written as text, when it is text.
pub uninterp spec fn stem_of(path: Seq<char>) -> Option<Seq<char>>;

/// Relies on `Path::file_stem`: the final component of the path without its
/// extension, or nothing when there is no file name. The stem of a path
/// given as `str` is valid text, so `to_str` keeps it.
#[verifier::external_body]
fn file_stem(path: &str) -> (r: Option<String>)
    ensures
        match r {
            Some(s) => stem_of(path@) == Some(s@),
            None => stem_of(path@) is None,
        },
{
    std::path::Path::new(path).file_stem().and_then(|s| s.to_str()).map(|s| s.to_string())
}

/// The name shown for an App added from a file: the file's name without its
/// extension, or `Unknown`.
pub fn app_name_for(path: &str) -> (r: String)
    ensures
        r@ == match stem_of(path@) {
            Some(s) => s,
            None => "Unknown"@,
        },
{
    match file_stem(path) {
        Some(s) => s,
        None => String::from_str("Unknown"),
    }
}

/// An application bundle of macOS, whose icon lies inside it.
pub fn is_app_bundle(path: &str) -> (r: bool)
    ensures
        r == crate::icon::has_suffix(path@, ".app"@),
{
    crate::icon::ends_with(path, ".app")
}

} // verus!
