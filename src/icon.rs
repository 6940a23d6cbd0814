//! Icons handed to the interface inline, as `data:` URLs.
use vstd::prelude::*;

verus! {

/// What base64's standard padded encoding gives for some bytes.
pub uninterp spec fn base64_of(b: Seq<u8>) -> Seq<char>;

/// Relies on base64's `Engine::encode` with the `STANDARD` engine: padded
/// standard encoding, four characters for each started group of three bytes.
/// It panics only when that length overflows `usize`.
#[verifier::external_body]
fn encode_base64(data: &Vec<u8>) -> (r: String)
    requires
        data@.len() <= usize::MAX / 2,
    ensures
        r@ == base64_of(data@),
        r@.len() == 4 * ((data@.len() + 2) / 3),
{
    base64::Engine::encode(&base64::engine::general_purpose::STANDARD, data)
}

/// `s` ends with `suffix`.
pub open spec fn has_suffix(s: Seq<char>, suffix: Seq<char>) -> bool {
    suffix.len() <= s.len() && s.subrange(s.len() - suffix.len(), s.len() as int) == suffix
}

/// Relies on `str::ends_with` with a string pattern: true when the pattern
/// is a suffix of the text.
#[verifier::external_body]
pub(crate) fn ends_with(s: &str, suffix: &str) -> (r: bool)
    ensures
        r == has_suffix(s@, suffix@),
{
    s.ends_with(suffix)
}

/// The media type of an icon file, told by its extension; PNG where the
/// extension says nothing.
pub open spec fn mime_of(path: Seq<char>) -> Seq<char> {
    if has_suffix(path, ".png"@) {
        "image/png"@
    } else if has_suffix(path, ".ico"@) {
        "image/x-icon"@
    } else if has_suffix(path, ".icns"@) {
        "application/octet-stream"@
    } else {
        "image/png"@
    }
}

/// The media type of the icon file at `path`.
pub fn mime_type_for(path: &str) -> (r: &'static str)
    ensures
        r@ == mime_of(path@),
{
    if ends_with(path, ".png") {
        "image/png"
    } else if ends_with(path, ".ico") {
        "image/x-icon"
    } else if ends_with(path, ".icns") {
        "application/octet-stream"
    } else {
        "image/png"
    }
}

/// The `data:` URL of a payload already encoded in base64.
pub fn data_url(mime: &str, encoded: &String) -> (r: String)
    ensures
        r@ == "data:"@ + mime@ + ";base64,"@ + encoded@,
{
    let mut url = String::from_str("data:");
    url.append(mime);
    url.append(";base64,");
    url.append(encoded.as_str());
    url
}

/// The `data:` URL of the icon file at `path` whose bytes are `data`.
pub fn icon_data_url(path: &str, data: &Vec<u8>) -> (r: String)
    requires
        data@.len() <= usize::MAX / 2,
    ensures
        r@ == "data:"@ + mime_of(path@) + ";base64,"@ + base64_of(data@),
{
    let encoded = encode_base64(data);
    data_url(mime_type_for(path), &encoded)
}

} // verus!
