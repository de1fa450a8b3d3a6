//! Calls into std and outside crates that the message logic relies on:
//! whitespace trimming, lowercasing, MIME guessing, base64 and the clock.
use vstd::prelude::*;
use base64::Engine;

verus! {

/// What `str::trim` leaves of a string.
pub uninterp spec fn trimmed(s: Seq<char>) -> Seq<char>;

/// What `str::to_lowercase` makes of a string.
pub uninterp spec fn lowercased(s: Seq<char>) -> Seq<char>;

/// The first MIME type that `mime_guess` associates with a path's extension.
pub uninterp spec fn mime_guess_of(path: Seq<char>) -> Option<Seq<char>>;

/// The standard (padded) base64 text of a byte sequence.
pub uninterp spec fn base64_text(bytes: Seq<u8>) -> Seq<char>;

/// The bytes that standard base64 decoding gives for a text, if it is valid.
pub uninterp spec fn base64_bytes(text: Seq<char>) -> Option<Seq<u8>>;

/// Relies on `str::trim`: removes leading and trailing whitespace, so an
/// empty string stays empty.
#[verifier::external_body]
pub(crate) fn trim_whitespace(s: &str) -> (r: String)
    ensures
        r@ == trimmed(s@),
        s@.len() == 0 ==> r@.len() == 0,
{
    s.trim().to_string()
}

/// Relies on `str::to_lowercase`, which depends on the characters alone.
#[verifier::external_body]
pub(crate) fn to_lower(s: &str) -> (r: String)
    ensures
        r@ == lowercased(s@),
{
    s.to_lowercase()
}

/// Relies on `mime_guess::from_path(..).first_raw()`: a lookup of the path's
/// extension in a fixed table.
#[verifier::external_body]
pub(crate) fn guess_mime(path: &str) -> (r: Option<String>)
    ensures
        match r {
            Some(m) => mime_guess_of(path@) == Some(m@),
            None => mime_guess_of(path@) is None,
        },
{
    mime_guess::from_path(path).first_raw().map(|m| m.to_string())
}

/// Relies on `base64::engine::general_purpose::STANDARD.encode`; its output
/// length (four characters for every three bytes, rounded up) must fit in a
/// `usize`, else it panics.
#[verifier::external_body]
pub(crate) fn base64_encode(bytes: &[u8]) -> (r: String)
    requires
        bytes@.len() <= usize::MAX / 2,
    ensures
        r@ == base64_text(bytes@),
{
    base64::engine::general_purpose::STANDARD.encode(bytes)
}

/// Relies on `base64::engine::general_purpose::STANDARD.decode`; a decode
/// error becomes `None`.
#[verifier::external_body]
pub(crate) fn base64_decode(text: &str) -> (r: Option<Vec<u8>>)
    ensures
        match r {
            Some(v) => base64_bytes(text@) == Some(v@),
            None => base64_bytes(text@) is None,
        },
{
    base64::engine::general_purpose::STANDARD.decode(text).ok()
}

/// Milliseconds since the Unix epoch, from `std::time::SystemTime::elapsed`
/// on `UNIX_EPOCH` (zero for a clock set before the epoch).  Nothing is
/// promised of the value.
#[verifier::external_body]
pub fn current_timestamp_millis() -> u64 {
    std::time::UNIX_EPOCH.elapsed().map(|d| d.as_millis() as u64).unwrap_or(0)
}

/// The MIME type guessed for a path, `image/jpeg` when its extension is unknown.
pub open spec fn detected_mime(path: Seq<char>) -> Seq<char> {
    match mime_guess_of(path) {
        Some(m) => m,
        None => "image/jpeg"@,
    }
}

/// Guesses the MIME type of an image from its path, defaulting to `image/jpeg`.
pub fn detect_mime_type(path: &str) -> (r: String)
    ensures
        r@ == detected_mime(path@),
{
    match guess_mime(path) {
        Some(m) => m,
        None => String::from_str("image/jpeg"),
    }
}

/// Standard base64 text of `bytes`.
pub fn encode_byte_to_base64(bytes: Vec<u8>) -> (r: String)
    requires
        bytes@.len() <= usize::MAX / 2,
    ensures
        r@ == base64_text(bytes@),
{
    base64_encode(bytes.as_slice())
}

/// Whether `url` starts with `http://` or `https://`.
pub fn is_http_url(url: &str) -> (r: bool)
    ensures
        r == (crate::text::has_prefix(url@, "http://"@) || crate::text::has_prefix(
            url@,
            "https://"@,
        )),
{
    crate::text::starts_with(url, "http://") || crate::text::starts_with(url, "https://")
}

} // verus!
