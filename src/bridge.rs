//! The items of outside crates that the library relies on, with the contracts
//! that the library assumes of them.
use vstd::prelude::*;

verus! {

/// `serde_json::Value`: an arbitrary JSON value that the service sends in
/// fields the library carries through without reading.
#[verifier::external_type_specification]
#[verifier::external_body]
pub struct ExJsonValue(serde_json::Value);

/// Whether `c` may stand in an HTTP header value: a visible character, a
/// space or a tab. Characters beyond ASCII are accepted, since each byte of
/// their UTF-8 encoding is at least 128.
pub open spec fn header_char_ok(c: char) -> bool {
    (c as u32 >= 32 && c as u32 != 127) || c == '\t'
}

/// Whether every character of `s` may stand in an HTTP header value.
pub open spec fn header_text_ok(s: Seq<char>) -> bool {
    forall|i: int| 0 <= i < s.len() ==> header_char_ok(#[trigger] s[i])
}

/// Relies on `reqwest::header::HeaderValue::from_str` (http 0.2): it accepts
/// a string exactly when each of its bytes is at least 32 and not 127, or
/// is a tab.
#[verifier::external_body]
pub(crate) fn header_value_accepted(s: &str) -> (r: bool)
    ensures
        r == header_text_ok(s@),
{
    reqwest::header::HeaderValue::from_str(s).is_ok()
}

/// The JSON string literal that serde_json writes for `s`: quoted, with
/// quotes, backslashes and control characters escaped.
pub uninterp spec fn json_string(s: Seq<char>) -> Seq<char>;

/// Relies on `serde_json::to_string` applied to a `str`: the string is
/// escaped into a `Vec`, which cannot fail, and the text is a function of
/// the characters of the string alone.
#[verifier::external_body]
pub(crate) fn json_string_literal(s: &str) -> (r: Option<String>)
    ensures
        r is Some,
        r matches Some(t) ==> t@ == json_string(s@),
{
    serde_json::to_string(s).ok()
}

} // verus!
