use serde::Serialize;
use serde_json::Value;
use vstd::prelude::*;
use vstd::utf8::*;

verus! {

/// `serde_json::Value`, a parsed JSON document. The library hands such a value
/// on and never looks inside it.
#[verifier::external_type_specification]
#[verifier::external_body]
pub struct ExJsonValue(serde_json::Value);

/// `serde_json::Error`, the failure of a serialization or of a parse.
#[verifier::external_type_specification]
#[verifier::external_body]
pub struct ExJsonError(serde_json::Error);

/// What `String::from_utf8_lossy` makes of a byte sequence: its text, with
/// U+FFFD in place of every part that is not UTF-8.
pub uninterp spec fn utf8_lossy(bytes: Seq<u8>) -> Seq<char>;

/// What `serde_json::from_str` makes of a text when asked for a
/// `serde_json::Value`: the document, or `None` where the text is not JSON.
pub uninterp spec fn json_of(text: Seq<char>) -> Option<Value>;

/// Calls `String::from_utf8_lossy` and takes ownership of the text. Trusted:
/// the result is the named lossy decoding, which for valid UTF-8 is the plain
/// decoding, as the function's documentation says.
#[verifier::external_body]
pub(crate) fn decode_lossy(bytes: &[u8]) -> (text: String)
    ensures
        text@ == utf8_lossy(bytes@),
        valid_utf8(bytes@) ==> text@ == decode_utf8(bytes@),
{
    String::from_utf8_lossy(bytes).into_owned()
}

/// Calls `serde_json::from_str` for a `serde_json::Value`. Trusted: the
/// outcome depends on the text alone, and is the named parse of it.
#[verifier::external_body]
pub(crate) fn parse_json(text: &str) -> (parsed: Result<Value, serde_json::Error>)
    ensures
        match parsed {
            Ok(value) => json_of(text@) == Some(value),
            Err(_) => json_of(text@) is None,
        },
{
    serde_json::from_str(text)
}

/// Calls `serde_json::to_string`. Trusted, with nothing claimed: whether it
/// succeeds and what it writes lies with the value's `Serialize` impl.
#[verifier::external_body]
pub(crate) fn to_json_text<T: Serialize>(value: &T) -> (text: Result<String, serde_json::Error>) {
    serde_json::to_string(value)
}

} // verus!
