//! JSON values. A value is carried as `serde_json::Value`; the library never
//! looks inside one.

use vstd::prelude::*;

verus! {

/// `serde_json::Value`, opaque to the verifier.
#[verifier::external_type_specification]
#[verifier::external_body]
pub struct ExJsonValue(serde_json::Value);

/// `serde_json::Error`, opaque to the verifier.
#[verifier::external_type_specification]
#[verifier::external_body]
pub struct ExJsonError(serde_json::Error);

/// `Value::clone` copies a value with everything in it: the copy equals the
/// value it was made from.
pub assume_specification[ <serde_json::Value as Clone>::clone ](
    value: &serde_json::Value,
) -> (copy: serde_json::Value)
    ensures
        copy == *value,
;

/// What `serde_json::from_slice` makes of `bytes`: the value of the JSON
/// document they spell, or `None` where they spell none.
pub uninterp spec fn json_document(bytes: Seq<u8>) -> Option<serde_json::Value>;

/// The JSON string that holds `bytes` read as UTF-8, each malformed sequence
/// replaced by U+FFFD, as `String::from_utf8_lossy` reads them.
pub uninterp spec fn json_lossy_text(bytes: Seq<u8>) -> serde_json::Value;

/// Parses `bytes` with `serde_json::from_slice`. The parser reads nothing but
/// its input, so equal bytes give equal outcomes: `Ok` with the document's
/// value exactly where `json_document` names one.
#[verifier::external_body]
pub(crate) fn parse_json(bytes: &[u8]) -> (parsed: Result<serde_json::Value, serde_json::Error>)
    ensures
        match parsed {
            Ok(value) => json_document(bytes@) == Some(value),
            Err(_) => json_document(bytes@) is None,
        },
{
    serde_json::from_slice::<serde_json::Value>(bytes)
}

/// Wraps `bytes`, decoded by `String::from_utf8_lossy`, in a
/// `serde_json::Value::String`.
#[verifier::external_body]
pub(crate) fn lossy_text_value(bytes: &[u8]) -> (value: serde_json::Value)
    ensures
        value == json_lossy_text(bytes@),
{
    serde_json::Value::String(String::from_utf8_lossy(bytes).to_string())
}

} // verus!
