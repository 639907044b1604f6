//! Access to serde_json: its two types, and one function of this crate per
//! serde_json function that the decoding and encoding logic calls.
use vstd::prelude::*;

verus! {

#[verifier::external_type_specification]
#[verifier::external_body]
pub struct ExJsonValue(serde_json::Value);

#[verifier::external_type_specification]
#[verifier::external_body]
pub struct ExJsonError(serde_json::Error);

/// The JSON text that serde_json writes for a string, or `None` where it fails.
pub uninterp spec fn json_str_encoding(s: Seq<char>) -> Option<Seq<u8>>;

/// The document that serde_json reads from a byte slice, or `None` where the
/// bytes are not one JSON value.
pub uninterp spec fn json_document(b: Seq<u8>) -> Option<serde_json::Value>;

/// The value that a JSON pointer addresses inside a document.
pub uninterp spec fn json_pointer_target(v: serde_json::Value, p: Seq<char>) -> Option<
    serde_json::Value,
>;

/// The text of a JSON string value; `None` for every other kind of value.
pub uninterp spec fn json_text(v: serde_json::Value) -> Option<Seq<char>>;

/// A JSON integer that fits in `i64`; `None` for every other value.
pub uninterp spec fn json_integer(v: serde_json::Value) -> Option<i64>;

/// The elements of a JSON array; `None` for every other kind of value.
pub uninterp spec fn json_elements(v: serde_json::Value) -> Option<Seq<serde_json::Value>>;

/// Whether a value is a JSON object.
pub uninterp spec fn json_is_object(v: serde_json::Value) -> bool;

/// Whether a value is JSON `null`.
pub uninterp spec fn json_is_null(v: serde_json::Value) -> bool;

/// Relies on serde_json::to_vec: the JSON text of a string, a quoted and
/// escaped copy of it, which depends on the string alone.
#[verifier::external_body]
pub(crate) fn encode_str(s: &str) -> (r: Result<Vec<u8>, serde_json::Error>)
    ensures
        match r {
            Ok(b) => json_str_encoding(s@) == Some(b@),
            Err(_) => json_str_encoding(s@) is None,
        },
{
    serde_json::to_vec(s)
}

/// Relies on serde_json::from_slice into a `serde_json::Value`: the parsed
/// document, which depends on the bytes alone.
#[verifier::external_body]
pub(crate) fn parse_document(b: &[u8]) -> (r: Result<serde_json::Value, serde_json::Error>)
    ensures
        match r {
            Ok(v) => json_document(b@) == Some(v),
            Err(_) => json_document(b@) is None,
        },
{
    serde_json::from_slice::<serde_json::Value>(b)
}

/// Relies on serde_json::Value::pointer: the value at a JSON pointer.
pub assume_specification<'a>[ serde_json::Value::pointer ](
    v: &'a serde_json::Value,
    pointer: &str,
) -> (r: Option<&'a serde_json::Value>)
    ensures
        match r {
            Some(t) => json_pointer_target(*v, pointer@) == Some(*t),
            None => json_pointer_target(*v, pointer@) is None,
        },
;

/// Relies on serde_json::Value::as_str: the text of a string value.
pub assume_specification[ serde_json::Value::as_str ](v: &serde_json::Value) -> (r: Option<&str>)
    ensures
        match r {
            Some(t) => json_text(*v) == Some(t@),
            None => json_text(*v) is None,
        },
;

/// Relies on serde_json::Value::as_i64: an integer value that fits in `i64`.
pub assume_specification[ serde_json::Value::as_i64 ](v: &serde_json::Value) -> (r: Option<i64>)
    ensures
        r == json_integer(*v),
;

/// Relies on serde_json::Value::as_array: the elements of an array value.
pub assume_specification[ serde_json::Value::as_array ](v: &serde_json::Value) -> (r: Option<
    &Vec<serde_json::Value>,
>)
    ensures
        match r {
            Some(a) => json_elements(*v) == Some(a@),
            None => json_elements(*v) is None,
        },
;

/// Relies on serde_json::Value::is_object.
pub assume_specification[ serde_json::Value::is_object ](v: &serde_json::Value) -> (r: bool)
    ensures
        r == json_is_object(*v),
;

/// Relies on serde_json::Value::is_null.
pub assume_specification[ serde_json::Value::is_null ](v: &serde_json::Value) -> (r: bool)
    ensures
        r == json_is_null(*v),
;

/// Relies on serde::de::Error::custom as serde_json implements it: an error
/// value that reports a document of the wrong shape.
#[verifier::external_body]
pub(crate) fn shape_error(msg: &str) -> serde_json::Error {
    <serde_json::Error as serde::de::Error>::custom(msg)
}

} // verus!
