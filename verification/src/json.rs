//! Trusted boundary to the generic JSON value representation.
//!
//! Payload values (`id`, `params`, `result`) are opaque JSON data owned by
//! `serde_json`; this module declares the outside types and wraps the few
//! calls the library makes into them. Everything else in the crate is
//! verified against the contracts stated here.

use vstd::prelude::*;

use crate::parse::TextField;

verus! {

#[verifier::external_type_specification]
#[verifier::external_body]
pub struct ExValue(serde_json::Value);

#[verifier::external_type_specification]
#[verifier::external_body]
#[verifier::reject_recursive_types(K)]
#[verifier::reject_recursive_types(V)]
pub struct ExMap<K, V>(serde_json::Map<K, V>);

/// Whether a text payload is one well-formed JSON value: names the
/// outcome of `serde_json::from_str::<Value>`, which depends on the text
/// alone.
pub uninterp spec fn json_text_ok(payload: Seq<char>) -> bool;

/// Whether a byte payload is one well-formed JSON value: names the
/// outcome of `serde_json::from_slice::<Value>`, which depends on the
/// bytes alone.
pub uninterp spec fn json_bytes_ok(payload: Seq<u8>) -> bool;

/// Relies on `serde_json::from_str`: decodes one JSON value from text,
/// succeeding exactly when the text is well-formed — `json_text_ok` names
/// that condition. Decoding into `Value` accepts every JSON shape, so a
/// failure here is a syntax, end-of-input or recursion error: never a
/// data error (`is_data` is false), and each such error displays a fixed
/// non-empty description, possibly followed by a position — the
/// diagnostic is never empty.
#[verifier::external_body]
pub(crate) fn parse_str(payload: &str) -> (r: Result<serde_json::Value, (bool, String)>)
    ensures
        r matches Ok(v) ==> json_text_ok(payload@),
        r matches Err(e) ==> !json_text_ok(payload@) && e.0 == false && e.1@.len() > 0,
{
    serde_json::from_str::<serde_json::Value>(payload).map_err(|e| (e.is_data(), e.to_string()))
}

/// Relies on `serde_json::from_slice`: as `parse_str`, over raw bytes,
/// with `json_bytes_ok` naming the well-formedness of the bytes.
#[verifier::external_body]
pub(crate) fn parse_slice(payload: &[u8]) -> (r: Result<serde_json::Value, (bool, String)>)
    ensures
        r matches Ok(v) ==> json_bytes_ok(payload@),
        r matches Err(e) ==> !json_bytes_ok(payload@) && e.0 == false && e.1@.len() > 0,
{
    serde_json::from_slice::<serde_json::Value>(payload).map_err(|e| (e.is_data(), e.to_string()))
}

/// Relies on `serde_json::from_reader`: as `parse_str`, over a stream.
/// An I/O failure surfaces like a syntax failure (`is_data` is false), and
/// its display text comes from the reader, so nothing is claimed of it.
#[verifier::external_body]
pub(crate) fn parse_reader<R: std::io::Read>(payload: R) -> (r: Result<
    serde_json::Value,
    (bool, String),
>) {
    serde_json::from_reader::<R, serde_json::Value>(payload).map_err(|e| (e.is_data(), e.to_string()))
}

/// Relies on `serde_json::Value` being an enum: a value is a JSON object
/// exactly when it is the `Object` variant, whose map is moved out here.
#[verifier::external_body]
pub(crate) fn take_object(v: serde_json::Value) -> (r: Option<
    serde_json::Map<String, serde_json::Value>,
>) {
    if let serde_json::Value::Object(m) = v {
        Some(m)
    } else {
        None
    }
}

/// Relies on `serde_json::Map::remove`: takes the value stored under `key`
/// out of the object, if any.
#[verifier::external_body]
pub(crate) fn map_remove(
    m: &mut serde_json::Map<String, serde_json::Value>,
    key: &str,
) -> (r: Option<serde_json::Value>) {
    m.remove(key)
}

/// Relies on `serde_json::Value` being an enum: a present field is text
/// exactly when it is the `String` variant. An absent field maps to
/// `Missing` and nothing else does.
#[verifier::external_body]
pub(crate) fn classify_text_field(v: Option<serde_json::Value>) -> (r: TextField)
    ensures
        r is Missing <==> v is None,
{
    match v {
        None => TextField::Missing,
        Some(serde_json::Value::String(s)) => TextField::Text(s),
        Some(_) => TextField::NotText,
    }
}

/// Relies on `serde_json::Value` being an enum: JSON `null` in an optional
/// field means the same as an absent field, so it is dropped here. An
/// absent field stays absent.
#[verifier::external_body]
pub(crate) fn non_null(v: Option<serde_json::Value>) -> (r: Option<serde_json::Value>)
    ensures
        v is None ==> r is None,
{
    match v {
        None => None,
        Some(serde_json::Value::Null) => None,
        Some(other) => Some(other),
    }
}

/// Relies on `serde_json::Value`'s derived `Clone`: a deep copy equal to
/// the value cloned.
#[verifier::external_body]
pub(crate) fn clone_value(v: &serde_json::Value) -> (r: serde_json::Value)
    ensures
        r == *v,
{
    v.clone()
}

/// Relies on `serde_json::from_value`: converts a JSON value into `T`, or
/// reports why it cannot. The outcome depends on `T`'s deserializer, so
/// nothing is claimed of it; callers state what they do with each case.
#[verifier::external_body]
pub(crate) fn convert_value<T: serde::de::DeserializeOwned>(v: serde_json::Value) -> (r: Result<
    T,
    String,
>) {
    serde_json::from_value::<T>(v).map_err(|e| e.to_string())
}

/// Relies on `serde_json::Number::from`: wraps an integer as a JSON number
/// value, for freshly generated correlation ids.
#[verifier::external_body]
pub(crate) fn number_value(n: u32) -> (r: serde_json::Value) {
    serde_json::Value::Number(serde_json::Number::from(n))
}

/// Copies an optional JSON value.
pub(crate) fn clone_opt_value(v: &Option<serde_json::Value>) -> (r: Option<serde_json::Value>)
    ensures
        r == *v,
{
    match v {
        Some(inner) => Some(clone_value(inner)),
        None => None,
    }
}

} // verus!
