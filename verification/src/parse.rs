//! Parsing entry points: raw JSON text, bytes or a stream become a typed
//! request, or one of the two parse-time failure kinds.
//!
//! Syntax failures — the payload is not well-formed JSON — map to
//! `Error::Parse`; schema failures — well-formed JSON that is not a valid
//! request object — map to `Error::InvalidRequest`. Both precede the
//! construction of a `Request`, so neither carries an id.

use serde_json::Value;
use vstd::prelude::*;
use vstd::string::StringExecFns;

use crate::error::Error;
use crate::json;
use crate::request::Request;
use crate::util;

verus! {

/// What the schema check reads of a required text field of the wire
/// object: absent, present but not a string, or its text.
pub enum TextField {
    /// The field is absent from the object.
    Missing,
    /// The field is present but holds something other than a string.
    NotText,
    /// The field holds this text.
    Text(String),
}

impl TextField {
    /// The field holds the protocol version literal.
    pub open spec fn is_version_tag(&self) -> bool {
        self matches TextField::Text(v) && v@ == "2.0"@
    }

    /// The field holds a non-empty method name.
    pub open spec fn is_method_name(&self) -> bool {
        self matches TextField::Text(m) && m@.len() > 0
    }
}

/// The result `r` rejects the payload as an invalid request with the
/// diagnostic `detail`.
pub open spec fn schema_error(r: Result<Request, Error>, detail: Seq<char>) -> bool {
    r matches Err(e) && e matches Error::InvalidRequest { data } && data@ == detail
}

/// Assemble a request from the fields of the wire object, enforcing the
/// request schema: `jsonrpc` must hold the literal `"2.0"`, `method` must
/// hold a non-empty operation name, and `id` and `params` pass through as
/// opaque values. Each way the schema can fail is rejected as
/// `Error::InvalidRequest` with a fixed diagnostic.
pub fn request_from_parts(
    jsonrpc: TextField,
    method: TextField,
    id: Option<Value>,
    params: Option<Value>,
) -> (r: Result<Request, Error>)
    ensures
        jsonrpc is Missing ==> schema_error(r, "missing field `jsonrpc`"@),
        jsonrpc is NotText ==> schema_error(r, "invalid type for field `jsonrpc`, expected a string"@),
        (jsonrpc matches TextField::Text(v) && v@ != "2.0"@) ==> schema_error(
            r,
            "invalid value for field `jsonrpc`, expected \"2.0\""@,
        ),
        jsonrpc.is_version_tag() && method is Missing ==> schema_error(r, "missing field `method`"@),
        jsonrpc.is_version_tag() && method is NotText ==> schema_error(
            r,
            "invalid type for field `method`, expected a string"@,
        ),
        method matches TextField::Text(m) ==> ((jsonrpc.is_version_tag() && m@.len() == 0)
            ==> schema_error(r, "invalid value for field `method`, expected a non-empty string"@)),
        (jsonrpc.is_version_tag() && method.is_method_name()) ==> (r matches Ok(req) && (
        req.method == method->Text_0 && req.id == id && req.params == params && req.wf())),
        r matches Err(e) ==> e matches Error::InvalidRequest { data } && data@.len() > 0,
{
    proof {
        reveal_strlit("missing field `jsonrpc`");
        reveal_strlit("invalid type for field `jsonrpc`, expected a string");
        reveal_strlit("invalid value for field `jsonrpc`, expected \"2.0\"");
        reveal_strlit("missing field `method`");
        reveal_strlit("invalid type for field `method`, expected a string");
        reveal_strlit("invalid value for field `method`, expected a non-empty string");
    }
    let version = match jsonrpc {
        TextField::Missing => {
            return Err(
                Error::InvalidRequest { data: String::from_str("missing field `jsonrpc`") },
            );
        },
        TextField::NotText => {
            return Err(
                Error::InvalidRequest {
                    data: String::from_str("invalid type for field `jsonrpc`, expected a string"),
                },
            );
        },
        TextField::Text(v) => v,
    };
    if !util::str_eq(version.as_str(), "2.0") {
        return Err(
            Error::InvalidRequest {
                data: String::from_str("invalid value for field `jsonrpc`, expected \"2.0\""),
            },
        );
    }
    let name = match method {
        TextField::Missing => {
            return Err(
                Error::InvalidRequest { data: String::from_str("missing field `method`") },
            );
        },
        TextField::NotText => {
            return Err(
                Error::InvalidRequest {
                    data: String::from_str("invalid type for field `method`, expected a string"),
                },
            );
        },
        TextField::Text(m) => m,
    };
    if name.as_str().is_empty() {
        return Err(
            Error::InvalidRequest {
                data: String::from_str("invalid value for field `method`, expected a non-empty string"),
            },
        );
    }
    Ok(Request { jsonrpc: version, method: name, id, params })
}

/// Parse a JSON payload from a [Value](serde_json::Value) into a request.
///
/// The payload is an opaque outside value, so no clause here can
/// condition on what it holds; the schema decision over the extracted
/// fields is stated exactly at [`request_from_parts`], which this
/// function applies.
pub fn from_value(payload: Value) -> (r: Result<Request, Error>)
    ensures
        r matches Ok(req) ==> req.wf(),
        r matches Err(e) ==> e matches Error::InvalidRequest { data } && data@.len() > 0,
{
    proof {
        reveal_strlit("invalid type: expected a JSON object");
    }
    match json::take_object(payload) {
        None => Err(
            Error::InvalidRequest { data: String::from_str("invalid type: expected a JSON object") },
        ),
        Some(mut doc) => {
            let jsonrpc = json::classify_text_field(json::map_remove(&mut doc, "jsonrpc"));
            let method = json::classify_text_field(json::map_remove(&mut doc, "method"));
            let id = json::non_null(json::map_remove(&mut doc, "id"));
            let params = json::non_null(json::map_remove(&mut doc, "params"));
            request_from_parts(jsonrpc, method, id, params)
        },
    }
}

/// Classify the failure of the underlying JSON parse: semantically bad
/// data is an invalid request, anything else — bad syntax, a truncated
/// payload, a failing reader — is a parse failure.
fn map_json_error(is_data: bool, data: String) -> (r: Error)
    ensures
        is_data ==> r == (Error::InvalidRequest { data }),
        !is_data ==> r == (Error::Parse { data }),
{
    if is_data {
        Error::InvalidRequest { data }
    } else {
        Error::Parse { data }
    }
}

/// Parse a JSON payload from a string slice into a request.
///
/// Malformed text — and only malformed text — is the `Parse` kind;
/// well-formed text that is no valid request is the `InvalidRequest`
/// kind, with the schema spelled out at [`request_from_parts`].
pub fn from_str(payload: &str) -> (r: Result<Request, Error>)
    ensures
        r matches Ok(req) ==> req.wf() && json::json_text_ok(payload@),
        !json::json_text_ok(payload@) ==> (r matches Err(e) && (e matches Error::Parse { data }
            && data@.len() > 0)),
        r matches Err(e) ==> (json::json_text_ok(payload@) ==> (e matches Error::InvalidRequest {
            data,
        } && data@.len() > 0)),
        r matches Err(e) ==> match e {
            Error::Parse { data } => data@.len() > 0,
            Error::InvalidRequest { data } => data@.len() > 0,
            _ => false,
        },
{
    match json::parse_str(payload) {
        Ok(v) => from_value(v),
        Err((is_data, detail)) => Err(map_json_error(is_data, detail)),
    }
}

/// Parse a JSON payload from a byte slice into a request.
///
/// Malformed bytes — and only malformed bytes — are the `Parse` kind;
/// well-formed bytes that are no valid request are the `InvalidRequest`
/// kind, with the schema spelled out at [`request_from_parts`].
pub fn from_slice(payload: &[u8]) -> (r: Result<Request, Error>)
    ensures
        r matches Ok(req) ==> req.wf() && json::json_bytes_ok(payload@),
        !json::json_bytes_ok(payload@) ==> (r matches Err(e) && (e matches Error::Parse { data }
            && data@.len() > 0)),
        r matches Err(e) ==> (json::json_bytes_ok(payload@) ==> (e matches Error::InvalidRequest {
            data,
        } && data@.len() > 0)),
        r matches Err(e) ==> match e {
            Error::Parse { data } => data@.len() > 0,
            Error::InvalidRequest { data } => data@.len() > 0,
            _ => false,
        },
{
    match json::parse_slice(payload) {
        Ok(v) => from_value(v),
        Err((is_data, detail)) => Err(map_json_error(is_data, detail)),
    }
}

/// Parse a JSON payload from an IO reader into a request.
pub fn from_reader<R: std::io::Read>(payload: R) -> (r: Result<Request, Error>)
    ensures
        r matches Ok(req) ==> req.wf(),
        r matches Err(e) ==> e matches Error::Parse { data } || e matches Error::InvalidRequest {
            data,
        },
{
    match json::parse_reader(payload) {
        Ok(v) => from_value(v),
        Err((is_data, detail)) => Err(map_json_error(is_data, detail)),
    }
}

} // verus!
