//! The response message model: the originating request's id and an
//! exclusive choice between a result and an error.

use serde_json::Value;
use vstd::prelude::*;

use crate::error::{Error, RpcError};
use crate::json;
use crate::request::Request;
use crate::util;

verus! {

/// JSON-RPC response.
#[derive(Debug, PartialEq, Eq)]
pub struct Response {
    /// The protocol version, always the literal `"2.0"`.
    pub jsonrpc: String,
    /// The id of the originating request, absent when no request could be
    /// parsed.
    pub id: Option<Value>,
    /// The result of a handled request.
    pub result: Option<Value>,
    /// The error of a failed request.
    pub error: Option<RpcError>,
}

impl Response {
    /// The data-model invariant of an emitted response: the version tag is
    /// the protocol literal, and exactly one of result and error is
    /// present.
    pub open spec fn wf(&self) -> bool {
        &&& self.jsonrpc@ == "2.0"@
        &&& (self.result is Some <==> self.error is None)
    }

    /// This response reports failure `e` for a request with id `id`: it
    /// carries no result, echoes the id, and its error object is `e`'s
    /// image under the taxonomy mapping.
    pub open spec fn is_error_for(&self, id: Option<Value>, e: Error) -> bool {
        &&& self.jsonrpc@ == "2.0"@
        &&& self.id == id
        &&& self.result is None
        &&& self.error matches Some(re) && re.code == e.spec_code() && re.message@
            == e.spec_message() && re.data == e.spec_data()
    }

    /// Build the successful response to a request: its id is echoed and
    /// the given value is the result.
    pub fn from_result(request: &Request, result: Value) -> (r: Response)
        ensures
            r.jsonrpc@ == "2.0"@,
            r.id == request.id,
            r.result == Some(result),
            r.error is None,
            r.wf(),
    {
        Response {
            jsonrpc: util::version_string(),
            id: json::clone_opt_value(&request.id),
            result: Some(result),
            error: None,
        }
    }

    /// Build a successful response with no originating request id.
    pub fn from_value(result: Value) -> (r: Response)
        ensures
            r.jsonrpc@ == "2.0"@,
            r.id is None,
            r.result == Some(result),
            r.error is None,
            r.wf(),
    {
        Response { jsonrpc: util::version_string(), id: None, result: Some(result), error: None }
    }

    /// Build an empty reply to a request: the id is echoed but neither
    /// result nor error is set. Such a reply is a shell for the caller to
    /// fill; the dispatcher never emits one.
    pub fn from_request(request: &Request) -> (r: Response)
        ensures
            r.jsonrpc@ == "2.0"@,
            r.id == request.id,
            r.result is None,
            r.error is None,
    {
        Response {
            jsonrpc: util::version_string(),
            id: json::clone_opt_value(&request.id),
            result: None,
            error: None,
        }
    }

    /// Convert a failure into the error response to a request: the
    /// request's id is echoed so the caller can correlate.
    pub fn from_request_error(request: &Request, error: &Error) -> (r: Response)
        ensures
            r.is_error_for(request.id, *error),
            r.wf(),
    {
        Response {
            jsonrpc: util::version_string(),
            id: json::clone_opt_value(&request.id),
            result: None,
            error: Some(error.to_rpc_error()),
        }
    }

    /// Convert a failure that precedes any request — a parse-time failure —
    /// into an error response. No id is available, so none is set.
    pub fn from_error(error: &Error) -> (r: Response)
        ensures
            r.is_error_for(None, *error),
            r.wf(),
    {
        Response {
            jsonrpc: util::version_string(),
            id: None,
            result: None,
            error: Some(error.to_rpc_error()),
        }
    }

    /// The id for the response.
    pub fn id(&self) -> (r: &Option<Value>)
        ensures
            *r == self.id,
    {
        &self.id
    }

    /// The result for the response.
    pub fn result(&self) -> (r: &Option<Value>)
        ensures
            *r == self.result,
    {
        &self.result
    }

    /// The error for the response.
    pub fn error(&self) -> (r: &Option<RpcError>)
        ensures
            *r == self.error,
    {
        &self.error
    }

    /// Take the response apart into id, error and result.
    pub fn into_parts(self) -> (r: (Option<Value>, Option<RpcError>, Option<Value>))
        ensures
            r.0 == self.id,
            r.1 == self.error,
            r.2 == self.result,
    {
        (self.id, self.error, self.result)
    }

    /// Take the result out of the response.
    pub fn into_result(self) -> (r: Option<Value>)
        ensures
            r == self.result,
    {
        self.result
    }

    /// Take the error out of the response.
    pub fn into_error(self) -> (r: Option<RpcError>)
        ensures
            r == self.error,
    {
        self.error
    }
}

} // verus!
