//! The request message model: an immutable method name and correlation id,
//! and a params slot consumed at most once.

use serde_json::Value;
use vstd::prelude::*;
use vstd::string::StringExecFns;

use crate::error::Error;
use crate::json;
use crate::util;

verus! {

/// JSON-RPC request.
///
/// A request with no `id` is a notification: the sender expects no
/// response on success.
#[derive(Debug, Clone)]
pub struct Request {
    /// The protocol version, always the literal `"2.0"`.
    pub jsonrpc: String,
    /// The name of the requested operation, never empty.
    pub method: String,
    /// The correlation token echoed into the response, absent for
    /// notifications. Opaque: never interpreted by this library.
    pub id: Option<Value>,
    /// The parameters of the requested operation, owned by the matched
    /// service and consumed at most once.
    pub params: Option<Value>,
}

impl Request {
    /// The data-model invariant: the version tag is the protocol literal
    /// and the method names an operation.
    pub open spec fn wf(&self) -> bool {
        &&& self.jsonrpc@ == "2.0"@
        &&& self.method@.len() > 0
    }

    /// Create a new request.
    pub fn new(id: Option<Value>, method: String, params: Option<Value>) -> (r: Request)
        requires
            method@.len() > 0,
        ensures
            r.id == id,
            r.method == method,
            r.params == params,
            r.wf(),
    {
        Request { jsonrpc: util::version_string(), method, id, params }
    }

    /// Create a new request that expects a reply.
    ///
    /// A random non-zero number is generated for the message id.
    pub fn new_reply(method: &str, params: Option<Value>) -> (r: Request)
        requires
            method@.len() > 0,
        ensures
            r.method@ == method@,
            r.params == params,
            r.id is Some,
            r.wf(),
    {
        let id = json::number_value(util::random_nonzero_u32());
        Request {
            jsonrpc: util::version_string(),
            method: String::from_str(method),
            id: Some(id),
            params,
        }
    }

    /// Create a new notification: the id field is `None`, so no response
    /// is owed on success.
    pub fn new_notification(method: &str, params: Option<Value>) -> (r: Request)
        requires
            method@.len() > 0,
        ensures
            r.method@ == method@,
            r.params == params,
            r.id is None,
            r.wf(),
    {
        Request {
            jsonrpc: util::version_string(),
            method: String::from_str(method),
            id: None,
            params,
        }
    }

    /// The id for the request.
    pub fn id(&self) -> (r: &Option<Value>)
        ensures
            *r == self.id,
    {
        &self.id
    }

    /// The mutable id for the request, if you need to take it to assign to
    /// a response.
    pub fn id_mut(&mut self) -> (r: &mut Option<Value>)
        ensures
            *r == old(self).id,
            final(self).id == *final(r),
            final(self).jsonrpc == old(self).jsonrpc,
            final(self).method == old(self).method,
            final(self).params == old(self).params,
    {
        &mut self.id
    }

    /// The request service method name.
    pub fn method(&self) -> (r: &str)
        ensures
            r@ == self.method@,
    {
        self.method.as_str()
    }

    /// The request parameters.
    pub fn params(&self) -> (r: &Option<Value>)
        ensures
            *r == self.params,
    {
        &self.params
    }

    /// Determine if the given name matches the request method.
    pub fn matches(&self, name: &str) -> (r: bool)
        ensures
            r == (name@ == self.method@),
    {
        util::str_eq(name, self.method.as_str())
    }

    /// Deserialize and consume the message parameters into type `T`.
    ///
    /// The params slot is one-shot: whatever the outcome, it is empty
    /// afterwards, and extracting from an empty slot fails. If this
    /// request has no parameters, or the payload cannot be converted to
    /// `T`, this returns `Error::InvalidParams` carrying the request id.
    pub fn deserialize<T: serde::de::DeserializeOwned>(&mut self) -> (r: Result<T, Error>)
        ensures
            final(self).params is None,
            final(self).id == old(self).id,
            final(self).method == old(self).method,
            final(self).jsonrpc == old(self).jsonrpc,
            r is Ok ==> old(self).params is Some,
            r matches Err(e) ==> {
                &&& e matches Error::InvalidParams { id, data }
                &&& id == old(self).id
            },
            old(self).params is None ==> (r matches Err(e) && (e matches Error::InvalidParams {
                id,
                data,
            } && id == old(self).id && data@ == "No parameters given"@)),
    {
        let id = json::clone_opt_value(&self.id);
        match self.params.take() {
            Some(payload) => conversion_outcome(json::convert_value::<T>(payload), id),
            None => Err(
                Error::InvalidParams { id, data: String::from_str("No parameters given") },
            ),
        }
    }
}

/// Shape the outcome of a params conversion into the library's result:
/// success passes through, and a conversion failure becomes
/// `Error::InvalidParams` carrying the request id and the converter's
/// diagnostic.
pub fn conversion_outcome<T>(outcome: Result<T, String>, id: Option<Value>) -> (r: Result<
    T,
    Error,
>)
    ensures
        outcome matches Ok(t) ==> r matches Ok(out) && out == t,
        outcome matches Err(detail) ==> r matches Err(e) && e == (Error::InvalidParams {
            id,
            data: detail,
        }),
{
    match outcome {
        Ok(t) => Ok(t),
        Err(detail) => Err(Error::InvalidParams { id, data: detail }),
    }
}

} // verus!
