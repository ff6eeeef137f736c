//! The error taxonomy: a closed set of failure kinds and its pure mapping
//! into the protocol's reserved numeric error-code space.

use serde_json::Value;
use vstd::prelude::*;
use vstd::string::StringExecFns;

verus! {

/// Code for a payload that is not well-formed JSON.
pub const PARSE_ERROR: isize = -32700;

/// Code for well-formed JSON that is not a valid request.
pub const INVALID_REQUEST: isize = -32600;

/// Code for a request whose method no service handles.
pub const METHOD_NOT_FOUND: isize = -32601;

/// Code for request parameters that cannot be converted to the expected
/// shape.
pub const INVALID_PARAMS: isize = -32602;

/// Code for any other failure propagated out of a service handler.
pub const INTERNAL_ERROR: isize = -32603;

/// Enumeration of failure kinds, each carrying exactly the state needed to
/// build a response.
#[derive(Debug)]
pub enum Error {
    /// A JSON payload could not be parsed.
    Parse {
        /// The underlying JSON error message.
        data: String,
    },
    /// The contents of a JSON payload do not match the request shape.
    InvalidRequest {
        /// The underlying JSON error message.
        data: String,
    },
    /// The request method name did not match any service.
    MethodNotFound {
        /// The id of the request message.
        id: Option<Value>,
        /// The name of the request method.
        name: String,
    },
    /// The request parameters cannot be converted to the expected type.
    InvalidParams {
        /// The id of the request message.
        id: Option<Value>,
        /// The underlying JSON error message.
        data: String,
    },
    /// Any other failure, wrapped so only its human-readable message
    /// crosses the dispatch boundary.
    Internal {
        /// The message of the underlying failure.
        message: String,
    },
}

impl Error {
    /// The numeric protocol code of this failure kind.
    pub open spec fn spec_code(&self) -> isize {
        match self {
            Error::Parse { .. } => PARSE_ERROR,
            Error::InvalidRequest { .. } => INVALID_REQUEST,
            Error::MethodNotFound { .. } => METHOD_NOT_FOUND,
            Error::InvalidParams { .. } => INVALID_PARAMS,
            Error::Internal { .. } => INTERNAL_ERROR,
        }
    }

    /// The stable human-readable message of this failure kind.
    pub open spec fn spec_message(&self) -> Seq<char> {
        match self {
            Error::Parse { .. } => "Parsing failed, invalid JSON data"@,
            Error::InvalidRequest { .. } => "Invalid JSON-RPC request"@,
            Error::MethodNotFound { name, .. } => "Service method not found: "@ + name@,
            Error::InvalidParams { .. } => "Message parameters are invalid"@,
            Error::Internal { message } => message@,
        }
    }

    /// The diagnostic payload of this failure kind: present exactly for the
    /// kinds that carry an underlying cause.
    pub open spec fn spec_data(&self) -> Option<String> {
        match self {
            Error::Parse { data } => Some(*data),
            Error::InvalidRequest { data } => Some(*data),
            Error::InvalidParams { data, .. } => Some(*data),
            Error::MethodNotFound { .. } => None,
            Error::Internal { .. } => None,
        }
    }

    /// The numeric protocol code of this failure kind.
    pub fn code(&self) -> (r: isize)
        ensures
            r == self.spec_code(),
    {
        match self {
            Error::Parse { .. } => PARSE_ERROR,
            Error::InvalidRequest { .. } => INVALID_REQUEST,
            Error::MethodNotFound { .. } => METHOD_NOT_FOUND,
            Error::InvalidParams { .. } => INVALID_PARAMS,
            Error::Internal { .. } => INTERNAL_ERROR,
        }
    }

    /// The stable human-readable message of this failure kind.
    pub fn message(&self) -> (r: String)
        ensures
            r@ == self.spec_message(),
    {
        match self {
            Error::Parse { .. } => String::from_str("Parsing failed, invalid JSON data"),
            Error::InvalidRequest { .. } => String::from_str("Invalid JSON-RPC request"),
            Error::MethodNotFound { name, .. } => String::from_str(
                "Service method not found: ",
            ).concat(name.as_str()),
            Error::InvalidParams { .. } => String::from_str("Message parameters are invalid"),
            Error::Internal { message } => message.clone(),
        }
    }

    /// The diagnostic payload of this failure kind.
    pub fn error_data(&self) -> (r: Option<String>)
        ensures
            r == self.spec_data(),
    {
        match self {
            Error::Parse { data } => Some(data.clone()),
            Error::InvalidRequest { data } => Some(data.clone()),
            Error::InvalidParams { data, .. } => Some(data.clone()),
            Error::MethodNotFound { .. } => None,
            Error::Internal { .. } => None,
        }
    }

    /// The pure, total mapping from failure kind to wire error object.
    /// Every failure is classified as one of the five kinds; there is no
    /// fallback beyond `Internal`.
    pub fn to_rpc_error(&self) -> (r: RpcError)
        ensures
            r.code == self.spec_code(),
            r.message@ == self.spec_message(),
            r.data == self.spec_data(),
    {
        RpcError { code: self.code(), message: self.message(), data: self.error_data() }
    }
}

/// Error information for response messages.
#[derive(Debug, PartialEq, Eq)]
pub struct RpcError {
    /// The error code.
    pub code: isize,
    /// The error message.
    pub message: String,
    /// Additional data for the error, typically an underlying cause.
    pub data: Option<String>,
}

} // verus!
