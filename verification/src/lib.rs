//! Transport-agnostic facade for JSON-RPC 2.0 services.
//!
//! Raw JSON text or bytes are parsed into a typed [`Request`], routed
//! through an ordered chain of [`Service`] handlers sharing a caller
//! supplied context, and answered with a typed [`Response`] — or with no
//! response at all when the request was a notification that succeeded.

mod error;
mod json;
mod parse;
mod request;
mod response;
mod server;
mod util;

pub use error::{
    Error, RpcError, INTERNAL_ERROR, INVALID_PARAMS, INVALID_REQUEST, METHOD_NOT_FOUND, PARSE_ERROR,
};
pub use json::{json_bytes_ok, json_text_ok};
pub use parse::{from_reader, from_slice, from_str, from_value, request_from_parts, schema_error, TextField};
pub use request::{conversion_outcome, Request};
pub use response::Response;
pub use server::{chain_verdict, finalize, lemma_first_match_wins, Server, Service};

use vstd::prelude::*;

verus! {

/// Result type for service handler functions and internal library errors.
pub type Result<T> = core::result::Result<T, Error>;

} // verus!
