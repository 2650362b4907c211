//! The error codes of JSON-RPC 2.0, and those of this bridge in the range
//! from -32000 to -32099 that the protocol leaves to its users.

use vstd::prelude::*;

verus! {

/// The request was no valid JSON.
pub const PARSE_ERROR: i32 = -32700;

/// The JSON was no valid request.
pub const INVALID_REQUEST: i32 = -32600;

/// The method does not exist.
pub const METHOD_NOT_FOUND: i32 = -32601;

/// The parameters are invalid.
pub const INVALID_PARAMS: i32 = -32602;

/// An error inside the peer.
pub const INTERNAL_ERROR: i32 = -32603;

/// The service does not exist.
pub const SERVICE_NOT_FOUND: i32 = -32001;

/// The service failed.
pub const SERVICE_ERROR: i32 = -32002;

/// The service took too long.
pub const TIMEOUT_ERROR: i32 = -32003;

} // verus!
