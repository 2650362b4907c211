//! The error type of the bridge.

use crate::bridge::rpc::types::{id_label, RequestId};
use crate::json::Json;
use crate::text::{decimal_string, duration_string, duration_text, signed_decimal};
use vstd::prelude::*;

verus! {

/// Everything that can go wrong between the host and the runtime.
#[derive(Debug)]
pub enum BridgeError {
    /// A line that claimed to be JSON could not be read as a message.
    JsonParseError(String),
    /// The peer answered with a JSON-RPC error.
    RpcError { code: i32, message: String, data: Option<Json> },
    /// An operation on a stream or a process failed.
    IoError { context: String, source: String },
    /// The transport is closed.
    TransportClosed,
    /// No response came within the given number of milliseconds.
    Timeout(u64),
    /// The response answers another request.
    InvalidResponseId { expected: RequestId, actual: RequestId },
    /// The bridge was used before it was set up.
    NotInitialized,
    /// No factory is registered under the name.
    BridgeNotFound { name: String, suggestion: String },
    /// No runtime of the wanted kind could be found.
    RuntimeNotFound { runtime_type: String, searched_paths: String, suggestion: String },
    /// Anything else.
    Other(String),
}

/// The text that [`BridgeError::message`] writes.
pub open spec fn message_of(e: BridgeError) -> Seq<char> {
    match e {
        BridgeError::JsonParseError(m) => "JSON parse error: "@ + m@,
        BridgeError::RpcError { code, message, data } => "RPC error: code="@ + signed_decimal(
            code as int,
        ) + ", message="@ + message@,
        BridgeError::IoError { context, source } => context@ + "\n\nCause: "@ + source@,
        BridgeError::TransportClosed => "Transport closed"@,
        BridgeError::Timeout(ms) => "Request timeout after "@ + duration_text(ms as nat),
        BridgeError::InvalidResponseId { expected, actual } => "Invalid response: expected id "@
            + id_label(expected@) + ", got "@ + id_label(actual@),
        BridgeError::NotInitialized => "Bridge not initialized"@,
        BridgeError::BridgeNotFound { name, suggestion } => "Bridge not found: "@ + name@ + "\n\n"@
            + suggestion@,
        BridgeError::RuntimeNotFound { runtime_type, searched_paths, suggestion } =>
            "Runtime not found: "@ + runtime_type@ + "\n\nSearched paths:\n"@ + searched_paths@
                + "\n\nSuggestion:\n"@ + suggestion@,
        BridgeError::Other(m) => m@,
    }
}

impl BridgeError {
    /// The error for a failed stream operation that has no further context.
    pub fn from_io(cause: String) -> (e: BridgeError)
        ensures
            e matches BridgeError::IoError { context, source } && context@
                == "IO operation failed"@ && source == cause,
    {
        BridgeError::IoError { context: String::from_str("IO operation failed"), source: cause }
    }

    /// The error as a line of text for the user.
    pub fn message(&self) -> (s: String)
        ensures
            s@ == message_of(*self),
    {
        match self {
            BridgeError::JsonParseError(m) => {
                let mut s = String::from_str("JSON parse error: ");
                s.append(m.as_str());
                s
            },
            BridgeError::RpcError { code, message, data } => {
                let mut s = String::from_str("RPC error: code=");
                let c = decimal_string(*code as i128);
                s.append(c.as_str());
                s.append(", message=");
                s.append(message.as_str());
                s
            },
            BridgeError::IoError { context, source } => {
                let mut s = context.clone();
                s.append("\n\nCause: ");
                s.append(source.as_str());
                s
            },
            BridgeError::TransportClosed => String::from_str("Transport closed"),
            BridgeError::Timeout(ms) => {
                let mut s = String::from_str("Request timeout after ");
                let c = duration_string(*ms);
                s.append(c.as_str());
                s
            },
            BridgeError::InvalidResponseId { expected, actual } => {
                let mut s = String::from_str("Invalid response: expected id ");
                let e = expected.label();
                s.append(e.as_str());
                s.append(", got ");
                let a = actual.label();
                s.append(a.as_str());
                s
            },
            BridgeError::NotInitialized => String::from_str("Bridge not initialized"),
            BridgeError::BridgeNotFound { name, suggestion } => {
                let mut s = String::from_str("Bridge not found: ");
                s.append(name.as_str());
                s.append("\n\n");
                s.append(suggestion.as_str());
                s
            },
            BridgeError::RuntimeNotFound { runtime_type, searched_paths, suggestion } => {
                let mut s = String::from_str("Runtime not found: ");
                s.append(runtime_type.as_str());
                s.append("\n\nSearched paths:\n");
                s.append(searched_paths.as_str());
                s.append("\n\nSuggestion:\n");
                s.append(suggestion.as_str());
                s
            },
            BridgeError::Other(m) => m.clone(),
        }
    }
}

} // verus!
