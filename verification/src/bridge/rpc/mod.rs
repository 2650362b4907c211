//! JSON-RPC 2.0: the messages and the client.

pub mod client;
pub mod error_codes;
pub mod types;
