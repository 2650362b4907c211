//! The bridge to the JavaScript runtime.
//!
//! - `error`: the one error type of the bridge
//! - `rpc`: JSON-RPC 2.0 messages and the client that exchanges them
//! - `runtime`: finding a runtime and following its process
//! - `transport`: messages as lines of text
//! - `manager`: named bridges, made on demand

pub mod env_keys;
pub mod error;
pub mod manager;
pub mod rpc;
pub mod runtime;
pub mod transport;
