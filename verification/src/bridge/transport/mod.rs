//! The transport: what carries requests to the peer and responses back.

use crate::bridge::error::BridgeError;
use crate::bridge::rpc::types::{RpcRequest, RpcResponse};
use vstd::prelude::*;

pub mod stdio;

verus! {

/// A channel for messages. A request goes out whole or not at all; a
/// response comes back whole, or an error does.
pub trait Transport {
    /// Sends a request.
    fn send(&mut self, message: &RpcRequest) -> Result<(), BridgeError>;

    /// Waits for the next response.
    fn receive(&mut self) -> Result<RpcResponse, BridgeError>;

    /// Closes the transport.
    fn close(&mut self) -> Result<(), BridgeError>;

    /// Whether the transport is closed.
    fn is_closed(&self) -> bool;
}

} // verus!
