//! What every bridge offers.

use crate::bridge::error::BridgeError;
use crate::json::Json;
use vstd::prelude::*;

verus! {

/// A bridge: a named peer, run by a process, whose methods can be called.
pub trait Bridge {
    /// The name of the bridge.
    fn name(&self) -> &str;

    /// Calls `method` of the peer with `params`.
    fn call(&mut self, method: &str, params: Json) -> Result<Json, BridgeError>;

    /// Whether the process of the bridge is alive.
    fn is_healthy(&self) -> bool;

    /// Ends the process of the bridge.
    fn shutdown(&mut self) -> Result<(), BridgeError>;
}

} // verus!
