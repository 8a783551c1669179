//! The serving end of a call: a procedure that this client offers to its
//! peers.

use crate::ipc::RpcResult;
use vstd::prelude::*;

verus! {

/// A procedure that peers can call.
///
/// The command loop runs `call` itself, between two commands. A procedure
/// may hand further calls to the loop, but it must not wait for their
/// results: the loop cannot deliver them before `call` has returned.
pub trait Rpc {
    /// Rank among the procedures that are announced under one name.
    fn priority(&self) -> u16;

    /// Runs the procedure on `args`.
    fn call(&mut self, args: serde_json::Value) -> RpcResult;
}

} // verus!
