//! What a client tells the broker about itself.

use vstd::prelude::*;

verus! {

/// The argument of the call that announces a procedure to the broker.
#[derive(Clone, Debug, PartialEq, Eq)]
pub struct NewRpcRequest {
    pub priority: u16,
    pub name: String,
}

impl NewRpcRequest {
    /// The announcement of the procedure `name` with the rank `priority`.
    pub fn new(name: &str, priority: u16) -> (request: NewRpcRequest)
        ensures
            request.priority == priority,
            request.name@ == name@,
    {
        NewRpcRequest { priority, name: name.to_owned() }
    }
}

/// The name of the broker's procedure that takes a `NewRpcRequest`.
pub fn new_rpc_function() -> (function: &'static str)
    ensures
        function@ == "core.new_rpc"@,
{
    "core.new_rpc"
}

/// The name of the broker's procedure that hands its argument to every
/// connected peer as a broadcast.
pub fn broadcast_function() -> (function: &'static str)
    ensures
        function@ == "core.broadcast"@,
{
    "core.broadcast"
}

} // verus!
