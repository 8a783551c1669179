//! Errors that the runtime reports to its callers.

use vstd::prelude::*;

verus! {

/// Why a remote procedure did not produce a result.
#[derive(Clone, Copy, Debug, PartialEq, Eq, Structural)]
pub enum RpcErrorKind {
    /// No procedure is registered under the called name.
    UnknownRpc,
    /// The procedure could not make sense of its arguments.
    InvalidArgs,
    /// The procedure failed while doing its work.
    Io,
}

/// What can go wrong for a caller of the runtime.
#[derive(Clone, Copy, Debug, PartialEq, Eq, Structural)]
pub enum Error {
    /// The connection is closed: the command queue or the transport is gone.
    Disconnected,
    /// A frame on the wire is not one that this runtime reads or writes.
    InvalidFrame,
    /// A procedure of that name is registered already.
    DuplicateName,
    /// The remote side answered a call with an error.
    Rpc(RpcErrorKind),
    /// Every call identifier of this connection has been used.
    OutOfCallIds,
    /// The result of a call did not come within the time that the caller was
    /// willing to wait. It may still come.
    TimedOut,
}

impl Error {
    /// Whether the connection is lost with this error. After any other
    /// error it can be used as before.
    pub fn is_fatal(self) -> (fatal: bool)
        ensures
            fatal == (self is Disconnected || self is InvalidFrame),
    {
        match self {
            Error::Disconnected | Error::InvalidFrame => true,
            Error::DuplicateName | Error::Rpc(_) | Error::OutOfCallIds | Error::TimedOut => false,
        }
    }
}

} // verus!
