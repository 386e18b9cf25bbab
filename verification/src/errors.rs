//! Error kinds the adapter surfaces, and their mapping onto the wire's
//! transport-level codes.

use vstd::prelude::*;

verus! {

/// The kinds of failure the adapter distinguishes.
#[derive(Debug, Clone, Copy, PartialEq, Eq, Structural)]
pub enum ErrorKind {
    /// Malformed input: a bad version string, an out-of-range enum code, a
    /// wrong-length identifier slice.
    Invalid,
    /// A remote dial failed while the adapter was initializing.
    Unavailable,
    /// A block the inner machine does not know; reported in-body, never as a
    /// transport failure.
    NotFound,
    /// An illegal lifecycle transition or a notification-pump failure.
    Fatal,
    /// A schema call the adapter deliberately does not serve.
    Unimplemented,
}

/// An adapter failure: a kind plus a free-form message for the host's logs.
#[derive(Debug, Clone)]
pub struct RpcError {
    pub kind: ErrorKind,
    pub message: String,
}

impl RpcError {
    pub fn new(kind: ErrorKind, message: String) -> (r: RpcError)
        ensures
            r.kind == kind,
            r.message == message,
    {
        RpcError { kind, message }
    }
}

/// Transport-level statuses the adapter ever returns for a failed call.
#[derive(Debug, Clone, Copy, PartialEq, Eq, Structural)]
pub enum TransportCode {
    Unknown,
    Unimplemented,
}

/// How an adapter failure is signalled on the wire: deliberately unsupported
/// calls as `Unimplemented`, everything else as `Unknown`.
pub open spec fn transport_of(kind: ErrorKind) -> TransportCode {
    match kind {
        ErrorKind::Unimplemented => TransportCode::Unimplemented,
        _ => TransportCode::Unknown,
    }
}

/// Maps a failure onto the transport status that carries it to the host.
pub fn transport_code(e: &RpcError) -> (r: TransportCode)
    ensures
        r == transport_of(e.kind),
{
    match e.kind {
        ErrorKind::Unimplemented => TransportCode::Unimplemented,
        _ => TransportCode::Unknown,
    }
}

} // verus!
