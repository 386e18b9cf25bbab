//! Plugin-side runtime pieces for adapting a blockchain virtual machine to a
//! host consensus engine that drives it over a remote-procedure boundary.
//!
//! The executable surface here is the decision and serialization logic of the
//! adapter: identifier handling, status and engine-state machines, versioned
//! database resolution, the notification-pump protocol, and the shaping of
//! every host-facing response. The transport itself (sockets, channels,
//! spawned tasks) lives outside this crate and hands plain values in and out.

pub mod block;
pub mod choices;
pub mod database;
pub mod errors;
pub mod ids;
pub mod jsonrpc;
pub mod message;
pub mod rpcdb;
pub mod snow;
pub mod version;
pub mod vm;
pub mod wallet;

use vstd::prelude::*;

verus! {

/// Plugin handshake protocol version, exchanged with the host out-of-band.
pub const PROTOCOL_VERSION: &'static str = "19";

} // verus!
