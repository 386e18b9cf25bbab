//! Consensus status of a decidable element, and the capability contract that
//! every decidable element (a block, a transaction, a vertex) must meet.

use vstd::prelude::*;
use crate::errors::{ErrorKind, RpcError};
use crate::ids::Id;

verus! {

/// Consensus status of a block as the host engine sees it.
///
/// `Unknown` is a pre-lifecycle sentinel; `Processing` is the only state from
/// which `accept` or `reject` may succeed; `Accepted` and `Rejected` are
/// terminal.
#[derive(Debug, Clone, Copy, PartialEq, Eq, Structural)]
pub enum Status {
    Unknown,
    Processing,
    Rejected,
    Accepted,
}

/// The dense code under which a status travels on the wire.
pub open spec fn status_code(s: Status) -> u32 {
    match s {
        Status::Unknown => 0u32,
        Status::Processing => 1u32,
        Status::Rejected => 2u32,
        Status::Accepted => 3u32,
    }
}

impl Status {
    /// Serializes the status as its wire code.
    pub fn to_u32(&self) -> (r: u32)
        ensures
            r == status_code(*self),
    {
        match self {
            Status::Unknown => 0,
            Status::Processing => 1,
            Status::Rejected => 2,
            Status::Accepted => 3,
        }
    }
}

/// Represents an element that can be decided: a block, a transaction, or a
/// vertex. The consensus engine calls `accept` or `reject` at most once; a
/// call on an element that is not `Processing` is an illegal transition and
/// must fail with a `Fatal` error, leaving the element unchanged.
pub trait Decidable: Sized {
    /// The element's identifier, as bytes.
    spec fn spec_id(&self) -> Seq<u8>;

    /// The element's current consensus status.
    spec fn spec_status(&self) -> Status;

    /// Returns the ID of this element.
    fn id(&self) -> (r: Id)
        ensures
            r@ == self.spec_id(),
    ;

    /// Returns the current status.
    fn status(&self) -> (r: Status)
        ensures
            r == self.spec_status(),
    ;

    /// Accepts this element: legal only from `Processing`.
    fn accept(&mut self) -> (r: Result<(), RpcError>)
        ensures
            r is Ok <==> old(self).spec_status() == Status::Processing,
            r is Ok ==> final(self).spec_status() == Status::Accepted,
            r matches Err(e) ==> e.kind == ErrorKind::Fatal && final(self).spec_status()
                == old(self).spec_status(),
            final(self).spec_id() == old(self).spec_id(),
    ;

    /// Rejects this element: legal only from `Processing`.
    fn reject(&mut self) -> (r: Result<(), RpcError>)
        ensures
            r is Ok <==> old(self).spec_status() == Status::Processing,
            r is Ok ==> final(self).spec_status() == Status::Rejected,
            r matches Err(e) ==> e.kind == ErrorKind::Fatal && final(self).spec_status()
                == old(self).spec_status(),
            final(self).spec_id() == old(self).spec_id(),
    ;
}

} // verus!
