//! The block value model the adapter serializes: the inner machine produces
//! blocks, the adapter owns each one only long enough to answer the host.

use vstd::prelude::*;
use crate::choices::{Decidable, Status};
use crate::errors::{ErrorKind, RpcError};
use crate::ids::Id;

verus! {

/// What the adapter reads of a block: its identifiers, opaque bytes, height,
/// timestamp in Unix seconds, and consensus status.
#[derive(Debug, Clone)]
pub struct BlockData {
    pub id: Id,
    pub parent_id: Id,
    pub bytes: Vec<u8>,
    pub height: u64,
    pub timestamp: u64,
    pub status: Status,
}

impl Decidable for BlockData {
    open spec fn spec_id(&self) -> Seq<u8> {
        self.id@
    }

    open spec fn spec_status(&self) -> Status {
        self.status
    }

    fn id(&self) -> (r: Id)
        ensures
            r@ == self.spec_id(),
    {
        self.id.clone()
    }

    fn status(&self) -> (r: Status)
        ensures
            r == self.spec_status(),
    {
        self.status
    }

    fn accept(&mut self) -> (r: Result<(), RpcError>)
        ensures
            r is Ok <==> old(self).spec_status() == Status::Processing,
            r is Ok ==> final(self).spec_status() == Status::Accepted,
            r matches Err(e) ==> e.kind == ErrorKind::Fatal && final(self).spec_status()
                == old(self).spec_status(),
            final(self).spec_id() == old(self).spec_id(),
    {
        match self.status {
            Status::Processing => {
                self.status = Status::Accepted;
                Ok(())
            },
            _ => Err(RpcError::new(
                ErrorKind::Fatal,
                "accept called on a block that is not processing".to_owned(),
            )),
        }
    }

    fn reject(&mut self) -> (r: Result<(), RpcError>)
        ensures
            r is Ok <==> old(self).spec_status() == Status::Processing,
            r is Ok ==> final(self).spec_status() == Status::Rejected,
            r matches Err(e) ==> e.kind == ErrorKind::Fatal && final(self).spec_status()
                == old(self).spec_status(),
            final(self).spec_id() == old(self).spec_id(),
    {
        match self.status {
            Status::Processing => {
                self.status = Status::Rejected;
                Ok(())
            },
            _ => Err(RpcError::new(
                ErrorKind::Fatal,
                "reject called on a block that is not processing".to_owned(),
            )),
        }
    }
}

} // verus!
