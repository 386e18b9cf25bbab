//! Fixed-width opaque identifiers: 32-byte chain/block/subnet/asset ids and
//! 20-byte node ids. Construction from a byte slice is length-checked;
//! `to_vec` hands the bytes back unchanged; equality is by content.

use vstd::prelude::*;
use vstd::slice::slice_to_vec;
use vstd::std_specs::cmp::PartialEqSpec;

verus! {

/// Width of a chain/block/subnet/asset identifier in bytes.
pub const ID_LEN: usize = 32;

/// Width of a node identifier in bytes.
pub const NODE_ID_LEN: usize = 20;

/// Typed error for a slice whose length does not match the declared width.
#[derive(Debug, Clone, Copy, PartialEq, Eq, Structural)]
pub struct BadLength {
    pub expected: usize,
    pub actual: usize,
}

/// A 32-byte opaque identifier (block id, chain id, subnet id, asset id, ...).
#[derive(Debug)]
pub struct Id {
    bytes: Vec<u8>,
}

impl Clone for Id {
    /// A cloned id holds the same bytes.
    fn clone(&self) -> (r: Self)
        ensures
            r@ == self@,
    {
        let r = Id { bytes: self.bytes.clone() };
        assert(r.bytes@ =~= self.bytes@);
        r
    }
}

impl View for Id {
    type V = Seq<u8>;

    closed spec fn view(&self) -> Seq<u8> {
        self.bytes@
    }
}

impl Id {
    /// Every constructed `Id` holds exactly `ID_LEN` bytes.
    pub open spec fn wf(&self) -> bool {
        self@.len() == ID_LEN
    }

    /// Builds an `Id` out of a byte slice; fails exactly when the slice is
    /// not `ID_LEN` bytes long.
    pub fn from_slice(d: &[u8]) -> (r: Result<Id, BadLength>)
        ensures
            r is Ok <==> d@.len() == ID_LEN,
            r matches Ok(id) ==> id@ == d@ && id.wf(),
            r matches Err(e) ==> e.expected == ID_LEN && e.actual == d@.len(),
    {
        if d.len() == ID_LEN {
            Ok(Id { bytes: slice_to_vec(d) })
        } else {
            Err(BadLength { expected: ID_LEN, actual: d.len() })
        }
    }

    /// Hands back the identifier's bytes; round-trips with `from_slice`.
    pub fn to_vec(&self) -> (r: Vec<u8>)
        ensures
            r@ == self@,
    {
        let r = self.bytes.clone();
        assert(r@ =~= self.bytes@);
        r
    }
}

impl PartialEq for Id {
    /// Two ids with equal bytes compare equal.
    fn eq(&self, other: &Id) -> (r: bool) {
        let r = self.bytes == other.bytes;
        proof {
            if self.bytes.eq_spec(&other.bytes) {
                assert(self.bytes@ =~= other.bytes@);
            } else if self.bytes@ == other.bytes@ {
                assert(self.bytes.eq_spec(&other.bytes));
            }
        }
        r
    }
}

impl Eq for Id {}

impl vstd::std_specs::cmp::PartialEqSpecImpl for Id {
    open spec fn obeys_eq_spec() -> bool {
        true
    }

    open spec fn eq_spec(&self, other: &Id) -> bool {
        self@ == other@
    }
}

/// A 20-byte opaque node identifier.
#[derive(Debug)]
pub struct NodeId {
    bytes: Vec<u8>,
}

impl Clone for NodeId {
    /// A cloned id holds the same bytes.
    fn clone(&self) -> (r: Self)
        ensures
            r@ == self@,
    {
        let r = NodeId { bytes: self.bytes.clone() };
        assert(r.bytes@ =~= self.bytes@);
        r
    }
}

impl View for NodeId {
    type V = Seq<u8>;

    closed spec fn view(&self) -> Seq<u8> {
        self.bytes@
    }
}

impl NodeId {
    /// Every constructed `NodeId` holds exactly `NODE_ID_LEN` bytes.
    pub open spec fn wf(&self) -> bool {
        self@.len() == NODE_ID_LEN
    }

    /// Builds a `NodeId` out of a byte slice; fails exactly when the slice
    /// is not `NODE_ID_LEN` bytes long.
    pub fn from_slice(d: &[u8]) -> (r: Result<NodeId, BadLength>)
        ensures
            r is Ok <==> d@.len() == NODE_ID_LEN,
            r matches Ok(id) ==> id@ == d@ && id.wf(),
            r matches Err(e) ==> e.expected == NODE_ID_LEN && e.actual == d@.len(),
    {
        if d.len() == NODE_ID_LEN {
            Ok(NodeId { bytes: slice_to_vec(d) })
        } else {
            Err(BadLength { expected: NODE_ID_LEN, actual: d.len() })
        }
    }

    /// Hands back the identifier's bytes; round-trips with `from_slice`.
    pub fn to_vec(&self) -> (r: Vec<u8>)
        ensures
            r@ == self@,
    {
        let r = self.bytes.clone();
        assert(r@ =~= self.bytes@);
        r
    }
}

} // verus!
