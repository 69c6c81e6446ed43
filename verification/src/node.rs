//! Node and session identities.

use crate::assoc::Key;
use crate::bytes::{array_eq, padded_array, padded_byte};
use vstd::prelude::*;

verus! {

/// Number of bytes in a node identifier.
pub const NODE_ID_LEN: usize = 20;

/// Selects one forwarding destination within a session.
pub type SlotId = u32;

/// Opaque identifier of a peer, unique per peer.
#[derive(Clone, Copy, Debug, PartialEq, Eq, Hash)]
pub struct NodeId {
    pub inner: [u8; 20],
}

impl View for NodeId {
    type V = Seq<u8>;

    open spec fn view(&self) -> Seq<u8> {
        self.inner@
    }
}

impl Key for NodeId {
    fn same(&self, other: &NodeId) -> (r: bool) {
        array_eq(&self.inner, &other.inner)
    }
}

impl NodeId {
    /// Reads an identifier from exactly twenty bytes.
    pub fn from_slice(bytes: &[u8]) -> (id: NodeId)
        requires
            bytes@.len() == NODE_ID_LEN,
        ensures
            id@ == bytes@,
    {
        let inner: [u8; 20] = padded_array(bytes);
        assert(inner@ =~= bytes@) by {
            assert forall|i: int| 0 <= i < 20 implies inner@[i] == bytes@[i] by {
                assert(inner@[i] == padded_byte(bytes@, i));
            }
        }
        NodeId { inner }
    }

    /// The identifier's bytes.
    pub fn into_array(self) -> (bytes: [u8; 20])
        ensures
            bytes == self.inner,
    {
        self.inner
    }
}

/// Identifier of a session with the relay or with a peer, opaque to this
/// layer.
#[derive(Clone, Copy, Debug, PartialEq, Eq, Hash)]
pub struct SessionId {
    pub id: [u8; 16],
}

/// What the session layer knows of a peer when it hands it to this layer:
/// who it is, and through which session and slot it is reached.
#[derive(Clone, Copy, Debug, PartialEq, Eq)]
pub struct NodeEntry {
    pub id: NodeId,
    pub session: SessionId,
    pub slot: SlotId,
}

} // verus!
