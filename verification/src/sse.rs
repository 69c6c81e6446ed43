//! What the relay's event stream tells its listeners about a node.

use vstd::prelude::*;

verus! {

/// A node as the event stream shows it.
#[derive(Debug, PartialEq, Eq)]
pub struct NodeInfo {
    /// The node's identifier.
    pub id: String,
    /// The address that the node's session comes from.
    pub peer: String,
    /// How long ago the node was seen.
    pub seen: String,
    /// What is known of the reachability of the node's address.
    pub addr_status: String,
}

/// One message of the event stream: what happened, and to which node.
#[derive(Debug, PartialEq, Eq)]
pub struct SseMessage {
    pub status: String,
    pub node: NodeInfo,
}

} // verus!
