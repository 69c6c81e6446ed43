//! Virtual TCP-over-UDP overlay: node identities, their synthetic IPv6
//! addresses and the routing decisions of the layer that joins a user-space
//! TCP engine to session-based forwarding.
//!
//! The crate opens no socket and runs no task. A driver owns the TCP engine,
//! the sessions and the channels; it feeds their events to the types here
//! and carries out what they answer with.

pub mod address;
pub mod assoc;
pub mod bytes;
pub mod error;
pub mod id_map;
pub mod interface;
pub mod node;
pub mod pause;
pub mod sse;
pub mod virtual_layer;
