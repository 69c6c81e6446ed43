//! Errors of the virtual layer.

use vstd::prelude::*;

verus! {

/// What can go wrong in the virtual layer.
#[derive(Clone, Copy, Debug, PartialEq, Eq, Structural)]
pub enum LayerError {
    /// No virtual node is registered for the node identifier.
    UnknownNode,
    /// No virtual node is registered for the address.
    UnknownAddress,
    /// The TCP engine could not open the virtual connection.
    ConnectFailed,
    /// The routers were started before: the engine has already given out its
    /// event streams.
    AlreadySpawned,
}

impl LayerError {
    /// A short description for logs.
    pub fn as_str(&self) -> (text: &'static str)
        ensures
            text@ == match self {
                LayerError::UnknownNode => "virtual node not found"@,
                LayerError::UnknownAddress => "virtual address not found"@,
                LayerError::ConnectFailed => "virtual connection failed"@,
                LayerError::AlreadySpawned => "traffic routers already spawned"@,
            },
    {
        match self {
            LayerError::UnknownNode => "virtual node not found",
            LayerError::UnknownAddress => "virtual address not found",
            LayerError::ConnectFailed => "virtual connection failed",
            LayerError::AlreadySpawned => "traffic routers already spawned",
        }
    }
}

} // verus!
