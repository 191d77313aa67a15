//! The manager of the tcp listeners of tunnels.
use vstd::prelude::*;

verus! {

/// A placeholder for the manager of the tcp listeners of tunnels: it holds
/// nothing, since the server's event loop drives the listeners itself.
#[derive(Debug, Default)]
pub struct TcpManager {}

impl TcpManager {
    /// A manager without listeners.
    pub fn new() -> Self {
        Self {}
    }
}

} // verus!
