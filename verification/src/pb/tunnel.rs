//! Nested message types of `Tunnel`.
use vstd::prelude::*;

use super::{HttpConfig, TcpConfig, UdpConfig};

verus! {

/// The kind of a tunnel, with its options.
#[derive(Clone, Debug, PartialEq)]
pub enum Config {
    Tcp(TcpConfig),
    Http(HttpConfig),
    Udp(UdpConfig),
}

} // verus!
