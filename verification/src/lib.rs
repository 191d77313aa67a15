//! castled: a tunnel that exposes local TCP, UDP and HTTP services through a
//! public server.
//!
//! This crate holds the decisions of the tunnel: the wire messages, the
//! client's tunnel configuration, the server's port pool, its HTTP routing
//! table, the entrypoints it announces, the parsing of relayed HTTP response
//! heads, and the step functions that the network loops drive.
pub mod event;
pub(crate) mod ext;
pub mod helper;
pub mod client;
pub mod io;
pub mod pb;
pub mod server;
pub mod socket;
pub mod status;

use vstd::prelude::*;

verus! {

} // verus!
