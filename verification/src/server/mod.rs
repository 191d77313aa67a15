//! The server side: the port pool, the http routing table, the entrypoints
//! announced to clients, and the decisions of the control and data servers.
pub mod bus;
pub mod config;
pub mod control;
pub mod data;
pub mod http;
pub mod manager;
pub mod port;
pub mod registry;
