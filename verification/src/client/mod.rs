//! The client side: tunnel configuration and the decisions taken while a
//! tunnel runs.
pub mod control;
pub mod tunnel;
