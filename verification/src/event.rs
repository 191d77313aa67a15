//! What the control server asks of the data server, and what it answers.
use vstd::prelude::*;

use crate::status::Status;

verus! {

/// What a client asks the data server to set up.
#[derive(Debug)]
pub enum Payload {
    /// A tcp listener on `port`; zero asks for a random port.
    RegisterTcp { port: u16 },
    /// A udp socket on `port`; zero asks for a random port.
    RegisterUdp { port: u16 },
    /// An http route: by domain, by subdomain, by a random subdomain, or by
    /// a listener on `port` (zero for a random port), in that order.
    RegisterHttp { port: u16, subdomain: String, domain: String, random_subdomain: bool },
}

/// The data server's answer to a registration.
#[derive(Debug)]
pub enum ClientEventResponse {
    /// `status` is `None` when the tunnel is registered; the entrypoints are
    /// the addresses under which users reach it.
    Registered { status: Option<Status>, entrypoint: Vec<String> },
}

impl ClientEventResponse {
    /// The answer to a registration that succeeded.
    pub fn registered(entrypoint: Vec<String>) -> (r: Self)
        ensures
            r matches ClientEventResponse::Registered { status, entrypoint: e } && status is None
                && e@ == entrypoint@,
    {
        ClientEventResponse::Registered { status: None, entrypoint }
    }

    /// The answer to a registration that failed with `status`.
    pub fn registered_failed(status: Status) -> (r: Self)
        ensures
            r matches ClientEventResponse::Registered { status: s, entrypoint: e } && s == Some(
                status,
            ) && e@.len() == 0,
    {
        ClientEventResponse::Registered { status: Some(status), entrypoint: Vec::new() }
    }
}

} // verus!
