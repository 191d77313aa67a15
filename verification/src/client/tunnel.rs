//! Tunnel configuration for the client.
//! Before starting a tunnel, you need to create a tunnel by this module.
use vstd::prelude::*;

use crate::ext::text::{lossy_text, utf8_lossy};
use crate::pb::{self, tunnel, HttpConfig, TcpConfig, UdpConfig};

verus! {

/// configuration for the http tunnel.
#[derive(Debug, Default)]
pub enum HttpRemoteConfig<'a> {
    Domain(&'a str),
    Subdomain(&'a str),
    RandomSubdomain,
    Port(u16),
    #[default]
    RandomPort,
}

/// Remote configuration for the tunnel.
#[derive(Debug)]
pub enum RemoteConfig<'a> {
    Tcp(u16),
    Udp(u16),
    Http(HttpRemoteConfig<'a>),
}

/// The transport with which the client reaches its local endpoint.
#[derive(Clone, Copy, Debug, PartialEq, Eq, Structural)]
pub enum DialProtocol {
    Tcp,
    Udp,
}

/// The four options of an http config, in the order domain, subdomain,
/// random subdomain, remote port.
pub open spec fn http_fields(c: HttpConfig) -> (Seq<char>, Seq<char>, bool, int) {
    (c.domain@, c.subdomain@, c.random_subdomain, c.remote_port as int)
}

/// The http config that the server receives for a client's http option:
/// exactly one option is set, or none for a random port.
pub open spec fn spec_http_config(h: HttpRemoteConfig) -> (Seq<char>, Seq<char>, bool, int) {
    match h {
        HttpRemoteConfig::Domain(d) => (d@, Seq::empty(), false, 0),
        HttpRemoteConfig::Subdomain(s) => (Seq::empty(), s@, false, 0),
        HttpRemoteConfig::RandomSubdomain => (Seq::empty(), Seq::empty(), true, 0),
        HttpRemoteConfig::Port(p) => (Seq::empty(), Seq::empty(), false, p as int),
        HttpRemoteConfig::RandomPort => (Seq::empty(), Seq::empty(), false, 0),
    }
}

/// The port that a client's remote config asks the server to listen on;
/// zero asks for a random port, and tunnels routed by name ask for none.
pub open spec fn requested_port(r: RemoteConfig) -> u16 {
    match r {
        RemoteConfig::Tcp(p) => p,
        RemoteConfig::Udp(p) => p,
        RemoteConfig::Http(HttpRemoteConfig::Port(p)) => p,
        RemoteConfig::Http(_) => 0,
    }
}

/// The tunnel config that the server receives for a client's remote config.
pub open spec fn config_matches(r: RemoteConfig, c: tunnel::Config) -> bool {
    match (r, c) {
        (RemoteConfig::Tcp(p), tunnel::Config::Tcp(t)) => t.remote_port == p as i32,
        (RemoteConfig::Udp(p), tunnel::Config::Udp(u)) => u.remote_port == p as i32,
        (RemoteConfig::Http(h), tunnel::Config::Http(c)) => http_fields(c) == spec_http_config(h),
        _ => false,
    }
}

impl<'a> RemoteConfig<'a> {
    /// Builds the tunnel message with which the client registers this tunnel
    /// under `name`; the id is left for the server to assign.
    pub fn to_pb_tunnel(&self, name: &str) -> (r: pb::Tunnel)
        ensures
            r.name@ == name@,
            r.id@ == Seq::<char>::empty(),
            r.config matches Some(c) && config_matches(*self, c),
    {
        pb::Tunnel {
            id: String::new(),
            name: name.to_owned(),
            config: Some(
                match self {
                    RemoteConfig::Udp(port) => tunnel::Config::Udp(
                        UdpConfig { remote_port: *port as i32 },
                    ),
                    RemoteConfig::Tcp(port) => tunnel::Config::Tcp(
                        TcpConfig { remote_port: *port as i32 },
                    ),
                    RemoteConfig::Http(config) => tunnel::Config::Http(config.get_http_config()),
                },
            ),
        }
    }

    /// The transport used to reach the local endpoint: udp tunnels dial udp,
    /// tcp and http tunnels dial tcp.
    pub fn dial_protocol(&self) -> (r: DialProtocol)
        ensures
            r == (if *self is Udp {
                DialProtocol::Udp
            } else {
                DialProtocol::Tcp
            }),
    {
        match self {
            RemoteConfig::Tcp(_) => DialProtocol::Tcp,
            RemoteConfig::Udp(_) => DialProtocol::Udp,
            RemoteConfig::Http(_) => DialProtocol::Tcp,
        }
    }
}

impl HttpRemoteConfig<'_> {
    /// The http config that tells the server which option the client chose.
    pub fn get_http_config(&self) -> (r: HttpConfig)
        ensures
            http_fields(r) == spec_http_config(*self),
    {
        match self {
            HttpRemoteConfig::Domain(domain) => {
                proof {
                    vstd::utf8::encode_utf8_valid_utf8(domain@);
                    vstd::utf8::encode_utf8_decode_utf8(domain@);
                }
                domain_config(vstd::slice::slice_to_vec(domain.as_bytes()))
            },
            HttpRemoteConfig::Subdomain(subdomain) => {
                proof {
                    vstd::utf8::encode_utf8_valid_utf8(subdomain@);
                    vstd::utf8::encode_utf8_decode_utf8(subdomain@);
                }
                subdomain_config(vstd::slice::slice_to_vec(subdomain.as_bytes()))
            },
            HttpRemoteConfig::RandomSubdomain => random_subdomain_config(),
            HttpRemoteConfig::Port(port) => remote_port_config(*port),
            HttpRemoteConfig::RandomPort => random_remote_port_config(),
        }
    }
}

/// An http config that routes the requests for `domain`.
pub fn domain_config(domain: Vec<u8>) -> (r: HttpConfig)
    ensures
        r.domain@ == lossy_text(domain@),
        vstd::utf8::valid_utf8(domain@) ==> r.domain@ == vstd::utf8::decode_utf8(domain@),
        r.subdomain@ == Seq::<char>::empty(),
        !r.random_subdomain,
        r.remote_port == 0,
{
    HttpConfig {
        domain: utf8_lossy(domain.as_slice()),
        random_subdomain: false,
        remote_port: 0,
        subdomain: String::new(),
    }
}

/// An http config that routes the requests for `subdomain` under each of the
/// server's domains.
pub fn subdomain_config(subdomain: Vec<u8>) -> (r: HttpConfig)
    ensures
        r.subdomain@ == lossy_text(subdomain@),
        vstd::utf8::valid_utf8(subdomain@) ==> r.subdomain@ == vstd::utf8::decode_utf8(
            subdomain@,
        ),
        r.domain@ == Seq::<char>::empty(),
        !r.random_subdomain,
        r.remote_port == 0,
{
    HttpConfig {
        random_subdomain: false,
        domain: String::new(),
        remote_port: 0,
        subdomain: utf8_lossy(subdomain.as_slice()),
    }
}

/// An http config that asks the server to listen on `remote_port`.
pub fn remote_port_config(remote_port: u16) -> (r: HttpConfig)
    ensures
        http_fields(r) == (Seq::<char>::empty(), Seq::<char>::empty(), false, remote_port as int),
{
    HttpConfig {
        remote_port: remote_port as i32,
        random_subdomain: false,
        domain: String::new(),
        subdomain: String::new(),
    }
}

/// An http config that asks the server to pick a random subdomain.
pub fn random_subdomain_config() -> (r: HttpConfig)
    ensures
        http_fields(r) == (Seq::<char>::empty(), Seq::<char>::empty(), true, 0int),
{
    HttpConfig {
        random_subdomain: true,
        domain: String::new(),
        remote_port: 0,
        subdomain: String::new(),
    }
}

/// An http config with every option unset, so that the server picks a
/// random port.
pub fn random_remote_port_config() -> (r: HttpConfig)
    ensures
        http_fields(r) == (Seq::<char>::empty(), Seq::<char>::empty(), false, 0int),
{
    HttpConfig {
        domain: String::new(),
        remote_port: 0,
        subdomain: String::new(),
        random_subdomain: false,
    }
}

/// The http options that a client sends are exclusive: at most one of
/// domain, subdomain, random subdomain and remote port is set.
pub proof fn lemma_http_options_exclusive(h: HttpRemoteConfig)
    ensures
        ({
            let (d, s, r, p) = spec_http_config(h);
            (if d.len() > 0 { 1int } else { 0int }) + (if s.len() > 0 { 1int } else { 0int }) + (if r {
                1int
            } else {
                0int
            }) + (if p != 0 { 1int } else { 0int }) <= 1
        }),
{
}

} // verus!
