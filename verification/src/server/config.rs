//! The server's configuration, and the entrypoints it announces to a client
//! whose tunnel is registered.
use vstd::prelude::*;

use std::ops::RangeInclusive;
use vstd::string::StringExecFns;

use crate::event::Payload;
use crate::ext::text::push_char;

verus! {

/// The configuration of the server.
#[derive(Debug)]
pub struct Config {
    /// the port of the control server, which clients connect to.
    pub control_port: u16,
    /// the port of the vhttp server, which serves every http tunnel routed by
    /// domain or subdomain.
    pub vhttp_port: u16,
    /// how the server is reached from outside.
    pub entrypoint: EntrypointConfig,
}

/// How users reach the server, and which ports it may hand out.
#[derive(Debug)]
pub struct EntrypointConfig {
    /// Domain names of the server, e.g. `tunnel.example.com`.
    pub domain: Vec<String>,
    /// The written IP addresses of the server, e.g. `127.0.0.1`.
    pub ip: Vec<String>,
    /// The vhttp server is behind a proxy that terminates TLS.
    pub vhttp_behind_proxy_tls: bool,
    /// The ports that tunnels may listen on.
    pub port_range: RangeInclusive<u16>,
    /// Ports of the range that tunnels may not listen on.
    pub exclude_ports: Vec<u16>,
}

/// The lowest port handed out by default.
pub const DEFAULT_MIN_PORT: u16 = 1024;

/// The highest port handed out by default.
pub const DEFAULT_MAX_PORT: u16 = 65535;

impl Default for EntrypointConfig {
    fn default() -> (r: Self)
        ensures
            r.domain@.len() == 0,
            r.ip@.len() == 0,
            !r.vhttp_behind_proxy_tls,
            r.port_range@.start == DEFAULT_MIN_PORT,
            r.port_range@.end == DEFAULT_MAX_PORT,
            !r.port_range@.exhausted,
            r.exclude_ports@.len() == 0,
    {
        EntrypointConfig {
            domain: Vec::new(),
            ip: Vec::new(),
            vhttp_behind_proxy_tls: false,
            port_range: RangeInclusive::new(DEFAULT_MIN_PORT, DEFAULT_MAX_PORT),
            exclude_ports: Vec::new(),
        }
    }
}

/// The character of a decimal digit.
pub open spec fn digit_char(d: nat) -> char {
    (48 + d) as char
}

/// The decimal form of a number, without leading zeros.
pub open spec fn decimal(n: nat) -> Seq<char>
    decreases n,
{
    if n < 10 {
        seq![digit_char(n)]
    } else {
        decimal(n / 10).push(digit_char(n % 10))
    }
}

/// Appends the decimal form of `n`.
pub fn push_decimal(s: &mut String, n: u16)
    ensures
        final(s)@ == old(s)@ + decimal(n as nat),
    decreases n,
{
    if n >= 10 {
        push_decimal(s, n / 10);
    }
    let d = (n % 10) as u8;
    push_char(s, (48u8 + d) as char);
    proof {
        assert(digit_char((n % 10) as nat) == (48u8 + d) as char);
    }
}

/// The scheme, hosts and port of the entrypoints of a tunnel.
pub struct PartsOfUri {
    pub scheme: &'static str,
    pub include_port: bool,
    pub port: u16,
    pub host: Vec<String>,
}

/// The parts of an entrypoint as plain values.
pub ghost struct UriParts {
    pub scheme: Seq<char>,
    pub include_port: bool,
    pub port: u16,
    pub hosts: Seq<Seq<char>>,
}

/// The written forms of a list of strings.
pub open spec fn texts(v: Seq<String>) -> Seq<Seq<char>> {
    v.map_values(|s: String| s@)
}

/// Adding a string adds its written form.
pub proof fn lemma_texts_push(v: Seq<String>, s: String)
    ensures
        texts(v.push(s)) == texts(v).push(s@),
{
    assert(texts(v.push(s)) =~= texts(v).push(s@));
}

/// A longer prefix of a sequence is the shorter one with the next element.
pub proof fn lemma_take_next<A>(v: Seq<A>, i: int)
    requires
        0 <= i < v.len(),
    ensures
        v.take(i + 1) == v.take(i).push(v[i]),
{
    assert(v.take(i + 1) =~= v.take(i).push(v[i]));
}

impl PartsOfUri {
    /// These parts as plain values.
    pub open spec fn parts(&self) -> UriParts {
        UriParts {
            scheme: self.scheme@,
            include_port: self.include_port,
            port: self.port,
            hosts: texts(self.host@),
        }
    }
}

/// The address `scheme://host`, with `:port` when the port is included.
pub open spec fn entrypoint_uri(scheme: Seq<char>, host: Seq<char>, include_port: bool, port: u16) -> Seq<
    char,
> {
    if include_port {
        scheme + "://"@ + host + seq![':'] + decimal(port as nat)
    } else {
        scheme + "://"@ + host
    }
}

/// One address per host.
pub open spec fn entrypoint_uris(p: UriParts) -> Seq<Seq<char>> {
    p.hosts.map_values(|h: Seq<char>| entrypoint_uri(p.scheme, h, p.include_port, p.port))
}

impl EntrypointConfig {
    /// Every address of the server: the IP addresses, then the domains.
    pub open spec fn hosts(&self) -> Seq<Seq<char>> {
        texts(self.ip@) + texts(self.domain@)
    }

    /// The scheme of tunnels routed by domain or subdomain.
    pub open spec fn vhttp_scheme(&self) -> Seq<char> {
        if self.vhttp_behind_proxy_tls {
            "https"@
        } else {
            "http"@
        }
    }

    /// The parts of the entrypoints of a tunnel registered for `payload`
    /// and served on `port`: tcp, udp and port-based http tunnels are
    /// reached on the port at every address of the server; an http tunnel
    /// with a domain at that domain; one with a subdomain at that
    /// subdomain of every domain of the server.
    pub open spec fn uri_parts(&self, payload: Payload, port: u16) -> UriParts {
        match payload {
            Payload::RegisterTcp { .. } => UriParts {
                scheme: "tcp"@,
                include_port: true,
                port,
                hosts: self.hosts(),
            },
            Payload::RegisterUdp { .. } => UriParts {
                scheme: "udp"@,
                include_port: true,
                port,
                hosts: self.hosts(),
            },
            Payload::RegisterHttp { subdomain, domain, .. } => if domain@.len() > 0 {
                UriParts {
                    scheme: self.vhttp_scheme(),
                    include_port: false,
                    port: 0,
                    hosts: seq![domain@],
                }
            } else if subdomain@.len() > 0 {
                UriParts {
                    scheme: self.vhttp_scheme(),
                    include_port: false,
                    port: 0,
                    hosts: texts(self.domain@).map_values(
                        |d: Seq<char>| subdomain@ + seq!['.'] + d,
                    ),
                }
            } else {
                UriParts { scheme: "http"@, include_port: true, port, hosts: self.hosts() }
            },
        }
    }

    /// The entrypoints of a tunnel registered for `payload`, served on `port`.
    pub fn make_entrypoint(&self, payload: &Payload, port: u16) -> (r: Vec<String>)
        ensures
            texts(r@) == entrypoint_uris(self.uri_parts(*payload, port)),
    {
        let uri_parts = self.get_uri_parts(payload, port);
        let mut entrypoints: Vec<String> = Vec::new();
        let mut i: usize = 0;
        while i < uri_parts.host.len()
            invariant
                0 <= i <= uri_parts.host@.len(),
                uri_parts.parts() == self.uri_parts(*payload, port),
                texts(entrypoints@) == entrypoint_uris(uri_parts.parts()).take(i as int),
            decreases uri_parts.host.len() - i,
        {
            let host = &uri_parts.host[i];
            let mut entrypoint = String::new();
            entrypoint.append(uri_parts.scheme);
            entrypoint.append("://");
            entrypoint.append(host.as_str());
            if uri_parts.include_port {
                push_char(&mut entrypoint, ':');
                push_decimal(&mut entrypoint, uri_parts.port);
                proof {
                    assert(entrypoint@ =~= uri_parts.scheme@ + "://"@ + host@ + seq![':'] + decimal(
                        uri_parts.port as nat,
                    ));
                }
            }
            proof {
                assert(entrypoint@ == entrypoint_uri(
                    uri_parts.scheme@,
                    host@,
                    uri_parts.include_port,
                    uri_parts.port,
                ));
                assert(texts(uri_parts.host@)[i as int] == host@);
                assert(entrypoint_uris(uri_parts.parts())[i as int] == entrypoint@);
            }
            let ghost before = entrypoints@;
            entrypoints.push(entrypoint);
            proof {
                lemma_texts_push(before, entrypoint);
                lemma_take_next(entrypoint_uris(uri_parts.parts()), i as int);
            }
            i = i + 1;
        }
        proof {
            assert(entrypoint_uris(uri_parts.parts()).take(uri_parts.host@.len() as int)
                =~= entrypoint_uris(uri_parts.parts()));
        }
        entrypoints
    }

    /// The scheme, hosts and port of the entrypoints of a tunnel registered
    /// for `payload`, served on `port`.
    pub fn get_uri_parts(&self, payload: &Payload, port: u16) -> (r: PartsOfUri)
        ensures
            r.parts() == self.uri_parts(*payload, port),
    {
        match payload {
            Payload::RegisterTcp { .. } => self.make_entrypoint_with_schema_and_port("tcp", port),
            Payload::RegisterUdp { .. } => self.make_entrypoint_with_schema_and_port("udp", port),
            Payload::RegisterHttp { subdomain, domain, .. } => {
                if !domain.as_str().is_empty() || !subdomain.as_str().is_empty() {
                    let scheme = if self.vhttp_behind_proxy_tls {
                        "https"
                    } else {
                        "http"
                    };
                    if !domain.as_str().is_empty() {
                        let mut host: Vec<String> = Vec::new();
                        host.push(domain.clone());
                        proof {
                            assert(texts(host@) =~= seq![domain@]);
                        }
                        PartsOfUri { scheme, include_port: false, port: 0, host }
                    } else {
                        let mut host: Vec<String> = Vec::new();
                        let mut i: usize = 0;
                        while i < self.domain.len()
                            invariant
                                0 <= i <= self.domain@.len(),
                                domain@.len() == 0,
                                subdomain@.len() > 0,
                                texts(host@) == texts(self.domain@).take(i as int).map_values(
                                    |d: Seq<char>| subdomain@ + seq!['.'] + d,
                                ),
                            decreases self.domain.len() - i,
                        {
                            let mut name = subdomain.clone();
                            push_char(&mut name, '.');
                            name.append(self.domain[i].as_str());
                            proof {
                                assert(name@ =~= subdomain@ + seq!['.'] + self.domain@[i as int]@);
                                assert(texts(self.domain@)[i as int] == self.domain@[i as int]@);
                            }
                            let ghost before = host@;
                            host.push(name);
                            proof {
                                lemma_texts_push(before, name);
                                lemma_take_next(texts(self.domain@), i as int);
                                assert(texts(host@) =~= texts(self.domain@).take(i + 1).map_values(
                                    |d: Seq<char>| subdomain@ + seq!['.'] + d,
                                ));
                            }
                            i = i + 1;
                        }
                        proof {
                            assert(texts(self.domain@).take(self.domain@.len() as int) =~= texts(
                                self.domain@,
                            ));
                        }
                        PartsOfUri { scheme, include_port: false, port: 0, host }
                    }
                } else {
                    self.make_entrypoint_with_schema_and_port("http", port)
                }
            },
        }
    }

    /// The parts of entrypoints reached on `port` at every address of the
    /// server, with scheme `schema`.
    pub fn make_entrypoint_with_schema_and_port(&self, schema: &'static str, port: u16) -> (r:
        PartsOfUri)
        ensures
            r.parts() == (UriParts { scheme: schema@, include_port: true, port, hosts: self.hosts() }),
    {
        let mut host: Vec<String> = Vec::new();
        let mut i: usize = 0;
        while i < self.ip.len()
            invariant
                0 <= i <= self.ip@.len(),
                texts(host@) == texts(self.ip@).take(i as int),
            decreases self.ip.len() - i,
        {
            let ghost before = host@;
            host.push(self.ip[i].clone());
            proof {
                lemma_texts_push(before, self.ip@[i as int]);
                lemma_take_next(texts(self.ip@), i as int);
            }
            i = i + 1;
        }
        let mut j: usize = 0;
        while j < self.domain.len()
            invariant
                0 <= j <= self.domain@.len(),
                texts(host@) == texts(self.ip@) + texts(self.domain@).take(j as int),
            decreases self.domain.len() - j,
        {
            let ghost before = host@;
            host.push(self.domain[j].clone());
            proof {
                lemma_texts_push(before, self.domain@[j as int]);
                lemma_take_next(texts(self.domain@), j as int);
                assert(texts(host@) =~= texts(self.ip@) + texts(self.domain@).take(j + 1));
            }
            j = j + 1;
        }
        proof {
            assert(texts(self.ip@).take(self.ip@.len() as int) =~= texts(self.ip@));
            assert(texts(self.domain@).take(self.domain@.len() as int) =~= texts(self.domain@));
        }
        PartsOfUri { scheme: schema, include_port: true, port, host }
    }
}

/// A tcp or udp tunnel is announced once per address of the server, IP
/// addresses first, each time with the tunnel's port.
pub proof fn lemma_port_tunnels_announced_everywhere(cfg: EntrypointConfig, payload: Payload, port: u16, i: int)
    requires
        payload is RegisterTcp || payload is RegisterUdp,
    ensures
        entrypoint_uris(cfg.uri_parts(payload, port)).len() == cfg.ip@.len() + cfg.domain@.len(),
        0 <= i < cfg.hosts().len() ==> entrypoint_uris(cfg.uri_parts(payload, port))[i] == entrypoint_uri(
            if payload is RegisterTcp {
                "tcp"@
            } else {
                "udp"@
            },
            cfg.hosts()[i],
            true,
            port,
        ),
{
}

/// An http tunnel with a domain is announced exactly once, at that domain
/// and without a port.
pub proof fn lemma_domain_tunnel_announced_once(
    cfg: EntrypointConfig,
    payload: Payload,
    port: u16,
)
    requires
        payload matches Payload::RegisterHttp { domain, .. } && domain@.len() > 0,
    ensures
        entrypoint_uris(cfg.uri_parts(payload, port)) == seq![
            cfg.vhttp_scheme() + "://"@ + payload->domain@,
        ],
{
    assert(entrypoint_uris(cfg.uri_parts(payload, port)) =~= seq![
        cfg.vhttp_scheme() + "://"@ + payload->domain@,
    ]);
}

/// An http tunnel with a subdomain (and no domain) is announced once under
/// each domain of the server, and not at all when the server has none.
pub proof fn lemma_subdomain_tunnel_announced_per_domain(
    cfg: EntrypointConfig,
    payload: Payload,
    port: u16,
    i: int,
)
    requires
        payload matches Payload::RegisterHttp { domain, subdomain, .. } && domain@.len() == 0
            && subdomain@.len() > 0,
    ensures
        entrypoint_uris(cfg.uri_parts(payload, port)).len() == cfg.domain@.len(),
        0 <= i < cfg.domain@.len() ==> entrypoint_uris(cfg.uri_parts(payload, port))[i]
            == cfg.vhttp_scheme() + "://"@ + payload->subdomain@ + seq!['.'] + cfg.domain@[i]@,
{
}

} // verus!
