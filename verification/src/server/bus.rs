//! The decisions of the tunneld server: a server whose registrations name
//! the kind of their tunnel, which routes http tunnels by subdomain before
//! domain, has no udp tunnels and draws no random routes, and whose traffic
//! streams end only on a second start.
use vstd::prelude::*;

use crate::pb::{tunnel, RegisterReq, Tunnel};
use crate::server::control::{data_step_spec, data_step_view, DataAction, DataStep};
use crate::server::registry::{DynamicRegistry, Routes};
use crate::status::{Code, Status};

verus! {

/// The kind of tunnel that a registration names.
#[derive(Clone, Copy, Debug, PartialEq, Eq, Structural)]
pub enum TunnelKind {
    Tcp,
    Http,
}

/// What a registration asks of the event bus.
#[derive(Debug)]
pub enum BusPayload {
    /// A tcp listener on `port`.
    RegisterTcp { port: u16 },
    /// An http route: by subdomain, else by domain, else a listener on
    /// `port`.
    RegisterHttp { port: u16, subdomain: String, domain: String },
}

/// Why a registration of `kind` is refused, if it is: the message of the
/// refusal.
pub open spec fn bus_refusal(kind: TunnelKind, req: RegisterReq) -> Option<Seq<char>> {
    match req.tunnel {
        None => Some("tunnel is required"@),
        Some(t) => match t.config {
            None => Some("config is required"@),
            Some(c) => match kind {
                TunnelKind::Tcp => match c {
                    tunnel::Config::Tcp(tcp) => if tcp.remote_port == 0 {
                        Some("remote_port is required"@)
                    } else {
                        None
                    },
                    _ => Some("tcp is required"@),
                },
                TunnelKind::Http => match c {
                    tunnel::Config::Http(h) => if h.remote_port == 0 || h.subdomain@.len() == 0
                        || h.domain@.len() == 0 {
                        Some("at least remote_port, subdomain and domain is required"@)
                    } else {
                        None
                    },
                    _ => Some("http is required"@),
                },
            },
        },
    }
}

/// An http registration on the tunneld server needs all of a remote port,
/// a subdomain and a domain: it is refused, with one message, exactly when
/// one of them is missing, and a tcp one exactly when its remote port is.
pub proof fn lemma_bus_registration_needs_every_field(req: RegisterReq, t: Tunnel, c: tunnel::Config)
    requires
        req.tunnel == Some(t),
        t.config == Some(c),
    ensures
        c matches tunnel::Config::Http(h) ==> ((bus_refusal(TunnelKind::Http, req) is Some) <==> (
        h.remote_port == 0 || h.subdomain@.len() == 0 || h.domain@.len() == 0)),
        c matches tunnel::Config::Http(h) && h.domain@.len() == 0 ==> bus_refusal(
            TunnelKind::Http,
            req,
        ) == Some("at least remote_port, subdomain and domain is required"@),
        c matches tunnel::Config::Tcp(tcp) ==> ((bus_refusal(TunnelKind::Tcp, req) is Some) <==> (
        tcp.remote_port == 0)),
        !(c is Http) ==> bus_refusal(TunnelKind::Http, req) == Some("http is required"@),
        !(c is Tcp) ==> bus_refusal(TunnelKind::Tcp, req) == Some("tcp is required"@),
{
}

/// `p` asks for what the tunnel config `c` asks for, ports cut to 16 bits.
pub open spec fn bus_payload_of(p: BusPayload, c: tunnel::Config) -> bool {
    match (p, c) {
        (BusPayload::RegisterTcp { port }, tunnel::Config::Tcp(t)) => port == t.remote_port as u16,
        (BusPayload::RegisterHttp { port, subdomain, domain }, tunnel::Config::Http(h)) => port
            == h.remote_port as u16 && subdomain@ == h.subdomain@ && domain@ == h.domain@,
        _ => false,
    }
}

/// Checks a registration of `kind` and gives what it asks of the event bus:
/// a tcp tunnel needs its remote port; an http tunnel needs a remote port, a
/// subdomain and a domain; the config must be of the kind named.
pub fn bus_register_request(kind: TunnelKind, req: &RegisterReq) -> (r: Result<BusPayload, Status>)
    ensures
        match bus_refusal(kind, *req) {
            Some(m) => r matches Err(s) && s.code == Code::InvalidArgument && s.message@ == m,
            None => r matches Ok(p) && req.tunnel matches Some(t) && t.config matches Some(c)
                && bus_payload_of(p, c),
        },
{
    let t = match &req.tunnel {
        None => return Err(Status::invalid_argument("tunnel is required")),
        Some(t) => t,
    };
    let c = match &t.config {
        None => return Err(Status::invalid_argument("config is required")),
        Some(c) => c,
    };
    match kind {
        TunnelKind::Tcp => match c {
            tunnel::Config::Tcp(tcp) => {
                if tcp.remote_port == 0 {
                    Err(Status::invalid_argument("remote_port is required"))
                } else {
                    Ok(BusPayload::RegisterTcp { port: tcp.remote_port as u16 })
                }
            },
            _ => Err(Status::invalid_argument("tcp is required")),
        },
        TunnelKind::Http => match c {
            tunnel::Config::Http(h) => {
                if h.remote_port == 0 || h.subdomain.as_str().is_empty()
                    || h.domain.as_str().is_empty() {
                    Err(
                        Status::invalid_argument(
                            "at least remote_port, subdomain and domain is required",
                        ),
                    )
                } else {
                    Ok(
                        BusPayload::RegisterHttp {
                            port: h.remote_port as u16,
                            subdomain: h.subdomain.clone(),
                            domain: h.domain.clone(),
                        },
                    )
                }
            },
            _ => Err(Status::invalid_argument("http is required")),
        },
    }
}

/// How the event bus routes an http tunnel.
#[derive(Debug)]
pub enum BusRoute {
    /// The tunnel is reached through the vhttp server.
    Routed,
    /// The tunnel needs a listener of its own on this port.
    NeedsListener(u16),
    /// The registration is refused.
    Failed(Status),
}

/// Routes an http tunnel served by `handle`: with neither port, subdomain
/// nor domain it is refused; a subdomain is routed first, else a domain, a
/// name routed already being refused; else the tunnel listens on `port`.
pub fn bus_register_http(
    registry: &mut DynamicRegistry,
    port: u16,
    subdomain: &[u8],
    domain: &[u8],
    handle: u64,
) -> (r: BusRoute)
    ensures
        port == 0 && subdomain@.len() == 0 && domain@.len() == 0 ==> (r matches BusRoute::Failed(s)
            && s.code == Code::InvalidArgument && s.message@ == "invalid http tunnel arguments"@)
            && final(registry)@ == old(registry)@,
        subdomain@.len() > 0 ==> if old(registry)@.subdomains.contains_key(subdomain@) {
            &&& r matches BusRoute::Failed(s)
            &&& s.code == Code::AlreadyExists
            &&& s.message@ == "subdomain already registered"@
            &&& final(registry)@ == old(registry)@
        } else {
            &&& r is Routed
            &&& final(registry)@ == (Routes {
                subdomains: old(registry)@.subdomains.insert(subdomain@, handle),
                ..old(registry)@
            })
        },
        subdomain@.len() == 0 && domain@.len() > 0 ==> if old(registry)@.domains.contains_key(
            domain@,
        ) {
            &&& r matches BusRoute::Failed(s)
            &&& s.code == Code::AlreadyExists
            &&& s.message@ == "domain already registered"@
            &&& final(registry)@ == old(registry)@
        } else {
            &&& r is Routed
            &&& final(registry)@ == (Routes {
                domains: old(registry)@.domains.insert(domain@, handle),
                ..old(registry)@
            })
        },
        subdomain@.len() == 0 && domain@.len() == 0 && port != 0 ==> r == BusRoute::NeedsListener(
            port,
        ) && final(registry)@ == old(registry)@,
{
    if port == 0 && subdomain.len() == 0 && domain.len() == 0 {
        return BusRoute::Failed(Status::invalid_argument("invalid http tunnel arguments"));
    }
    if subdomain.len() > 0 {
        if registry.subdomain_registered(subdomain) {
            return BusRoute::Failed(Status::already_exists("subdomain already registered"));
        }
        registry.register_subdomain(vstd::slice::slice_to_vec(subdomain), handle);
        return BusRoute::Routed;
    }
    if domain.len() > 0 {
        if registry.domain_registered(domain) {
            return BusRoute::Failed(Status::already_exists("domain already registered"));
        }
        registry.register_domain(vstd::slice::slice_to_vec(domain), handle);
        return BusRoute::Routed;
    }
    BusRoute::NeedsListener(port)
}

/// On the tunneld server a traffic stream ends only on a second start: a
/// finished or closed connection keeps the stream open.
pub open spec fn bus_ends_stream(d: DataStep) -> bool {
    d is DuplicateStart
}

/// Whether the tunneld server stops reading a traffic stream after the
/// decision `action` (of the step shared with the castled server).
pub fn bus_stream_ends(action: &DataAction) -> (r: bool)
    ensures
        r == bus_ends_stream(data_step_view(*action)),
{
    match action {
        DataAction::DuplicateStart => true,
        _ => false,
    }
}

/// The decisions of the tunneld server on the messages `(action, data)` of a
/// stream, in order, up to and including the one that ends it.
pub open spec fn bus_data_run(started: bool, msgs: Seq<(int, Seq<u8>)>) -> Seq<DataStep>
    decreases msgs.len(),
{
    if msgs.len() == 0 {
        Seq::empty()
    } else {
        let (next, d) = data_step_spec(started, msgs[0].0, msgs[0].1);
        if bus_ends_stream(d) {
            seq![d]
        } else {
            seq![d] + bus_data_run(next, msgs.drop_first())
        }
    }
}

/// On the tunneld server, a stream that started and gets no second start
/// has every one of its messages handled, each by the step on it alone:
/// a finish or a close does not stop the reading.
pub proof fn lemma_bus_stream_reads_everything(msgs: Seq<(int, Seq<u8>)>)
    requires
        forall|i: int| 0 <= i < msgs.len() ==> (#[trigger] msgs[i]).0 != 0,
    ensures
        bus_data_run(true, msgs).len() == msgs.len(),
        forall|i: int|
            0 <= i < msgs.len() ==> #[trigger] bus_data_run(true, msgs)[i] == data_step_spec(
                true,
                msgs[i].0,
                msgs[i].1,
            ).1,
    decreases msgs.len(),
{
    if msgs.len() > 0 {
        let tail = msgs.drop_first();
        assert forall|i: int| 0 <= i < tail.len() implies (#[trigger] tail[i]).0 != 0 by {
            assert(tail[i] == msgs[i + 1]);
        }
        lemma_bus_stream_reads_everything(tail);
        let run = bus_data_run(true, msgs);
        assert(msgs[0].0 != 0);
        assert forall|i: int| 0 <= i < msgs.len() implies #[trigger] run[i] == data_step_spec(
            true,
            msgs[i].0,
            msgs[i].1,
        ).1 by {
            if i > 0 {
                assert(run[i] == bus_data_run(true, tail)[i - 1]);
                assert(tail[i - 1] == msgs[i]);
            }
        }
    }
}

} // verus!
