//! Decisions of the data server: which port a tunnel listens on, how an
//! http tunnel is routed, and what the client is answered.
use vstd::prelude::*;

use rand::rngs::StdRng;

use crate::event::{ClientEventResponse, Payload};
use crate::ext::random::random_below;
use crate::ext::range::{range_end, range_is_empty, range_start};
use crate::ext::text::push_char;
use crate::server::config::{texts, entrypoint_uris, EntrypointConfig};
use crate::server::port::{Available, PortManager, PortPool};
use crate::server::registry::{DynamicRegistry, Routes};
use crate::status::{Code, Status};
use vstd::string::StringSliceAdditionalSpecFns;
use vstd::utf8::encode_utf8;

verus! {

/// The most random ports tried for one tunnel before giving up.
pub const MAX_PORT_ATTEMPTS: u32 = 150;

/// The characters of a random subdomain.
pub open spec fn subdomain_charset() -> Seq<char> {
    "abcdefghijklmnopqrstuvwxyz0123456789"@
}

/// `c` may appear in a random subdomain: a lower case letter or a digit.
pub open spec fn subdomain_char(c: char) -> bool {
    ('a' <= c && c <= 'z') || ('0' <= c && c <= '9')
}

/// The character at `idx` of the subdomain character set.
pub fn charset_char(idx: usize) -> (c: char)
    requires
        idx < 36,
    ensures
        c == subdomain_charset()[idx as int],
        subdomain_char(c),
{
    proof {
        reveal_strlit("abcdefghijklmnopqrstuvwxyz0123456789");
    }
    if idx < 26 {
        let c = (97u8 + idx as u8) as char;
        c
    } else {
        let c = (48u8 + (idx - 26) as u8) as char;
        c
    }
}

/// The characters of the subdomain character set are pairwise distinct:
/// the `i`-th is the `i`-th lower case letter for `i` below 26, and the
/// digit `i - 26` after.
pub proof fn lemma_charset_letters(i: int, j: int)
    requires
        0 <= i < 36,
        0 <= j < 36,
    ensures
        subdomain_charset().len() == 36,
        subdomain_charset()[i] as int == if i < 26 {
            'a' as int + i
        } else {
            '0' as int + (i - 26)
        },
        i != j ==> subdomain_charset()[i] != subdomain_charset()[j],
{
    reveal_strlit("abcdefghijklmnopqrstuvwxyz0123456789");
}

/// The subdomain made of the drawn indices `draws` into the subdomain
/// character set: the character at each place is the one at the index drawn
/// for it, so different draws at a place give different characters.
pub fn subdomain_from_draws(draws: &Vec<usize>) -> (r: String)
    requires
        forall|k: int| 0 <= k < draws@.len() ==> #[trigger] draws@[k] < 36,
    ensures
        r@.len() == draws@.len(),
        forall|k: int| 0 <= k < draws@.len() ==> #[trigger] r@[k] == subdomain_charset()[draws@[k] as int],
{
    let mut subdomain = String::new();
    let mut i: usize = 0;
    while i < draws.len()
        invariant
            0 <= i <= draws@.len(),
            forall|k: int| 0 <= k < draws@.len() ==> #[trigger] draws@[k] < 36,
            subdomain@.len() == i,
            forall|k: int| 0 <= k < i ==> #[trigger] subdomain@[k] == subdomain_charset()[draws@[k] as int],
        decreases draws.len() - i,
    {
        let c = charset_char(draws[i]);
        let ghost before = subdomain@;
        push_char(&mut subdomain, c);
        proof {
            assert forall|k: int| 0 <= k < i + 1 implies #[trigger] subdomain@[k] == subdomain_charset()[draws@[k] as int] by {
                if k < i {
                    assert(subdomain@[k] == before[k]);
                }
            }
        }
        i = i + 1;
    }
    subdomain
}

/// The first port to try for a tunnel: the requested one when it is not
/// zero, else a random free one.
pub fn reserve_port(port_manager: &mut PortManager, port: u16) -> (r: Result<Available, Status>)
    requires
        old(port_manager)@.well_formed(),
    ensures
        final(port_manager)@.well_formed(),
        port > 0 && !old(port_manager)@.allows(port) ==> (r matches Err(s) && s.code
            == Code::InvalidArgument && s.message@
            == "port is not in the allowed range or is excluded"@) && final(port_manager)@ == old(
            port_manager,
        )@,
        port > 0 && old(port_manager)@.allows(port) && !old(port_manager)@.available.contains(port)
            ==> (r matches Err(s) && s.code == Code::AlreadyExists && s.message@
            == "port is already in use"@) && final(port_manager)@ == old(port_manager)@,
        port > 0 && old(port_manager)@.available.contains(port) ==> (r matches Ok(a)
            && a.port_of() == port && a.returns_to_pool()) && final(port_manager)@ == old(
            port_manager,
        )@.without(port),
        port == 0 && old(port_manager)@.available =~= Set::<u16>::empty() ==> (r matches Err(s)
            && s.code == Code::ResourceExhausted && s.message@ == "no available port"@),
        port == 0 && !(old(port_manager)@.available =~= Set::<u16>::empty()) ==> (r matches Ok(a)
            && old(port_manager)@.available.contains(a.port_of()) && a.returns_to_pool()
            && final(port_manager)@ == old(port_manager)@.without(a.port_of())),
{
    if port > 0 {
        if !port_manager.allow(port) {
            return Err(Status::invalid_argument("port is not in the allowed range or is excluded"));
        }
        match port_manager.take(port) {
            None => Err(Status::already_exists("port is already in use")),
            Some(available) => Ok(available),
        }
    } else {
        match port_manager.get() {
            None => Err(Status::resource_exhausted("no available port")),
            Some(available) => Ok(available),
        }
    }
}

/// A port that could not be bound: it is marked unavailable, so that it
/// never goes back to the pool.
pub fn discard_port(port_manager: &mut PortManager, available: Available)
    requires
        old(port_manager)@.well_formed(),
        old(port_manager)@.allows(available.port_of()),
    ensures
        final(port_manager)@ == old(port_manager)@,
{
    let mut available = available;
    available.unavailable();
    port_manager.release(available);
}

/// The next random port to try after `failed` ports could not be bound:
/// the search gives up after `MAX_PORT_ATTEMPTS` ports or when no port is
/// free.
pub fn next_random_port(port_manager: &mut PortManager, failed: u32) -> (r: Result<
    Available,
    Status,
>)
    requires
        old(port_manager)@.well_formed(),
    ensures
        final(port_manager)@.well_formed(),
        failed >= MAX_PORT_ATTEMPTS || old(port_manager)@.available =~= Set::<u16>::empty() ==> (
        r matches Err(s) && s.code == Code::ResourceExhausted && s.message@
            == "no available port"@),
        failed >= MAX_PORT_ATTEMPTS ==> final(port_manager)@ == old(port_manager)@,
        failed < MAX_PORT_ATTEMPTS && !(old(port_manager)@.available =~= Set::<u16>::empty())
            ==> (r matches Ok(a) && old(port_manager)@.available.contains(a.port_of())
            && a.returns_to_pool() && final(port_manager)@ == old(port_manager)@.without(
            a.port_of(),
        )),
{
    if failed >= MAX_PORT_ATTEMPTS {
        return Err(Status::resource_exhausted("no available port"));
    }
    reserve_port(port_manager, 0)
}

/// How an http tunnel is routed.
#[derive(Debug)]
pub enum HttpRoute {
    /// The tunnel is reached through the vhttp server, by its domain or
    /// subdomain.
    Routed,
    /// The tunnel needs a listener of its own, on the requested port or a
    /// random one.
    NeedsListener,
    /// The route is taken.
    Failed(Status),
    /// The random subdomain drawn is routed already: nothing changed, and a
    /// new subdomain is to be drawn.
    SubdomainTaken,
}

/// The data server: the routing table of the vhttp server, the port pool,
/// and how the server is reached.
pub struct DataServer {
    vhttp_port: u16,
    http_registry: DynamicRegistry,
    entrypoint_config: EntrypointConfig,
    port_manager: PortManager,
}

impl DataServer {
    /// A data server without routes whose port pool holds the ports of the
    /// configured range that are not excluded; a range iterated to its end
    /// gives no port.
    pub fn new(vhttp_port: u16, entrypoint_config: EntrypointConfig) -> (r: Self)
        ensures
            r.wf(),
            r.vhttp_port() == vhttp_port,
            *r.config() == entrypoint_config,
            r.routes().domains.dom() == Set::<Seq<u8>>::empty(),
            r.routes().subdomains.dom() == Set::<Seq<u8>>::empty(),
            r.ports().min == entrypoint_config.port_range@.start,
            r.ports().max == entrypoint_config.port_range@.end,
            r.ports().excluded == entrypoint_config.exclude_ports@.to_set(),
            forall|p: u16|
                #[trigger] r.ports().available.contains(p) <==> (
                !entrypoint_config.port_range@.exhausted && r.ports().allows(p)),
    {
        let http_registry = DynamicRegistry::new();
        let range = &entrypoint_config.port_range;
        let port_manager = PortManager::with_bounds(
            range_start(range),
            range_end(range),
            !range_is_empty(range),
            entrypoint_config.exclude_ports.clone(),
        );
        Self { vhttp_port, http_registry, port_manager, entrypoint_config }
    }

    /// The port of the vhttp server.
    pub closed spec fn vhttp_port(&self) -> u16 {
        self.vhttp_port
    }

    /// The routes of the vhttp server.
    pub closed spec fn routes(&self) -> Routes {
        self.http_registry@
    }

    /// The state of the port pool.
    pub closed spec fn ports(&self) -> PortPool {
        self.port_manager@
    }

    /// The configuration of the entrypoints.
    pub closed spec fn config(&self) -> &EntrypointConfig {
        &self.entrypoint_config
    }

    /// The port pool is well formed.
    pub open spec fn wf(&self) -> bool {
        self.ports().well_formed()
    }

    /// The port of the vhttp server.
    pub fn get_vhttp_port(&self) -> (r: u16)
        ensures
            r == self.vhttp_port(),
    {
        self.vhttp_port
    }

    /// The routing table of the vhttp server.
    pub fn http_registry(&self) -> (r: &DynamicRegistry)
        ensures
            r@ == self.routes(),
    {
        &self.http_registry
    }

    /// The configuration of the entrypoints.
    pub fn entrypoint_config(&self) -> (r: &EntrypointConfig)
        ensures
            r == self.config(),
    {
        &self.entrypoint_config
    }

    /// The port pool.
    pub fn port_manager(&mut self) -> (r: &mut PortManager)
        ensures
            r@ == old(self).ports(),
            final(self).ports() == final(r)@,
            final(self).routes() == old(self).routes(),
            final(self).config() == old(self).config(),
            final(self).vhttp_port() == old(self).vhttp_port(),
    {
        &mut self.port_manager
    }
}

impl DataServer {
    /// A random subdomain of `length` characters of the subdomain character
    /// set; which ones is left to `rng`.
    pub fn generate_random_subdomain(&self, length: usize, rng: &mut StdRng) -> (r: String)
        ensures
            r@.len() == length,
            forall|i: int| 0 <= i < length ==> subdomain_charset().contains(#[trigger] r@[i]),
            forall|i: int| 0 <= i < length ==> subdomain_char(#[trigger] r@[i]),
    {
        let mut draws: Vec<usize> = Vec::new();
        let mut i: usize = 0;
        while i < length
            invariant
                0 <= i <= length,
                draws@.len() == i,
                forall|k: int| 0 <= k < i ==> #[trigger] draws@[k] < 36,
            decreases length - i,
        {
            draws.push(random_below(rng, 36));
            i = i + 1;
        }
        let subdomain = subdomain_from_draws(&draws);
        proof {
            reveal_strlit("abcdefghijklmnopqrstuvwxyz0123456789");
            assert forall|k: int| 0 <= k < length implies subdomain_charset().contains(
                #[trigger] subdomain@[k],
            ) by {
                assert(subdomain@[k] == subdomain_charset()[draws@[k] as int]);
            }
        }
        subdomain
    }

    /// Routes the random subdomain `candidate` drawn for the tunnel served by
    /// `handle`: when it is free it is routed; when it is routed already
    /// nothing changes and the caller draws again.
    pub fn route_drawn_subdomain(&mut self, candidate: &str, handle: u64) -> (r: HttpRoute)
        requires
            old(self).wf(),
        ensures
            final(self).wf(),
            final(self).ports() == old(self).ports(),
            final(self).config() == old(self).config(),
            final(self).vhttp_port() == old(self).vhttp_port(),
            if old(self).routes().subdomains.contains_key(encode_utf8(candidate@)) {
                &&& r is SubdomainTaken
                &&& final(self).routes() == old(self).routes()
            } else {
                &&& r is Routed
                &&& final(self).routes() == (Routes {
                    subdomains: old(self).routes().subdomains.insert(encode_utf8(candidate@), handle),
                    ..old(self).routes()
                })
            },
    {
        let key = candidate.as_bytes();
        if self.http_registry.subdomain_registered(key) {
            return HttpRoute::SubdomainTaken;
        }
        self.http_registry.register_subdomain(vstd::slice::slice_to_vec(key), handle);
        HttpRoute::Routed
    }

    /// Routes an http tunnel served by `handle`. A domain is routed as it
    /// is; otherwise a given subdomain is routed; otherwise, when one is
    /// asked for, one random subdomain is drawn and routed if free, and
    /// `SubdomainTaken` tells the caller to draw again. A domain or subdomain
    /// routed already is refused. Without any the tunnel needs a listener of
    /// its own. `subdomain` ends up as the subdomain given or drawn.
    pub fn register_http(
        &mut self,
        domain: &str,
        subdomain: &mut String,
        random_subdomain: bool,
        handle: u64,
        rng: &mut StdRng,
    ) -> (r: HttpRoute)
        requires
            old(self).wf(),
        ensures
            final(self).wf(),
            final(self).ports() == old(self).ports(),
            final(self).config() == old(self).config(),
            final(self).vhttp_port() == old(self).vhttp_port(),
            domain@.len() > 0 ==> *final(subdomain) == *old(subdomain) && if old(self).routes().domains.contains_key(domain.spec_bytes()) {
                &&& r matches HttpRoute::Failed(s)
                &&& s.code == Code::AlreadyExists
                &&& s.message@ == "domain already registered"@
                &&& final(self).routes() == old(self).routes()
            } else {
                &&& r is Routed
                &&& final(self).routes() == (Routes {
                    domains: old(self).routes().domains.insert(domain.spec_bytes(), handle),
                    ..old(self).routes()
                })
            },
            domain@.len() == 0 && (old(subdomain)@.len() > 0 || !random_subdomain)
                ==> *final(subdomain) == *old(subdomain),
            domain@.len() == 0 && old(subdomain)@.len() == 0 && random_subdomain ==> ({
                &&& final(subdomain)@.len() == 8
                &&& forall|i: int| 0 <= i < 8 ==> subdomain_charset().contains(#[trigger] final(subdomain)@[i])
                &&& if old(self).routes().subdomains.contains_key(encode_utf8(final(subdomain)@)) {
                    &&& r is SubdomainTaken
                    &&& final(self).routes() == old(self).routes()
                } else {
                    &&& r is Routed
                    &&& final(self).routes() == (Routes {
                        subdomains: old(self).routes().subdomains.insert(
                            encode_utf8(final(subdomain)@),
                            handle,
                        ),
                        ..old(self).routes()
                    })
                }
            }),
            domain@.len() == 0 && old(subdomain)@.len() > 0 ==> if old(self).routes().subdomains.contains_key(
                encode_utf8(old(subdomain)@),
            ) {
                &&& r matches HttpRoute::Failed(s)
                &&& s.code == Code::AlreadyExists
                &&& s.message@ == "subdomain already registered"@
                &&& final(self).routes() == old(self).routes()
            } else {
                &&& r is Routed
                &&& final(self).routes() == (Routes {
                    subdomains: old(self).routes().subdomains.insert(
                        encode_utf8(old(subdomain)@),
                        handle,
                    ),
                    ..old(self).routes()
                })
            },
            domain@.len() == 0 && old(subdomain)@.len() == 0 && !random_subdomain ==> r is NeedsListener
                && final(self).routes() == old(self).routes(),
    {
        if !domain.is_empty() {
            let key = domain.as_bytes();
            if self.http_registry.domain_registered(key) {
                return HttpRoute::Failed(Status::already_exists("domain already registered"));
            }
            self.http_registry.register_domain(vstd::slice::slice_to_vec(key), handle);
            return HttpRoute::Routed;
        }
        if subdomain.as_str().is_empty() && random_subdomain {
            let candidate = self.generate_random_subdomain(8, rng);
            let r = self.route_drawn_subdomain(candidate.as_str(), handle);
            *subdomain = candidate;
            return r;
        }
        if !subdomain.as_str().is_empty() {
            let key = subdomain.as_str().as_bytes();
            if self.http_registry.subdomain_registered(key) {
                return HttpRoute::Failed(Status::already_exists("subdomain already registered"));
            }
            self.http_registry.register_subdomain(vstd::slice::slice_to_vec(key), handle);
            return HttpRoute::Routed;
        }
        HttpRoute::NeedsListener
    }

    /// Drops the routes of an http tunnel whose client left.
    pub fn unregister_http(&mut self, domain: &str, subdomain: &str)
        ensures
            final(self).wf() == old(self).wf(),
            final(self).ports() == old(self).ports(),
            final(self).config() == old(self).config(),
            final(self).vhttp_port() == old(self).vhttp_port(),
            final(self).routes().domains == (if domain@.len() > 0 {
                old(self).routes().domains.remove(domain.spec_bytes())
            } else {
                old(self).routes().domains
            }),
            final(self).routes().subdomains == (if subdomain@.len() > 0 {
                old(self).routes().subdomains.remove(subdomain.spec_bytes())
            } else {
                old(self).routes().subdomains
            }),
    {
        if !subdomain.is_empty() {
            self.http_registry.unregister_subdomain(subdomain.as_bytes());
        }
        if !domain.is_empty() {
            self.http_registry.unregister_domain(domain.as_bytes());
        }
    }

    /// The answer to a registration for `payload`: the entrypoints of the
    /// tunnel when it was set up on a port, or the status it failed with.
    pub fn registration_response(&self, payload: &Payload, result: Result<u16, Status>) -> (r:
        ClientEventResponse)
        ensures
            match result {
                Ok(port) => r matches ClientEventResponse::Registered { status, entrypoint }
                    && status is None && texts(entrypoint@) == entrypoint_uris(
                    self.config().uri_parts(*payload, port),
                ),
                Err(s) => r matches ClientEventResponse::Registered { status, entrypoint }
                    && status == Some(s) && entrypoint@.len() == 0,
            },
    {
        match result {
            Ok(port) => ClientEventResponse::registered(
                self.entrypoint_config.make_entrypoint(payload, port),
            ),
            Err(status) => ClientEventResponse::registered_failed(status),
        }
    }
}

} // verus!
