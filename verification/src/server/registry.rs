//! Routing of http requests to tunnels by the host they name.
//!
//! A route leads to a handle: the number by which the data server finds
//! the tunnel that serves the route.
use vstd::prelude::*;

use vstd::string::StringSliceAdditionalSpecFns;

use crate::ext::dash::{
    route_table, route_table_contains, route_table_get, route_table_insert, route_table_new,
    route_table_remove, RouteTable,
};

verus! {

/// The byte `.` that separates the labels of a host name.
pub const DOT: u8 = 46;

/// The length of the first label of a host name: the bytes before the first
/// dot, or all of them when there is none.
pub open spec fn label_len(host: Seq<u8>) -> nat
    decreases host.len(),
{
    if host.len() == 0 {
        0
    } else if host[0] == DOT {
        0
    } else {
        1 + label_len(host.drop_first())
    }
}

/// The first label of a host name, e.g. `foo` of `foo.example.com`.
pub open spec fn first_label(host: Seq<u8>) -> Seq<u8> {
    host.take(label_len(host) as int)
}

/// A prefix of `host` without a dot, followed by a dot or by the end of
/// `host`, is as long as its first label.
pub proof fn lemma_label_len(host: Seq<u8>, i: int)
    requires
        0 <= i <= host.len(),
        forall|j: int| 0 <= j < i ==> host[j] != DOT,
        i == host.len() || host[i] == DOT,
    ensures
        label_len(host) == i,
    decreases i,
{
    if i > 0 {
        let rest = host.drop_first();
        assert forall|j: int| 0 <= j < i - 1 implies rest[j] != DOT by {
            assert(rest[j] == host[j + 1]);
        }
        if i - 1 < rest.len() {
            assert(rest[i - 1] == host[i]);
        }
        lemma_label_len(rest, i - 1);
    }
}

/// The first label of a host name, as bytes.
pub fn first_label_of(host: &[u8]) -> (r: Vec<u8>)
    ensures
        r@ == first_label(host@),
{
    let mut label: Vec<u8> = Vec::new();
    let mut i: usize = 0;
    while i < host.len() && host[i] != DOT
        invariant
            0 <= i <= host@.len(),
            label@ == host@.take(i as int),
            forall|j: int| 0 <= j < i ==> host@[j] != DOT,
        decreases host.len() - i,
    {
        label.push(host[i]);
        i = i + 1;
    }
    proof {
        lemma_label_len(host@, i as int);
    }
    label
}

/// What a routing table answers for a name.
pub open spec fn route_of(table: Map<Seq<u8>, u64>, name: Seq<u8>) -> Option<u64> {
    if table.contains_key(name) {
        Some(table[name])
    } else {
        None
    }
}

/// Finds the tunnel that serves a request for a host.
pub trait LookupRequest {
    /// The handle that a request for the host with bytes `host` goes to.
    spec fn route(&self, host: Seq<u8>) -> Option<u64>;

    /// The handle that a request for `host` goes to, if any.
    fn lookup(&self, host: &str) -> (r: Option<u64>)
        ensures
            r == self.route(host.spec_bytes()),
    ;
}

/// A registry that sends every request to the same tunnel.
#[derive(Clone, Copy, Debug)]
pub struct FixedRegistry {
    handle: u64,
}

impl FixedRegistry {
    /// A registry that sends every request to `handle`.
    pub fn new(handle: u64) -> (r: Self)
        ensures
            r.handle() == handle,
    {
        Self { handle }
    }

    /// The handle that every request goes to.
    pub closed spec fn handle(&self) -> u64 {
        self.handle
    }
}

impl LookupRequest for FixedRegistry {
    open spec fn route(&self, host: Seq<u8>) -> Option<u64> {
        Some(self.handle())
    }

    fn lookup(&self, host: &str) -> (r: Option<u64>) {
        Some(self.handle)
    }
}

/// The routes of a dynamic registry: whole host names, and first labels
/// under the server's domains.
pub ghost struct Routes {
    pub domains: Map<Seq<u8>, u64>,
    pub subdomains: Map<Seq<u8>, u64>,
}

impl Routes {
    /// The handle that a request for `host` goes to: the route of the whole
    /// host name if there is one, else the route of its first label.
    pub open spec fn route(self, host: Seq<u8>) -> Option<u64> {
        if self.domains.contains_key(host) {
            Some(self.domains[host])
        } else {
            route_of(self.subdomains, first_label(host))
        }
    }
}

/// A registry that can register and unregister domains and subdomains.
pub struct DynamicRegistry {
    domains: RouteTable,
    subdomains: RouteTable,
}

impl View for DynamicRegistry {
    type V = Routes;

    closed spec fn view(&self) -> Routes {
        Routes { domains: route_table(self.domains), subdomains: route_table(self.subdomains) }
    }
}

impl LookupRequest for DynamicRegistry {
    open spec fn route(&self, host: Seq<u8>) -> Option<u64> {
        self@.route(host)
    }

    /// A request for a registered domain goes to its tunnel; otherwise the
    /// first label of the host is looked up among the subdomains.
    fn lookup(&self, host: &str) -> (r: Option<u64>) {
        let host = host.as_bytes();
        let result = self.get_domain(host);
        if result.is_some() {
            return result;
        }
        let subdomain = first_label_of(host);
        self.get_subdomain(subdomain.as_slice())
    }
}

impl DynamicRegistry {
    /// A registry without routes.
    pub fn new() -> (r: Self)
        ensures
            r@.domains.dom() == Set::<Seq<u8>>::empty(),
            r@.subdomains.dom() == Set::<Seq<u8>>::empty(),
    {
        Self { domains: route_table_new(), subdomains: route_table_new() }
    }

    /// Routes the requests for `domain` to `handle`.
    pub fn register_domain(&mut self, domain: Vec<u8>, handle: u64)
        ensures
            final(self)@ == (Routes { domains: old(self)@.domains.insert(domain@, handle), ..old(self)@ }),
    {
        route_table_insert(&mut self.domains, domain, handle);
    }

    /// Drops the route of `domain`.
    pub fn unregister_domain(&mut self, domain: &[u8])
        ensures
            final(self)@ == (Routes { domains: old(self)@.domains.remove(domain@), ..old(self)@ }),
    {
        route_table_remove(&mut self.domains, domain);
    }

    /// Whether `domain` has a route.
    pub fn domain_registered(&self, domain: &[u8]) -> (r: bool)
        ensures
            r == self@.domains.contains_key(domain@),
    {
        route_table_contains(&self.domains, domain)
    }

    /// The handle that `domain` is routed to.
    pub fn get_domain(&self, domain: &[u8]) -> (r: Option<u64>)
        ensures
            r == route_of(self@.domains, domain@),
    {
        route_table_get(&self.domains, domain)
    }

    /// Whether `subdomain` has a route.
    pub fn subdomain_registered(&self, subdomain: &[u8]) -> (r: bool)
        ensures
            r == self@.subdomains.contains_key(subdomain@),
    {
        route_table_contains(&self.subdomains, subdomain)
    }

    /// Drops the route of `subdomain`.
    pub fn unregister_subdomain(&mut self, subdomain: &[u8])
        ensures
            final(self)@ == (Routes {
                subdomains: old(self)@.subdomains.remove(subdomain@),
                ..old(self)@
            }),
    {
        route_table_remove(&mut self.subdomains, subdomain);
    }

    /// The handle that `subdomain` is routed to.
    pub fn get_subdomain(&self, subdomain: &[u8]) -> (r: Option<u64>)
        ensures
            r == route_of(self@.subdomains, subdomain@),
    {
        route_table_get(&self.subdomains, subdomain)
    }

    /// Routes the requests whose host starts with the label `subdomain` to
    /// `handle`.
    pub fn register_subdomain(&mut self, subdomain: Vec<u8>, handle: u64)
        ensures
            final(self)@ == (Routes {
                subdomains: old(self)@.subdomains.insert(subdomain@, handle),
                ..old(self)@
            }),
    {
        route_table_insert(&mut self.subdomains, subdomain, handle);
    }
}

/// A registered domain routes its requests to its tunnel, whatever the
/// subdomains say.
pub proof fn lemma_domain_route(routes: Routes, domain: Seq<u8>, handle: u64)
    ensures
        (Routes { domains: routes.domains.insert(domain, handle), ..routes }).route(domain) == Some(
            handle,
        ),
{
}

/// A registered subdomain routes the requests for every host whose first
/// label it is, unless the whole host is a registered domain.
pub proof fn lemma_subdomain_route(routes: Routes, subdomain: Seq<u8>, handle: u64, host: Seq<u8>)
    requires
        first_label(host) == subdomain,
        !routes.domains.contains_key(host),
    ensures
        (Routes { subdomains: routes.subdomains.insert(subdomain, handle), ..routes }).route(host)
            == Some(handle),
{
}

/// An unregistered domain routes nothing by itself; the other domains keep
/// their routes.
pub proof fn lemma_unregister_domain(routes: Routes, domain: Seq<u8>, other: Seq<u8>)
    requires
        other != domain,
    ensures
        !(Routes { domains: routes.domains.remove(domain), ..routes }).domains.contains_key(domain),
        (Routes { domains: routes.domains.remove(domain), ..routes }).route(other) == routes.route(
            other,
        ),
{
}

/// The first label of a host holds no dot, and is followed by a dot or by
/// the end of the host.
pub proof fn lemma_first_label_prefix(host: Seq<u8>)
    ensures
        label_len(host) <= host.len(),
        first_label(host) == host.take(label_len(host) as int),
        forall|i: int| 0 <= i < label_len(host) ==> host[i] != DOT,
        label_len(host) < host.len() ==> host[label_len(host) as int] == DOT,
    decreases host.len(),
{
    if host.len() > 0 && host[0] != DOT {
        let rest = host.drop_first();
        lemma_first_label_prefix(rest);
        assert forall|i: int| 0 <= i < label_len(host) implies host[i] != DOT by {
            if i > 0 {
                assert(host[i] == rest[i - 1]);
            }
        }
        if label_len(host) < host.len() {
            assert(host[label_len(host) as int] == rest[label_len(rest) as int]);
        }
    }
}

} // verus!
