//! The concurrent collections of the `dashmap` crate: the port pool is a
//! `DashSet<u16>`, the http routing tables map names to tunnel handles.
//!
//! Their `insert` and `remove` take `&self`; the wrappers here take
//! `&mut` so that a caller holds the collection alone while it changes.
use vstd::prelude::*;

use dashmap::{DashMap, DashSet};

verus! {

/// A routing table: from a name to the handle of the tunnel that serves it.
pub type RouteTable = DashMap<Vec<u8>, u64>;

#[verifier::external_type_specification]
#[verifier::external_body]
#[verifier::reject_recursive_types(K)]
#[verifier::reject_recursive_types(S)]
pub struct ExDashSet<K, S>(::dashmap::DashSet<K, S>);

#[verifier::external_type_specification]
#[verifier::external_body]
#[verifier::reject_recursive_types(K)]
#[verifier::reject_recursive_types(V)]
#[verifier::reject_recursive_types(S)]
pub struct ExDashMap<K, V, S>(::dashmap::DashMap<K, V, S>);

/// The ports that a set of ports holds.
pub uninterp spec fn port_set(s: DashSet<u16>) -> Set<u16>;

/// The routes that a routing table holds: from a name to a handle.
pub uninterp spec fn route_table(m: RouteTable) -> Map<Seq<u8>, u64>;

/// `DashSet::new`: an empty set.
#[verifier::external_body]
pub(crate) fn port_set_new() -> (r: DashSet<u16>)
    ensures
        port_set(r) == Set::<u16>::empty(),
{
    DashSet::new()
}

/// `DashSet::insert`: adds `port`; true when it was not there before.
#[verifier::external_body]
pub(crate) fn port_set_insert(s: &mut DashSet<u16>, port: u16) -> (r: bool)
    ensures
        port_set(*final(s)) == port_set(*old(s)).insert(port),
        r == !port_set(*old(s)).contains(port),
{
    s.insert(port)
}

/// `DashSet::remove`: takes `port` out; gives it back when it was there.
#[verifier::external_body]
pub(crate) fn port_set_remove(s: &mut DashSet<u16>, port: u16) -> (r: Option<u16>)
    ensures
        port_set(*final(s)) == port_set(*old(s)).remove(port),
        r == (if port_set(*old(s)).contains(port) {
            Some(port)
        } else {
            None
        }),
{
    s.remove(&port)
}

/// `DashSet::contains`.
#[verifier::external_body]
pub(crate) fn port_set_contains(s: &DashSet<u16>, port: u16) -> (r: bool)
    ensures
        r == port_set(*s).contains(port),
{
    s.contains(&port)
}

/// `DashMap::new`: an empty table.
#[verifier::external_body]
pub(crate) fn route_table_new() -> (r: RouteTable)
    ensures
        route_table(r).dom() == Set::<Seq<u8>>::empty(),
{
    DashMap::new()
}

/// `DashMap::insert`: routes `key` to `handle`, replacing any earlier route
/// of that key, which it gives back.
#[verifier::external_body]
pub(crate) fn route_table_insert(m: &mut RouteTable, key: Vec<u8>, handle: u64) -> (r: Option<u64>)
    ensures
        route_table(*final(m)) == route_table(*old(m)).insert(key@, handle),
        r == (if route_table(*old(m)).contains_key(key@) {
            Some(route_table(*old(m))[key@])
        } else {
            None
        }),
{
    m.insert(key, handle)
}

/// `DashMap::remove`: drops the route of `key`, giving back its handle.
#[verifier::external_body]
pub(crate) fn route_table_remove(m: &mut RouteTable, key: &[u8]) -> (r: Option<u64>)
    ensures
        route_table(*final(m)) == route_table(*old(m)).remove(key@),
        r == (if route_table(*old(m)).contains_key(key@) {
            Some(route_table(*old(m))[key@])
        } else {
            None
        }),
{
    m.remove(key).map(|(_, handle)| handle)
}

/// `DashMap::contains_key`.
#[verifier::external_body]
pub(crate) fn route_table_contains(m: &RouteTable, key: &[u8]) -> (r: bool)
    ensures
        r == route_table(*m).contains_key(key@),
{
    m.contains_key(key)
}

/// `DashMap::get`, with the handle copied out of the entry.
#[verifier::external_body]
pub(crate) fn route_table_get(m: &RouteTable, key: &[u8]) -> (r: Option<u64>)
    ensures
        r == (if route_table(*m).contains_key(key@) {
            Some(route_table(*m)[key@])
        } else {
            None
        }),
{
    m.get(key).map(|entry| *entry.value())
}

} // verus!
