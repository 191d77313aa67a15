//! The pool of ports that the server may listen on for tunnels.
use vstd::prelude::*;

use dashmap::DashSet;
use rand::rngs::StdRng;
use std::ops::RangeInclusive;

use crate::ext::dash::{
    port_set, port_set_contains, port_set_insert, port_set_new, port_set_remove,
};
use crate::ext::random::{choose_port, rng_from_seed};
use crate::ext::range::{range_end, range_is_empty, range_start};
use crate::ext::time::seconds_since_epoch;

verus! {

/// The state of a port pool: the range it was made for, the ports excluded
/// from it, and the ports free to hand out.
pub ghost struct PortPool {
    pub min: u16,
    pub max: u16,
    pub excluded: Set<u16>,
    pub available: Set<u16>,
}

impl PortPool {
    /// `port` lies in the range and is not excluded.
    pub open spec fn allows(self, port: u16) -> bool {
        self.min <= port <= self.max && !self.excluded.contains(port)
    }

    /// Only allowed ports are ever free to hand out.
    pub open spec fn well_formed(self) -> bool {
        &&& self.available.finite()
        &&& forall|p: u16| #[trigger] self.available.contains(p) ==> self.allows(p)
    }

    /// The same pool with `port` taken out.
    pub open spec fn without(self, port: u16) -> PortPool {
        PortPool { available: self.available.remove(port), ..self }
    }

    /// The same pool with `port` free again.
    pub open spec fn with(self, port: u16) -> PortPool {
        PortPool { available: self.available.insert(port), ..self }
    }
}

/// How many ports from `lo` up to, not including, `hi` are not in
/// `excluded`.
pub open spec fn free_count(lo: int, hi: int, excluded: Set<u16>) -> nat
    decreases hi - lo,
{
    if hi <= lo {
        0
    } else {
        free_count(lo, hi - 1, excluded) + if excluded.contains((hi - 1) as u16) {
            0nat
        } else {
            1nat
        }
    }
}

/// Hands out the ports of a range, except the excluded ones, each to one
/// holder at a time.
pub struct PortManager {
    min: u16,
    max: u16,
    exclude_ports: DashSet<u16>,
    rng: StdRng,
    pool: DashSet<u16>,
}

/// A port taken from the pool. It goes back to the pool when released,
/// unless it was marked unavailable because it could not be bound.
#[derive(Debug)]
pub struct Available {
    port: u16,
    unavailable: bool,
}

impl Available {
    /// The port that this holds.
    pub closed spec fn port_of(&self) -> u16 {
        self.port
    }

    /// The port goes back to the pool when released.
    pub closed spec fn returns_to_pool(&self) -> bool {
        !self.unavailable
    }

    /// Marks the port as one that could not be bound, so that releasing it
    /// does not return it to the pool.
    pub fn unavailable(&mut self)
        ensures
            final(self).port_of() == old(self).port_of(),
            !final(self).returns_to_pool(),
    {
        self.unavailable = true;
    }

    /// The port that this holds.
    pub fn port(&self) -> (r: u16)
        ensures
            r == self.port_of(),
    {
        self.port
    }
}

impl std::ops::Deref for Available {
    type Target = u16;

    fn deref(&self) -> (r: &u16)
        ensures
            *r == self.port_of(),
    {
        &self.port
    }
}

impl View for PortManager {
    type V = PortPool;

    closed spec fn view(&self) -> PortPool {
        PortPool {
            min: self.min,
            max: self.max,
            excluded: port_set(self.exclude_ports),
            available: port_set(self.pool),
        }
    }
}

impl PortManager {
    /// A pool of the ports of `port_range` that `exclude_ports` does not
    /// list, with a generator seeded from the clock to pick random ports. A
    /// range that was iterated to its end yields no port.
    pub fn new(port_range: RangeInclusive<u16>, exclude_ports: Vec<u16>) -> (r: Self)
        ensures
            r@.min == port_range@.start,
            r@.max == port_range@.end,
            r@.excluded == exclude_ports@.to_set(),
            forall|p: u16|
                #[trigger] r@.available.contains(p) <==> (!port_range@.exhausted && r@.allows(p)),
            r@.available.len() == if port_range@.exhausted {
                0
            } else {
                free_count(port_range@.start as int, port_range@.end + 1, r@.excluded)
            },
            r@.well_formed(),
    {
        let open = !range_is_empty(&port_range);
        PortManager::with_bounds(range_start(&port_range), range_end(&port_range), open, exclude_ports)
    }

    /// A pool of the ports from `min` to `max` that `exclude_ports` does not
    /// list, or of no port when the range is not `open`.
    pub(crate) fn with_bounds(min: u16, max: u16, open: bool, exclude_ports: Vec<u16>) -> (r: Self)
        ensures
            r@.min == min,
            r@.max == max,
            r@.excluded == exclude_ports@.to_set(),
            forall|p: u16| #[trigger] r@.available.contains(p) <==> (open && r@.allows(p)),
            r@.available.len() == if open {
                free_count(min as int, max + 1, r@.excluded)
            } else {
                0
            },
            r@.well_formed(),
    {
        let mut excluded = port_set_new();
        let mut i: usize = 0;
        while i < exclude_ports.len()
            invariant
                0 <= i <= exclude_ports.len(),
                forall|q: u16|
                    #[trigger] port_set(excluded).contains(q) <==> exists|j: int|
                        0 <= j < i && exclude_ports@[j] == q,
            decreases exclude_ports.len() - i,
        {
            port_set_insert(&mut excluded, exclude_ports[i]);
            i = i + 1;
        }
        assert(port_set(excluded) =~= exclude_ports@.to_set());

        let mut pool = port_set_new();
        if open {
            let mut p: u32 = min as u32;
            while p <= max as u32
                invariant
                    min as u32 <= p <= max as u32 + 1 || (min > max && p == min),
                    port_set(excluded) == exclude_ports@.to_set(),
                    port_set(pool).finite(),
                    port_set(pool).len() == free_count(min as int, p as int, port_set(excluded)),
                    forall|q: u16|
                        #[trigger] port_set(pool).contains(q) <==> (min <= q && (q as u32) < p
                            && !port_set(excluded).contains(q)),
                decreases max as u32 + 1 - p,
            {
                let port = p as u16;
                if !port_set_contains(&excluded, port) {
                    port_set_insert(&mut pool, port);
                }
                p = p + 1;
            }
        }

        // a clock before the epoch seeds the generator with zero.
        let seed = match seconds_since_epoch() {
            Some(seconds) => seconds,
            None => 0,
        };
        PortManager { min, max, exclude_ports: excluded, rng: rng_from_seed(seed), pool }
    }

    /// Whether `port` may be handed out at all: it lies in the range and is
    /// not excluded. It may still be in use.
    pub fn allow(&self, port: u16) -> (r: bool)
        ensures
            r == self@.allows(port),
    {
        port >= self.min && port <= self.max && !port_set_contains(&self.exclude_ports, port)
    }

    /// Takes `port` from the pool: `None` when it is not free.
    pub fn take(&mut self, port: u16) -> (r: Option<Available>)
        requires
            old(self)@.well_formed(),
        ensures
            final(self)@.well_formed(),
            r is Some <==> old(self)@.available.contains(port),
            final(self)@ == old(self)@.without(port),
            !old(self)@.available.contains(port) ==> final(self)@ == old(self)@,
            r matches Some(a) ==> a.port_of() == port && a.returns_to_pool(),
    {
        if !port_set_contains(&self.pool, port) {
            proof {
                assert(port_set(self.pool).remove(port) =~= port_set(self.pool));
            }
            return None;
        }
        port_set_remove(&mut self.pool, port);
        Some(Available { port, unavailable: false })
    }

    /// Takes a random free port from the pool: `None` when none is free.
    pub fn get(&mut self) -> (r: Option<Available>)
        requires
            old(self)@.well_formed(),
        ensures
            final(self)@.well_formed(),
            r is None <==> old(self)@.available =~= Set::<u16>::empty(),
            r is None ==> final(self)@ == old(self)@,
            r matches Some(a) ==> {
                &&& old(self)@.available.contains(a.port_of())
                &&& final(self)@ == old(self)@.without(a.port_of())
                &&& a.returns_to_pool()
            },
    {
        match choose_port(&self.pool, &mut self.rng) {
            None => None,
            Some(port) => self.take(port),
        }
    }

    /// Gives a taken port back: it is free again, unless it was marked
    /// unavailable.
    pub fn release(&mut self, available: Available)
        requires
            old(self)@.well_formed(),
            old(self)@.allows(available.port_of()),
        ensures
            final(self)@.well_formed(),
            final(self)@ == (if available.returns_to_pool() {
                old(self)@.with(available.port_of())
            } else {
                old(self)@
            }),
    {
        if available.unavailable {
            return;
        }
        port_set_insert(&mut self.pool, available.port);
    }
}

/// A taken port is not free until it is released, and releasing it gives
/// back the pool it was taken from.
pub proof fn lemma_take_then_release(pool: PortPool, port: u16)
    requires
        pool.available.contains(port),
    ensures
        !pool.without(port).available.contains(port),
        pool.without(port).with(port) == pool,
{
    assert(pool.without(port).with(port).available =~= pool.available);
}

/// The pools after each take of `ports`, one after another from `pools[0]`:
/// each port taken was free, and the next pool lacks it.
pub open spec fn successive_takes(pools: Seq<PortPool>, ports: Seq<u16>) -> bool {
    &&& pools.len() == ports.len() + 1
    &&& forall|i: int|
        0 <= i < ports.len() ==> #[trigger] pools[i].available.contains(ports[i]) && pools[i + 1]
            == pools[i].without(ports[i])
}

/// Along successive takes, each pool holds only ports of the first pool,
/// none of the ports taken before it, and one port fewer per take.
proof fn lemma_take_chain(pools: Seq<PortPool>, ports: Seq<u16>, k: int)
    requires
        successive_takes(pools, ports),
        pools[0].available.finite(),
        0 <= k <= ports.len(),
    ensures
        pools[k].available.subset_of(pools[0].available),
        pools[k].available.finite(),
        pools[k].available.len() + k == pools[0].available.len(),
        forall|i: int| 0 <= i < k ==> !pools[k].available.contains(#[trigger] ports[i]),
    decreases k,
{
    if k > 0 {
        lemma_take_chain(pools, ports, k - 1);
        assert(pools[k - 1].available.contains(ports[k - 1]));
        assert(pools[k] == pools[k - 1].without(ports[k - 1]));
    }
}

/// Ports taken one after another, none given back in between, are
/// distinct ports of the first pool, and each take leaves one port fewer:
/// a pool of `n` free ports serves exactly `n` takes.
pub proof fn lemma_successive_takes_distinct(pools: Seq<PortPool>, ports: Seq<u16>)
    requires
        successive_takes(pools, ports),
        pools[0].available.finite(),
    ensures
        forall|i: int, j: int| 0 <= i < j < ports.len() ==> ports[i] != ports[j],
        forall|i: int| 0 <= i < ports.len() ==> pools[0].available.contains(#[trigger] ports[i]),
        pools[ports.len() as int].available.len() + ports.len() == pools[0].available.len(),
        ports.len() <= pools[0].available.len(),
        ports.len() == pools[0].available.len() ==> pools[ports.len() as int].available
            =~= Set::<u16>::empty(),
{
    assert forall|i: int, j: int| 0 <= i < j < ports.len() implies ports[i] != ports[j] by {
        lemma_take_chain(pools, ports, j);
        assert(pools[j].available.contains(ports[j]));
    }
    assert forall|i: int| 0 <= i < ports.len() implies pools[0].available.contains(
        #[trigger] ports[i],
    ) by {
        lemma_take_chain(pools, ports, i);
        assert(pools[i].available.contains(ports[i]));
    }
    lemma_take_chain(pools, ports, ports.len() as int);
    if ports.len() == pools[0].available.len() {
        pools[ports.len() as int].available.lemma_len0_is_empty();
    }
}

/// Taking and releasing allowed ports keeps a pool well formed.
pub proof fn lemma_pool_stays_well_formed(pool: PortPool, port: u16)
    requires
        pool.well_formed(),
    ensures
        pool.without(port).well_formed(),
        pool.allows(port) ==> pool.with(port).well_formed(),
{
}

} // verus!
