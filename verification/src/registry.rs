//! A registry of pools: one pool per remote address, created lazily.

use vstd::prelude::*;

use crate::pool::Acquire;
use crate::pool::Pool;
use crate::pool::PoolStatus;
use crate::pool::ProbeOutcome;
use crate::pool::probe_healthy;
use crate::seq_facts::lemma_push_contains;
use crate::seq_facts::lemma_push_keeps_no_duplicates;
use crate::target::RemoteAddress;

verus! {

/// A mapping from remote address to its pool, with unique keys.
///
/// Entries are created on first use and never removed. Every request whose
/// target resolves to the same address goes through the same pool; requests
/// to different addresses, even for one hostname, get independent pools.
pub struct Registry {
    addrs: Vec<RemoteAddress>,
    pools: Vec<Pool>,
}

impl Registry {
    /// The registered addresses, in creation order.
    pub closed spec fn addr_seq(self) -> Seq<RemoteAddress> {
        self.addrs@
    }

    /// The pools, positionally matching `addr_seq`.
    pub closed spec fn pool_seq(self) -> Seq<Pool> {
        self.pools@
    }

    /// How many addresses have a pool.
    pub open spec fn len(self) -> nat {
        self.addr_seq().len()
    }

    /// Whether an address already has a pool.
    pub open spec fn has(self, addr: RemoteAddress) -> bool {
        self.addr_seq().contains(addr)
    }

    /// The registry's invariant: one pool per address, no address twice,
    /// every pool well-formed.
    pub open spec fn wf(self) -> bool {
        &&& self.addr_seq().len() == self.pool_seq().len()
        &&& self.addr_seq().no_duplicates()
        &&& forall|i: int| 0 <= i < self.len() ==> (#[trigger] self.pool_seq()[i]).wf()
    }

    /// An empty registry.
    pub fn new() -> (r: Registry)
        ensures
            r.wf(),
            r.len() == 0,
    {
        Registry { addrs: Vec::new(), pools: Vec::new() }
    }

    /// The position of an address's pool, if the address has one.
    pub fn find(&self, addr: &RemoteAddress) -> (r: Option<usize>)
        ensures
            match r {
                Some(i) => i < self.len() && self.addr_seq()[i as int] == *addr,
                None => !self.has(*addr),
            },
    {
        let mut i: usize = 0;
        while i < self.addrs.len()
            invariant
                i <= self.addr_seq().len(),
                forall|j: int| 0 <= j < i ==> self.addr_seq()[j] != *addr,
            decreases self.addr_seq().len() - i,
        {
            let candidate = self.addrs[i];
            if candidate == *addr {
                return Some(i);
            }
            i = i + 1;
        }
        None
    }

    /// The pool of `addr`, creating an empty pool bounded by `max` if the
    /// address has none yet.
    ///
    /// An address that already has a pool gets exactly that pool back and
    /// the registry is left untouched: no second pool for one address is
    /// ever created.
    pub fn get_or_create(&mut self, addr: RemoteAddress, max: usize) -> (i: usize)
        requires
            old(self).wf(),
            max >= 1,
        ensures
            final(self).wf(),
            i < final(self).len(),
            final(self).addr_seq()[i as int] == addr,
            final(self).has(addr),
            old(self).has(addr) ==> *final(self) == *old(self),
            !old(self).has(addr) ==> {
                &&& i == old(self).len()
                &&& final(self).len() == old(self).len() + 1
                &&& final(self).addr_seq() == old(self).addr_seq().push(addr)
                &&& forall|j: int|
                    0 <= j < old(self).len() ==> final(self).pool_seq()[j] == old(self).pool_seq()[j]
                &&& final(self).pool_seq()[i as int].wf()
                &&& final(self).pool_seq()[i as int].max_size() == max
                &&& final(self).pool_seq()[i as int].created() == 0
                &&& final(self).pool_seq()[i as int].idle_ids() == Seq::<u64>::empty()
                &&& final(self).pool_seq()[i as int].outstanding_ids() == Seq::<u64>::empty()
                &&& final(self).pool_seq()[i as int].discarded_ids() == Set::<u64>::empty()
                &&& final(self).pool_seq()[i as int].id_bound() == 0
            },
    {
        match self.find(&addr) {
            Some(i) => {
                proof {
                    assert(self.addr_seq().contains(addr));
                }
                i
            },
            None => {
                let i = self.addrs.len();
                self.addrs.push(addr);
                self.pools.push(Pool::new(max));
                proof {
                    lemma_push_keeps_no_duplicates(old(self).addr_seq(), addr);
                    assert(self.addr_seq()[i as int] == addr);
                    assert(self.addr_seq().contains(addr));
                }
                i
            },
        }
    }

    /// The pool of an address that has one.
    pub open spec fn pool_for(self, addr: RemoteAddress) -> Pool
        recommends
            self.has(addr),
    {
        self.pool_seq()[self.addr_seq().index_of(addr)]
    }

    /// In a registry, whose addresses are unique, an address's position
    /// determines `index_of`.
    pub proof fn lemma_index_of_unique(self, addr: RemoteAddress, i: int)
        requires
            self.wf(),
            0 <= i < self.len(),
            self.addr_seq()[i] == addr,
        ensures
            self.addr_seq().index_of(addr) == i,
            self.has(addr),
    {
        assert(self.addr_seq().contains(addr));
        let j = self.addr_seq().index_of(addr);
        assert(0 <= j < self.len() && self.addr_seq()[j] == addr);
    }

    /// What acquiring a connection for `addr` decides: the decision of the
    /// address's pool, or — when the address has no pool yet, so an empty
    /// one is about to be created — a new connection with the first
    /// identifier.
    pub open spec fn acquire_decision_at(self, addr: RemoteAddress) -> Acquire {
        if self.has(addr) {
            self.pool_for(addr).acquire_decision()
        } else {
            Acquire::Create(0)
        }
    }

    /// Ask for a connection to `addr`, creating the address's pool (bounded
    /// by `max`) on first use. Pools of other addresses are untouched.
    pub fn acquire_at(&mut self, addr: RemoteAddress, max: usize) -> (r: Acquire)
        requires
            old(self).wf(),
            max >= 1,
        ensures
            final(self).wf(),
            final(self).has(addr),
            r == old(self).acquire_decision_at(addr),
            old(self).has(addr) ==> final(self).addr_seq() == old(self).addr_seq(),
            !old(self).has(addr) ==> final(self).addr_seq() == old(self).addr_seq().push(addr),
            forall|a: RemoteAddress|
                a != addr && #[trigger] old(self).has(a) ==> final(self).has(a) && final(self).pool_for(a) == old(self).pool_for(a),
            final(self).pool_for(addr).wf(),
            final(self).pool_for(addr).max_size() == (if old(self).has(addr) {
                old(self).pool_for(addr).max_size()
            } else {
                max
            }),
            final(self).pool_for(addr).discarded_ids() == (if old(self).has(addr) {
                old(self).pool_for(addr).discarded_ids()
            } else {
                Set::<u64>::empty()
            }),
            r matches Acquire::Reuse(id) ==> {
                &&& old(self).has(addr)
                &&& old(self).pool_for(addr).idle_ids().len() > 0
                &&& id == old(self).pool_for(addr).idle_ids().last()
                &&& final(self).pool_for(addr).idle_ids() == old(self).pool_for(
                    addr,
                ).idle_ids().drop_last()
                &&& final(self).pool_for(addr).outstanding_ids() == old(self).pool_for(
                    addr,
                ).outstanding_ids().push(id)
            },
            r matches Acquire::Create(id) ==> {
                &&& final(self).pool_for(addr).idle_ids() == (if old(self).has(addr) {
                    old(self).pool_for(addr).idle_ids()
                } else {
                    Seq::<u64>::empty()
                })
                &&& final(self).pool_for(addr).outstanding_ids() == (if old(self).has(addr) {
                    old(self).pool_for(addr).outstanding_ids()
                } else {
                    Seq::<u64>::empty()
                }).push(id)
                &&& !final(self).pool_for(addr).discarded_ids().contains(id)
            },
            r is Wait ==> final(self).addr_seq() == old(self).addr_seq() && final(self).pool_seq() == old(self).pool_seq(),
            r matches Acquire::Reuse(id) ==> final(self).pool_for(addr).outstanding_ids().contains(
                id,
            ),
            r matches Acquire::Create(id) ==> final(self).pool_for(addr).outstanding_ids().contains(
                id,
            ),
    {
        let ghost pre = *self;
        let i = self.get_or_create(addr, max);
        let ghost mid = *self;
        proof {
            mid.lemma_index_of_unique(addr, i as int);
        }
        let pool = self.pool_at_mut(i);
        let ghost pool_pre = *pool;
        let r = pool.try_acquire();
        proof {
            assert(self.wf());
            self.lemma_index_of_unique(addr, i as int);
            let x = self.pool_seq()[i as int];
            assert(self.pool_for(addr) == x);
            assert(pool_pre == mid.pool_for(addr));
            if pre.has(addr) {
                assert(mid == pre);
            } else {
                assert(pool_pre.idle_ids() == Seq::<u64>::empty());
                assert(pool_pre.outstanding_ids() == Seq::<u64>::empty());
                assert(pool_pre.acquire_decision() == Acquire::Create(0));
            }
            match r {
                Acquire::Reuse(id) => {
                    lemma_push_contains(pool_pre.outstanding_ids(), id, id);
                },
                Acquire::Create(id) => {
                    lemma_push_contains(pool_pre.outstanding_ids(), id, id);
                },
                Acquire::Wait => {
                    assert(pre.has(addr));
                    assert(x == pool_pre);
                    assert(self.pool_seq() =~= pre.pool_seq());
                },
            }
            assert forall|a: RemoteAddress| a != addr && #[trigger] pre.has(a) implies self.has(a)
                && self.pool_for(a) == pre.pool_for(a) by {
                let k = choose|k: int| 0 <= k < pre.len() && pre.addr_seq()[k] == a;
                pre.lemma_index_of_unique(a, k);
                assert(self.addr_seq()[k] == a);
                self.lemma_index_of_unique(a, k);
                assert(k != i);
                assert(self.pool_seq()[k] == pre.pool_seq()[k]);
            }
        }
        r
    }

    /// Return connection `id` to the idle set of the pool of `addr`: the
    /// scoped end of one checked-out use, whatever the use came to. Returns
    /// `false`, changing nothing, if that address has no pool or that pool
    /// has no such connection checked out.
    pub fn release_at(&mut self, addr: &RemoteAddress, id: u64) -> (accepted: bool)
        requires
            old(self).wf(),
        ensures
            final(self).wf(),
            final(self).addr_seq() == old(self).addr_seq(),
            accepted == (old(self).has(*addr) && old(self).pool_for(*addr).outstanding_ids()
                .contains(id)),
            !accepted ==> final(self).pool_seq() == old(self).pool_seq(),
            forall|a: RemoteAddress|
                a != *addr && #[trigger] old(self).has(a) ==> final(self).pool_for(a) == old(
                    self,
                ).pool_for(a),
            accepted ==> {
                &&& final(self).pool_for(*addr).idle_ids() == old(self).pool_for(
                    *addr,
                ).idle_ids().push(id)
                &&& !final(self).pool_for(*addr).outstanding_ids().contains(id)
                &&& forall|x: u64|
                    x != id ==> (#[trigger] final(self).pool_for(*addr).outstanding_ids().contains(
                        x,
                    ) <==> old(self).pool_for(*addr).outstanding_ids().contains(x))
                &&& final(self).pool_for(*addr).outstanding_ids().len() == old(self).pool_for(
                    *addr,
                ).outstanding_ids().len() - 1
                &&& final(self).pool_for(*addr).discarded_ids() == old(self).pool_for(
                    *addr,
                ).discarded_ids()
                &&& final(self).pool_for(*addr).max_size() == old(self).pool_for(*addr).max_size()
                &&& final(self).pool_for(*addr).created() == old(self).pool_for(*addr).created()
            },
    {
        let ghost pre = *self;
        let found = self.find(addr);
        match found {
            None => false,
            Some(i) => {
                proof {
                    pre.lemma_index_of_unique(*addr, i as int);
                }
                let pool = self.pool_at_mut(i);
                let ghost pool_pre = *pool;
                let accepted = pool.release(id);
                proof {
                    assert(self.wf());
                    self.lemma_index_of_unique(*addr, i as int);
                    assert(self.pool_for(*addr) == self.pool_seq()[i as int]);
                    assert(pool_pre == pre.pool_for(*addr));
                    if !accepted {
                        assert(self.pool_seq() =~= pre.pool_seq());
                    }
                    assert forall|a: RemoteAddress| a != *addr && #[trigger] pre.has(a) implies
                        self.pool_for(a) == pre.pool_for(a) by {
                        let k = choose|k: int| 0 <= k < pre.len() && pre.addr_seq()[k] == a;
                        pre.lemma_index_of_unique(a, k);
                        self.lemma_index_of_unique(a, k);
                        assert(k != i);
                        assert(self.pool_seq()[k] == pre.pool_seq()[k]);
                    }
                }
                accepted
            },
        }
    }

    /// Health-gate connection `id` of the pool of `addr` against a probe's
    /// outcome, as [`Pool::recycle_check`] does. Returns `None`, changing
    /// nothing, if that address has no pool or that pool has no such
    /// connection checked out.
    pub fn recycle_at(&mut self, addr: &RemoteAddress, id: u64, probe: ProbeOutcome) -> (r: Option<
        bool,
    >)
        requires
            old(self).wf(),
        ensures
            final(self).wf(),
            final(self).addr_seq() == old(self).addr_seq(),
            (r is Some) == (old(self).has(*addr) && old(self).pool_for(*addr).outstanding_ids()
                .contains(id)),
            r is None ==> final(self).pool_seq() == old(self).pool_seq(),
            forall|a: RemoteAddress|
                a != *addr && #[trigger] old(self).has(a) ==> final(self).pool_for(a) == old(
                    self,
                ).pool_for(a),
            r matches Some(healthy) ==> {
                &&& healthy == probe_healthy(probe)
                &&& healthy ==> final(self).pool_seq() == old(self).pool_seq()
                &&& !healthy ==> {
                    &&& final(self).pool_for(*addr).idle_ids() == old(self).pool_for(
                        *addr,
                    ).idle_ids()
                    &&& !final(self).pool_for(*addr).outstanding_ids().contains(id)
                    &&& forall|x: u64|
                        x != id ==> (#[trigger] final(self).pool_for(
                            *addr,
                        ).outstanding_ids().contains(x) <==> old(self).pool_for(
                            *addr,
                        ).outstanding_ids().contains(x))
                    &&& final(self).pool_for(*addr).outstanding_ids().len() == old(
                        self,
                    ).pool_for(*addr).outstanding_ids().len() - 1
                    &&& final(self).pool_for(*addr).discarded_ids() == old(self).pool_for(
                        *addr,
                    ).discarded_ids().insert(id)
                    &&& final(self).pool_for(*addr).max_size() == old(self).pool_for(
                        *addr,
                    ).max_size()
                    &&& final(self).pool_for(*addr).id_bound() == old(self).pool_for(
                        *addr,
                    ).id_bound()
                }
            },
    {
        let ghost pre = *self;
        let found = self.find(addr);
        match found {
            None => None,
            Some(i) => {
                proof {
                    pre.lemma_index_of_unique(*addr, i as int);
                }
                let pool = self.pool_at_mut(i);
                let ghost pool_pre = *pool;
                if !pool.is_outstanding(id) {
                    proof {
                        assert(self.pool_seq() =~= pre.pool_seq());
                    }
                    return None;
                }
                let healthy = pool.recycle_check(id, probe);
                proof {
                    assert(self.wf());
                    self.lemma_index_of_unique(*addr, i as int);
                    assert(self.pool_for(*addr) == self.pool_seq()[i as int]);
                    assert(pool_pre == pre.pool_for(*addr));
                    if healthy {
                        assert(self.pool_seq() =~= pre.pool_seq());
                    }
                    assert forall|a: RemoteAddress| a != *addr && #[trigger] pre.has(a) implies
                        self.pool_for(a) == pre.pool_for(a) by {
                        let k = choose|k: int| 0 <= k < pre.len() && pre.addr_seq()[k] == a;
                        pre.lemma_index_of_unique(a, k);
                        self.lemma_index_of_unique(a, k);
                        assert(k != i);
                        assert(self.pool_seq()[k] == pre.pool_seq()[k]);
                    }
                }
                Some(healthy)
            },
        }
    }

    /// Discard connection `id` of the pool of `addr` for good: a dial that
    /// failed, or a connection abandoned as unusable. Returns `false`,
    /// changing nothing, if that address has no pool or that pool has no
    /// such connection checked out.
    pub fn discard_at(&mut self, addr: &RemoteAddress, id: u64) -> (found: bool)
        requires
            old(self).wf(),
        ensures
            final(self).wf(),
            final(self).addr_seq() == old(self).addr_seq(),
            found == (old(self).has(*addr) && old(self).pool_for(*addr).outstanding_ids().contains(
                id,
            )),
            !found ==> final(self).pool_seq() == old(self).pool_seq(),
            forall|a: RemoteAddress|
                a != *addr && #[trigger] old(self).has(a) ==> final(self).pool_for(a) == old(
                    self,
                ).pool_for(a),
            found ==> {
                &&& final(self).pool_for(*addr).idle_ids() == old(self).pool_for(*addr).idle_ids()
                &&& !final(self).pool_for(*addr).outstanding_ids().contains(id)
                &&& forall|x: u64|
                    x != id ==> (#[trigger] final(self).pool_for(*addr).outstanding_ids().contains(
                        x,
                    ) <==> old(self).pool_for(*addr).outstanding_ids().contains(x))
                &&& final(self).pool_for(*addr).outstanding_ids().len() == old(self).pool_for(
                    *addr,
                ).outstanding_ids().len() - 1
                &&& final(self).pool_for(*addr).discarded_ids() == old(self).pool_for(
                    *addr,
                ).discarded_ids().insert(id)
                &&& final(self).pool_for(*addr).max_size() == old(self).pool_for(*addr).max_size()
                &&& final(self).pool_for(*addr).id_bound() == old(self).pool_for(*addr).id_bound()
            },
    {
        let ghost pre = *self;
        let found = self.find(addr);
        match found {
            None => false,
            Some(i) => {
                proof {
                    pre.lemma_index_of_unique(*addr, i as int);
                }
                let pool = self.pool_at_mut(i);
                let ghost pool_pre = *pool;
                if !pool.is_outstanding(id) {
                    proof {
                        assert(self.pool_seq() =~= pre.pool_seq());
                    }
                    return false;
                }
                pool.discard(id);
                proof {
                    assert(self.wf());
                    self.lemma_index_of_unique(*addr, i as int);
                    assert(self.pool_for(*addr) == self.pool_seq()[i as int]);
                    assert(pool_pre == pre.pool_for(*addr));
                    assert forall|a: RemoteAddress| a != *addr && #[trigger] pre.has(a) implies
                        self.pool_for(a) == pre.pool_for(a) by {
                        let k = choose|k: int| 0 <= k < pre.len() && pre.addr_seq()[k] == a;
                        pre.lemma_index_of_unique(a, k);
                        self.lemma_index_of_unique(a, k);
                        assert(k != i);
                        assert(self.pool_seq()[k] == pre.pool_seq()[k]);
                    }
                }
                true
            },
        }
    }

    /// The status of the pool of `addr`, if that address has one.
    pub fn status_at(&self, addr: &RemoteAddress) -> (r: Option<PoolStatus>)
        requires
            self.wf(),
        ensures
            (r is Some) == self.has(*addr),
            r matches Some(st) ==> {
                &&& st.size == self.pool_for(*addr).live()
                &&& st.available == self.pool_for(*addr).idle_ids().len()
                &&& st.max_size == self.pool_for(*addr).max_size()
            },
    {
        match self.find(addr) {
            None => None,
            Some(i) => {
                proof {
                    self.lemma_index_of_unique(*addr, i as int);
                }
                Some(self.pool_at(i).status())
            },
        }
    }

    /// The status of every pool, in creation order.
    pub fn statuses(&self) -> (r: Vec<PoolStatus>)
        requires
            self.wf(),
        ensures
            r@.len() == self.len(),
            forall|i: int|
                0 <= i < self.len() ==> {
                    &&& (#[trigger] r@[i]).size == self.pool_seq()[i].live()
                    &&& r@[i].available == self.pool_seq()[i].idle_ids().len()
                    &&& r@[i].max_size == self.pool_seq()[i].max_size()
                },
    {
        let mut out: Vec<PoolStatus> = Vec::new();
        let mut i: usize = 0;
        while i < self.pools.len()
            invariant
                self.wf(),
                i <= self.len(),
                out@.len() == i,
                forall|j: int|
                    0 <= j < i ==> {
                        &&& (#[trigger] out@[j]).size == self.pool_seq()[j].live()
                        &&& out@[j].available == self.pool_seq()[j].idle_ids().len()
                        &&& out@[j].max_size == self.pool_seq()[j].max_size()
                    },
            decreases self.len() - i,
        {
            let st = self.pool_at(i).status();
            out.push(st);
            i = i + 1;
        }
        out
    }

    /// The address at a position.
    pub fn addr_at(&self, i: usize) -> (a: &RemoteAddress)
        requires
            i < self.len(),
        ensures
            *a == self.addr_seq()[i as int],
    {
        &self.addrs[i]
    }

    /// Mutable access to the pool at a position. The registry stays
    /// well-formed as long as the borrower leaves the pool well-formed, as
    /// every pool operation does.
    pub fn pool_at_mut(&mut self, i: usize) -> (p: &mut Pool)
        requires
            old(self).wf(),
            i < old(self).len(),
        ensures
            *p == old(self).pool_seq()[i as int],
            final(self).addr_seq() == old(self).addr_seq(),
            final(self).pool_seq() == old(self).pool_seq().update(i as int, *final(p)),
            final(p).wf() ==> final(self).wf(),
    {
        &mut self.pools[i]
    }

    /// Read access to the pool at a position.
    pub fn pool_at(&self, i: usize) -> (p: &Pool)
        requires
            self.wf(),
            i < self.len(),
        ensures
            *p == self.pool_seq()[i as int],
    {
        &self.pools[i]
    }
}

/// One pool per address: two distinct registry entries never serve the same
/// remote address, so all requests to one address converge on one shared
/// pool.
pub proof fn lemma_one_pool_per_address(r: Registry, i: int, j: int)
    requires
        r.wf(),
        0 <= i < r.len(),
        0 <= j < r.len(),
        i != j,
    ensures
        r.addr_seq()[i] != r.addr_seq()[j],
{
}

} // verus!
