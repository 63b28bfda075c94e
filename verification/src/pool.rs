//! A bounded pool of reusable connections for one remote address.
//!
//! The pool tracks connections by numeric identity only; the embedding
//! runtime owns the actual streams, keyed by these identifiers. Connections
//! are either idle (available for reuse), outstanding (checked out by one
//! request, or being dialed for it), or discarded (found unhealthy, or never
//! successfully dialed; gone for good).

use vstd::prelude::*;

use crate::seq_facts::lemma_drop_last_contains;
use crate::seq_facts::lemma_drop_last_no_duplicates;
use crate::seq_facts::lemma_push_contains;
use crate::seq_facts::lemma_push_keeps_no_duplicates;

verus! {

/// What a poll-style, non-blocking read probe of an idle connection reported.
///
/// TCP half-close and idle-timeout disconnects by the peer are invisible
/// until a read or write is attempted; probing before reuse avoids wasting a
/// request on a dead connection.
#[derive(Clone, Copy, Debug, PartialEq, Eq, Structural)]
pub enum ProbeOutcome {
    /// No bytes available and no error: the peer has been silent.
    NoActivity,
    /// The probe unexpectedly returned bytes.
    DataAvailable,
    /// The probe reported end of stream: the peer closed the connection.
    Closed,
    /// The probe reported a read error.
    ReadError,
}

/// A probed connection is healthy exactly when the peer has shown no
/// activity and no error: anything else means the connection must be
/// discarded, never returned to service.
pub open spec fn probe_healthy(p: ProbeOutcome) -> bool {
    p is NoActivity
}

/// What a caller asking for a connection should do next.
#[derive(Clone, Copy, Debug, PartialEq, Eq, Structural)]
pub enum Acquire {
    /// Probe this idle connection and, if it is healthy, use it.
    Reuse(u64),
    /// Dial a new connection and register it under this identifier.
    Create(u64),
    /// The pool is at capacity: wait until a connection is released.
    Wait,
}

/// A point-in-time summary of one pool, for observability.
#[derive(Clone, Copy, Debug, PartialEq, Eq, Structural)]
pub struct PoolStatus {
    /// Live connections: idle plus outstanding.
    pub size: usize,
    /// Idle connections, available for reuse.
    pub available: usize,
    /// The bound on live connections.
    pub max_size: usize,
}

/// A bounded pool of reusable connections for one remote address.
pub struct Pool {
    max: usize,
    idle: Vec<u64>,
    outstanding: Vec<u64>,
    next_id: u64,
    discarded: Ghost<Set<u64>>,
}

impl Pool {
    /// The bound on live connections.
    pub closed spec fn max_size(self) -> usize {
        self.max
    }

    /// Identifiers of idle connections, oldest first.
    pub closed spec fn idle_ids(self) -> Seq<u64> {
        self.idle@
    }

    /// Identifiers of connections currently checked out or being dialed.
    pub closed spec fn outstanding_ids(self) -> Seq<u64> {
        self.outstanding@
    }

    /// Identifiers of connections discarded for good.
    pub closed spec fn discarded_ids(self) -> Set<u64> {
        self.discarded@
    }

    /// All identifiers ever handed out are below this bound.
    pub closed spec fn id_bound(self) -> u64 {
        self.next_id
    }

    /// Connections currently alive: idle plus outstanding.
    pub open spec fn live(self) -> nat {
        self.idle_ids().len() + self.outstanding_ids().len()
    }

    /// Connections ever created: the live ones plus the discarded ones.
    pub open spec fn created(self) -> nat {
        self.live() + self.discarded_ids().len()
    }

    /// The pool's invariant: at most `max_size` connections are live, and
    /// every identifier is in at most one of the three states.
    pub open spec fn wf(self) -> bool {
        &&& self.max_size() >= 1
        &&& self.live() <= self.max_size()
        &&& self.idle_ids().no_duplicates()
        &&& self.outstanding_ids().no_duplicates()
        &&& self.discarded_ids().finite()
        &&& forall|x: u64|
            #[trigger] self.idle_ids().contains(x) ==> !self.outstanding_ids().contains(x)
                && !self.discarded_ids().contains(x) && x < self.id_bound()
        &&& forall|x: u64|
            #[trigger] self.outstanding_ids().contains(x) ==> !self.discarded_ids().contains(x)
                && x < self.id_bound()
        &&& forall|x: u64| #[trigger] self.discarded_ids().contains(x) ==> x < self.id_bound()
    }

    /// What `try_acquire` decides, as a function of the pool's state: reuse
    /// the most recently idled connection when any is idle; otherwise create
    /// a new one when the pool is below its bound (and the identifier space
    /// is not exhausted); otherwise wait.
    pub open spec fn acquire_decision(self) -> Acquire {
        if self.idle_ids().len() > 0 {
            Acquire::Reuse(self.idle_ids().last())
        } else if self.live() < self.max_size() && self.id_bound() < u64::MAX {
            Acquire::Create(self.id_bound())
        } else {
            Acquire::Wait
        }
    }

    /// The acquire decision this pool will make right after one of its
    /// outstanding connections is discarded: the idle set is untouched by a
    /// discard, and the freed slot leaves room for a fresh connection
    /// whenever nothing is idle.
    pub open spec fn acquire_decision_after_discard(self) -> Acquire
        recommends
            self.outstanding_ids().len() > 0,
    {
        if self.idle_ids().len() > 0 {
            Acquire::Reuse(self.idle_ids().last())
        } else if self.live() - 1 < self.max_size() && self.id_bound() < u64::MAX {
            Acquire::Create(self.id_bound())
        } else {
            Acquire::Wait
        }
    }

    /// An empty pool bounded by `max`.
    pub fn new(max: usize) -> (r: Pool)
        requires
            max >= 1,
        ensures
            r.wf(),
            r.max_size() == max,
            r.idle_ids() == Seq::<u64>::empty(),
            r.outstanding_ids() == Seq::<u64>::empty(),
            r.discarded_ids() == Set::<u64>::empty(),
            r.id_bound() == 0,
            r.created() == 0,
    {
        let r = Pool {
            max,
            idle: Vec::new(),
            outstanding: Vec::new(),
            next_id: 0,
            discarded: Ghost(Set::empty()),
        };
        proof {
            assert(r.idle_ids() =~= Seq::<u64>::empty());
            assert(r.outstanding_ids() =~= Seq::<u64>::empty());
        }
        r
    }

    /// Ask for a connection.
    ///
    /// An idle connection is always preferred over creating a new one; a new
    /// one is created only below the pool's bound. When the pool is
    /// exhausted the decision is `Wait` and the pool is left exactly as it
    /// was — so a caller that stops waiting (abandons its request while
    /// suspended) has changed nothing and leaves no trace in the pool's
    /// outstanding count.
    pub fn try_acquire(&mut self) -> (r: Acquire)
        requires
            old(self).wf(),
        ensures
            final(self).wf(),
            r == old(self).acquire_decision(),
            final(self).max_size() == old(self).max_size(),
            final(self).discarded_ids() == old(self).discarded_ids(),
            r matches Acquire::Reuse(id) ==> {
                &&& old(self).idle_ids().len() > 0
                &&& id == old(self).idle_ids().last()
                &&& final(self).idle_ids() == old(self).idle_ids().drop_last()
                &&& final(self).outstanding_ids() == old(self).outstanding_ids().push(id)
                &&& final(self).id_bound() == old(self).id_bound()
            },
            r matches Acquire::Create(id) ==> {
                &&& id == old(self).id_bound()
                &&& !old(self).discarded_ids().contains(id)
                &&& old(self).live() < old(self).max_size()
                &&& final(self).idle_ids() == old(self).idle_ids()
                &&& final(self).outstanding_ids() == old(self).outstanding_ids().push(id)
            },
            r is Wait ==> *final(self) == *old(self),
            final(self).created() == old(self).created() + (match r {
                Acquire::Create(_) => 1nat,
                _ => 0nat,
            }),
    {
        if self.idle.len() > 0 {
            let ghost old_idle = self.idle@;
            let id = self.idle.pop().unwrap();
            self.outstanding.push(id);
            proof {
                assert(old_idle.contains(id)) by {
                    assert(old_idle[old_idle.len() - 1] == id);
                }
                lemma_push_keeps_no_duplicates(old(self).outstanding_ids(), id);
                lemma_drop_last_no_duplicates(old_idle);
                assert forall|x: u64| #[trigger] self.idle_ids().contains(x) implies
                    !self.outstanding_ids().contains(x) && !self.discarded_ids().contains(x)
                        && x < self.id_bound() by {
                    lemma_drop_last_contains(old_idle, x);
                    assert(old_idle.contains(x));
                    assert(x != id);
                    lemma_push_contains(old(self).outstanding_ids(), id, x);
                }
                assert forall|x: u64| #[trigger] self.outstanding_ids().contains(x) implies
                    !self.discarded_ids().contains(x) && x < self.id_bound() by {
                    lemma_push_contains(old(self).outstanding_ids(), id, x);
                    if x != id {
                        assert(old(self).outstanding_ids().contains(x));
                    } else {
                        assert(old_idle.contains(id));
                    }
                }
            }
            Acquire::Reuse(id)
        } else if self.outstanding.len() < self.max && self.next_id < u64::MAX {
            let id = self.next_id;
            self.next_id = id + 1;
            self.outstanding.push(id);
            proof {
                assert(!old(self).outstanding_ids().contains(id));
                lemma_push_keeps_no_duplicates(old(self).outstanding_ids(), id);
                assert forall|x: u64| #[trigger] self.outstanding_ids().contains(x) implies
                    !self.discarded_ids().contains(x) && x < self.id_bound() by {
                    lemma_push_contains(old(self).outstanding_ids(), id, x);
                }
            }
            Acquire::Create(id)
        } else {
            Acquire::Wait
        }
    }

    /// Health-gate a connection that `try_acquire` proposed for reuse, from
    /// the outcome of a non-blocking read probe.
    ///
    /// A silent, error-free connection is healthy and stays checked out for
    /// the caller. On any peer activity, end of stream, or read error the
    /// connection is unhealthy: it is discarded at once, does not count
    /// toward the pool's live total any more, and is never handed out again.
    pub fn recycle_check(&mut self, id: u64, probe: ProbeOutcome) -> (healthy: bool)
        requires
            old(self).wf(),
            old(self).outstanding_ids().contains(id),
        ensures
            final(self).wf(),
            healthy == probe_healthy(probe),
            healthy ==> *final(self) == *old(self),
            !healthy ==> {
                &&& final(self).idle_ids() == old(self).idle_ids()
                &&& !final(self).outstanding_ids().contains(id)
                &&& forall|x: u64|
                    x != id ==> (#[trigger] final(self).outstanding_ids().contains(x)
                        <==> old(self).outstanding_ids().contains(x))
                &&& final(self).outstanding_ids().len() == old(self).outstanding_ids().len() - 1
                &&& final(self).discarded_ids() == old(self).discarded_ids().insert(id)
                &&& final(self).max_size() == old(self).max_size()
                &&& final(self).id_bound() == old(self).id_bound()
            },
    {
        match probe {
            ProbeOutcome::NoActivity => true,
            _ => {
                self.discard(id);
                false
            },
        }
    }

    /// Discard an outstanding connection for good: one whose dial failed, or
    /// one found unhealthy. It no longer counts toward the pool's live
    /// total, so a fresh connection can be created on demand in its place.
    pub fn discard(&mut self, id: u64)
        requires
            old(self).wf(),
            old(self).outstanding_ids().contains(id),
        ensures
            final(self).wf(),
            final(self).idle_ids() == old(self).idle_ids(),
            !final(self).outstanding_ids().contains(id),
            forall|x: u64|
                x != id ==> (#[trigger] final(self).outstanding_ids().contains(x)
                    <==> old(self).outstanding_ids().contains(x)),
            final(self).outstanding_ids().len() == old(self).outstanding_ids().len() - 1,
            final(self).discarded_ids() == old(self).discarded_ids().insert(id),
            final(self).max_size() == old(self).max_size(),
            final(self).id_bound() == old(self).id_bound(),
            final(self).created() == old(self).created(),
    {
        remove_id(&mut self.outstanding, id);
        proof {
            self.discarded@ = self.discarded@.insert(id);
            assert(old(self).discarded_ids().contains(id) == false);
            assert forall|x: u64| #[trigger] self.idle_ids().contains(x) implies
                !self.outstanding_ids().contains(x) && !self.discarded_ids().contains(x)
                    && x < self.id_bound() by {
                assert(!old(self).outstanding_ids().contains(x));
                assert(x != id);
            }
            assert forall|x: u64| #[trigger] self.outstanding_ids().contains(x) implies
                !self.discarded_ids().contains(x) && x < self.id_bound() by {
                assert(x != id);
                assert(old(self).outstanding_ids().contains(x));
            }
        }
    }

    /// Return a checked-out connection to the idle set, where the next
    /// acquisition may pick it up (after the usual health gate). Returns
    /// `false`, changing nothing, if the identifier is not outstanding.
    pub fn release(&mut self, id: u64) -> (accepted: bool)
        requires
            old(self).wf(),
        ensures
            final(self).wf(),
            accepted == old(self).outstanding_ids().contains(id),
            !accepted ==> *final(self) == *old(self),
            accepted ==> {
                &&& final(self).idle_ids() == old(self).idle_ids().push(id)
                &&& !final(self).outstanding_ids().contains(id)
                &&& forall|x: u64|
                    x != id ==> (#[trigger] final(self).outstanding_ids().contains(x)
                        <==> old(self).outstanding_ids().contains(x))
                &&& final(self).outstanding_ids().len() == old(self).outstanding_ids().len() - 1
                &&& final(self).discarded_ids() == old(self).discarded_ids()
                &&& final(self).max_size() == old(self).max_size()
                &&& final(self).id_bound() == old(self).id_bound()
                &&& final(self).created() == old(self).created()
            },
    {
        if !contains_id(&self.outstanding, id) {
            return false;
        }
        remove_id(&mut self.outstanding, id);
        self.idle.push(id);
        proof {
            assert(!old(self).idle_ids().contains(id));
            lemma_push_keeps_no_duplicates(old(self).idle_ids(), id);
            assert forall|x: u64| #[trigger] self.idle_ids().contains(x) implies
                !self.outstanding_ids().contains(x) && !self.discarded_ids().contains(x)
                    && x < self.id_bound() by {
                lemma_push_contains(old(self).idle_ids(), id, x);
                if x != id {
                    assert(old(self).idle_ids().contains(x));
                } else {
                    assert(old(self).outstanding_ids().contains(id));
                }
            }
            assert forall|x: u64| #[trigger] self.outstanding_ids().contains(x) implies
                !self.discarded_ids().contains(x) && x < self.id_bound() by {
                assert(x != id);
                assert(old(self).outstanding_ids().contains(x));
            }
        }
        true
    }

    /// Whether this identifier is currently checked out of the pool.
    pub fn is_outstanding(&self, id: u64) -> (b: bool)
        ensures
            b == self.outstanding_ids().contains(id),
    {
        contains_id(&self.outstanding, id)
    }

    /// A point-in-time summary of the pool.
    pub fn status(&self) -> (st: PoolStatus)
        requires
            self.wf(),
        ensures
            st.size == self.live(),
            st.available == self.idle_ids().len(),
            st.max_size == self.max_size(),
    {
        PoolStatus {
            size: self.idle.len() + self.outstanding.len(),
            available: self.idle.len(),
            max_size: self.max,
        }
    }
}

/// However many requests a pool serves, at most `max_size` connections are
/// ever live at once, so the connections ever created number at most
/// `max_size` plus those discarded as unhealthy or failed. In particular, a
/// sequence of requests over healthy connections — where nothing is ever
/// discarded — creates at most `max_size` connections in total.
pub proof fn lemma_connection_budget(p: Pool)
    requires
        p.wf(),
    ensures
        p.created() <= p.max_size() + p.discarded_ids().len(),
{
}

/// A discarded connection is gone for good: whatever the pool decides next,
/// it never proposes a discarded identifier, neither for reuse nor as the
/// identity of a new connection.
pub proof fn lemma_discarded_never_reissued(p: Pool, id: u64)
    requires
        p.wf(),
        p.discarded_ids().contains(id),
    ensures
        p.acquire_decision() matches Acquire::Reuse(r) ==> r != id,
        p.acquire_decision() matches Acquire::Create(c) ==> c != id,
{
    if p.idle_ids().len() > 0 {
        assert(p.idle_ids().contains(p.idle_ids().last()));
    }
}

/// An idle connection is always preferred over creating a new one: whenever
/// any connection is idle, the acquire decision is to reuse one.
pub proof fn lemma_reuse_preferred(p: Pool)
    requires
        p.wf(),
        p.idle_ids().len() > 0,
    ensures
        p.acquire_decision() matches Acquire::Reuse(id) && id == p.idle_ids().last(),
{
}

/// Exact membership test on a vector of identifiers.
fn contains_id(v: &Vec<u64>, id: u64) -> (b: bool)
    ensures
        b == v@.contains(id),
{
    let mut i: usize = 0;
    while i < v.len()
        invariant
            i <= v@.len(),
            forall|j: int| 0 <= j < i ==> v@[j] != id,
        decreases v@.len() - i,
    {
        if v[i] == id {
            return true;
        }
        i = i + 1;
    }
    false
}

/// Remove the one occurrence of `id` from a duplicate-free vector.
fn remove_id(v: &mut Vec<u64>, id: u64)
    requires
        old(v)@.no_duplicates(),
        old(v)@.contains(id),
    ensures
        final(v)@.no_duplicates(),
        !final(v)@.contains(id),
        final(v)@.len() == old(v)@.len() - 1,
        forall|x: u64| x != id ==> (#[trigger] final(v)@.contains(x) <==> old(v)@.contains(x)),
{
    let ghost s = v@;
    let mut i: usize = 0;
    while i < v.len() && v[i] != id
        invariant
            v@ == s,
            i <= s.len(),
            forall|j: int| 0 <= j < i ==> s[j] != id,
            s.contains(id),
        decreases s.len() - i,
    {
        i = i + 1;
    }
    proof {
        assert(i < s.len() && s[i as int] == id) by {
            if i >= s.len() {
                let k = choose|k: int| 0 <= k < s.len() && s[k] == id;
                assert(s[k] != id);
            }
        }
    }
    v.remove(i);
    proof {
        s.remove_ensures(i as int);
        let t = v@;
        assert forall|x: u64| t.contains(x) implies s.contains(x) && (x == id ==> false) by {
            let k = choose|k: int| 0 <= k < t.len() && t[k] == x;
            if k < i {
                assert(s[k] == x);
            } else {
                assert(s[k + 1] == x);
                if x == id {
                    assert(s[k + 1] == s[i as int]);
                    assert(k + 1 != i);
                }
            }
        }
        assert forall|x: u64| x != id && s.contains(x) implies t.contains(x) by {
            let k = choose|k: int| 0 <= k < s.len() && s[k] == x;
            if k < i {
                assert(t[k] == x);
            } else {
                assert(k != i);
                assert(t[k - 1] == s[k]);
            }
        }
        assert forall|a: int, b: int| 0 <= a < t.len() && 0 <= b < t.len() && a != b implies t[a]
            != t[b] by {
            let sa: int = if a < i { a } else { a + 1 };
            let sb: int = if b < i { b } else { b + 1 };
            assert(t[a] == s[sa] && t[b] == s[sb]);
        }
    }
}

} // verus!
