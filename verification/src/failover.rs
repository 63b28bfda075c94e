//! Candidate addresses for one request, tried in resolver order.

use vstd::prelude::*;

use crate::error::SendError;
use crate::target::RemoteAddress;

verus! {

/// The candidate addresses of one request and which one is being tried.
///
/// Candidates are tried strictly in resolver-returned order. A candidate's
/// failure advances to the next; the last candidate's failure ends the
/// request. The list belongs to one request alone: a candidate that failed
/// is not remembered, so the next request tries it afresh.
pub struct Failover {
    addrs: Vec<RemoteAddress>,
    idx: usize,
}

impl Failover {
    /// The candidate addresses, in resolver-returned order.
    pub closed spec fn candidates(self) -> Seq<RemoteAddress> {
        self.addrs@
    }

    /// The position of the candidate currently being tried.
    pub closed spec fn position(self) -> nat {
        self.idx as nat
    }

    /// The candidate currently being tried.
    pub open spec fn current_addr(self) -> RemoteAddress {
        self.candidates()[self.position() as int]
    }

    /// There is always a current candidate.
    pub open spec fn wf(self) -> bool {
        self.position() < self.candidates().len()
    }

    /// Start failover over what the resolver produced: the candidates in its
    /// order, starting at the first. Fails with `ResolutionError` exactly
    /// when resolution failed or produced no address at all.
    pub fn begin(resolved: Option<Vec<RemoteAddress>>) -> (r: Result<Failover, SendError>)
        ensures
            r is Err <==> (resolved is None || (resolved matches Some(a) && a@.len() == 0)),
            r matches Err(e) ==> e is ResolutionError,
            r matches Ok(f) ==> {
                &&& resolved matches Some(a) && f.candidates() == a@
                &&& f.position() == 0
                &&& f.wf()
            },
    {
        match resolved {
            None => Err(SendError::ResolutionError),
            Some(addrs) => {
                if addrs.len() == 0 {
                    Err(SendError::ResolutionError)
                } else {
                    Ok(Failover { addrs, idx: 0 })
                }
            },
        }
    }

    /// The candidate currently being tried.
    pub fn current(&self) -> (a: &RemoteAddress)
        requires
            self.wf(),
        ensures
            *a == self.current_addr(),
    {
        &self.addrs[self.idx]
    }

    /// Whether a candidate after the current one remains.
    pub fn has_another(&self) -> (b: bool)
        requires
            self.wf(),
        ensures
            b == (self.position() + 1 < self.candidates().len()),
    {
        let n = self.addrs.len();
        self.idx + 1 < n
    }

    /// Record that the current candidate failed to produce a usable
    /// connection. While further candidates remain this advances to the
    /// next, in order, and the request goes on; once the last candidate has
    /// failed, the request fails with `NoUsableAddress`.
    pub fn on_candidate_failure(&mut self) -> (r: Option<SendError>)
        requires
            old(self).wf(),
        ensures
            final(self).wf(),
            final(self).candidates() == old(self).candidates(),
            old(self).position() + 1 < old(self).candidates().len() ==> {
                &&& r is None
                &&& final(self).position() == old(self).position() + 1
            },
            old(self).position() + 1 >= old(self).candidates().len() ==> {
                &&& r == Some(SendError::NoUsableAddress)
                &&& *final(self) == *old(self)
            },
    {
        let n = self.addrs.len();
        if self.idx + 1 < n {
            self.idx = self.idx + 1;
            None
        } else {
            Some(SendError::NoUsableAddress)
        }
    }
}

} // verus!
