//! The pooling HTTP/1.x client and the session state machine that drives
//! one `send`.
//!
//! The client owns one pool registry per scheme and the configuration. A
//! `send` is a session: the embedding runtime starts it with
//! [`session_new`], performs each returned [`SessionAction`] (resolve, dial,
//! probe, wait, exchange), and feeds the outcome back through
//! [`session_step`] until the action is `Finish`. All decisions — scheme
//! validation, candidate order, pool bookkeeping, the health gate, when to
//! fail — are made here; the runtime only moves bytes.
//!
//! A registry lookup never spans a suspension point: every `session_step`
//! call completes its pool work before returning the action on which the
//! runtime may suspend, so no registry access is held across an await.

use vstd::prelude::*;

use crate::config::Config;
use crate::error::CreateFailure;
use crate::error::SendError;
use crate::failover::Failover;
use crate::pool::Acquire;
use crate::pool::PoolStatus;
use crate::pool::ProbeOutcome;
use crate::pool::probe_healthy;
use crate::registry::Registry;
use crate::target::RemoteAddress;
use crate::target::Scheme;
use crate::target::Target;
use crate::target::UrlParts;
use crate::target::default_port;
use crate::target::parse_scheme;
use crate::target::scheme_of;

verus! {

/// The default bound on simultaneous connections per host.
pub const DEFAULT_MAX_CONCURRENT_CONNECTIONS: usize = 50;

/// An HTTP/1.x client with per-address connection pooling ("keep-alive").
pub struct H1Client {
    http_pools: Registry,
    https_pools: Registry,
    max_concurrent_connections: usize,
    config: Option<Config>,
}

impl H1Client {
    /// The registry of plaintext pools.
    pub closed spec fn http_registry(self) -> Registry {
        self.http_pools
    }

    /// The registry of TLS pools.
    pub closed spec fn https_registry(self) -> Registry {
        self.https_pools
    }

    /// The connection bound used when no configuration is installed.
    pub closed spec fn max_concurrent(self) -> usize {
        self.max_concurrent_connections
    }

    /// The installed configuration, if any.
    pub closed spec fn spec_config(self) -> Option<Config> {
        self.config
    }

    /// The registry serving a scheme.
    pub open spec fn pools_of(self, scheme: Scheme) -> Registry {
        match scheme {
            Scheme::Http => self.http_registry(),
            Scheme::Https => self.https_registry(),
        }
    }

    /// The client's invariant: both registries well-formed, and a
    /// connection bound of at least one, wherever it comes from.
    pub open spec fn wf(self) -> bool {
        &&& self.http_registry().wf()
        &&& self.https_registry().wf()
        &&& self.max_concurrent() >= 1
        &&& (self.spec_config() matches Some(c) ==> c.wf())
    }

    /// The effective per-host connection bound: the configuration's where
    /// one is installed, the client's own otherwise.
    pub open spec fn spec_effective_max(self) -> usize {
        match self.spec_config() {
            Some(c) => c.max_connections_per_host,
            None => self.max_concurrent(),
        }
    }

    /// The effective TCP `NO_DELAY` setting.
    pub open spec fn spec_effective_no_delay(self) -> bool {
        match self.spec_config() {
            Some(c) => c.tcp_no_delay,
            None => false,
        }
    }

    /// The effective connect timeout, in milliseconds.
    pub open spec fn spec_effective_timeout(self) -> Option<u64> {
        match self.spec_config() {
            Some(c) => c.timeout,
            None => Some(60_000u64),
        }
    }

    /// Whether a custom TLS configuration is installed (as opposed to the
    /// default trust store).
    pub open spec fn spec_has_custom_tls(self) -> bool {
        match self.spec_config() {
            Some(c) => c.tls_config is Some,
            None => false,
        }
    }

    /// A new client with the default connection bound and no configuration.
    pub fn new() -> (r: H1Client)
        ensures
            r.wf(),
            r.http_registry().len() == 0,
            r.https_registry().len() == 0,
            r.max_concurrent() == DEFAULT_MAX_CONCURRENT_CONNECTIONS,
            r.spec_config() is None,
    {
        H1Client {
            http_pools: Registry::new(),
            https_pools: Registry::new(),
            max_concurrent_connections: DEFAULT_MAX_CONCURRENT_CONNECTIONS,
            config: None,
        }
    }

    /// A new client bounded to `max` simultaneous connections per host.
    ///
    /// A bound of zero could never satisfy any request, so it is refused
    /// here, at configuration time.
    pub fn with_max_connections(max: usize) -> (r: H1Client)
        requires
            max >= 1,
        ensures
            r.wf(),
            r.http_registry().len() == 0,
            r.https_registry().len() == 0,
            r.max_concurrent() == max,
            r.spec_config() is None,
    {
        H1Client {
            http_pools: Registry::new(),
            https_pools: Registry::new(),
            max_concurrent_connections: max,
            config: None,
        }
    }

    /// Replace the client's configuration with `config`.
    pub fn override_config(&mut self, config: Config)
        requires
            old(self).wf(),
            config.wf(),
        ensures
            final(self).wf(),
            final(self).spec_config() == Some(config),
            final(self).http_registry() == old(self).http_registry(),
            final(self).https_registry() == old(self).https_registry(),
            final(self).max_concurrent() == old(self).max_concurrent(),
    {
        self.config = Some(config);
    }

    /// The installed configuration, if any.
    pub fn config(&self) -> (r: Option<&Config>)
        ensures
            match r {
                Some(c) => self.spec_config() == Some(*c),
                None => self.spec_config() is None,
            },
    {
        self.config.as_ref()
    }

    /// The effective per-host connection bound.
    pub fn effective_max(&self) -> (r: usize)
        ensures
            r == self.spec_effective_max(),
    {
        match &self.config {
            Some(c) => c.max_connections_per_host,
            None => self.max_concurrent_connections,
        }
    }

    /// The effective TCP `NO_DELAY` setting.
    pub fn effective_no_delay(&self) -> (r: bool)
        ensures
            r == self.spec_effective_no_delay(),
    {
        match &self.config {
            Some(c) => c.tcp_no_delay,
            None => false,
        }
    }

    /// The effective connect timeout, in milliseconds.
    pub fn effective_timeout(&self) -> (r: Option<u64>)
        ensures
            r == self.spec_effective_timeout(),
    {
        match &self.config {
            Some(c) => c.timeout,
            None => Some(60_000),
        }
    }

    /// Whether a custom TLS configuration is installed.
    pub fn has_custom_tls(&self) -> (r: bool)
        ensures
            r == self.spec_has_custom_tls(),
    {
        match &self.config {
            Some(c) => c.tls_config.is_some(),
            None => false,
        }
    }

    /// Abandon a checked-out connection whose use was cancelled before it
    /// could be returned: it is discarded for good, so the slot it held is
    /// freed and a fresh connection can be created on demand. Returns
    /// `false`, changing nothing, if no such connection is checked out.
    pub fn abandon(&mut self, scheme: Scheme, addr: &RemoteAddress, id: u64) -> (found: bool)
        requires
            old(self).wf(),
        ensures
            final(self).wf(),
            final(self).spec_config() == old(self).spec_config(),
            final(self).max_concurrent() == old(self).max_concurrent(),
            found == (old(self).pools_of(scheme).has(*addr) && old(self).pools_of(
                scheme,
            ).pool_for(*addr).outstanding_ids().contains(id)),
            !found ==> final(self).pools_of(scheme).pool_seq() == old(self).pools_of(
                scheme,
            ).pool_seq(),
            found ==> {
                &&& final(self).pools_of(scheme).pool_for(*addr).discarded_ids() == old(
                    self,
                ).pools_of(scheme).pool_for(*addr).discarded_ids().insert(id)
                &&& !final(self).pools_of(scheme).pool_for(*addr).outstanding_ids().contains(id)
                &&& final(self).pools_of(scheme).pool_for(*addr).idle_ids() == old(self).pools_of(
                    scheme,
                ).pool_for(*addr).idle_ids()
            },
    {
        match scheme {
            Scheme::Http => self.http_pools.discard_at(addr, id),
            Scheme::Https => self.https_pools.discard_at(addr, id),
        }
    }

    /// The status of every pool serving `scheme`, in creation order: what a
    /// diagnostic rendering of the client shows.
    pub fn pool_statuses(&self, scheme: Scheme) -> (r: Vec<PoolStatus>)
        requires
            self.wf(),
        ensures
            r@.len() == self.pools_of(scheme).len(),
            forall|i: int|
                0 <= i < self.pools_of(scheme).len() ==> {
                    &&& (#[trigger] r@[i]).size == self.pools_of(scheme).pool_seq()[i].live()
                    &&& r@[i].available == self.pools_of(scheme).pool_seq()[i].idle_ids().len()
                    &&& r@[i].max_size == self.pools_of(scheme).pool_seq()[i].max_size()
                },
    {
        match scheme {
            Scheme::Http => self.http_pools.statuses(),
            Scheme::Https => self.https_pools.statuses(),
        }
    }

    /// The status of the pool serving `addr` under `scheme`, if one exists.
    pub fn status_of(&self, scheme: Scheme, addr: &RemoteAddress) -> (r: Option<PoolStatus>)
        requires
            self.wf(),
        ensures
            (r is Some) == self.pools_of(scheme).has(*addr),
            r matches Some(st) ==> {
                &&& st.size == self.pools_of(scheme).pool_for(*addr).live()
                &&& st.available == self.pools_of(scheme).pool_for(*addr).idle_ids().len()
                &&& st.max_size == self.pools_of(scheme).pool_for(*addr).max_size()
            },
    {
        match scheme {
            Scheme::Http => self.http_pools.status_at(addr),
            Scheme::Https => self.https_pools.status_at(addr),
        }
    }
}

impl Default for H1Client {
    /// Same as [`H1Client::new`].
    fn default() -> (r: Self)
        ensures
            r.wf(),
            r.http_registry().len() == 0,
            r.https_registry().len() == 0,
            r.max_concurrent() == DEFAULT_MAX_CONCURRENT_CONNECTIONS,
            r.spec_config() is None,
    {
        H1Client::new()
    }
}

/// How to dial the TLS layer of a new connection.
pub struct TlsDial {
    /// The hostname to present (server name indication and certificate
    /// validation).
    pub host: String,
    /// Use the installed TLS configuration; otherwise a default trust
    /// store.
    pub use_custom_config: bool,
}

/// Where one `send` session stands.
pub enum SessionState {
    /// The target is validated; its host is being resolved.
    Resolving { target: Target },
    /// A new connection is being dialed for the current candidate.
    Dialing { target: Target, fo: Failover, id: u64 },
    /// An idle connection proposed for reuse is being probed.
    Probing { target: Target, fo: Failover, id: u64 },
    /// The current candidate's pool is exhausted; waiting for a release.
    Waiting { target: Target, fo: Failover },
    /// A connection is checked out and the request is with the codec.
    Exchanging { target: Target, addr: RemoteAddress, id: u64 },
    /// Terminal: the response was returned.
    Done,
    /// Terminal: the session failed.
    Failed { error: SendError },
}

/// What the runtime reports back to the session.
pub enum SessionEvent {
    /// Resolution finished: the candidate addresses in resolver order, or
    /// `None` if resolution itself failed.
    Resolved { addrs: Option<Vec<RemoteAddress>> },
    /// The dial (and TLS handshake, where asked) finished.
    DialDone { result: Result<(), CreateFailure> },
    /// The non-blocking read probe finished.
    Probed { outcome: ProbeOutcome },
    /// A connection was released while the session was waiting.
    PoolFreed,
    /// The protocol exchange finished, well or badly.
    ExchangeDone { ok: bool },
}

/// What the runtime must do next.
pub enum SessionAction {
    /// Resolve `host:port` to candidate addresses.
    Resolve { host: String, port: u16 },
    /// Dial `addr`, apply `no_delay`, bound dial and handshake by
    /// `timeout` milliseconds, wrap in TLS where `tls` says so, and
    /// register the connection under `id`.
    Dial { id: u64, addr: RemoteAddress, no_delay: bool, timeout: Option<u64>, tls: Option<TlsDial> },
    /// Probe connection `id` with a non-blocking read, re-applying
    /// `no_delay` first.
    Probe { id: u64, no_delay: bool },
    /// Wait until some connection of the current candidate's pool is
    /// released, then report `PoolFreed`.
    WaitForPool,
    /// Hand connection `id` and the request to the protocol codec.
    Exchange { id: u64 },
    /// The session is over: return the codec's response (`Ok`) or this
    /// error.
    Finish { result: Result<(), SendError> },
}

/// What carrying out one acquire decision `d`, for the candidate at `pos`
/// of `cands`, makes of the session.
///
/// The next state keeps the target and stays at that candidate, and the
/// emitted action's parameters are fixed by the deciding client `c0` and
/// the target: a reuse is probed with the configured TCP `NO_DELAY`
/// re-applied; a creation dials exactly that candidate, applies the
/// configured `NO_DELAY`, is bounded by the configured connect timeout,
/// and carries TLS parameters exactly for "https" — presenting the
/// target's host as server name and selecting the custom TLS configuration
/// exactly when one is installed, a default trust store otherwise; an
/// exhausted pool makes the runtime wait. In particular the session does
/// not finish on any of these decisions.
pub open spec fn continuation_for(
    d: Acquire,
    c0: H1Client,
    target: Target,
    cands: Seq<RemoteAddress>,
    pos: nat,
    r: (SessionState, SessionAction),
) -> bool {
    &&& (state_failover(r.0) matches Some(f2) && f2.candidates() == cands && f2.position() == pos)
    &&& (d matches Acquire::Reuse(id) ==> {
        &&& r.0 matches SessionState::Probing { target: t2, id: id2, .. } && t2 == target && id2
            == id
        &&& r.1 matches SessionAction::Probe { id: pid, no_delay } && pid == id && no_delay
            == c0.spec_effective_no_delay()
    })
    &&& (d matches Acquire::Create(id) ==> {
        &&& r.0 matches SessionState::Dialing { target: t2, id: id2, .. } && t2 == target && id2
            == id
        &&& r.1 matches SessionAction::Dial { id: did, addr, no_delay, timeout, tls } && did == id
            && addr == cands[pos as int] && no_delay == c0.spec_effective_no_delay() && timeout
            == c0.spec_effective_timeout() && ((target.scheme is Https) == (tls is Some)) && (
        tls matches Some(td) ==> td.host@ == target.host@ && td.use_custom_config
            == c0.spec_has_custom_tls())
    })
    &&& (d is Wait ==> {
        &&& r.0 matches SessionState::Waiting { target: t2, .. } && t2 == target
        &&& r.1 is WaitForPool
    })
}

/// The failover state a session carries, if it carries one.
pub open spec fn state_failover(s: SessionState) -> Option<Failover> {
    match s {
        SessionState::Dialing { fo, .. } => Some(fo),
        SessionState::Probing { fo, .. } => Some(fo),
        SessionState::Waiting { fo, .. } => Some(fo),
        _ => None,
    }
}

/// A session state is coherent with the client: its failover has a current
/// candidate, and the connection it speaks of is checked out of the pool it
/// speaks of.
pub open spec fn session_wf(client: H1Client, s: SessionState) -> bool {
    match s {
        SessionState::Resolving { target } => true,
        SessionState::Waiting { target, fo } => fo.wf(),
        SessionState::Dialing { target, fo, id } => fo.wf() && client.pools_of(target.scheme).has(
            fo.current_addr(),
        ) && client.pools_of(target.scheme).pool_for(fo.current_addr()).outstanding_ids().contains(
            id,
        ),
        SessionState::Probing { target, fo, id } => fo.wf() && client.pools_of(target.scheme).has(
            fo.current_addr(),
        ) && client.pools_of(target.scheme).pool_for(fo.current_addr()).outstanding_ids().contains(
            id,
        ),
        SessionState::Exchanging { target, addr, id } => client.pools_of(target.scheme).has(addr)
            && client.pools_of(target.scheme).pool_for(addr).outstanding_ids().contains(id),
        SessionState::Done => true,
        SessionState::Failed { error } => true,
    }
}

/// Which events a state can consume. Terminal states consume none.
pub open spec fn event_fits(s: SessionState, e: SessionEvent) -> bool {
    match (s, e) {
        (SessionState::Resolving { .. }, SessionEvent::Resolved { .. }) => true,
        (SessionState::Dialing { .. }, SessionEvent::DialDone { .. }) => true,
        (SessionState::Probing { .. }, SessionEvent::Probed { .. }) => true,
        (SessionState::Waiting { .. }, SessionEvent::PoolFreed) => true,
        (SessionState::Exchanging { .. }, SessionEvent::ExchangeDone { .. }) => true,
        _ => false,
    }
}

/// Start a `send` session for a request aimed at `url`.
///
/// The scheme is validated first: anything but "http" or "https" fails the
/// session immediately with `InvalidScheme` — no resolution and no
/// connection is ever asked for, since the only action such a session emits
/// is `Finish`. A URL without a host fails with `MissingHost` the same way.
/// Otherwise the session asks for resolution of the host and the effective
/// port: the URL's explicit port, or the scheme's default (80 for "http",
/// 443 for "https").
pub fn session_new(url: &UrlParts) -> (r: (SessionState, SessionAction))
    ensures
        scheme_of(url.scheme@) is None ==> r.0 == (SessionState::Failed {
            error: SendError::InvalidScheme,
        }) && r.1 == (SessionAction::Finish { result: Err(SendError::InvalidScheme) }),
        scheme_of(url.scheme@) is Some && url.host is None ==> r.0 == (SessionState::Failed {
            error: SendError::MissingHost,
        }) && r.1 == (SessionAction::Finish { result: Err(SendError::MissingHost) }),
        scheme_of(url.scheme@) matches Some(sch) ==> (url.host matches Some(h) ==> {
            &&& r.0 matches SessionState::Resolving { target } && target.scheme == sch
                && target.host@ == h@ && target.port == Target::effective_port(sch, url.port)
            &&& r.1 matches SessionAction::Resolve { host, port } && host@ == h@ && port
                == Target::effective_port(sch, url.port)
        }),
{
    match parse_scheme(url.scheme.as_str()) {
        None => (
            SessionState::Failed { error: SendError::InvalidScheme },
            SessionAction::Finish { result: Err(SendError::InvalidScheme) },
        ),
        Some(scheme) => match &url.host {
            None => (
                SessionState::Failed { error: SendError::MissingHost },
                SessionAction::Finish { result: Err(SendError::MissingHost) },
            ),
            Some(h) => {
                let port = match url.port {
                    Some(p) => p,
                    None => default_port(scheme),
                };
                let target = Target { scheme, host: h.clone(), port };
                (
                    SessionState::Resolving { target },
                    SessionAction::Resolve { host: h.clone(), port },
                )
            },
        },
    }
}

/// Ask the current candidate's pool for a connection and turn the decision
/// into the session's next state and action. The failover state — which
/// candidate is being tried, in which list — is carried through unchanged.
fn advance_acquire(client: &mut H1Client, target: Target, fo: Failover) -> (r: (
    SessionState,
    SessionAction,
))
    requires
        old(client).wf(),
        fo.wf(),
    ensures
        final(client).wf(),
        session_wf(*final(client), r.0),
        final(client).spec_config() == old(client).spec_config(),
        final(client).max_concurrent() == old(client).max_concurrent(),
        state_failover(r.0) matches Some(f2) ==> f2 == fo,
        target.scheme is Http ==> final(client).https_registry() == old(client).https_registry(),
        target.scheme is Https ==> final(client).http_registry() == old(client).http_registry(),
        forall|a: RemoteAddress|
            a != fo.current_addr() && #[trigger] old(client).pools_of(target.scheme).has(a)
                ==> final(client).pools_of(target.scheme).pool_for(a) == old(client).pools_of(
                target.scheme,
            ).pool_for(a),
        forall|a: RemoteAddress|
            #[trigger] old(client).pools_of(target.scheme).has(a) ==> final(client).pools_of(
                target.scheme,
            ).has(a) && final(client).pools_of(target.scheme).pool_for(a).discarded_ids() == old(
                client,
            ).pools_of(target.scheme).pool_for(a).discarded_ids(),
        continuation_for(
            old(client).pools_of(target.scheme).acquire_decision_at(fo.current_addr()),
            *old(client),
            target,
            fo.candidates(),
            fo.position(),
            r,
        ),
        old(client).pools_of(target.scheme).acquire_decision_at(fo.current_addr()) is Wait
            ==> final(client).pools_of(target.scheme).pool_seq() == old(client).pools_of(
            target.scheme,
        ).pool_seq(),
{
    let addr = *fo.current();
    let max = client.effective_max();
    let decision = match target.scheme {
        Scheme::Http => client.http_pools.acquire_at(addr, max),
        Scheme::Https => client.https_pools.acquire_at(addr, max),
    };
    match decision {
        Acquire::Reuse(id) => {
            let no_delay = client.effective_no_delay();
            (
                SessionState::Probing { target, fo, id },
                SessionAction::Probe { id, no_delay },
            )
        },
        Acquire::Create(id) => {
            let no_delay = client.effective_no_delay();
            let timeout = client.effective_timeout();
            let tls = match target.scheme {
                Scheme::Http => None,
                Scheme::Https => Some(
                    TlsDial { host: target.host.clone(), use_custom_config: client.has_custom_tls() },
                ),
            };
            (
                SessionState::Dialing { target, fo, id },
                SessionAction::Dial { id, addr, no_delay, timeout, tls },
            )
        },
        Acquire::Wait => (SessionState::Waiting { target, fo }, SessionAction::WaitForPool),
    }
}

/// Drive one `send` session by one event.
///
/// The transitions follow the dispatcher's rules exactly:
/// - resolution that failed or produced no address fails the session with
///   `ResolutionError`;
/// - a failed dial discards the dialed connection and moves to the next
///   candidate, in resolver order; when no candidate remains the session
///   fails with `NoUsableAddress`;
/// - an unhealthy idle connection is discarded and the same candidate is
///   asked again — failover does not advance for it;
/// - after the exchange the connection returns to its pool on every path;
///   and a failed exchange is terminal, `ProtocolError`: it is never
///   retried against another candidate, since bytes may already have been
///   written to the wire.
///
/// Every transition that asks a pool for a connection — after a successful
/// resolution, after a failed dial with candidates left, after an unhealthy
/// probe, and after a wait ends — pins the next state and the emitted
/// action through [`continuation_for`]: which connection is probed or
/// dialed, with which socket, timeout and TLS parameters, and that the
/// session goes on rather than finishing.
pub fn session_step(client: &mut H1Client, state: SessionState, event: SessionEvent) -> (r: (
    SessionState,
    SessionAction,
))
    requires
        old(client).wf(),
        session_wf(*old(client), state),
        event_fits(state, event),
    ensures
        final(client).wf(),
        session_wf(*final(client), r.0),
        final(client).spec_config() == old(client).spec_config(),
        final(client).max_concurrent() == old(client).max_concurrent(),
        state matches SessionState::Resolving { target } ==> (event
            matches SessionEvent::Resolved { addrs } ==> {
            &&& (addrs is None || (addrs matches Some(a) && a@.len() == 0)) ==> r.0
                == (SessionState::Failed { error: SendError::ResolutionError }) && r.1
                == (SessionAction::Finish { result: Err(SendError::ResolutionError) })
            &&& addrs matches Some(a) ==> (a@.len() > 0 ==> {
                &&& continuation_for(
                    old(client).pools_of(target.scheme).acquire_decision_at(a@[0]),
                    *old(client),
                    target,
                    a@,
                    0,
                    r,
                )
                &&& old(client).pools_of(target.scheme).acquire_decision_at(a@[0]) is Wait
                    ==> final(client).pools_of(target.scheme).pool_seq() == old(client).pools_of(
                    target.scheme,
                ).pool_seq()
            })
        }),
        state matches SessionState::Dialing { target, fo, id } ==> (event
            matches SessionEvent::DialDone { result } ==> {
            &&& result is Ok ==> {
                &&& r.0 matches SessionState::Exchanging { target: t2, addr, id: id2 } && t2
                    == target && addr == fo.current_addr() && id2 == id
                &&& r.1 == (SessionAction::Exchange { id })
            }
            &&& result is Err ==> {
                &&& final(client).pools_of(target.scheme).pool_for(
                    fo.current_addr(),
                ).discarded_ids().contains(id)
                &&& (fo.position() + 1 < fo.candidates().len() ==> ({
                    let next = fo.candidates()[fo.position() as int + 1];
                    let d = if next == fo.current_addr() {
                        old(client).pools_of(target.scheme).pool_for(
                            fo.current_addr(),
                        ).acquire_decision_after_discard()
                    } else {
                        old(client).pools_of(target.scheme).acquire_decision_at(next)
                    };
                    continuation_for(
                        d,
                        *old(client),
                        target,
                        fo.candidates(),
                        fo.position() + 1,
                        r,
                    )
                }))
                &&& (fo.position() + 1 >= fo.candidates().len() ==> r.0 == (SessionState::Failed {
                    error: SendError::NoUsableAddress,
                }) && r.1 == (SessionAction::Finish { result: Err(SendError::NoUsableAddress) }))
            }
        }),
        state matches SessionState::Probing { target, fo, id } ==> (event
            matches SessionEvent::Probed { outcome } ==> {
            &&& probe_healthy(outcome) ==> {
                &&& r.0 matches SessionState::Exchanging { target: t2, addr, id: id2 } && t2
                    == target && addr == fo.current_addr() && id2 == id
                &&& r.1 == (SessionAction::Exchange { id })
                &&& final(client).pools_of(target.scheme).pool_seq() == old(client).pools_of(
                    target.scheme,
                ).pool_seq()
            }
            &&& !probe_healthy(outcome) ==> {
                &&& final(client).pools_of(target.scheme).pool_for(
                    fo.current_addr(),
                ).discarded_ids().contains(id)
                &&& continuation_for(
                    old(client).pools_of(target.scheme).pool_for(
                        fo.current_addr(),
                    ).acquire_decision_after_discard(),
                    *old(client),
                    target,
                    fo.candidates(),
                    fo.position(),
                    r,
                )
            }
        }),
        state matches SessionState::Waiting { target, fo } ==> (event is PoolFreed ==> {
            &&& continuation_for(
                old(client).pools_of(target.scheme).acquire_decision_at(fo.current_addr()),
                *old(client),
                target,
                fo.candidates(),
                fo.position(),
                r,
            )
            &&& old(client).pools_of(target.scheme).acquire_decision_at(fo.current_addr()) is Wait
                ==> final(client).pools_of(target.scheme).pool_seq() == old(client).pools_of(
                target.scheme,
            ).pool_seq()
        }),
        state matches SessionState::Exchanging { target, addr, id } ==> (event
            matches SessionEvent::ExchangeDone { ok } ==> {
            &&& final(client).pools_of(target.scheme).pool_for(addr).idle_ids() == old(
                client,
            ).pools_of(target.scheme).pool_for(addr).idle_ids().push(id)
            &&& ok ==> r.0 is Done && r.1 == (SessionAction::Finish { result: Ok(()) })
            &&& !ok ==> r.0 == (SessionState::Failed { error: SendError::ProtocolError }) && r.1
                == (SessionAction::Finish { result: Err(SendError::ProtocolError) })
        }),
{
    let ghost c0 = *client;
    match (state, event) {
        (SessionState::Resolving { target }, SessionEvent::Resolved { addrs }) => {
            match Failover::begin(addrs) {
                Err(e) => (
                    SessionState::Failed { error: e },
                    SessionAction::Finish { result: Err(e) },
                ),
                Ok(fo) => advance_acquire(client, target, fo),
            }
        },
        (SessionState::Dialing { target, fo, id }, SessionEvent::DialDone { result }) => {
            match result {
                Ok(()) => {
                    let addr = *fo.current();
                    (
                        SessionState::Exchanging { target, addr, id },
                        SessionAction::Exchange { id },
                    )
                },
                Err(_failure) => {
                    let addr = *fo.current();
                    let ghost sch = target.scheme;
                    match target.scheme {
                        Scheme::Http => {
                            client.http_pools.discard_at(&addr, id);
                        },
                        Scheme::Https => {
                            client.https_pools.discard_at(&addr, id);
                        },
                    }
                    let ghost mid = *client;
                    proof {
                        assert(mid.pools_of(sch).has(addr));
                        assert(mid.pools_of(sch).pool_for(addr).discarded_ids().contains(id));
                    }
                    let mut fo2 = fo;
                    match fo2.on_candidate_failure() {
                        Some(err) => (
                            SessionState::Failed { error: err },
                            SessionAction::Finish { result: Err(err) },
                        ),
                        None => {
                            proof {
                                let next = fo2.current_addr();
                                if next == addr {
                                    assert(mid.pools_of(sch).acquire_decision_at(next)
                                        == c0.pools_of(sch).pool_for(
                                        addr,
                                    ).acquire_decision_after_discard());
                                } else {
                                    assert(c0.pools_of(sch).has(next) ==> mid.pools_of(
                                        sch,
                                    ).pool_for(next) == c0.pools_of(sch).pool_for(next));
                                    assert(mid.pools_of(sch).has(next) == c0.pools_of(sch).has(
                                        next,
                                    ));
                                    assert(mid.pools_of(sch).acquire_decision_at(next)
                                        == c0.pools_of(sch).acquire_decision_at(next));
                                }
                            }
                            let out = advance_acquire(client, target, fo2);
                            proof {
                                assert(client.pools_of(sch).pool_for(addr).discarded_ids()
                                    == mid.pools_of(sch).pool_for(addr).discarded_ids());
                                assert(mid.spec_effective_no_delay()
                                    == c0.spec_effective_no_delay());
                                assert(mid.spec_effective_timeout()
                                    == c0.spec_effective_timeout());
                                assert(mid.spec_has_custom_tls() == c0.spec_has_custom_tls());
                            }
                            out
                        },
                    }
                },
            }
        },
        (SessionState::Probing { target, fo, id }, SessionEvent::Probed { outcome }) => {
            let addr = *fo.current();
            let ghost sch = target.scheme;
            let checked = match target.scheme {
                Scheme::Http => client.http_pools.recycle_at(&addr, id, outcome),
                Scheme::Https => client.https_pools.recycle_at(&addr, id, outcome),
            };
            let healthy = checked.unwrap();
            if healthy {
                (SessionState::Exchanging { target, addr, id }, SessionAction::Exchange { id })
            } else {
                let ghost mid = *client;
                proof {
                    assert(mid.pools_of(sch).has(addr));
                    assert(mid.pools_of(sch).pool_for(addr).discarded_ids().contains(id));
                    assert(mid.pools_of(sch).acquire_decision_at(addr) == c0.pools_of(
                        sch,
                    ).pool_for(addr).acquire_decision_after_discard());
                }
                let out = advance_acquire(client, target, fo);
                proof {
                    assert(client.pools_of(sch).pool_for(addr).discarded_ids() == mid.pools_of(
                        sch,
                    ).pool_for(addr).discarded_ids());
                    assert(mid.spec_effective_no_delay() == c0.spec_effective_no_delay());
                    assert(mid.spec_effective_timeout() == c0.spec_effective_timeout());
                    assert(mid.spec_has_custom_tls() == c0.spec_has_custom_tls());
                }
                out
            }
        },
        (SessionState::Waiting { target, fo }, SessionEvent::PoolFreed) => {
            advance_acquire(client, target, fo)
        },
        (SessionState::Exchanging { target, addr, id }, SessionEvent::ExchangeDone { ok }) => {
            match target.scheme {
                Scheme::Http => {
                    client.http_pools.release_at(&addr, id);
                },
                Scheme::Https => {
                    client.https_pools.release_at(&addr, id);
                },
            }
            if ok {
                (SessionState::Done, SessionAction::Finish { result: Ok(()) })
            } else {
                (
                    SessionState::Failed { error: SendError::ProtocolError },
                    SessionAction::Finish { result: Err(SendError::ProtocolError) },
                )
            }
        },
        _ => vstd::pervasive::unreached(),
    }
}

} // verus!
