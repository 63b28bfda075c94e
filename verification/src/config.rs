//! Configuration shared by a client and every connection factory it creates.

use vstd::prelude::*;

verus! {

/// A TLS client configuration supplied by the embedding application.
///
/// The transport's decisions depend only on whether such a configuration is
/// present: when one is, new TLS connections use it; when none is, a default
/// trust store is used. The cryptographic material itself lives outside this
/// crate, keyed to the value's position in the owning configuration.
#[derive(Clone, Copy, Debug, PartialEq, Eq, Structural)]
pub struct TlsConfig {}

impl TlsConfig {
    /// Stand for one externally supplied TLS configuration.
    pub fn new() -> (r: TlsConfig)
        ensures
            r == (TlsConfig {}),
    {
        TlsConfig {}
    }
}

/// Configuration of an HTTP client.
#[derive(Clone, Debug, PartialEq, Eq)]
pub struct Config {
    /// HTTP/1.1 `keep-alive` (connection pooling). Default: `true`.
    pub http_keep_alive: bool,
    /// TCP `NO_DELAY`, applied to every new connection and re-applied to a
    /// connection about to be reused. Default: `false`.
    pub tcp_no_delay: bool,
    /// Connection timeout in milliseconds, bounding the dial and, for TLS,
    /// the handshake. `None` means no bound. Default: one minute.
    pub timeout: Option<u64>,
    /// Maximum number of simultaneous connections kept open to one remote
    /// address. Default: `50`. Zero can never satisfy any request, so it is
    /// rejected where a configuration is built or installed.
    pub max_connections_per_host: usize,
    /// TLS configuration for "https" connections; `None` selects a default
    /// trust store.
    pub tls_config: Option<TlsConfig>,
}

impl Config {
    /// A configuration that can serve requests: at least one connection per
    /// host is allowed.
    pub open spec fn wf(self) -> bool {
        self.max_connections_per_host >= 1
    }

    /// Construct the default configuration.
    pub fn new() -> (r: Self)
        ensures
            r.http_keep_alive == true,
            r.tcp_no_delay == false,
            r.timeout == Some(60_000u64),
            r.max_connections_per_host == 50usize,
            r.tls_config is None,
            r.wf(),
    {
        Self {
            http_keep_alive: true,
            tcp_no_delay: false,
            timeout: Some(60_000),
            max_connections_per_host: 50,
            tls_config: None,
        }
    }

    /// Set HTTP/1.1 `keep-alive` (connection pooling).
    pub fn set_http_keep_alive(self, keep_alive: bool) -> (r: Self)
        ensures
            r == (Config { http_keep_alive: keep_alive, ..self }),
    {
        Config { http_keep_alive: keep_alive, ..self }
    }

    /// Set TCP `NO_DELAY`.
    pub fn set_tcp_no_delay(self, no_delay: bool) -> (r: Self)
        ensures
            r == (Config { tcp_no_delay: no_delay, ..self }),
    {
        Config { tcp_no_delay: no_delay, ..self }
    }

    /// Set the connection timeout, in milliseconds.
    pub fn set_timeout(self, timeout: Option<u64>) -> (r: Self)
        ensures
            r == (Config { timeout, ..self }),
    {
        Config { timeout, ..self }
    }

    /// Set the maximum number of simultaneous connections per host.
    ///
    /// A maximum of zero could never satisfy any request, so it is refused
    /// here, at configuration time, rather than at first use.
    pub fn set_max_connections_per_host(self, max_connections_per_host: usize) -> (r: Self)
        requires
            max_connections_per_host >= 1,
        ensures
            r == (Config { max_connections_per_host, ..self }),
            r.wf(),
    {
        Config { max_connections_per_host, ..self }
    }

    /// Set the TLS configuration; `None` selects a default trust store.
    pub fn set_tls_config(self, tls_config: Option<TlsConfig>) -> (r: Self)
        ensures
            r == (Config { tls_config, ..self }),
    {
        Config { tls_config, ..self }
    }
}

impl Default for Config {
    /// Same as [`Config::new`].
    fn default() -> (r: Self)
        ensures
            r.http_keep_alive == true,
            r.tcp_no_delay == false,
            r.timeout == Some(60_000u64),
            r.max_connections_per_host == 50usize,
            r.tls_config is None,
            r.wf(),
    {
        Config::new()
    }
}

} // verus!
