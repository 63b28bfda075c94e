//! Transport core of an HTTP/1.x client with per-address connection pooling
//! ("keep-alive").
//!
//! The crate models the decision layer of such a transport: validating a
//! request's target, resolving it to candidate addresses, keeping one bounded
//! connection pool per remote address, gating idle connections through a
//! health check before reuse, and failing over between candidate addresses.
//! The surrounding I/O (sockets, TLS handshakes, the wire codec) is driven by
//! an embedding runtime that asks the session state machine in [`h1`] what to
//! do next.

pub mod config;
pub mod error;
pub mod failover;
pub mod h1;
pub mod hyper;
pub mod isahc;
pub mod pool;
pub mod registry;
mod seq_facts;
pub mod target;

pub use config::Config;
pub use config::TlsConfig;
pub use error::CreateFailure;
pub use error::SendError;
pub use h1::H1Client;
