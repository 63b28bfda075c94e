//! Error taxonomy of the transport.

use vstd::prelude::*;

verus! {

/// A terminal error of one `send` attempt.
///
/// A request either yields a response or exactly one of these. Failures of a
/// single candidate address (a refused dial, a failed handshake) are recovered
/// by failover and never surface here; only the exhaustion of every candidate
/// does, as [`SendError::NoUsableAddress`].
#[derive(Clone, Copy, Debug, PartialEq, Eq, Structural)]
pub enum SendError {
    /// The URL's scheme is neither "http" nor "https".
    InvalidScheme,
    /// The URL has no host.
    MissingHost,
    /// The host resolved to no candidate address at all.
    ResolutionError,
    /// Every candidate address was tried and none produced a usable
    /// connection.
    NoUsableAddress,
    /// The protocol codec failed after a connection had been obtained. This
    /// is surfaced at once and never retried against another address, since
    /// bytes may already have been written to the wire.
    ProtocolError,
}

/// Why creating one new connection to one candidate address failed.
///
/// Consumed by failover: the dispatcher moves on to the next candidate, and
/// only when no candidate is left does the send fail, with
/// [`SendError::NoUsableAddress`].
#[derive(Clone, Copy, Debug, PartialEq, Eq, Structural)]
pub enum CreateFailure {
    /// The transport-level dial failed.
    ConnectError,
    /// The dial succeeded but the TLS handshake failed.
    TlsError,
}

impl SendError {
    /// A short description, for embedding in a caller-facing error value.
    pub fn message(&self) -> (r: String)
        ensures
            *self is InvalidScheme ==> r@ == "invalid url scheme"@,
            *self is MissingHost ==> r@ == "missing hostname"@,
            *self is ResolutionError ==> r@ == "missing valid address"@,
            *self is NoUsableAddress ==> r@ == "no usable address"@,
            *self is ProtocolError ==> r@ == "protocol error"@,
    {
        match self {
            SendError::InvalidScheme => "invalid url scheme".to_owned(),
            SendError::MissingHost => "missing hostname".to_owned(),
            SendError::ResolutionError => "missing valid address".to_owned(),
            SendError::NoUsableAddress => "no usable address".to_owned(),
            SendError::ProtocolError => "protocol error".to_owned(),
        }
    }
}

} // verus!
