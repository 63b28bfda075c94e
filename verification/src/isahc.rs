//! A curl-backed HTTP client, wrapped for embedding.
//!
//! This backend delegates every request to an already-complete external
//! client; it has no pooling or state of its own. This module only owns the
//! handle; the embedding runtime performs the requests.

use vstd::prelude::*;

verus! {

/// `isahc::HttpClient`, declared so that values of it can be held and
/// passed through. This crate claims nothing about what is inside.
#[verifier::external_type_specification]
#[verifier::external_body]
pub struct ExIsahcHttpClient(isahc::HttpClient);

/// Curl-based HTTP Client.
#[derive(Debug)]
pub struct IsahcClient(isahc::HttpClient);

/// Relies on `isahc::HttpClient::new`: builds a client with isahc's default
/// configuration. It panics when the curl backend cannot initialize, which
/// is how callers of [`IsahcClient::new`] have always treated that failure.
#[verifier::external_body]
fn isahc_client_new() -> isahc::HttpClient {
    isahc::HttpClient::new().unwrap()
}

impl IsahcClient {
    /// The wrapped isahc client.
    pub closed spec fn spec_client(self) -> isahc::HttpClient {
        self.0
    }

    /// Create a new instance.
    pub fn new() -> IsahcClient {
        IsahcClient(isahc_client_new())
    }

    /// Create from an externally initialized and configured client.
    pub fn from_client(client: isahc::HttpClient) -> (r: IsahcClient)
        ensures
            r.spec_client() == client,
    {
        IsahcClient(client)
    }

    /// The wrapped client, for the embedding runtime to perform requests
    /// with.
    pub fn client(&self) -> (r: &isahc::HttpClient)
        ensures
            *r == self.spec_client(),
    {
        &self.0
    }
}

impl Default for IsahcClient {
    /// Same as [`IsahcClient::new`].
    fn default() -> Self {
        IsahcClient::new()
    }
}

} // verus!
