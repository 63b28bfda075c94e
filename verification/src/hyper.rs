//! A hyper-backed HTTP client, wrapped for embedding.
//!
//! Like the curl backend, this one delegates every request to an
//! already-complete external client: no pooling and no state of its own,
//! so nothing here for the transport core to decide. Hyper's client is
//! generic in its connector, and the handle keeps that type parameter, so
//! it can wrap any connector.

use vstd::prelude::*;

verus! {

/// `hyper::Body`, declared so values of it can be passed through.
#[verifier::external_type_specification]
#[verifier::external_body]
pub struct ExHyperBody(hyper::Body);

/// `hyper::Request` (hyper's re-export of the `http` request type),
/// declared so values of it can be passed through.
#[verifier::external_type_specification]
#[verifier::external_body]
#[verifier::reject_recursive_types(T)]
pub struct ExHyperRequest<T>(hyper::Request<T>);

/// `hyper::Response` (hyper's re-export of the `http` response type),
/// declared because the response future yields it.
#[verifier::external_type_specification]
#[verifier::external_body]
#[verifier::reject_recursive_types(T)]
pub struct ExHyperResponse<T>(hyper::Response<T>);

/// `hyper::Error`, declared because the response future can yield it.
#[verifier::external_type_specification]
#[verifier::external_body]
pub struct ExHyperError(hyper::Error);

/// `hyper::client::ResponseFuture`, declared so it can be handed back to
/// the embedding runtime.
#[verifier::external_type_specification]
#[verifier::external_body]
pub struct ExHyperResponseFuture(hyper::client::ResponseFuture);

/// `hyper::Client`, declared so a concrete client can be wrapped.
#[verifier::external_type_specification]
#[verifier::external_body]
#[verifier::reject_recursive_types(C)]
#[verifier::reject_recursive_types(B)]
pub struct ExHyperClient<C, B>(hyper::Client<C, B>);

/// Relies on `hyper::Client::request`: starts the request on hyper's own
/// pool and returns the future of its response. Nothing is promised of the
/// future; the embedding runtime awaits it.
#[verifier::external_body]
fn start_request<
    C: Clone + hyper::client::connect::Connect + core::fmt::Debug + Send + Sync + 'static,
>(client: &hyper::Client<C>, req: hyper::Request<hyper::Body>) -> hyper::client::ResponseFuture {
    client.request(req)
}

/// Hyper-based HTTP Client.
///
/// The connector stays a type parameter: hyper's client is generic in it,
/// and this crate cannot erase that generic behind a trait object, since an
/// impl bounded by hyper's connector trait is not accepted here.
#[derive(Debug)]
#[verifier::reject_recursive_types(C)]
pub struct HyperClient<C>(hyper::Client<C>);

impl<
    C: Clone + hyper::client::connect::Connect + core::fmt::Debug + Send + Sync + 'static,
> HyperClient<C> {
    /// The wrapped hyper client.
    pub closed spec fn spec_client(self) -> hyper::Client<C> {
        self.0
    }

    /// Create from an externally initialized and configured client.
    pub fn from_client(client: hyper::Client<C>) -> (r: HyperClient<C>)
        ensures
            r.spec_client() == client,
    {
        HyperClient(client)
    }

    /// Start a request on the wrapped client, for the embedding runtime to
    /// await.
    pub fn request(&self, req: hyper::Request<hyper::Body>) -> hyper::client::ResponseFuture {
        start_request(&self.0, req)
    }
}

} // verus!
