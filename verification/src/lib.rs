//! A minimal client library for invoking remote procedures over HTTP with
//! statically typed request/response pairs.
//!
//! A caller declares an [`RpcMethod`]: a compile-time binding of a request
//! shape, a response shape, a URL path, and an HTTP verb.  A generic
//! [`RpcClient`] dispatches calls through a pluggable [`HttpTransport`] and
//! returns the decoded response or a typed [`Error`].

use vstd::prelude::*;

pub mod digits;
pub mod error;
pub mod framing;
pub mod http_client;
pub mod response;
pub mod rpc_client;
pub mod scan;
pub mod std_transport;
pub mod url;

pub use error::Error;

verus! {

/// A remote procedure: a compile-time binding of a request shape, a response
/// shape, a path, and an HTTP verb (defaulting to `POST`).
///
/// The dispatcher and the transports consume only these facts; they have no
/// knowledge of the semantic meaning of any particular method.  The request
/// and response shapes are fixed by the implementor, together with their wire
/// encoding: `encode_request` must produce the serialized request body and
/// `decode_response` must read a response body back into the response shape.
/// The spec functions give the descriptor's constants and its encoding a name
/// that contracts can speak of: a descriptor carries no per-call state, so
/// its path and verb are fixed, and encoding and decoding are functions of
/// the value alone.  Each spec function carries a default, so that an
/// implementation declares only what it changes; one that overrides an
/// executable method, or whose path or encoding differs from the defaults
/// below, overrides the matching spec function with it.
pub trait RpcMethod {
    /// The request type for this method.
    type Request;

    /// The response type for this method.
    type Response;

    /// The path for this method, as contracts speak of it; empty unless the
    /// method declares its path here.
    open spec fn spec_path() -> Seq<char> {
        Seq::<char>::empty()
    }

    /// The HTTP verb for this method, as contracts speak of it; `POST`
    /// unless the method overrides both this and `http_method` together.
    open spec fn spec_http_method() -> Seq<char> {
        "POST"@
    }

    /// Whether this method's encoder accepts `request`; by default every
    /// request value is accepted.
    open spec fn spec_encode_ok(request: Self::Request) -> bool {
        true
    }

    /// The request body that encoding `request` produces, when accepted.
    open spec fn spec_encoded(request: Self::Request) -> Seq<u8> {
        Seq::<u8>::empty()
    }

    /// Whether this method's decoder accepts the reply body `body`; by
    /// default every body is accepted.
    open spec fn spec_decode_ok(body: Seq<u8>) -> bool {
        true
    }

    /// The response value that decoding `body` produces, when accepted.
    open spec fn spec_decoded(body: Seq<u8>) -> Self::Response {
        vstd::pervasive::arbitrary()
    }

    /// The path for this method.
    fn path() -> (r: &'static str)
        ensures
            r@ == Self::spec_path(),
    ;

    /// The HTTP verb for this method; `POST` unless overridden.  A method
    /// that leaves the declared verb at its default is owed that default
    /// back; an override that redeclares its verb may state the same clause
    /// for itself in its own implementation.
    fn http_method() -> (r: &'static str)
        ensures
            Self::spec_http_method() == "POST"@ ==> r@ == Self::spec_http_method(),
    {
        "POST"
    }

    /// Serializes a request value into a request body.
    fn encode_request(request: &Self::Request) -> (r: Result<Vec<u8>, Error>)
        ensures
            match r {
                Ok(body) => Self::spec_encode_ok(*request) && body@ == Self::spec_encoded(
                    *request,
                ),
                Err(_) => !Self::spec_encode_ok(*request),
            },
    ;

    /// Reads a response body back into a response value.
    fn decode_response(body: &Vec<u8>) -> (r: Result<Self::Response, Error>)
        ensures
            match r {
                Ok(response) => Self::spec_decode_ok(body@) && response == Self::spec_decoded(
                    body@,
                ),
                Err(_) => !Self::spec_decode_ok(body@),
            },
    ;
}

/// The transport capability: perform one request/response exchange for a
/// given method and request value.
///
/// A conforming transport returns a success only by decoding a reply body
/// through the method's declared response shape.
pub trait HttpTransport {
    /// Sends an HTTP request and receives a response.
    fn request<M: RpcMethod>(&self, request: M::Request) -> (r: Result<
        M::Response,
        Error,
    >)
        ensures
            r matches Ok(response) ==> exists|body: Seq<u8>|
                #[trigger] M::spec_decode_ok(body) && response == M::spec_decoded(body),
    ;
}

/// The dispatcher: a generic holder of one transport instance, exposing a
/// single `call` operation parameterized by a method descriptor.
pub struct RpcClient<T> {
    transport: T,
}

impl<T: HttpTransport> RpcClient<T> {
    /// The one transport this client holds for its whole lifetime.
    pub closed spec fn spec_transport(&self) -> T {
        self.transport
    }

    /// Creates a new RPC client with the given transport.
    pub fn new(transport: T) -> (r: Self)
        ensures
            r.spec_transport() == transport,
    {
        Self { transport }
    }

    /// Calls an RPC method: forwards the request and the method descriptor to
    /// the held transport and returns its result verbatim.  Whatever the
    /// transport, a success is a decoded reply body of the method's response
    /// shape.
    pub fn call<M: RpcMethod>(&self, request: M::Request) -> (r: Result<
        M::Response,
        Error,
    >)
        ensures
            r matches Ok(response) ==> exists|body: Seq<u8>|
                #[trigger] M::spec_decode_ok(body) && response == M::spec_decoded(body),
    {
        self.transport.request::<M>(request)
    }
}

/// A family of transports: builds a transport instance bound to a base URL.
pub trait RpcClientFactory {
    type Transport: HttpTransport;

    fn create_transport(base_url: &str) -> (r: Self::Transport);
}

} // verus!
