//! The raw transport: a synchronous HTTP/1.1 exchange over a plain
//! byte-stream connection, with manual URL decomposition, hand-built request
//! framing, and hand-parsed response framing.

use vstd::prelude::*;
use vstd::string::StrSliceExecFns;
use vstd::string::StringExecFns;
use crate::HttpTransport;
use crate::RpcClientFactory;
use crate::RpcMethod;
use crate::error::Error;
use crate::framing::build_request;
use crate::response::parse_wire_response;
use crate::response::spec_response;
use crate::url::UrlOutcome;
use crate::url::find_char;
use crate::url::lemma_find_char_skip;
use crate::url::spec_parse_url;
use crate::url::str_eq;
use crate::url::strip_slashes_len;

verus! {

/// A one-shot byte-stream exchange: open a connection to `(host, port)`,
/// write the request bytes, and read until the peer closes the stream.
///
/// The library performs no I/O of its own; implementations supply it.
/// Nothing is promised of the reply: the transport's response parser accepts
/// arbitrary bytes, and a failure of the exchange is returned to the caller
/// verbatim.
pub trait Connection: Sized {
    /// Creates the capability itself, not yet a network connection: each
    /// `exchange` opens and closes its own.
    fn connect() -> (r: Self);

    /// Performs one connect/write/read-to-end cycle.
    fn exchange(&self, host: &str, port: u16, request: &Vec<u8>) -> (r: Result<Vec<u8>, Error>);
}

/// The raw transport: an immutable base URL and a byte-stream capability.
/// Each call opens and closes its own connection; nothing is kept between
/// calls.
pub struct StdTransport<C> {
    base_url: String,
    connection: C,
}

impl<C> StdTransport<C> {
    /// The base URL this transport was built with.
    pub closed spec fn base(&self) -> Seq<char> {
        self.base_url@
    }

    /// Creates a transport bound to `base_url`; the URL is stored verbatim
    /// and validated lazily on each call.
    pub fn new(base_url: &str, connection: C) -> (r: Self)
        ensures
            r.base() == base_url@,
    {
        Self { base_url: String::from_str(base_url), connection }
    }

    /// Decomposes the combination of the base URL and `path` into host,
    /// port, and path, exactly as [`spec_parse_url`] describes: the scheme
    /// must be `http` (port 80) or `https` (port 443), leading double
    /// slashes are stripped, and the host runs to the first slash.
    pub fn parse_url(&self, path: &str) -> (r: Result<(String, u16, String), Error>)
        ensures
            match spec_parse_url(self.base() + path@) {
                UrlOutcome::Parsed { host, port, path: p } => match r {
                    Ok(t) => t.0@ == host && t.1 == port && t.2@ == p,
                    Err(_) => false,
                },
                UrlOutcome::MissingHost => match r {
                    Err(Error::Custom(m)) => m@ == "Invalid URL"@,
                    _ => false,
                },
                UrlOutcome::UnsupportedScheme => match r {
                    Err(Error::Custom(m)) => m@ == "Only HTTP and HTTPS are supported"@,
                    _ => false,
                },
            },
    {
        let url = self.base_url.clone().concat(path);
        let u = url.as_str();
        let n = u.unicode_len();
        let ci = match find_char(u, ':', 0) {
            Some(i) => i,
            None => {
                return if str_eq(u, "http") || str_eq(u, "https") {
                    Err(Error::Custom(String::from_str("Invalid URL")))
                } else {
                    Err(Error::Custom(String::from_str("Only HTTP and HTTPS are supported")))
                };
            },
        };
        let scheme = u.substring_char(0, ci);
        let is_http = str_eq(scheme, "http");
        let is_https = str_eq(scheme, "https");
        if !is_http && !is_https {
            return Err(Error::Custom(String::from_str("Only HTTP and HTTPS are supported")));
        }
        let rest = u.substring_char(ci + 1, n);
        let start = strip_slashes_len(rest);
        let m = rest.unicode_len();
        proof {
            assert(rest@ =~= (self.base() + path@).skip(ci + 1));
        }
        let (host, path_out) = match find_char(rest, '/', start) {
            Some(si) => {
                let h = String::from_str(rest.substring_char(start, si));
                let p = String::from_str(rest.substring_char(si, m));
                proof {
                    lemma_find_char_skip(rest@, '/', start as int, 0);
                    assert(h@ =~= rest@.skip(start as int).take(si - start));
                    assert(p@ =~= rest@.skip(start as int).skip(si - start));
                }
                (h, p)
            },
            None => {
                let h = String::from_str(rest.substring_char(start, m));
                proof {
                    lemma_find_char_skip(rest@, '/', start as int, 0);
                    assert(h@ =~= rest@.skip(start as int));
                }
                (h, String::from_str("/"))
            },
        };
        if host.as_str().unicode_len() == 0 {
            return Err(Error::Custom(String::from_str("Invalid URL")));
        }
        let port: u16 = if is_http {
            80
        } else {
            443
        };
        Ok((host, port, path_out))
    }
}

/// The factory for raw transports over a given connection capability.
pub struct StdClientFactory<C> {
    marker: core::marker::PhantomData<C>,
}

impl<C: Connection> RpcClientFactory for StdClientFactory<C> {
    type Transport = StdTransport<C>;

    fn create_transport(base_url: &str) -> (r: StdTransport<C>)
        ensures
            r.base() == base_url@,
    {
        StdTransport::new(base_url, C::connect())
    }
}

/// Reads a raw reply for method `M`, whatever bytes the peer sent: on
/// status 200 the body is decoded, and a body the method's decoder rejects
/// yields `DeserializationError` — never `NetworkError`; every failure of
/// the framing itself is returned exactly as [`spec_response`] fixes it.
pub fn read_reply<M: RpcMethod>(raw: &Vec<u8>) -> (r: Result<M::Response, Error>)
    ensures
        match spec_response(raw@) {
            Ok(body) => if M::spec_decode_ok(body) {
                r matches Ok(response) && response == M::spec_decoded(body)
            } else {
                r == Err::<M::Response, Error>(Error::DeserializationError)
            },
            Err(e) => r == Err::<M::Response, Error>(e),
        },
{
    let body = match parse_wire_response(raw) {
        Ok(b) => b,
        Err(e) => {
            return Err(e);
        },
    };
    match M::decode_response(&body) {
        Ok(response) => Ok(response),
        Err(_) => Err(Error::DeserializationError),
    }
}

impl<C: Connection> HttpTransport for StdTransport<C> {
    /// One synchronous request/response exchange: serialize the request,
    /// decompose the URL, frame the message, exchange bytes over one
    /// connection, parse the reply, and decode the body on status 200.
    ///
    /// The peer's side of the exchange carries no contract, so the clauses
    /// here fix what the transport itself decides: a request the method's
    /// encoder rejects is a `SerializationError` before any exchange, a base
    /// URL that does not decompose is the corresponding URL error, and a
    /// success passes through both the URL decomposition and the encoder.
    /// What each possible reply yields is fixed by [`read_reply`].
    fn request<M: RpcMethod>(&self, request: M::Request) -> (r: Result<M::Response, Error>)
        ensures
            !M::spec_encode_ok(request) ==> r == Err::<M::Response, Error>(
                Error::SerializationError,
            ),
            spec_parse_url(self.base() + M::spec_path()) is UnsupportedScheme ==> (r matches Err(e)
                && (e is SerializationError || (e matches Error::Custom(m) && m@
                == "Only HTTP and HTTPS are supported"@))),
            spec_parse_url(self.base() + M::spec_path()) is MissingHost ==> (r matches Err(e)
                && (e is SerializationError || (e matches Error::Custom(m) && m@
                == "Invalid URL"@))),
            r is Ok ==> M::spec_encode_ok(request) && spec_parse_url(
                self.base() + M::spec_path(),
            ) is Parsed,
    {
        let body = match M::encode_request(&request) {
            Ok(b) => b,
            Err(_) => {
                return Err(Error::SerializationError);
            },
        };
        let (host, port, path) = match self.parse_url(M::path()) {
            Ok(t) => t,
            Err(e) => {
                return Err(e);
            },
        };
        let message = build_request(M::http_method(), path.as_str(), host.as_str(), &body);
        let raw = match self.connection.exchange(host.as_str(), port, &message) {
            Ok(v) => v,
            Err(e) => {
                return Err(e);
            },
        };
        read_reply::<M>(&raw)
    }
}

} // verus!
