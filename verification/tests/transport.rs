use std::cell::RefCell;
use std::rc::Rc;

use minimal_http_rpc::std_transport::{read_reply, Connection, StdClientFactory, StdTransport};
use minimal_http_rpc::{Error, HttpTransport, RpcClient, RpcClientFactory, RpcMethod};

/// A method whose request and response are both a number; the peer is
/// expected to echo the JSON body.
struct EchoMethod;

impl RpcMethod for EchoMethod {
    type Request = u64;
    type Response = u64;

    fn path() -> &'static str {
        "/echo"
    }

    fn encode_request(request: &u64) -> Result<Vec<u8>, Error> {
        serde_json::to_vec(request).map_err(|_| Error::SerializationError)
    }

    fn decode_response(body: &Vec<u8>) -> Result<u64, Error> {
        serde_json::from_slice(body).map_err(|_| Error::DeserializationError)
    }
}

/// A method with an overridden verb.
struct FetchMethod;

impl RpcMethod for FetchMethod {
    type Request = u64;
    type Response = u64;

    fn path() -> &'static str {
        "/fetch"
    }

    fn http_method() -> &'static str {
        "GET"
    }

    fn encode_request(request: &u64) -> Result<Vec<u8>, Error> {
        serde_json::to_vec(request).map_err(|_| Error::SerializationError)
    }

    fn decode_response(body: &Vec<u8>) -> Result<u64, Error> {
        serde_json::from_slice(body).map_err(|_| Error::DeserializationError)
    }
}

/// Answers every exchange with a canned reply.
struct CannedConnection {
    reply: Result<Vec<u8>, Error>,
}

impl CannedConnection {
    fn replying(reply: &[u8]) -> CannedConnection {
        CannedConnection { reply: Ok(reply.to_vec()) }
    }
}

impl Connection for CannedConnection {
    fn connect() -> CannedConnection {
        CannedConnection::replying(b"")
    }

    fn exchange(&self, _host: &str, _port: u16, _request: &Vec<u8>) -> Result<Vec<u8>, Error> {
        self.reply.clone()
    }
}

/// Records the exchange it is asked to perform, then replies with a canned
/// success.
struct RecordingConnection {
    seen: Rc<RefCell<(String, u16, Vec<u8>)>>,
    reply: Vec<u8>,
}

impl Connection for RecordingConnection {
    fn connect() -> RecordingConnection {
        RecordingConnection {
            seen: Rc::new(RefCell::new((String::new(), 0, Vec::new()))),
            reply: Vec::new(),
        }
    }

    fn exchange(&self, host: &str, port: u16, request: &Vec<u8>) -> Result<Vec<u8>, Error> {
        *self.seen.borrow_mut() = (host.to_string(), port, request.clone());
        Ok(self.reply.clone())
    }
}

/// Echoes the body of the request back with status 200.
struct EchoConnection;

impl Connection for EchoConnection {
    fn connect() -> EchoConnection {
        EchoConnection
    }

    fn exchange(&self, _host: &str, _port: u16, request: &Vec<u8>) -> Result<Vec<u8>, Error> {
        let pos = request
            .windows(4)
            .position(|w| w == b"\r\n\r\n")
            .expect("request has a blank line");
        let body = &request[pos + 4..];
        let mut reply = b"HTTP/1.1 200 OK\r\nContent-Type: application/json\r\n\r\n".to_vec();
        reply.extend_from_slice(body);
        Ok(reply)
    }
}

fn echo_client() -> RpcClient<StdTransport<EchoConnection>> {
    RpcClient::new(StdTransport::new("http://example.com", EchoConnection))
}

fn canned_client(reply: &[u8]) -> RpcClient<StdTransport<CannedConnection>> {
    RpcClient::new(StdTransport::new(
        "http://example.com",
        CannedConnection::replying(reply),
    ))
}

#[test]
fn call_round_trips_an_echoed_body() {
    let client = echo_client();
    assert_eq!(client.call::<EchoMethod>(42), Ok(42));
    assert_eq!(client.call::<EchoMethod>(u64::MAX), Ok(u64::MAX));
}

#[test]
fn call_reports_non_200_status_with_its_code() {
    let client = canned_client(b"HTTP/1.1 404 Not Found\r\n\r\n");
    assert_eq!(client.call::<EchoMethod>(1), Err(Error::HttpError(404)));
    let client = canned_client(b"HTTP/1.1 500 Internal Server Error\r\nX: y\r\n\r\noops");
    assert_eq!(client.call::<EchoMethod>(1), Err(Error::HttpError(500)));
}

#[test]
fn call_fails_when_reply_has_no_blank_line() {
    let client = canned_client(b"HTTP/1.1 200 OK\r\n");
    assert_eq!(client.call::<EchoMethod>(1), Err(Error::NetworkError));
    let client = canned_client(b"");
    assert_eq!(client.call::<EchoMethod>(1), Err(Error::NetworkError));
}

#[test]
fn call_fails_on_short_status_line() {
    let client = canned_client(b"HTTP/1.1 200\r\n\r\n{}");
    assert_eq!(client.call::<EchoMethod>(1), Err(Error::NetworkError));
}

#[test]
fn call_fails_on_non_numeric_status_code() {
    let client = canned_client(b"HTTP/1.1 abc OK\r\n\r\n{}");
    assert_eq!(client.call::<EchoMethod>(1), Err(Error::NetworkError));
    let client = canned_client(b"HTTP/1.1 +200 OK\r\n\r\n{}");
    assert_eq!(client.call::<EchoMethod>(1), Err(Error::NetworkError));
    let client = canned_client(b"HTTP/1.1 65536 OK\r\n\r\n{}");
    assert_eq!(client.call::<EchoMethod>(1), Err(Error::NetworkError));
}

#[test]
fn call_fails_with_deserialization_error_on_bad_json() {
    let client = canned_client(b"HTTP/1.1 200 OK\r\n\r\nnot json");
    assert_eq!(client.call::<EchoMethod>(1), Err(Error::DeserializationError));
}

#[test]
fn request_line_uses_post_by_default() {
    let seen = Rc::new(RefCell::new((String::new(), 0, Vec::new())));
    let conn = RecordingConnection {
        seen: seen.clone(),
        reply: b"HTTP/1.1 200 OK\r\n\r\n7".to_vec(),
    };
    let transport = StdTransport::new("http://example.com", conn);
    assert_eq!(transport.request::<EchoMethod>(5), Ok(7));
    let (host, port, request) = seen.borrow().clone();
    assert_eq!(host, "example.com");
    assert_eq!(port, 80);
    assert_eq!(
        request,
        b"POST /echo HTTP/1.1\r\nHost: example.com\r\nContent-Type: application/json\r\n\
          Content-Length: 1\r\nConnection: close\r\n\r\n5"
            .to_vec()
    );
}

#[test]
fn request_line_uses_the_overridden_verb() {
    let seen = Rc::new(RefCell::new((String::new(), 0, Vec::new())));
    let conn = RecordingConnection {
        seen: seen.clone(),
        reply: b"HTTP/1.1 200 OK\r\n\r\n7".to_vec(),
    };
    let transport = StdTransport::new("https://example.com", conn);
    assert_eq!(transport.request::<FetchMethod>(5), Ok(7));
    let (host, port, request) = seen.borrow().clone();
    assert_eq!(host, "example.com");
    assert_eq!(port, 443);
    assert!(request.starts_with(b"GET /fetch HTTP/1.1\r\n"));
}

#[test]
fn exchange_failure_is_returned_verbatim() {
    let transport = StdTransport::new(
        "http://example.com",
        CannedConnection { reply: Err(Error::NetworkError) },
    );
    assert_eq!(transport.request::<EchoMethod>(1), Err(Error::NetworkError));
}

#[test]
fn call_fails_on_unsupported_scheme() {
    let transport = StdTransport::new(
        "ftp://example.com",
        CannedConnection::replying(b"HTTP/1.1 200 OK\r\n\r\n7"),
    );
    assert_eq!(
        transport.request::<EchoMethod>(5),
        Err(Error::Custom("Only HTTP and HTTPS are supported".to_string()))
    );
}

#[test]
fn factory_builds_a_working_transport() {
    let transport = StdClientFactory::<EchoConnection>::create_transport("http://example.com");
    let client = RpcClient::new(transport);
    assert_eq!(client.call::<EchoMethod>(9), Ok(9));
}

#[test]
fn read_reply_separates_decode_errors_from_framing_errors() {
    let ok = b"HTTP/1.1 200 OK\r\n\r\n7".to_vec();
    assert_eq!(read_reply::<EchoMethod>(&ok), Ok(7));
    let bad_body = b"HTTP/1.1 200 OK\r\n\r\nnot json".to_vec();
    assert_eq!(read_reply::<EchoMethod>(&bad_body), Err(Error::DeserializationError));
    let not_found = b"HTTP/1.1 404 Not Found\r\n\r\nnot json".to_vec();
    assert_eq!(read_reply::<EchoMethod>(&not_found), Err(Error::HttpError(404)));
    let unframed = b"HTTP/1.1 200 OK\r\n".to_vec();
    assert_eq!(read_reply::<EchoMethod>(&unframed), Err(Error::NetworkError));
}

#[test]
fn serialization_failure_is_reported_as_such() {
    struct BrokenMethod;
    impl RpcMethod for BrokenMethod {
        type Request = u64;
        type Response = u64;

        fn path() -> &'static str {
            "/broken"
        }

        fn encode_request(_request: &u64) -> Result<Vec<u8>, Error> {
            Err(Error::Custom("cannot encode".to_string()))
        }

        fn decode_response(body: &Vec<u8>) -> Result<u64, Error> {
            serde_json::from_slice(body).map_err(|_| Error::DeserializationError)
        }
    }
    let client = echo_client();
    assert_eq!(client.call::<BrokenMethod>(1), Err(Error::SerializationError));
}
