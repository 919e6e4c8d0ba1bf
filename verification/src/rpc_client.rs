//! A byte-level send/receive capability for restricted environments.

use vstd::prelude::*;

verus! {

/// A client able to send a payload to a URL and to receive raw reply bytes.
pub trait RpcClient {
    fn send(&self, url: &str, payload: &[u8]) -> (r: Result<Vec<u8>, RpcError>);

    fn receive(&self) -> (r: Result<Vec<u8>, RpcError>);
}

/// A failure of the byte-level client.
#[derive(Debug, PartialEq, Eq, Structural)]
pub enum RpcError {
    ConnectionFailed,
    Timeout,
    ResponseError,
}

} // verus!
