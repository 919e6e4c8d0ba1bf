//! The closed error taxonomy shared by every layer of the library.

use vstd::prelude::*;
use vstd::string::StringExecFns;
use crate::digits::spec_decimal_chars;
use crate::digits::push_decimal_chars;

verus! {

/// A failure of a remote procedure call.  Every failure is returned
/// immediately to the caller; nothing is retried or suppressed internally.
#[derive(Debug, Clone, PartialEq)]
pub enum Error {
    /// The request value could not be encoded to the wire format.
    SerializationError,
    /// A successful (status 200) response body could not be decoded into the
    /// expected response shape.
    DeserializationError,
    /// The exchange completed but the peer reported a non-200 status; carries
    /// the numeric status code.
    HttpError(u16),
    /// A connection, write, read, URL-decomposition, or response-framing
    /// failure.
    NetworkError,
    /// A caller-constructed or transport-specific failure, with a message.
    Custom(String),
}

impl Error {
    /// A human-readable description of the failure.
    pub fn message(&self) -> (r: String)
        ensures
            match self {
                Error::SerializationError => r@ == "Failed to serialize request"@,
                Error::DeserializationError => r@ == "Failed to deserialize response"@,
                Error::HttpError(status) => r@ == "HTTP error: "@ + spec_decimal_chars(
                    *status as nat,
                ),
                Error::NetworkError => r@ == "Network error"@,
                Error::Custom(msg) => r@ == msg@,
            },
    {
        match self {
            Error::SerializationError => String::from_str("Failed to serialize request"),
            Error::DeserializationError => String::from_str("Failed to deserialize response"),
            Error::HttpError(status) => {
                let mut text = String::from_str("HTTP error: ");
                push_decimal_chars(&mut text, *status as usize);
                text
            },
            Error::NetworkError => String::from_str("Network error"),
            Error::Custom(msg) => msg.clone(),
        }
    }
}

} // verus!
