//! The three ways an operation against the platform can fail.

use vstd::prelude::*;
use vstd::string::*;

verus! {

/// Every operation returns its typed success value or one of these.
#[derive(Debug, PartialEq, Eq)]
pub enum ZulipApiError {
    /// The server answered with `result != "success"`; its `msg` field
    /// is carried verbatim.
    ZulipError { message: String },
    /// The response could not be read as the protocol demands: not a
    /// JSON document, no recognizable envelope, or a success envelope
    /// missing fields its payload shape requires.
    ProtocolViolation,
    /// The transport collaborator could not complete the round trip.
    /// Raised by the embedding application, never by the decoders here.
    TransportFailure,
}

impl ZulipApiError {
    /// A short description of the failure, with the server's own words
    /// where it supplied any.
    pub fn describe(&self) -> (r: String)
        ensures
            match self {
                ZulipApiError::ZulipError { message } => r@ == "server rejected the request: "@
                    + message@,
                ZulipApiError::ProtocolViolation => r@ == "response violated the protocol"@,
                ZulipApiError::TransportFailure => r@ == "transport failure"@,
            },
    {
        match self {
            ZulipApiError::ZulipError { message } => String::from_str(
                "server rejected the request: ",
            ).concat(message.as_str()),
            ZulipApiError::ProtocolViolation => String::from_str("response violated the protocol"),
            ZulipApiError::TransportFailure => String::from_str("transport failure"),
        }
    }
}

} // verus!
