//! The errors of the bot, and the HTTP status that each is answered with.

use vstd::prelude::*;

use crate::discord::verification::HexError;

verus! {

/// An error while handling a request. Errors that come from outside
/// libraries carry their message.
#[derive(Debug)]
pub enum Error {
    EnvironmentVariableNotFound(String),
    HeaderNotFound(String),
    ParseError(String),
    ParseIntError(String),
    ParseHexFailed(HexError),
    CryptoError,
    JsonFailed(String),
    InvalidPayload(String),
    VerificationFailed(String),
    InteractionFailed(String),
    WorkerError(String),
    KvError(String),
    ReqwestError(String),
    UpstreamError(String),
    Generic(String),
}

/// The HTTP status for an error: 401 for a failed verification, 400 for a
/// request that lacks a header or a variable or holds a bad payload, and 500
/// for everything else.
pub open spec fn spec_status_code(e: Error) -> u16 {
    match e {
        Error::VerificationFailed(_) => 401,
        Error::HeaderNotFound(_) | Error::InvalidPayload(_) | Error::EnvironmentVariableNotFound(_) => 400,
        Error::JsonFailed(_) => 400,
        _ => 500,
    }
}

impl Error {
    pub fn status_code(&self) -> (res: u16)
        ensures
            res == spec_status_code(*self),
    {
        match self {
            Error::VerificationFailed(_) => 401,
            Error::HeaderNotFound(_) | Error::InvalidPayload(_) | Error::EnvironmentVariableNotFound(_) => 400,
            Error::JsonFailed(_) => 400,
            _ => 500,
        }
    }
}

} // verus!
