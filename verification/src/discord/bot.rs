//! The entry point of interactions: a request is only handled once its
//! Discord signature checks out.

use vstd::prelude::*;
use vstd::string::*;
use vstd::utf8::encode_utf8;

use super::verification::{VerificationError, spec_verify_signature, verify_signature};
use crate::error::Error;

verus! {

/// The message of a verification error, as its `Display` renders it.
pub open spec fn verification_message(e: VerificationError) -> Seq<char> {
    match e {
        VerificationError::ParseHexFailed(_) => "Failed to parse from hex."@,
        VerificationError::CryptoError => "Invalid public key or signature format."@,
    }
}

/// The part of a request that could not be had or did not check out.
#[derive(PartialEq, Eq, Structural, Clone, Copy, Debug)]
pub enum RequestFailure {
    /// The public key variable could not be read.
    MissingVariable,
    /// A signature header could not be read or is absent.
    MissingHeader,
    /// The body could not be read.
    UnreadableBody,
    /// The signature does not check out.
    Unverified,
}

/// What the interaction endpoint makes of a request: the public key (or the
/// message of the error reading it), the two signature headers (or the
/// message of the error reading the headers), and the body (if it could be
/// read). The first thing missing is reported; then the signature is
/// checked; the body is handed on when it checks out.
pub open spec fn spec_check_request(
    public_key: Result<Seq<char>, Seq<char>>,
    signature: Result<Option<Seq<char>>, Seq<char>>,
    timestamp: Result<Option<Seq<char>>, Seq<char>>,
    body: Option<Seq<char>>,
) -> Result<Seq<char>, (RequestFailure, Seq<char>)> {
    match public_key {
        Err(m) => Err((RequestFailure::MissingVariable, m)),
        Ok(pk) => match signature {
            Err(m) => Err((RequestFailure::MissingHeader, m)),
            Ok(None) => Err((RequestFailure::MissingHeader, "x-signature-ed25519"@)),
            Ok(Some(sig)) => match timestamp {
                Err(m) => Err((RequestFailure::MissingHeader, m)),
                Ok(None) => Err((RequestFailure::MissingHeader, "x-signature-timestamp"@)),
                Ok(Some(ts)) => match body {
                    None => Err((RequestFailure::UnreadableBody, "Body read failed"@)),
                    Some(b) => match spec_verify_signature(encode_utf8(pk), encode_utf8(sig), encode_utf8(ts + b)) {
                        Ok(()) => Ok(b),
                        Err(e) => Err((RequestFailure::Unverified, verification_message(e))),
                    },
                },
            },
        },
    }
}

/// Whether `e` is the error the bot answers a failure of `kind` with: a
/// missing variable, a missing header, an unreadable body (a bad payload)
/// or a failed verification, carrying `message`.
pub open spec fn is_request_error(e: Error, kind: RequestFailure, message: Seq<char>) -> bool {
    match e {
        Error::EnvironmentVariableNotFound(m) => kind == RequestFailure::MissingVariable && m@ == message,
        Error::HeaderNotFound(m) => kind == RequestFailure::MissingHeader && m@ == message,
        Error::InvalidPayload(m) => kind == RequestFailure::UnreadableBody && m@ == message,
        Error::VerificationFailed(m) => kind == RequestFailure::Unverified && m@ == message,
        _ => false,
    }
}

/// A text that was read, or the message of the error reading it.
pub open spec fn text_view(r: Result<String, String>) -> Result<Seq<char>, Seq<char>> {
    match r {
        Ok(s) => Ok(s@),
        Err(m) => Err(m@),
    }
}

/// A header that was read (absent or present), or the message of the error
/// reading the headers.
pub open spec fn header_view(r: Result<Option<String>, String>) -> Result<Option<Seq<char>>, Seq<char>> {
    match r {
        Ok(Some(s)) => Ok(Some(s@)),
        Ok(None) => Ok(None),
        Err(m) => Err(m@),
    }
}

/// A body that was read, if it could be.
pub open spec fn body_view(b: Option<String>) -> Option<Seq<char>> {
    match b {
        Some(s) => Some(s@),
        None => None,
    }
}

/// Whether `res` is the outcome `expected` of checking a request.
pub open spec fn is_request_outcome(res: Result<String, Error>, expected: Result<Seq<char>, (RequestFailure, Seq<char>)>) -> bool {
    match (res, expected) {
        (Ok(b), Ok(e)) => b@ == e,
        (Err(err), Err((kind, m))) => is_request_error(err, kind, m),
        _ => false,
    }
}

/// Checks an interaction request before it is handled: the public key
/// variable and both signature headers must be there, the body must have
/// been read, and the signature (hex, in `x-signature-ed25519`) must sign
/// the timestamp followed by the body. Gives back the body.
pub fn check_request(
    public_key: Result<String, String>,
    signature: Result<Option<String>, String>,
    timestamp: Result<Option<String>, String>,
    body: Option<String>,
) -> (res: Result<String, Error>)
    ensures
        is_request_outcome(
            res,
            spec_check_request(text_view(public_key), header_view(signature), header_view(timestamp), body_view(body)),
        ),
{
    let pk = match public_key {
        Err(m) => return Err(Error::EnvironmentVariableNotFound(m)),
        Ok(pk) => pk,
    };
    let sig = match signature {
        Err(m) => return Err(Error::HeaderNotFound(m)),
        Ok(None) => return Err(Error::HeaderNotFound("x-signature-ed25519".to_owned())),
        Ok(Some(s)) => s,
    };
    let ts = match timestamp {
        Err(m) => return Err(Error::HeaderNotFound(m)),
        Ok(None) => return Err(Error::HeaderNotFound("x-signature-timestamp".to_owned())),
        Ok(Some(t)) => t,
    };
    let b = match body {
        None => return Err(Error::InvalidPayload("Body read failed".to_owned())),
        Some(b) => b,
    };
    match verify_signature(pk.as_str(), sig.as_str(), ts.as_str(), b.as_str()) {
        Ok(()) => Ok(b),
        Err(e) => {
            let m = e.message();
            Err(Error::VerificationFailed(m))
        },
    }
}

} // verus!
