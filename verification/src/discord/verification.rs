//! Checking the Ed25519 signature that Discord puts on every interaction
//! request: the public key and the signature come as hex strings, and the
//! signed message is the request timestamp followed by the body.

use vstd::prelude::*;
use vstd::string::*;
use vstd::utf8::encode_utf8;

use ed25519_dalek::Verifier;

verus! {

/// Why a hex string could not be decoded (the variants of `hex::FromHexError`).
#[derive(PartialEq, Eq, Structural, Clone, Copy, Debug)]
pub enum HexError {
    /// A character that is no hex digit, and its byte index.
    InvalidHexCharacter { c: char, index: usize },
    /// The string has an odd number of characters.
    OddLength,
    /// The string does not fit the fixed-size output.
    InvalidStringLength,
}

/// Why a request signature was refused.
#[derive(PartialEq, Eq, Structural, Clone, Copy, Debug)]
pub enum VerificationError {
    /// The public key or the signature is not valid hex.
    ParseHexFailed(HexError),
    /// The key or the signature has the wrong form, or the signature does not verify.
    CryptoError,
}

/// The value of a hex digit byte: `0-9`, `a-f` or `A-F`.
pub open spec fn hex_digit(c: u8) -> Option<u8> {
    if 48 <= c <= 57 {
        Some((c - 48) as u8)
    } else if 97 <= c <= 102 {
        Some((c - 87) as u8)
    } else if 65 <= c <= 70 {
        Some((c - 55) as u8)
    } else {
        None
    }
}

/// Decodes the pairs of `b` from byte `i` on, reporting the first byte that
/// is no hex digit.
pub open spec fn hex_decode_from(b: Seq<u8>, i: nat) -> Result<Seq<u8>, HexError>
    decreases b.len() - i,
{
    if i + 2 > b.len() {
        Ok(Seq::empty())
    } else {
        match (hex_digit(b[i as int]), hex_digit(b[i + 1int])) {
            (None, _) => Err(HexError::InvalidHexCharacter { c: b[i as int] as char, index: i as usize }),
            (Some(_), None) => Err(HexError::InvalidHexCharacter { c: b[i + 1int] as char, index: (i + 1) as usize }),
            (Some(hi), Some(lo)) => match hex_decode_from(b, i + 2) {
                Ok(rest) => Ok(seq![(hi * 16 + lo) as u8] + rest),
                Err(e) => Err(e),
            },
        }
    }
}

/// What `hex::decode` gives for the bytes `b`.
pub open spec fn spec_hex_decode(b: Seq<u8>) -> Result<Seq<u8>, HexError> {
    if b.len() % 2 != 0 {
        Err(HexError::OddLength)
    } else {
        hex_decode_from(b, 0)
    }
}

/// Decodes hex with `hex::decode`: an odd length is `OddLength`; otherwise
/// the first byte that is no hex digit is reported with its index; otherwise
/// each pair of digits gives one byte, high digit first.
#[verifier::external_body]
fn hex_decode(data: &[u8]) -> (res: Result<Vec<u8>, HexError>)
    ensures
        match res {
            Ok(v) => spec_hex_decode(data@) == Ok::<Seq<u8>, HexError>(v@),
            Err(e) => spec_hex_decode(data@) == Err::<Seq<u8>, HexError>(e),
        },
{
    match hex::decode(data) {
        Ok(v) => Ok(v),
        Err(hex::FromHexError::InvalidHexCharacter { c, index }) => Err(HexError::InvalidHexCharacter { c, index }),
        Err(hex::FromHexError::OddLength) => Err(HexError::OddLength),
        Err(hex::FromHexError::InvalidStringLength) => Err(HexError::InvalidStringLength),
    }
}

#[verifier::external_type_specification]
#[verifier::external_body]
pub struct ExVerifyingKey(ed25519_dalek::VerifyingKey);

#[verifier::external_type_specification]
#[verifier::external_body]
pub struct ExSignature(ed25519_dalek::Signature);

/// Whether 32 bytes are the compressed form of a point of the Ed25519 curve,
/// which `VerifyingKey::from_bytes` decides.
pub uninterp spec fn ed25519_point_decompresses(bytes: Seq<u8>) -> bool;

/// Whether `signature` is a valid Ed25519 signature of `message` under the
/// public key `public_key`, which `VerifyingKey::verify` decides.
pub uninterp spec fn ed25519_verifies(public_key: Seq<u8>, message: Seq<u8>, signature: Seq<u8>) -> bool;

/// An Ed25519 public key together with the 32 bytes it was made from.
pub struct Ed25519Key {
    key: ed25519_dalek::VerifyingKey,
    bytes: Vec<u8>,
}

impl View for Ed25519Key {
    type V = Seq<u8>;

    closed spec fn view(&self) -> Seq<u8> {
        self.bytes@
    }
}

/// An Ed25519 signature together with the 64 bytes it was made from.
pub struct Ed25519Signature {
    sig: ed25519_dalek::Signature,
    bytes: Vec<u8>,
}

impl View for Ed25519Signature {
    type V = Seq<u8>;

    closed spec fn view(&self) -> Seq<u8> {
        self.bytes@
    }
}

/// Builds a key with `VerifyingKey::from_bytes`, which fails exactly when the
/// bytes do not decompress to a curve point.
#[verifier::external_body]
fn verifying_key_from_bytes(bytes: &[u8]) -> (res: Option<Ed25519Key>)
    requires
        bytes@.len() == 32,
    ensures
        res is Some <==> ed25519_point_decompresses(bytes@),
        res matches Some(k) ==> k@ == bytes@,
{
    let array: [u8; 32] = bytes.try_into().unwrap();
    match ed25519_dalek::VerifyingKey::from_bytes(&array) {
        Ok(key) => Some(Ed25519Key { key, bytes: bytes.to_vec() }),
        Err(_) => None,
    }
}

/// Builds a signature with `Signature::from_slice`, which fails exactly when
/// the slice does not hold 64 bytes.
#[verifier::external_body]
fn signature_from_slice(bytes: &[u8]) -> (res: Option<Ed25519Signature>)
    ensures
        res is Some <==> bytes@.len() == 64,
        res matches Some(s) ==> s@ == bytes@,
{
    match ed25519_dalek::Signature::from_slice(bytes) {
        Ok(sig) => Some(Ed25519Signature { sig, bytes: bytes.to_vec() }),
        Err(_) => None,
    }
}

/// Checks a signature with `VerifyingKey::verify`; its result is named by
/// `ed25519_verifies` over the key's and the signature's bytes.
#[verifier::external_body]
fn ed25519_verify(key: &Ed25519Key, message: &[u8], signature: &Ed25519Signature) -> (res: bool)
    ensures
        res == ed25519_verifies(key@, message@, signature@),
{
    key.key.verify(message, &signature.sig).is_ok()
}

/// The outcome of checking the signature `signature_hex` of `message` under
/// the key `public_key_hex` (both hex strings, given by their bytes).
pub open spec fn spec_verify_signature(
    public_key_hex: Seq<u8>,
    signature_hex: Seq<u8>,
    message: Seq<u8>,
) -> Result<(), VerificationError> {
    match spec_hex_decode(public_key_hex) {
        Err(e) => Err(VerificationError::ParseHexFailed(e)),
        Ok(pk) => if pk.len() != 32 || !ed25519_point_decompresses(pk) {
            Err(VerificationError::CryptoError)
        } else {
            match spec_hex_decode(signature_hex) {
                Err(e) => Err(VerificationError::ParseHexFailed(e)),
                Ok(sig) => if sig.len() != 64 || !ed25519_verifies(pk, message, sig) {
                    Err(VerificationError::CryptoError)
                } else {
                    Ok(())
                },
            }
        },
    }
}

/// Checks that `signature_hex` signs `timestamp` followed by `body` under the
/// key `public_key_hex`.
pub fn verify_signature(public_key_hex: &str, signature_hex: &str, timestamp: &str, body: &str) -> (res: Result<(), VerificationError>)
    ensures
        res == spec_verify_signature(
            public_key_hex.spec_bytes(),
            signature_hex.spec_bytes(),
            encode_utf8(timestamp@ + body@),
        ),
{
    let public_key_bytes = match hex_decode(public_key_hex.as_bytes()) {
        Ok(v) => v,
        Err(e) => return Err(VerificationError::ParseHexFailed(e)),
    };
    if public_key_bytes.len() != 32 {
        return Err(VerificationError::CryptoError);
    }
    let verifying_key = match verifying_key_from_bytes(public_key_bytes.as_slice()) {
        Some(k) => k,
        None => return Err(VerificationError::CryptoError),
    };
    let signature_bytes = match hex_decode(signature_hex.as_bytes()) {
        Ok(v) => v,
        Err(e) => return Err(VerificationError::ParseHexFailed(e)),
    };
    let signature = match signature_from_slice(signature_bytes.as_slice()) {
        Some(s) => s,
        None => return Err(VerificationError::CryptoError),
    };
    let mut message = timestamp.to_owned();
    message.append(body);
    if ed25519_verify(&verifying_key, message.as_str().as_bytes(), &signature) {
        Ok(())
    } else {
        Err(VerificationError::CryptoError)
    }
}

impl VerificationError {
    /// The message of the error, as its `Display` renders it.
    pub fn message(&self) -> (res: String)
        ensures
            res@ == match self {
                VerificationError::ParseHexFailed(_) => "Failed to parse from hex."@,
                VerificationError::CryptoError => "Invalid public key or signature format."@,
            },
    {
        match self {
            VerificationError::ParseHexFailed(_) => "Failed to parse from hex.".to_owned(),
            VerificationError::CryptoError => "Invalid public key or signature format.".to_owned(),
        }
    }
}

} // verus!
