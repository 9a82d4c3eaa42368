use ed25519_dalek::{Signer, SigningKey};
use ggsbot::discord::bot::check_request;
use ggsbot::discord::verification::{HexError, VerificationError, verify_signature};
use ggsbot::error::Error;

fn keypair() -> (SigningKey, String) {
    let signing = SigningKey::from_bytes(&[7u8; 32]);
    let public_hex = hex::encode(signing.verifying_key().to_bytes());
    (signing, public_hex)
}

fn sign(signing: &SigningKey, message: &str) -> String {
    hex::encode(signing.sign(message.as_bytes()).to_bytes())
}

#[test]
fn a_valid_signature_verifies() {
    let (signing, public_hex) = keypair();
    let sig = sign(&signing, "1700000000{\"type\":1}");
    assert_eq!(verify_signature(&public_hex, &sig, "1700000000", "{\"type\":1}"), Ok(()));
}

#[test]
fn an_upper_case_hex_signature_verifies() {
    let (signing, public_hex) = keypair();
    let sig = sign(&signing, "1700000000{}").to_uppercase();
    assert_eq!(verify_signature(&public_hex.to_uppercase(), &sig, "1700000000", "{}"), Ok(()));
}

#[test]
fn a_tampered_body_is_refused() {
    let (signing, public_hex) = keypair();
    let sig = sign(&signing, "1700000000{\"type\":1}");
    assert_eq!(
        verify_signature(&public_hex, &sig, "1700000000", "{\"type\":2}"),
        Err(VerificationError::CryptoError)
    );
    assert_eq!(
        verify_signature(&public_hex, &sig, "1700000001", "{\"type\":1}"),
        Err(VerificationError::CryptoError)
    );
}

#[test]
fn malformed_hex_is_reported() {
    let (signing, public_hex) = keypair();
    let sig = sign(&signing, "ts body");
    assert_eq!(
        verify_signature("abc", &sig, "ts", " body"),
        Err(VerificationError::ParseHexFailed(HexError::OddLength))
    );
    assert_eq!(
        verify_signature("zz", &sig, "ts", " body"),
        Err(VerificationError::ParseHexFailed(HexError::InvalidHexCharacter { c: 'z', index: 0 }))
    );
    assert_eq!(
        verify_signature(&public_hex, "0g", "ts", " body"),
        Err(VerificationError::ParseHexFailed(HexError::InvalidHexCharacter { c: 'g', index: 1 }))
    );
}

#[test]
fn wrong_lengths_are_crypto_errors() {
    let (signing, public_hex) = keypair();
    let sig = sign(&signing, "ts body");
    assert_eq!(verify_signature("abcd", &sig, "ts", " body"), Err(VerificationError::CryptoError));
    assert_eq!(verify_signature(&public_hex, "abcd", "ts", " body"), Err(VerificationError::CryptoError));
}

#[test]
fn error_messages() {
    assert_eq!(VerificationError::CryptoError.message(), "Invalid public key or signature format.");
    assert_eq!(
        VerificationError::ParseHexFailed(HexError::OddLength).message(),
        "Failed to parse from hex."
    );
}

#[test]
fn a_signed_request_hands_back_its_body() {
    let (signing, public_hex) = keypair();
    let body = "{\"type\":1}".to_string();
    let sig = sign(&signing, &format!("42{body}"));
    let res = check_request(Ok(public_hex), Ok(Some(sig)), Ok(Some("42".to_string())), Some(body.clone()));
    assert!(matches!(res, Ok(b) if b == body));
}

#[test]
fn request_errors_in_order() {
    let (signing, public_hex) = keypair();
    let sig = sign(&signing, "42{}");
    let res = check_request(Err("no var".to_string()), Ok(None), Ok(None), None);
    assert!(matches!(res, Err(Error::EnvironmentVariableNotFound(m)) if m == "no var"));
    let res = check_request(Ok(public_hex.clone()), Ok(None), Ok(Some("42".to_string())), Some("{}".to_string()));
    assert!(matches!(res, Err(Error::HeaderNotFound(m)) if m == "x-signature-ed25519"));
    let res = check_request(Ok(public_hex.clone()), Err("bad headers".to_string()), Ok(None), None);
    assert!(matches!(res, Err(Error::HeaderNotFound(m)) if m == "bad headers"));
    let res = check_request(Ok(public_hex.clone()), Ok(Some(sig.clone())), Ok(None), Some("{}".to_string()));
    assert!(matches!(res, Err(Error::HeaderNotFound(m)) if m == "x-signature-timestamp"));
    let res = check_request(Ok(public_hex.clone()), Ok(Some(sig.clone())), Ok(Some("42".to_string())), None);
    assert!(matches!(res, Err(Error::InvalidPayload(m)) if m == "Body read failed"));
    let res = check_request(Ok(public_hex), Ok(Some(sig)), Ok(Some("43".to_string())), Some("{}".to_string()));
    assert!(matches!(res, Err(Error::VerificationFailed(m)) if m == "Invalid public key or signature format."));
}

#[test]
fn status_codes_of_request_errors() {
    assert_eq!(Error::VerificationFailed(String::new()).status_code(), 401);
    assert_eq!(Error::HeaderNotFound(String::new()).status_code(), 400);
    assert_eq!(Error::InvalidPayload(String::new()).status_code(), 400);
    assert_eq!(Error::EnvironmentVariableNotFound(String::new()).status_code(), 400);
    assert_eq!(Error::JsonFailed(String::new()).status_code(), 400);
    assert_eq!(Error::Generic(String::new()).status_code(), 500);
    assert_eq!(Error::CryptoError.status_code(), 500);
}
