//! Elliptic-curve operations: signature checks and key encodings on
//! secp256k1 and Ed25519, as `k256` and `ed25519_dalek` perform them.
//!
//! Nothing here is proved. Each function below hands bytes to the curve crate
//! and returns its answer; the contract gives that answer a name as a function
//! of the bytes.

use vstd::prelude::*;

verus! {

/// The error of the `signature` crate, which both curve crates return.
#[verifier::external_type_specification]
#[verifier::external_body]
pub struct ExSignatureError(signature::Error);

/// Whether `signature` is a valid ECDSA signature over secp256k1 of `msg`
/// (hashed with SHA-256) under the SEC1-encoded public key `key`. It is
/// `false` too where the key or the signature cannot be parsed.
pub uninterp spec fn secp256k1_signature_valid(key: Seq<u8>, msg: Seq<u8>, signature: Seq<u8>) -> bool;

/// Whether `signature` is a valid Ed25519 signature of `msg` under the public
/// key `key`. It is `false` too where the key or the signature cannot be
/// parsed.
pub uninterp spec fn ed25519_signature_valid(key: Seq<u8>, msg: Seq<u8>, signature: Seq<u8>) -> bool;

/// The compressed SEC1 encoding of the secp256k1 public key that `key`
/// encodes, or `None` where `key` encodes no point of the curve.
pub uninterp spec fn secp256k1_compressed(key: Seq<u8>) -> Option<Seq<u8>>;

/// The bytes of the Ed25519 public key that `key` encodes, or `None` where
/// `key` is not 32 bytes that decompress to a point of the curve.
pub uninterp spec fn ed25519_public_key(key: Seq<u8>) -> Option<Seq<u8>>;

/// Parses the key with `k256::ecdsa::VerifyingKey::from_sec1_bytes` and the
/// signature with `k256::ecdsa::Signature::try_from`, then calls
/// `signature::Verifier::verify`. Each of the three can fail, always with the
/// same error type; the call succeeds exactly when the signature is valid.
#[verifier::external_body]
pub(crate) fn secp256k1_verify(key: &[u8], msg: &[u8], signature: &[u8]) -> (r: Result<
    (),
    signature::Error,
>)
    ensures
        r is Ok == secp256k1_signature_valid(key@, msg@, signature@),
{
    let verify_key = k256::ecdsa::VerifyingKey::from_sec1_bytes(key)?;
    let signature = k256::ecdsa::Signature::try_from(signature)?;
    k256::ecdsa::signature::Verifier::verify(&verify_key, msg, &signature)
}

/// Parses the signature with `ed25519_dalek::Signature::from_bytes` and the
/// key with `ed25519_dalek::PublicKey::from_bytes`, then calls
/// `ed25519_dalek::Verifier::verify`. Each of the three can fail, always with
/// the same error type; the call succeeds exactly when the signature is valid.
#[verifier::external_body]
pub(crate) fn ed25519_verify(key: &[u8], msg: &[u8], signature: &[u8]) -> (r: Result<
    (),
    signature::Error,
>)
    ensures
        r is Ok == ed25519_signature_valid(key@, msg@, signature@),
{
    let signature = ed25519_dalek::Signature::from_bytes(signature)?;
    let public_key = ed25519_dalek::PublicKey::from_bytes(key)?;
    ed25519_dalek::Verifier::verify(&public_key, msg, &signature)
}

/// Parses the key with `k256::ecdsa::VerifyingKey::from_sec1_bytes` and
/// returns `VerifyingKey::to_bytes`, its SEC1 encoding with point compression.
#[verifier::external_body]
pub(crate) fn secp256k1_compress(key: &[u8]) -> (r: Result<Vec<u8>, signature::Error>)
    ensures
        match r {
            Ok(bytes) => secp256k1_compressed(key@) == Some(bytes@),
            Err(_) => secp256k1_compressed(key@) is None,
        },
{
    let verify_key = k256::ecdsa::VerifyingKey::from_sec1_bytes(key)?;
    Ok(verify_key.to_bytes().to_vec())
}

/// Parses the key with `ed25519_dalek::PublicKey::from_bytes` and returns
/// `PublicKey::as_bytes`.
#[verifier::external_body]
pub(crate) fn ed25519_key_bytes(key: &[u8]) -> (r: Result<Vec<u8>, signature::Error>)
    ensures
        match r {
            Ok(bytes) => ed25519_public_key(key@) == Some(bytes@),
            Err(_) => ed25519_public_key(key@) is None,
        },
{
    let public_key = ed25519_dalek::PublicKey::from_bytes(key)?;
    Ok(public_key.as_bytes().to_vec())
}

} // verus!
