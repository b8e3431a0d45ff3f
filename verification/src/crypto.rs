//! The calls this library makes into outside crates: Ed25519 key handling,
//! SHA-256, the operating system's random source, and memory zeroisation.

use ed25519_dalek::{SignatureError, SigningKey, VerifyingKey};
use rand_core::{Error as RandError, OsRng, RngCore};
use sha2::{Digest, Sha256};
use vstd::prelude::*;
use zeroize::Zeroize;

verus! {

#[verifier::external_type_specification]
#[verifier::external_body]
pub struct ExVerifyingKey(VerifyingKey);

#[verifier::external_type_specification]
#[verifier::external_body]
pub struct ExSignatureError(SignatureError);

#[verifier::external_type_specification]
#[verifier::external_body]
pub struct ExRandError(RandError);

/// Whether 32 bytes are the compressed Edwards-Y encoding of a curve25519 point
/// that `ed25519_dalek` accepts (ZIP-215 decompression succeeds).
pub uninterp spec fn ed25519_point_decodes(bytes: Seq<u8>) -> bool;

/// The compressed Ed25519 public key that `ed25519_dalek` derives from a 32-byte seed.
pub uninterp spec fn ed25519_public_key_of_seed(seed: Seq<u8>) -> Seq<u8>;

/// The SHA-256 digest of a byte string.
pub uninterp spec fn sha256_digest(data: Seq<u8>) -> Seq<u8>;

/// Calls `ed25519_dalek::VerifyingKey::from_bytes`. Claimed: the result is `Ok`
/// exactly when the bytes decompress to a curve point; the call depends on the
/// bytes alone. What the returned key holds is not stated: the type is opaque here.
#[verifier::external_body]
pub(crate) fn verifying_key_from_bytes(bytes: &[u8; 32]) -> (r: Result<VerifyingKey, SignatureError>)
    ensures
        r is Ok <==> ed25519_point_decodes(bytes@),
{
    VerifyingKey::from_bytes(bytes)
}

/// Calls `ed25519_dalek::SigningKey::from_bytes` and encodes the derived
/// verifying key with `VerifyingKey::to_bytes`. Claimed: the 32 bytes returned
/// are a function of the seed alone, and, being the compression of a curve
/// point, they decompress again (`VerifyingKey::from_bytes` accepts them).
#[verifier::external_body]
pub(crate) fn public_key_bytes_from_seed(seed: &[u8; 32]) -> (r: [u8; 32])
    ensures
        r@ == ed25519_public_key_of_seed(seed@),
        ed25519_point_decodes(r@),
{
    SigningKey::from_bytes(seed).verifying_key().to_bytes()
}

/// Calls `rand_core::OsRng::try_fill_bytes` on 32 bytes, the secret seed that
/// `ed25519_dalek::SigningKey::generate` draws in the same way. Nothing is
/// claimed of the bytes or of whether the operating system's random source
/// answers; a failure comes back as `Err` rather than a panic.
#[verifier::external_body]
pub(crate) fn random_signing_seed() -> (r: Result<[u8; 32], RandError>) {
    let mut seed = [0u8; 32];
    OsRng.try_fill_bytes(&mut seed).map(|()| seed)
}

/// Calls `sha2::Sha256::digest`. Claimed: the 32 bytes returned are the digest
/// of the input, a function of the input alone.
#[verifier::external_body]
pub(crate) fn sha256(data: &[u8]) -> (r: [u8; 32])
    ensures
        r@ == sha256_digest(data@),
{
    Sha256::digest(data).into()
}

/// Calls `zeroize::Zeroize::zeroize` on a 32-byte array. Claimed: every byte is
/// zero afterwards, as the `u8` impl writes `u8::default()` into each element.
#[verifier::external_body]
pub(crate) fn zeroize_bytes(bytes: &mut [u8; 32])
    ensures
        final(bytes)@ == Seq::new(32, |i: int| 0u8),
{
    bytes.zeroize()
}

/// Calls `String::push`. Claimed: the character is appended.
#[verifier::external_body]
pub(crate) fn push_char(s: &mut String, c: char)
    ensures
        final(s)@ == old(s)@.push(c),
{
    s.push(c)
}

} // verus!
