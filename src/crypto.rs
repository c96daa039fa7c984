use vstd::prelude::*;
use blake2::Digest;
use ed25519_dalek::{Signer, Verifier};

verus! {

/// The Blake2b hash of `data` with a 32-byte output.
pub uninterp spec fn blake2b256_of(data: Seq<u8>) -> Seq<u8>;

/// The Ed25519 public key of the 32-byte secret key `seed`.
pub uninterp spec fn ed25519_public_key_of(seed: Seq<u8>) -> Seq<u8>;

/// The Ed25519 signature of `msg` under the 32-byte secret key `seed`.
pub uninterp spec fn ed25519_signature_of(seed: Seq<u8>, msg: Seq<u8>) -> Seq<u8>;

/// Whether Ed25519 verification accepts `sig` over `msg` under public key `pk`.
pub uninterp spec fn ed25519_accepts(pk: Seq<u8>, msg: Seq<u8>, sig: Seq<u8>) -> bool;

/// Relies on blake2's `Blake2b<U32>::digest`: a 32-byte hash that depends
/// on the input bytes alone.
#[verifier::external_body]
pub(crate) fn blake2b256(data: &[u8]) -> (r: Vec<u8>)
    ensures
        r@ == blake2b256_of(data@),
        r@.len() == 32,
{
    blake2::Blake2b::<blake2::digest::consts::U32>::digest(data).to_vec()
}

/// Relies on ed25519_dalek's `SigningKey::from_bytes` and `verifying_key`:
/// the 32-byte compressed public key of a 32-byte secret key.
#[verifier::external_body]
pub(crate) fn ed25519_public_key(seed: &[u8]) -> (r: Vec<u8>)
    requires
        seed@.len() == 32,
    ensures
        r@ == ed25519_public_key_of(seed@),
        r@.len() == 32,
{
    let secret: [u8; 32] = seed.try_into().unwrap();
    ed25519_dalek::SigningKey::from_bytes(&secret).verifying_key().to_bytes().to_vec()
}

/// Relies on ed25519_dalek's `Signer::sign` for `SigningKey`: a
/// deterministic 64-byte signature of the message.
#[verifier::external_body]
pub(crate) fn ed25519_sign(seed: &[u8], msg: &[u8]) -> (r: Vec<u8>)
    requires
        seed@.len() == 32,
    ensures
        r@ == ed25519_signature_of(seed@, msg@),
        r@.len() == 64,
{
    let secret: [u8; 32] = seed.try_into().unwrap();
    ed25519_dalek::SigningKey::from_bytes(&secret).sign(msg).to_bytes().to_vec()
}

/// Relies on ed25519_dalek's `VerifyingKey::from_bytes`, `Signature::from_bytes`
/// and `Verifier::verify`: `true` exactly when the key decodes and the
/// signature verifies over the message.
#[verifier::external_body]
pub(crate) fn ed25519_verify(pk: &[u8], msg: &[u8], sig: &[u8]) -> (r: bool)
    requires
        pk@.len() == 32,
        sig@.len() == 64,
    ensures
        r == ed25519_accepts(pk@, msg@, sig@),
{
    let pk_bytes: [u8; 32] = pk.try_into().unwrap();
    let sig_bytes: [u8; 64] = sig.try_into().unwrap();
    match ed25519_dalek::VerifyingKey::from_bytes(&pk_bytes) {
        Ok(key) => key.verify(msg, &ed25519_dalek::Signature::from_bytes(&sig_bytes)).is_ok(),
        Err(_) => false,
    }
}

} // verus!
