//! The boundary with the Kyber-1024 implementation of `pqcrypto_kyber`: the
//! key and ciphertext types it defines, and the operations that the
//! validation uses, each with what this library relies on.

use pqcrypto_kyber::kyber1024::{Ciphertext, PublicKey, SecretKey};
use pqcrypto_traits::kem::PublicKey as PublicKeyBytes;
use pqcrypto_traits::kem::SecretKey as SecretKeyBytes;
use pqcrypto_traits::kem::SharedSecret as SharedSecretBytes;
use vstd::prelude::*;

verus! {

/// Length in bytes of an encoded Kyber-1024 public key.
pub const PUBLIC_KEY_BYTES: usize = 1568;

/// Length in bytes of an encoded Kyber-1024 secret key.
pub const SECRET_KEY_BYTES: usize = 3168;

/// Length in bytes of a Kyber-1024 shared secret.
pub const SHARED_SECRET_BYTES: usize = 32;

#[verifier::external_type_specification]
#[verifier::external_body]
pub struct ExPublicKey(PublicKey);

#[verifier::external_type_specification]
#[verifier::external_body]
pub struct ExSecretKey(SecretKey);

#[verifier::external_type_specification]
#[verifier::external_body]
pub struct ExCiphertext(Ciphertext);

#[verifier::external_type_specification]
#[verifier::external_body]
pub struct ExProviderError(pqcrypto_traits::Error);

/// Relies on `pqcrypto_traits::kem::PublicKey::from_bytes` as implemented for
/// `pqcrypto_kyber::kyber1024::PublicKey`: it accepts exactly
/// `PUBLIC_KEY_BYTES` bytes and reports any other length as `BadLength`.
#[verifier::external_body]
pub(crate) fn public_key_from_bytes(b: &[u8]) -> (r: Result<PublicKey, pqcrypto_traits::Error>)
    ensures
        r is Ok <==> b@.len() == PUBLIC_KEY_BYTES,
{
    <PublicKey as PublicKeyBytes>::from_bytes(b)
}

/// Relies on `pqcrypto_traits::kem::SecretKey::from_bytes` as implemented for
/// `pqcrypto_kyber::kyber1024::SecretKey`: it accepts exactly
/// `SECRET_KEY_BYTES` bytes and reports any other length as `BadLength`.
#[verifier::external_body]
pub(crate) fn secret_key_from_bytes(b: &[u8]) -> (r: Result<SecretKey, pqcrypto_traits::Error>)
    ensures
        r is Ok <==> b@.len() == SECRET_KEY_BYTES,
{
    <SecretKey as SecretKeyBytes>::from_bytes(b)
}

/// Relies on `pqcrypto_kyber::kyber1024::encapsulate`: it draws fresh
/// randomness and returns a shared secret, handed back here as its
/// `SHARED_SECRET_BYTES` bytes, with the ciphertext that carries it to the
/// holder of the matching secret key. Nothing is assumed of the values. It
/// panics only when the operating system's random source fails, which no
/// argument can rule out.
#[verifier::external_body]
pub(crate) fn encapsulate(pk: &PublicKey) -> (r: (Vec<u8>, Ciphertext))
    ensures
        r.0@.len() == SHARED_SECRET_BYTES,
{
    let (ss, ct) = pqcrypto_kyber::kyber1024::encapsulate(pk);
    (ss.as_bytes().to_vec(), ct)
}

/// Relies on `pqcrypto_kyber::kyber1024::decapsulate`: it returns a shared
/// secret, handed back here as its `SHARED_SECRET_BYTES` bytes. Nothing is
/// assumed of the value.
#[verifier::external_body]
pub(crate) fn decapsulate(ct: &Ciphertext, sk: &SecretKey) -> (r: Vec<u8>)
    ensures
        r@.len() == SHARED_SECRET_BYTES,
{
    pqcrypto_kyber::kyber1024::decapsulate(ct, sk).as_bytes().to_vec()
}

} // verus!
