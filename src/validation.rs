//! Deciding whether a public key and a secret key form one KEM key pair.

use crate::provider::{
    decapsulate,
    encapsulate,
    public_key_from_bytes,
    secret_key_from_bytes,
    PUBLIC_KEY_BYTES,
    SECRET_KEY_BYTES,
};
use crate::secret_eq::secrets_equal;
use pqcrypto_kyber::kyber1024::{PublicKey, SecretKey};
use vstd::prelude::*;

verus! {

/// Why a public key and a secret key were not accepted as a pair.
#[derive(Clone, Copy, Debug)]
pub enum ValidationError {
    /// The shared secret recovered with the secret key differs from the one
    /// produced against the public key: the keys are not a pair.
    KeyMismatch,
    /// The KEM provider refused the key material (for instance a key of the
    /// wrong length); carries the provider's own error.
    ProviderError(pqcrypto_traits::Error),
}

impl ValidationError {
    /// Whether this is `KeyMismatch`.
    pub fn is_key_mismatch(&self) -> (r: bool)
        ensures
            r == (*self is KeyMismatch),
    {
        match self {
            ValidationError::KeyMismatch => true,
            ValidationError::ProviderError(_) => false,
        }
    }

    /// Whether this is a `ProviderError`.
    pub fn is_provider_error(&self) -> (r: bool)
        ensures
            r == (*self is ProviderError),
    {
        match self {
            ValidationError::KeyMismatch => false,
            ValidationError::ProviderError(_) => true,
        }
    }
}

/// The outcome of a validation that got past the provider: success, or
/// `KeyMismatch`.
pub open spec fn reached_comparison(r: Result<(), ValidationError>) -> bool {
    r is Ok || r matches Err(ValidationError::KeyMismatch)
}

/// Decides a validation from the two shared secrets: the one produced by
/// encapsulating against the public key and the one recovered by
/// decapsulating with the secret key. The keys match exactly when the two
/// are equal as byte strings; they are compared in constant time.
pub fn check_shared_secrets(encapsulated: &[u8], decapsulated: &[u8]) -> (r: Result<
    (),
    ValidationError,
>)
    ensures
        r is Ok <==> encapsulated@ == decapsulated@,
        reached_comparison(r),
{
    if secrets_equal(encapsulated, decapsulated) {
        Ok(())
    } else {
        Err(ValidationError::KeyMismatch)
    }
}

/// Checks that `pk` and `sk` form one Kyber-1024 key pair: encapsulates a
/// fresh shared secret against `pk`, decapsulates the ciphertext with `sk`,
/// and succeeds exactly when the two shared secrets agree (see
/// `check_shared_secrets`). Since both keys are already well formed, the
/// result is success or `KeyMismatch`, never `ProviderError`.
pub fn validate_keys(pk: &PublicKey, sk: &SecretKey) -> (r: Result<(), ValidationError>)
    ensures
        reached_comparison(r),
{
    let (encapsulated, ct) = encapsulate(pk);
    let decapsulated = decapsulate(&ct, sk);
    check_shared_secrets(&encapsulated, &decapsulated)
}

/// Checks that the encoded keys `pk` and `sk` form one Kyber-1024 key pair.
/// Key material that the provider refuses (a public key that is not
/// `PUBLIC_KEY_BYTES` long, or a secret key that is not `SECRET_KEY_BYTES`
/// long) gives `ProviderError` with the provider's error, the public key being
/// read first; otherwise the result is that of `validate_keys`.
pub fn validate(pk: &[u8], sk: &[u8]) -> (r: Result<(), ValidationError>)
    ensures
        r matches Err(ValidationError::ProviderError(_)) <==> (pk@.len() != PUBLIC_KEY_BYTES
            || sk@.len() != SECRET_KEY_BYTES),
        pk@.len() == PUBLIC_KEY_BYTES && sk@.len() == SECRET_KEY_BYTES ==> reached_comparison(r),
{
    let public_key = match public_key_from_bytes(pk) {
        Ok(k) => k,
        Err(e) => {
            return Err(ValidationError::ProviderError(e));
        },
    };
    let secret_key = match secret_key_from_bytes(sk) {
        Ok(k) => k,
        Err(e) => {
            return Err(ValidationError::ProviderError(e));
        },
    };
    validate_keys(&public_key, &secret_key)
}

} // verus!
