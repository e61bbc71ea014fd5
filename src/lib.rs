//! Checks that a Kyber-1024 public key and secret key belong to one key pair,
//! by running an encapsulation against the public key, decapsulating the
//! ciphertext with the secret key, and comparing the two shared secrets in
//! constant time.

pub mod secret_eq;
pub mod provider;
pub mod validation;

pub use provider::{PUBLIC_KEY_BYTES, SECRET_KEY_BYTES, SHARED_SECRET_BYTES};
pub use secret_eq::secrets_equal;
pub use validation::{check_shared_secrets, validate, validate_keys, ValidationError};
