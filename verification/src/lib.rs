//! Anonymous public-key sealed encryption.
//!
//! A sender seals a message to a recipient's public key without holding a
//! keypair of their own; the recipient opens the sealed box with their full
//! keypair. The elliptic-curve and authenticated-encryption primitives are
//! supplied by libsodium; this crate validates key material, drives the
//! primitive, and converts byte buffers to and from their canonical base64
//! text form.

use vstd::prelude::*;

mod crypto_box;
mod utils;

pub use crypto_box::KeyPair;
pub use crypto_box::PUBLIC_KEY_LEN;
pub use crypto_box::SEAL_OVERHEAD;
pub use crypto_box::SECRET_KEY_LEN;
pub use crypto_box::generate_keypair;
pub use crypto_box::keypair_linked;
pub use crypto_box::lemma_seal_open_round_trip;
pub use crypto_box::open_sealed_box;
pub use crypto_box::seal_box;
pub use crypto_box::sealed_opens;
pub use utils::b64_decode;
pub use utils::b64_of;
pub use utils::is_b64_alpha;
pub use utils::base642bin;
pub use utils::bin2base64;

verus! {

/// The failures this library reports.
///
/// - `InvalidKey`: key material of the wrong length, detected before any
///   cryptographic work is attempted.
/// - `AuthenticationFailed`: a sealed box was rejected on opening; tampering,
///   truncation, corruption and key mismatch all collapse into this one
///   outcome on purpose, so that the failure leaks nothing about its cause.
/// - `InvalidEncoding`: malformed base64 text.
/// - `Fatal`: the underlying cryptographic library could not initialize.
#[derive(Clone, Copy, Debug, PartialEq, Eq, Structural)]
pub enum CryptoError {
    InvalidKey,
    AuthenticationFailed,
    InvalidEncoding,
    Fatal,
}

/// Relies on `libsodium_rs::ensure_init`: initializes libsodium once per
/// process; the call is idempotent and safe to repeat, and fails only when
/// the library itself cannot be set up.
#[verifier::external_body]
fn sodium_init_raw() -> Result<(), ()> {
    libsodium_rs::ensure_init().map_err(|_| ())
}

/// Performs the process-wide one-time initialization of the underlying
/// cryptographic library. Idempotent; repeated calls are no-ops.
pub fn ensure_init() -> (r: Result<(), CryptoError>)
    ensures
        r matches Err(e) ==> e == CryptoError::Fatal,
{
    match sodium_init_raw() {
        Ok(()) => Ok(()),
        Err(()) => Err(CryptoError::Fatal),
    }
}

} // verus!
