//! The sealed-box codec and keypair generation.
//!
//! A sealed box is produced by `seal_box` from a message and a recipient's
//! public key alone: the primitive generates a fresh ephemeral keypair for
//! every call, so sealing is non-deterministic, and the output embeds the
//! ephemeral public key ahead of the ciphertext and tag. `open_sealed_box`
//! recovers the message given the recipient's full keypair.

use vstd::prelude::*;

use crate::CryptoError;

verus! {

/// Length in bytes of a curve public key.
pub const PUBLIC_KEY_LEN: usize = 32;

/// Length in bytes of a curve secret key.
pub const SECRET_KEY_LEN: usize = 32;

/// Bytes a sealed box adds on top of the message: the embedded ephemeral
/// public key followed by the authentication tag.
pub const SEAL_OVERHEAD: usize = 48;

/// What `open_sealed_box` recovers from the bytes `c` under the keypair
/// `(pk, sk)`: `Some(m)` when the box authenticates and decrypts to `m`,
/// `None` when it is rejected. Decryption is deterministic, a function of
/// the three byte sequences alone, so the result can carry a name; the name
/// is given meaning only by the contracts of the trusted calls below.
pub uninterp spec fn sealed_opens(c: Seq<u8>, pk: Seq<u8>, sk: Seq<u8>) -> Option<Seq<u8>>;

/// Holds of the keys of one generated keypair: the secret key was derived
/// alongside the public key, so boxes sealed to the public key open under
/// the secret key. Nothing else is assumed of the relation.
pub uninterp spec fn keypair_linked(pk: Seq<u8>, sk: Seq<u8>) -> bool;

/// An owned public/secret keypair, generated atomically together.
pub struct KeyPair {
    pub public_key: Vec<u8>,
    pub secret_key: Vec<u8>,
}

impl KeyPair {
    /// Both keys have their exact curve length and were generated together.
    pub open spec fn wf(self) -> bool {
        &&& self.public_key@.len() == PUBLIC_KEY_LEN
        &&& self.secret_key@.len() == SECRET_KEY_LEN
        &&& keypair_linked(self.public_key@, self.secret_key@)
    }
}

/// Relies on `libsodium_rs::crypto_box::KeyPair::generate`
/// (`crypto_box_keypair`): always returns a fresh X25519 keypair of 32-byte
/// halves whose secret key decrypts boxes sealed to its public key; on a
/// system-level randomness failure it aborts the process rather than
/// return. `as_bytes` only copies the key bytes out.
#[verifier::external_body]
fn generate_raw() -> (r: (Vec<u8>, Vec<u8>))
    ensures
        r.0@.len() == PUBLIC_KEY_LEN,
        r.1@.len() == SECRET_KEY_LEN,
        keypair_linked(r.0@, r.1@),
{
    let keypair = libsodium_rs::crypto_box::KeyPair::generate();
    (
        keypair.public_key.as_bytes().to_vec(),
        keypair.secret_key.as_bytes().to_vec(),
    )
}

/// Relies on `libsodium_rs::crypto_box::seal_box` (`crypto_box_seal`): on
/// success the sealed box is exactly `SEAL_OVERHEAD` bytes longer than the
/// message and opens to the message under the recipient's keypair. The call
/// fails only when the curve rejects the public key (a low-order point
/// yielding an all-zero shared secret); a public key generated alongside a
/// secret key is never such a point, so for it the call succeeds, whatever
/// the message. `PublicKey::from_bytes` only checks the length, which the
/// precondition fixes, and copies the bytes in.
#[verifier::external_body]
fn seal_raw(message: &Vec<u8>, recipient_pk: &Vec<u8>) -> (r: Result<Vec<u8>, ()>)
    requires
        recipient_pk@.len() == PUBLIC_KEY_LEN,
    ensures
        (exists|sk: Seq<u8>| keypair_linked(recipient_pk@, sk)) ==> r is Ok,
        r matches Ok(c) ==> c@.len() == message@.len() + SEAL_OVERHEAD,
        r matches Ok(c) ==> forall|sk: Seq<u8>|
            keypair_linked(recipient_pk@, sk) ==> sealed_opens(c@, recipient_pk@, sk)
                == Some(message@),
{
    let key = match libsodium_rs::crypto_box::PublicKey::from_bytes(recipient_pk) {
        Ok(key) => key,
        Err(_) => return Err(()),
    };
    libsodium_rs::crypto_box::seal_box(message, &key).map_err(|_| ())
}

/// Relies on `libsodium_rs::crypto_box::open_sealed_box`
/// (`crypto_box_seal_open`): decryption is deterministic; it returns the
/// recovered message exactly when the box authenticates under the given
/// keypair, and fails otherwise. The `from_bytes` conversions only check
/// the lengths, which the preconditions fix, and copy the bytes in.
#[verifier::external_body]
fn open_raw(sealed_box: &Vec<u8>, recipient_pk: &Vec<u8>, recipient_sk: &Vec<u8>) -> (r: Result<
    Vec<u8>,
    (),
>)
    requires
        recipient_pk@.len() == PUBLIC_KEY_LEN,
        recipient_sk@.len() == SECRET_KEY_LEN,
    ensures
        r matches Ok(m) ==> sealed_opens(sealed_box@, recipient_pk@, recipient_sk@) == Some(m@),
        r is Err ==> sealed_opens(sealed_box@, recipient_pk@, recipient_sk@) is None,
{
    let pk = match libsodium_rs::crypto_box::PublicKey::from_bytes(recipient_pk) {
        Ok(pk) => pk,
        Err(_) => return Err(()),
    };
    let sk = match libsodium_rs::crypto_box::SecretKey::from_bytes(recipient_sk) {
        Ok(sk) => sk,
        Err(_) => return Err(()),
    };
    libsodium_rs::crypto_box::open_sealed_box(sealed_box, &pk, &sk).map_err(|_| ())
}

/// Generates a fresh keypair from the process-wide secure random source.
/// Never fails with a typed error; a randomness failure is fatal.
pub fn generate_keypair() -> (r: KeyPair)
    ensures
        r.wf(),
{
    let (public_key, secret_key) = generate_raw();
    KeyPair { public_key, secret_key }
}

/// Seals `message` to `recipient_pk`, producing a sealed box that the
/// holder of the linked secret key can open to recover `message` exactly.
///
/// The public key's length is validated before any cryptographic work; a
/// buffer of the wrong length fails with `InvalidKey`, and a correctly
/// sized buffer that the curve itself rejects fails the same way. For a
/// public key generated alongside a secret key, sealing succeeds for every
/// message, the empty one included.
pub fn seal_box(message: Vec<u8>, recipient_pk: Vec<u8>) -> (r: Result<Vec<u8>, CryptoError>)
    ensures
        recipient_pk@.len() == PUBLIC_KEY_LEN && (exists|sk: Seq<u8>|
            keypair_linked(recipient_pk@, sk)) ==> r is Ok,
        recipient_pk@.len() != PUBLIC_KEY_LEN ==> r == Err::<Vec<u8>, CryptoError>(
            CryptoError::InvalidKey,
        ),
        r matches Err(e) ==> e == CryptoError::InvalidKey,
        r matches Ok(c) ==> {
            &&& recipient_pk@.len() == PUBLIC_KEY_LEN
            &&& c@.len() == message@.len() + SEAL_OVERHEAD
            &&& forall|sk: Seq<u8>|
                keypair_linked(recipient_pk@, sk) ==> sealed_opens(c@, recipient_pk@, sk)
                    == Some(message@)
        },
{
    if recipient_pk.len() != PUBLIC_KEY_LEN {
        return Err(CryptoError::InvalidKey);
    }
    match seal_raw(&message, &recipient_pk) {
        Ok(c) => Ok(c),
        Err(()) => Err(CryptoError::InvalidKey),
    }
}

/// Opens a sealed box with the recipient's full keypair, recovering the
/// original message.
///
/// Both key lengths are validated independently, before any cryptographic
/// work, each failing with `InvalidKey` whatever the box holds. With valid
/// key lengths the outcome is exactly what the primitive's deterministic
/// decryption gives: the message when the box authenticates, and the single
/// opaque `AuthenticationFailed` otherwise — truncation, corruption,
/// tampering and key mismatch are deliberately indistinguishable.
pub fn open_sealed_box(
    sealed_box: Vec<u8>,
    recipient_public_key: Vec<u8>,
    recipient_secret_key: Vec<u8>,
) -> (r: Result<Vec<u8>, CryptoError>)
    ensures
        recipient_public_key@.len() != PUBLIC_KEY_LEN ==> r == Err::<Vec<u8>, CryptoError>(
            CryptoError::InvalidKey,
        ),
        recipient_public_key@.len() == PUBLIC_KEY_LEN && recipient_secret_key@.len()
            != SECRET_KEY_LEN ==> r == Err::<Vec<u8>, CryptoError>(CryptoError::InvalidKey),
        recipient_public_key@.len() == PUBLIC_KEY_LEN && recipient_secret_key@.len()
            == SECRET_KEY_LEN ==> {
            &&& (r matches Ok(m) ==> sealed_opens(
                sealed_box@,
                recipient_public_key@,
                recipient_secret_key@,
            ) == Some(m@))
            &&& (sealed_opens(sealed_box@, recipient_public_key@, recipient_secret_key@) matches
                Some(m) ==> (r matches Ok(v) && v@ == m))
            &&& (sealed_opens(sealed_box@, recipient_public_key@, recipient_secret_key@) is None
                ==> r == Err::<Vec<u8>, CryptoError>(CryptoError::AuthenticationFailed))
        },
{
    if recipient_public_key.len() != PUBLIC_KEY_LEN {
        return Err(CryptoError::InvalidKey);
    }
    if recipient_secret_key.len() != SECRET_KEY_LEN {
        return Err(CryptoError::InvalidKey);
    }
    match open_raw(&sealed_box, &recipient_public_key, &recipient_secret_key) {
        Ok(m) => Ok(m),
        Err(()) => Err(CryptoError::AuthenticationFailed),
    }
}

/// Round trip: a sealed box carrying `m` for the public key `pk` — one
/// meeting `seal_box`'s guarantee — opens to exactly `m` under any secret
/// key generated alongside `pk`, for every message including the empty one.
pub proof fn lemma_seal_open_round_trip(m: Seq<u8>, pk: Seq<u8>, sk: Seq<u8>, c: Seq<u8>)
    requires
        keypair_linked(pk, sk),
        forall|sk2: Seq<u8>| keypair_linked(pk, sk2) ==> sealed_opens(c, pk, sk2) == Some(m),
    ensures
        sealed_opens(c, pk, sk) == Some(m),
{
}

} // verus!
