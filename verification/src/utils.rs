//! The byte/text transcoder: canonical (padded, non-URL-safe) base64.

use vstd::prelude::*;

use crate::CryptoError;

verus! {

/// A character of the canonical non-URL-safe base64 alphabet, padding
/// excluded.
pub open spec fn is_b64_alpha(c: char) -> bool {
    ||| 'A' as u32 <= c as u32 && c as u32 <= 'Z' as u32
    ||| 'a' as u32 <= c as u32 && c as u32 <= 'z' as u32
    ||| '0' as u32 <= c as u32 && c as u32 <= '9' as u32
    ||| c == '+'
    ||| c == '/'
}

/// The canonical padded base64 text of the bytes `b`. The alphabet walk is
/// the primitive's own; the name is given meaning only by the contracts of
/// the trusted calls below.
pub uninterp spec fn b64_of(b: Seq<u8>) -> Seq<char>;

/// What decoding the text `t` yields: `Some(b)` exactly when `t` is the
/// canonical padded base64 text of `b`, `None` otherwise. The decoder is
/// strict — a character outside the alphabet, wrong padding, leftover
/// non-zero bits or trailing input are all rejected — so only canonical
/// encodings decode.
pub uninterp spec fn b64_decode(t: Seq<char>) -> Option<Seq<u8>>;

/// Relies on `libsodium_rs::utils::bin2base64` with the original padded
/// variant (`sodium_bin2base64`): a total, deterministic encoding whose
/// output decodes back to the input (`sodium_base642bin` inverts it). The
/// text is four characters for every three input bytes, rounded up, drawn
/// from the canonical alphabet with `=` padding in the last two positions
/// only.
#[verifier::external_body]
fn bin2base64_raw(data: &Vec<u8>) -> (r: String)
    ensures
        r@ == b64_of(data@),
        b64_decode(r@) == Some(data@),
        r@.len() == 4 * ((data@.len() + 2) / 3),
        forall|i: int|
            0 <= i < r@.len() ==> (is_b64_alpha(#[trigger] r@[i]) || (r@[i] == '=' && i
                >= r@.len() - 2)),
{
    libsodium_rs::utils::bin2base64(data, libsodium_rs::utils::BASE64_VARIANT_ORIGINAL)
}

/// Relies on `libsodium_rs::utils::base642bin` with the original padded
/// variant (`sodium_base642bin`): deterministic, and strict — it accepts
/// exactly the canonical padded encodings, rejecting foreign characters,
/// wrong padding, non-zero leftover bits and unconsumed input.
#[verifier::external_body]
fn base642bin_raw(data: &String) -> (r: Result<Vec<u8>, ()>)
    ensures
        r matches Ok(b) ==> b64_decode(data@) == Some(b@) && data@ == b64_of(b@),
        r is Err ==> b64_decode(data@) is None,
{
    libsodium_rs::utils::base642bin(data, libsodium_rs::utils::BASE64_VARIANT_ORIGINAL).map_err(
        |_| (),
    )
}

/// Encodes bytes as canonical padded base64 text. Total: succeeds for every
/// input, the empty buffer included, and decoding the result recovers the
/// input exactly. The text is four characters for every three input bytes,
/// rounded up, drawn from the canonical alphabet with `=` padding confined
/// to the last two positions.
pub fn bin2base64(data: Vec<u8>) -> (r: String)
    ensures
        r@ == b64_of(data@),
        b64_decode(r@) == Some(data@),
        r@.len() == 4 * ((data@.len() + 2) / 3),
        forall|i: int|
            0 <= i < r@.len() ==> (is_b64_alpha(#[trigger] r@[i]) || (r@[i] == '=' && i
                >= r@.len() - 2)),
{
    bin2base64_raw(&data)
}

/// Decodes canonical padded base64 text back to bytes. Succeeds exactly on
/// texts the encoder produces — then re-encoding the result reproduces the
/// text — and fails with `InvalidEncoding` on any other text: a character
/// outside the alphabet, incorrect padding, or other malformation.
pub fn base642bin(data: String) -> (r: Result<Vec<u8>, CryptoError>)
    ensures
        r matches Ok(b) ==> b64_decode(data@) == Some(b@) && data@ == b64_of(b@),
        b64_decode(data@) matches Some(b) ==> r matches Ok(v) && v@ == b,
        r matches Err(e) ==> e == CryptoError::InvalidEncoding && b64_decode(data@) is None,
{
    match base642bin_raw(&data) {
        Ok(b) => Ok(b),
        Err(()) => Err(CryptoError::InvalidEncoding),
    }
}

} // verus!
