//! The key-pair operations: generation, derivation, and the three validation
//! entry points. Every operation is stateless.

use vstd::prelude::*;

use crate::backend::{
    derive_compressed, encode_hex_upper, parse_point_text, random_scalar_candidate,
    scalar_is_valid,
};
use crate::codec::{decode_private_key, decode_public_key};
use crate::keys::{KeyError, PrivateKey, PublicKey};
use crate::model::{
    valid_scalar_bytes, point_decodes, pubkey_of_scalar, text_pubkey_ok, hex_upper_of,
};

verus! {

/// How many random draws key generation attempts before giving up. A uniform
/// 32-byte draw misses the valid scalar range with probability below 2^-127,
/// so exhausting this bound means the random source is not producing usable
/// randomness.
pub const MAX_DRAWS: u64 = 128;

/// Draws scalars from the secure random source until one lies in the valid
/// range, as the curve's conventions prescribe; almost every draw does. Fails
/// only when the random source is unavailable or yields no valid scalar
/// within the draw bound, and never returns an ill-formed key.
pub fn generate_private_key() -> (r: Result<PrivateKey, KeyError>)
    ensures
        r matches Ok(k) ==> k.wf(),
        r matches Err(e) ==> e == KeyError::KeyGenerationFailure,
{
    let mut draws_left: u64 = MAX_DRAWS;
    while draws_left > 0
        decreases draws_left,
    {
        draws_left = draws_left - 1;
        match random_scalar_candidate() {
            None => {
                return Err(KeyError::KeyGenerationFailure);
            },
            Some(candidate) => {
                if scalar_is_valid(candidate.as_slice()) {
                    return Ok(PrivateKey::from_checked_bytes(candidate));
                }
            },
        }
    }
    Err(KeyError::KeyGenerationFailure)
}

/// Derives the public key of a private key: scalar multiplication of the
/// curve base point, a pure function of the scalar. The same private key
/// always yields the same public key, in canonical compressed form.
pub fn derive_public_key(key: &PrivateKey) -> (r: PublicKey)
    requires
        key.wf(),
    ensures
        r@ == pubkey_of_scalar(key@),
        r.wf(),
{
    PublicKey::from_checked_bytes(derive_compressed(key.as_bytes()))
}

/// Validates a buffer as a private key, discarding the decoded value:
/// absence of an error is the proof of validity. Succeeds exactly when the
/// buffer has the curve's scalar length and encodes a value strictly between
/// zero and the curve order.
pub fn validate_private_key(bytes: &[u8]) -> (r: Result<(), KeyError>)
    ensures
        r is Ok <==> valid_scalar_bytes(bytes@),
        r matches Err(e) ==> e == KeyError::InvalidPrivateKey,
{
    match decode_private_key(bytes) {
        Ok(_) => Ok(()),
        Err(e) => Err(e),
    }
}

/// Validates a buffer as a binary public-key encoding, discarding the decoded
/// value. Succeeds exactly when the buffer has a supported point-encoding
/// length and decodes to a point on the curve.
pub fn validate_public_key(bytes: &[u8]) -> (r: Result<(), KeyError>)
    ensures
        r is Ok <==> point_decodes(bytes@),
        r matches Err(e) ==> e == KeyError::InvalidPublicKey,
{
    match decode_public_key(bytes) {
        Ok(_) => Ok(()),
        Err(e) => Err(e),
    }
}

/// Validates a view key: renders the buffer as upper-case hexadecimal text
/// and asks the curve backend to parse that text as a public key. Never
/// fails; every malformed input folds into `false`. Returns `true` exactly
/// when the buffer itself decodes as a point, and — for every buffer whose
/// rendering is physically possible — exactly when its upper-case rendering
/// parses as public-key text.
pub fn validate_view_key(bytes: &[u8]) -> (r: bool)
    ensures
        r == point_decodes(bytes@),
        bytes@.len() <= usize::MAX / 2 ==> r == text_pubkey_ok(hex_upper_of(bytes@)),
{
    if bytes.len() > usize::MAX / 2 {
        // Too long to hex-encode, and far beyond any point-encoding length.
        return false;
    }
    let text = encode_hex_upper(bytes);
    parse_point_text(text.as_str())
}

/// Derivation is deterministic: two public keys derived from the same private
/// key are byte-identical. The hypotheses are exactly what
/// `derive_public_key` ensures of each result.
pub proof fn lemma_derive_public_key_deterministic(
    key: PrivateKey,
    first: PublicKey,
    second: PublicKey,
)
    requires
        key.wf(),
        first@ == pubkey_of_scalar(key@),
        second@ == pubkey_of_scalar(key@),
    ensures
        first@ == second@,
{
}

} // verus!
