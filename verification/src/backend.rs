//! Trusted boundary to the curve backend, the hex encoder and the secure
//! random source. Each function's body makes the outside calls its doc
//! comment names, and nothing else; its contract states what those calls'
//! documentation and source promise, over the spec functions of `model`.

use vstd::prelude::*;

use std::str::FromStr;

use rand::TryRng;

use crate::model::{
    valid_scalar_bytes, point_decodes, point_content_ok, compressed_of, pubkey_of_scalar,
    text_pubkey_ok, hex_upper_of, COMPRESSED_LEN, SCALAR_LEN,
};

verus! {

/// Relies on secp256k1::SecretKey::from_secret_bytes: it succeeds exactly on
/// 32-byte buffers that encode, in big-endian form, a value that is neither
/// zero nor at or above the curve order.
#[verifier::external_body]
pub(crate) fn scalar_is_valid(b: &[u8]) -> (r: bool)
    ensures
        r == valid_scalar_bytes(b@),
{
    match <[u8; 32]>::try_from(b) {
        Ok(arr) => secp256k1::SecretKey::from_secret_bytes(arr).is_ok(),
        Err(_) => false,
    }
}

/// Relies on secp256k1::PublicKey::from_secret_key and PublicKey::serialize:
/// the public key derived from a valid scalar is a function of the scalar
/// alone, and its compressed serialization is 33 bytes that decode back to
/// the same point.
#[verifier::external_body]
pub(crate) fn derive_compressed(b: &[u8]) -> (r: Vec<u8>)
    requires
        valid_scalar_bytes(b@),
    ensures
        r@ == pubkey_of_scalar(b@),
        r@.len() == COMPRESSED_LEN,
        point_content_ok(r@),
        compressed_of(r@) == r@,
{
    let arr = <[u8; 32]>::try_from(b).unwrap();
    let sk = secp256k1::SecretKey::from_secret_bytes(arr).unwrap();
    secp256k1::PublicKey::from_secret_key(&sk).serialize().to_vec()
}

/// Relies on secp256k1::PublicKey::from_slice and PublicKey::serialize:
/// parsing succeeds exactly on 33- or 65-byte encodings of a point on the
/// curve, and re-serializing the parsed point gives its canonical compressed
/// form, itself a well-formed encoding of the same point.
#[verifier::external_body]
pub(crate) fn parse_point_compressed(b: &[u8]) -> (r: Option<Vec<u8>>)
    ensures
        r is Some <==> point_decodes(b@),
        r matches Some(v) ==> v@ == compressed_of(b@) && v@.len() == COMPRESSED_LEN
            && point_content_ok(v@) && compressed_of(v@) == v@,
{
    secp256k1::PublicKey::from_slice(b).ok().map(|p| p.serialize().to_vec())
}

/// Relies on secp256k1::PublicKey::from_str: it decodes the text as
/// hexadecimal (either case) and accepts exactly the renderings of the byte
/// strings that PublicKey::from_slice accepts; on the upper-case rendering of
/// a byte string it therefore succeeds exactly when those bytes decode as a
/// point.
#[verifier::external_body]
pub(crate) fn parse_point_text(s: &str) -> (r: bool)
    ensures
        r == text_pubkey_ok(s@),
        forall|b: Seq<u8>| s@ == hex_upper_of(b) ==> r == point_decodes(b),
{
    secp256k1::PublicKey::from_str(s).is_ok()
}

/// Relies on hex::encode_upper: two upper-case hexadecimal digits per byte,
/// high nibble first.
#[verifier::external_body]
pub(crate) fn encode_hex_upper(b: &[u8]) -> (r: String)
    requires
        b@.len() <= usize::MAX / 2,
    ensures
        r@ == hex_upper_of(b@),
{
    hex::encode_upper(b)
}

/// Relies on rand::rngs::SysRng: on success the buffer holds 32 bytes from
/// the operating system's secure random source; nothing is assumed of their
/// value, and failure means that source was unavailable.
#[verifier::external_body]
pub(crate) fn random_scalar_candidate() -> (r: Option<Vec<u8>>)
    ensures
        r matches Some(v) ==> v@.len() == SCALAR_LEN,
{
    let mut rng = rand::rngs::SysRng;
    let mut buf = vec![0u8; 32];
    match rng.try_fill_bytes(&mut buf) {
        Ok(()) => Some(buf),
        Err(_) => None,
    }
}

} // verus!
