//! The key codec: translation between raw byte buffers and the key types,
//! with all format validation. Pure transformations; no state.

use vstd::prelude::*;
use vstd::slice::slice_to_vec;

use crate::backend::{parse_point_compressed, scalar_is_valid};
use crate::keys::{KeyError, PrivateKey, PublicKey};
use crate::model::{
    valid_scalar_bytes, point_decodes, compressed_of, COMPRESSED_LEN, UNCOMPRESSED_LEN,
};

verus! {

/// Decodes a buffer as a private key. Succeeds exactly when the buffer has
/// the curve's scalar length and encodes a value strictly between zero and
/// the curve order; any other buffer is an invalid private key.
pub fn decode_private_key(bytes: &[u8]) -> (r: Result<PrivateKey, KeyError>)
    ensures
        r is Ok <==> valid_scalar_bytes(bytes@),
        r matches Ok(k) ==> k@ == bytes@ && k.wf(),
        r matches Err(e) ==> e == KeyError::InvalidPrivateKey,
{
    if scalar_is_valid(bytes) {
        Ok(PrivateKey::from_checked_bytes(slice_to_vec(bytes)))
    } else {
        Err(KeyError::InvalidPrivateKey)
    }
}

/// Encodes a private key as its canonical fixed-width scalar encoding.
/// Always succeeds.
pub fn encode_private_key(key: &PrivateKey) -> (r: Vec<u8>)
    ensures
        r@ == key@,
{
    slice_to_vec(key.as_bytes())
}

/// Decodes a buffer as a public key. Succeeds exactly when the buffer has a
/// supported point-encoding length (compressed or uncompressed) and decodes
/// to a point on the curve; a buffer of any other length is rejected before
/// point decoding is attempted. The decoded key holds the point's canonical
/// compressed encoding.
pub fn decode_public_key(bytes: &[u8]) -> (r: Result<PublicKey, KeyError>)
    ensures
        r is Ok <==> point_decodes(bytes@),
        r matches Ok(p) ==> p@ == compressed_of(bytes@) && p.wf(),
        r matches Err(e) ==> e == KeyError::InvalidPublicKey,
{
    if bytes.len() != COMPRESSED_LEN && bytes.len() != UNCOMPRESSED_LEN {
        return Err(KeyError::InvalidPublicKey);
    }
    match parse_point_compressed(bytes) {
        Some(compressed) => Ok(PublicKey::from_checked_bytes(compressed)),
        None => Err(KeyError::InvalidPublicKey),
    }
}

/// Encodes a public key as its canonical compressed point encoding. Always
/// succeeds.
pub fn encode_public_key(key: &PublicKey) -> (r: Vec<u8>)
    ensures
        r@ == key@,
{
    slice_to_vec(key.as_bytes())
}

/// Round trip: encoding a valid private key and decoding the result gives
/// back a key with the same scalar. The hypotheses are exactly what
/// `encode_private_key` and `decode_private_key` ensure of the values at
/// hand.
pub proof fn lemma_private_key_round_trip(
    key: PrivateKey,
    enc: Seq<u8>,
    dec: Result<PrivateKey, KeyError>,
)
    requires
        key.wf(),
        enc == key@,
        dec is Ok <==> valid_scalar_bytes(enc),
        dec matches Ok(k2) ==> k2@ == enc,
    ensures
        dec is Ok,
        dec matches Ok(k2) ==> k2@ == key@,
{
}

/// Round trip: decoding the canonical encoding of a public key gives back a
/// key with the same compressed bytes, since a well-formed public key is
/// already in canonical compressed form. The hypotheses are exactly what
/// `encode_public_key` and `decode_public_key` ensure of the values at hand.
pub proof fn lemma_public_key_round_trip(
    key: PublicKey,
    enc: Seq<u8>,
    dec: Result<PublicKey, KeyError>,
)
    requires
        key.wf(),
        enc == key@,
        dec is Ok <==> point_decodes(enc),
        dec matches Ok(p2) ==> p2@ == compressed_of(enc),
    ensures
        dec is Ok,
        dec matches Ok(p2) ==> p2@ == key@,
{
}

} // verus!
