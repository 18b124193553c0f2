//! The mathematical model of the key formats: byte lengths, the scalar range
//! of the curve, and the spec-level meaning of the curve backend's encoders
//! and parsers.

use vstd::prelude::*;

verus! {

/// Length in bytes of a serialized private-key scalar.
pub const SCALAR_LEN: usize = 32;

/// Length in bytes of a compressed public-key point encoding.
pub const COMPRESSED_LEN: usize = 33;

/// Length in bytes of an uncompressed public-key point encoding.
pub const UNCOMPRESSED_LEN: usize = 65;

/// The order of the secp256k1 group: private keys are the scalars strictly
/// between zero and this value.
pub open spec fn curve_order() -> nat {
    0xFFFFFFFF_FFFFFFFF_FFFFFFFF_FFFFFFFE_BAAEDCE6_AF48A03B_BFD25E8C_D0364141nat
}

/// The unsigned integer that a byte string encodes in big-endian form.
pub open spec fn be_uint(b: Seq<u8>) -> nat
    decreases b.len(),
{
    if b.len() == 0 {
        0
    } else {
        (be_uint(b.drop_last()) * 256 + b.last()) as nat
    }
}

/// A byte string is a well-formed private key iff it has the exact scalar
/// length and encodes a value strictly between zero and the group order.
pub open spec fn valid_scalar_bytes(b: Seq<u8>) -> bool {
    b.len() == SCALAR_LEN && 0 < be_uint(b) < curve_order()
}

/// Whether the content of a point encoding of supported length names a point
/// on the curve; decided by the curve backend's parser.
pub uninterp spec fn point_content_ok(b: Seq<u8>) -> bool;

/// A byte string is a well-formed public-key encoding iff it has the length
/// of a compressed or an uncompressed point encoding and its content decodes
/// to a point on the curve.
pub open spec fn point_decodes(b: Seq<u8>) -> bool {
    (b.len() == COMPRESSED_LEN || b.len() == UNCOMPRESSED_LEN) && point_content_ok(b)
}

/// The canonical compressed encoding of the point named by a well-formed
/// public-key encoding.
pub uninterp spec fn compressed_of(b: Seq<u8>) -> Seq<u8>;

/// The compressed encoding of the public key derived from a private scalar by
/// multiplication with the curve base point.
pub uninterp spec fn pubkey_of_scalar(b: Seq<u8>) -> Seq<u8>;

/// Whether the curve backend accepts a text string as the hexadecimal
/// rendering of a public key.
pub uninterp spec fn text_pubkey_ok(s: Seq<char>) -> bool;

/// The upper-case hexadecimal digit for a value below sixteen.
pub open spec fn hex_digit_upper(v: u8) -> char {
    seq!['0', '1', '2', '3', '4', '5', '6', '7', '8', '9', 'A', 'B', 'C', 'D', 'E', 'F'][v as int]
}

/// The upper-case hexadecimal rendering of a byte string: two digits per
/// byte, high nibble first.
pub open spec fn hex_upper_of(b: Seq<u8>) -> Seq<char>
    decreases b.len(),
{
    if b.len() == 0 {
        Seq::empty()
    } else {
        hex_upper_of(b.drop_last())
            .push(hex_digit_upper(b.last() / 16))
            .push(hex_digit_upper(b.last() % 16))
    }
}

/// A byte string that is zero everywhere encodes the scalar zero, which lies
/// outside the valid range: a length-correct all-zero buffer is never a valid
/// private key.
pub proof fn lemma_zero_buffer_invalid(b: Seq<u8>)
    requires
        forall|i: int| 0 <= i < b.len() ==> b[i] == 0,
    ensures
        be_uint(b) == 0,
        !valid_scalar_bytes(b),
    decreases b.len(),
{
    if b.len() > 0 {
        lemma_zero_buffer_invalid(b.drop_last());
    }
}

} // verus!
