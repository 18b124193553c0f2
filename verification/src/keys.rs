//! The key types and the error taxonomy. A `PrivateKey` holds a scalar in its
//! canonical 32-byte big-endian encoding; a `PublicKey` holds a curve point
//! in its canonical compressed encoding. Both views are the byte strings.

use vstd::prelude::*;

use crate::model::{valid_scalar_bytes, point_decodes, compressed_of, COMPRESSED_LEN};

verus! {

/// The failures of the key-pair core.
#[derive(Clone, Copy, Debug, PartialEq, Eq, Structural)]
pub enum KeyError {
    /// The buffer does not encode a scalar in the curve's valid range.
    InvalidPrivateKey,
    /// The buffer does not encode a point on the curve.
    InvalidPublicKey,
    /// The secure random source was unavailable.
    KeyGenerationFailure,
}

/// A private key: a scalar strictly between zero and the curve order, held in
/// its canonical fixed-width big-endian encoding.
pub struct PrivateKey {
    bytes: Vec<u8>,
}

impl View for PrivateKey {
    type V = Seq<u8>;

    closed spec fn view(&self) -> Seq<u8> {
        self.bytes@
    }
}

impl PrivateKey {
    /// Well-formed: the held bytes encode a scalar in the valid range.
    pub open spec fn wf(&self) -> bool {
        valid_scalar_bytes(self@)
    }

    /// Wraps a buffer already checked to encode a valid scalar.
    pub(crate) fn from_checked_bytes(bytes: Vec<u8>) -> (r: PrivateKey)
        requires
            valid_scalar_bytes(bytes@),
        ensures
            r@ == bytes@,
    {
        PrivateKey { bytes }
    }

    /// The canonical byte encoding, borrowed.
    pub fn as_bytes(&self) -> (r: &[u8])
        ensures
            r@ == self@,
    {
        self.bytes.as_slice()
    }
}

/// A public key: a point on the curve, held in its canonical compressed
/// encoding.
pub struct PublicKey {
    bytes: Vec<u8>,
}

impl View for PublicKey {
    type V = Seq<u8>;

    closed spec fn view(&self) -> Seq<u8> {
        self.bytes@
    }
}

impl PublicKey {
    /// Well-formed: the held bytes are a decodable point encoding and are
    /// already in canonical compressed form.
    pub open spec fn wf(&self) -> bool {
        self@.len() == COMPRESSED_LEN && point_decodes(self@) && compressed_of(self@) == self@
    }

    /// Wraps a buffer already known to be a canonical compressed encoding.
    pub(crate) fn from_checked_bytes(bytes: Vec<u8>) -> (r: PublicKey)
        requires
            bytes@.len() == COMPRESSED_LEN,
            point_decodes(bytes@),
            compressed_of(bytes@) == bytes@,
        ensures
            r@ == bytes@,
    {
        PublicKey { bytes }
    }

    /// The canonical compressed byte encoding, borrowed.
    pub fn as_bytes(&self) -> (r: &[u8])
        ensures
            r@ == self@,
    {
        self.bytes.as_slice()
    }
}

} // verus!
