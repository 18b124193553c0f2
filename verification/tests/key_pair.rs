//! End-to-end tests of the key-pair core against the standard secp256k1 test
//! vectors and the edge cases of the validation predicates.

use keypair::codec::{
    decode_private_key, decode_public_key, encode_private_key, encode_public_key,
};
use keypair::keys::KeyError;
use keypair::service::{
    derive_public_key, generate_private_key, validate_private_key, validate_public_key,
    validate_view_key,
};

/// The compressed encoding of the curve base point: the public key of the
/// scalar one.
const BASE_POINT_COMPRESSED: &str =
    "0279BE667EF9DCBBAC55A06295CE870B07029BFCDB2DCE28D959F2815B16F81798";

/// The uncompressed encoding of the same point.
const BASE_POINT_UNCOMPRESSED: &str =
    "0479BE667EF9DCBBAC55A06295CE870B07029BFCDB2DCE28D959F2815B16F81798483ADA7726A3C4655DA4FBFC0E1108A8FD17B448A68554199C47D08FFB10D4B8";

/// The public key of the scalar two.
const DOUBLE_POINT_COMPRESSED: &str =
    "02C6047F9441ED7D6D3045406E95C07CD85C778E4B8CEF3CA7ABAC09B95C709EE5";

/// The group order, big-endian; the smallest invalid nonzero scalar encoding
/// of correct length.
const CURVE_ORDER: &str = "FFFFFFFFFFFFFFFFFFFFFFFFFFFFFFFEBAAEDCE6AF48A03BBFD25E8CD0364141";

/// A compressed-length buffer whose x-coordinate lies above the field prime,
/// so it decodes to no point on the curve.
const NOT_A_POINT: &str = "02FFFFFFFFFFFFFFFFFFFFFFFFFFFFFFFFFFFFFFFFFFFFFFFFFFFFFFFFFFFFFFFF";

fn bytes(hex_text: &str) -> Vec<u8> {
    hex::decode(hex_text).unwrap()
}

fn scalar(value: u8) -> Vec<u8> {
    let mut buf = vec![0u8; 32];
    buf[31] = value;
    buf
}

#[test]
fn private_key_round_trip() {
    let key = decode_private_key(&scalar(1)).unwrap();
    assert_eq!(encode_private_key(&key), scalar(1));

    let again = decode_private_key(&encode_private_key(&key)).unwrap();
    assert_eq!(encode_private_key(&again), scalar(1));
}

#[test]
fn derivation_is_deterministic() {
    let key = decode_private_key(&scalar(7)).unwrap();
    let first = derive_public_key(&key);
    let second = derive_public_key(&key);
    assert_eq!(encode_public_key(&first), encode_public_key(&second));
}

#[test]
fn base_point_test_vector() {
    let key = decode_private_key(&scalar(1)).unwrap();
    let public = derive_public_key(&key);
    assert_eq!(encode_public_key(&public), bytes(BASE_POINT_COMPRESSED));
}

#[test]
fn double_point_test_vector() {
    let key = decode_private_key(&scalar(2)).unwrap();
    let public = derive_public_key(&key);
    assert_eq!(encode_public_key(&public), bytes(DOUBLE_POINT_COMPRESSED));
}

#[test]
fn private_key_scalar_range() {
    // The smallest and the largest valid scalars.
    assert!(validate_private_key(&scalar(1)).is_ok());
    let mut order_minus_one = bytes(CURVE_ORDER);
    order_minus_one[31] = 0x40;
    assert!(validate_private_key(&order_minus_one).is_ok());

    // Zero and the order itself are out of range.
    assert_eq!(validate_private_key(&scalar(0)), Err(KeyError::InvalidPrivateKey));
    assert_eq!(validate_private_key(&bytes(CURVE_ORDER)), Err(KeyError::InvalidPrivateKey));
}

#[test]
fn private_key_length_must_be_exact() {
    assert_eq!(validate_private_key(&[]), Err(KeyError::InvalidPrivateKey));
    assert_eq!(validate_private_key(&vec![1u8; 31]), Err(KeyError::InvalidPrivateKey));
    assert_eq!(validate_private_key(&vec![1u8; 33]), Err(KeyError::InvalidPrivateKey));
}

#[test]
fn all_zero_private_key_is_rejected() {
    assert_eq!(validate_private_key(&vec![0u8; 32]), Err(KeyError::InvalidPrivateKey));
}

#[test]
fn public_key_accepts_both_encodings() {
    assert!(validate_public_key(&bytes(BASE_POINT_COMPRESSED)).is_ok());
    assert!(validate_public_key(&bytes(BASE_POINT_UNCOMPRESSED)).is_ok());
}

#[test]
fn public_key_one_byte_short_is_rejected() {
    let mut short = bytes(BASE_POINT_COMPRESSED);
    short.pop();
    assert_eq!(validate_public_key(&short), Err(KeyError::InvalidPublicKey));
}

#[test]
fn public_key_content_is_checked() {
    assert_eq!(validate_public_key(&bytes(NOT_A_POINT)), Err(KeyError::InvalidPublicKey));
    assert_eq!(validate_public_key(&vec![0u8; 33]), Err(KeyError::InvalidPublicKey));
    assert_eq!(validate_public_key(&[]), Err(KeyError::InvalidPublicKey));
}

#[test]
fn decoding_compresses_uncompressed_points() {
    let public = decode_public_key(&bytes(BASE_POINT_UNCOMPRESSED)).unwrap();
    assert_eq!(encode_public_key(&public), bytes(BASE_POINT_COMPRESSED));
}

#[test]
fn public_key_round_trip() {
    let public = decode_public_key(&bytes(BASE_POINT_COMPRESSED)).unwrap();
    let again = decode_public_key(&encode_public_key(&public)).unwrap();
    assert_eq!(encode_public_key(&again), bytes(BASE_POINT_COMPRESSED));
}

#[test]
fn view_key_accepts_valid_points() {
    assert!(validate_view_key(&bytes(BASE_POINT_COMPRESSED)));
    assert!(validate_view_key(&bytes(BASE_POINT_UNCOMPRESSED)));
}

#[test]
fn view_key_rejects_malformed_input() {
    assert!(!validate_view_key(&[]));
    assert!(!validate_view_key(&bytes(NOT_A_POINT)));
    // One byte short of the compressed length.
    assert!(!validate_view_key(&bytes(BASE_POINT_COMPRESSED)[..32]));
    // A valid private-key buffer is not a point encoding.
    assert!(!validate_view_key(&scalar(1)));
}

#[test]
fn generated_keys_are_valid_and_distinct() {
    let mut seen = Vec::new();
    for _ in 0..1000 {
        let key = generate_private_key().unwrap();
        let encoded = encode_private_key(&key);
        assert!(validate_private_key(&encoded).is_ok());
        assert!(!seen.contains(&encoded));
        seen.push(encoded);
    }
}

#[test]
fn generated_keys_derive_valid_public_keys() {
    let key = generate_private_key().unwrap();
    let public = derive_public_key(&key);
    let encoded = encode_public_key(&public);
    assert!(validate_public_key(&encoded).is_ok());
    assert!(validate_view_key(&encoded));
}
