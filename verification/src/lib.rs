//! Key-pair management core for a secp256k1 identity scheme: private-key
//! generation, deterministic public-key derivation, canonical binary
//! serialization, and validation of externally supplied key buffers and view
//! keys (public keys as upper-case hexadecimal text).
//!
//! Elliptic-curve arithmetic itself is delegated to the curve backend behind
//! the trusted boundary in `backend`; everything around it is verified
//! against the model in `model`.

mod backend;
pub mod codec;
pub mod keys;
pub mod model;
pub mod service;
