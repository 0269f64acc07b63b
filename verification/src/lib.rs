//! A uniform key-management and transaction-signing facade over
//! heterogeneous key-storage backends (secure element, TPM, trusted-execution
//! key blobs, and file-based keys), used to produce and verify signed
//! add-gateway transactions.
//!
//! The library has two load-bearing pieces: the device abstraction, addressed
//! through a URL-shaped locator (see [`device`]), and the canonical
//! transaction signing and verification rule (see [`txn_sign`]). Asymmetric
//! cryptography itself is supplied by an external library and reached through
//! a small set of trusted wrappers in [`crypto`].
//!
//! Key-type support is narrower than the external library's: stored keypair
//! material is accepted for ed25519 only (the type this library generates),
//! and embedded public keys of the secp256k1 and RSA types are refused on
//! the verify path. On every refused path the external parsers or
//! serializers can crash on crafted or corrupted bytes, which this library's
//! no-panic guarantee cannot admit; the refusals are explicit errors, never
//! silent.

pub mod b64;
pub mod cmd;
pub mod crypto;
pub mod device;
pub mod locator;
pub mod proto;
pub mod result;
pub mod txn_sign;

pub use result::{DecodeError, Error};
