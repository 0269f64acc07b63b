//! Trusted boundary to the external cryptography library.
//!
//! Key generation, key decoding, signing and signature verification are
//! supplied by `helium_crypto`; each wrapper here makes exactly one such
//! call and states what the library documents of it. A keypair travels
//! through this crate as its canonical binary form (the byte sequence
//! `Keypair::to_vec` produces), a public key as its own binary form.

use crate::result::Error;
use helium_crypto::{Sign, Verify};
use vstd::prelude::*;

verus! {

/// Whether `helium_crypto::Keypair::try_from` accepts these bytes as the
/// binary form of a keypair.
pub uninterp spec fn keypair_wf(kb: Seq<u8>) -> bool;

/// The binary form of the public half of the keypair whose binary form is
/// `kb`: what `Keypair::public_key` followed by `PublicKey::to_vec`
/// returns.
pub uninterp spec fn keypair_pubkey_bytes(kb: Seq<u8>) -> Seq<u8>;

/// The key-type tag (for example the name of the signature algorithm) of
/// the keypair whose binary form is `kb`.
pub uninterp spec fn key_type_of(kb: Seq<u8>) -> Seq<char>;

/// Whether `helium_crypto::PublicKey::try_from` accepts these bytes as the
/// binary form of a public key.
pub uninterp spec fn pubkey_wf(pb: Seq<u8>) -> bool;

/// The string form (`PublicKey`'s display form) of the public key whose
/// binary form is `pb`.
pub uninterp spec fn pubkey_string_of(pb: Seq<u8>) -> Seq<char>;

/// Whether `sig` is a signature over `msg` that verifies against the
/// public key whose binary form is `pb`: the outcome of
/// `Verify::verify`, a function of the three byte sequences alone.
pub uninterp spec fn sig_verifies(pb: Seq<u8>, msg: Seq<u8>, sig: Seq<u8>) -> bool;

/// Whether the keypair's stored public half is the one derived from its
/// secret half. The binary form carries both halves and the external
/// parser does not cross-check them; a signature produced from an
/// inconsistent form does not verify against the stored public half.
/// A pure function of the bytes.
pub uninterp spec fn keypair_consistent(kb: Seq<u8>) -> bool;

/// The key-type nibble of stored keypair material this library accepts:
/// ed25519 (1) only — the type this library itself generates, and the
/// only one whose whole path through the external library is free of
/// crashes. Of the others: the ecc-compact (0) public half can fail to
/// serialize (`to_compact_encoded_point` is partial and the library
/// unwraps it); the RSA (4) parser unwraps an unvalidated public
/// exponent; and the secp256k1 (3) public form cannot be safely handed
/// back to its own parser (see [`safe_pubkey_tag`]).
pub open spec fn safe_keypair_tag(c: u8) -> bool {
    c & 15 == 1
}

/// A public-key tag byte that may be handed to the external parser: any
/// key-type nibble but secp256k1 (3) and RSA (4). The parsers for those
/// two types can crash on crafted bytes (a well-shaped but off-curve
/// point; an out-of-range length header), so values carrying them are
/// refused in verified code before any call.
pub open spec fn safe_pubkey_tag(c: u8) -> bool {
    c & 15 != 3 && c & 15 != 4
}

/// A public-key binary form that may be handed to the external parser:
/// empty bytes (which it rejects cleanly) or an accepted tag byte.
pub open spec fn parsable_pubkey(pb: Seq<u8>) -> bool {
    pb.len() == 0 || safe_pubkey_tag(pb[0])
}

/// Whether non-empty keypair material leads with the accepted tag byte.
pub(crate) fn check_key_tag(b: &Vec<u8>) -> (r: bool)
    ensures
        r == (b@.len() > 0 && safe_keypair_tag(b@[0])),
{
    if b.len() == 0 {
        return false;
    }
    b[0] & 15 == 1
}

/// Whether a public-key binary form may be handed to the external
/// parser.
pub(crate) fn check_pubkey_tag(b: &Vec<u8>) -> (r: bool)
    ensures
        r == parsable_pubkey(b@),
{
    if b.len() == 0 {
        return true;
    }
    let t = b[0] & 15;
    t != 3 && t != 4
}

/// Relies on `helium_crypto::Keypair::generate` with the default key tag
/// and the operating system's secure random source, and on
/// `Keypair::to_vec` for the binary form. A freshly generated keypair
/// has a well-formed, non-empty binary form led by the default tag
/// byte (mainnet ed25519, the accepted key type), and its public half
/// is derived from its secret half; nothing else is promised of a
/// random key.
#[verifier::external_body]
pub(crate) fn generate_keypair() -> (r: Vec<u8>)
    ensures
        keypair_wf(r@),
        r@.len() > 0,
        safe_keypair_tag(r@[0]),
        keypair_consistent(r@),
{
    let keypair = helium_crypto::Keypair::generate(
        helium_crypto::KeyTag::default(),
        &mut rand::rngs::OsRng,
    );
    keypair.to_vec()
}

/// Relies on `helium_crypto::Keypair::try_from`, which accepts exactly
/// the well-formed ed25519 binary forms under this `requires`, and on
/// `Keypair::public_key` / `PublicKey::to_vec` for the public half's
/// binary form — total for ed25519 keys, and starting with the same
/// accepted tag byte.
#[verifier::external_body]
pub(crate) fn keypair_public_bytes(kb: &Vec<u8>) -> (r: Result<Vec<u8>, Error>)
    requires
        kb@.len() > 0,
        safe_keypair_tag(kb@[0]),
    ensures
        r is Ok <==> keypair_wf(kb@),
        r matches Ok(pb) ==> pb@ == keypair_pubkey_bytes(kb@) && pubkey_wf(pb@),
        r matches Ok(pb) ==> pb@.len() > 0 && safe_pubkey_tag(pb@[0]),
{
    match helium_crypto::Keypair::try_from(&kb[..]) {
        Ok(keypair) => Ok(keypair.public_key().to_vec()),
        Err(e) => Err(Error::Crypto(e.to_string())),
    }
}

/// Relies on `helium_crypto::Keypair::try_from` (on the accepted
/// keypair tag, where it is panic-free) and on the display form of
/// `Keypair::key_tag().key_type`, a fixed name per key algorithm.
#[verifier::external_body]
pub(crate) fn keypair_key_type(kb: &Vec<u8>) -> (r: Result<String, Error>)
    requires
        kb@.len() > 0,
        safe_keypair_tag(kb@[0]),
    ensures
        r is Ok <==> keypair_wf(kb@),
        r matches Ok(s) ==> s@ == key_type_of(kb@),
{
    match helium_crypto::Keypair::try_from(&kb[..]) {
        Ok(keypair) => Ok(keypair.key_tag().key_type.to_string()),
        Err(e) => Err(Error::Crypto(e.to_string())),
    }
}

/// Relies on `helium_crypto::Keypair::try_from` and `Sign::sign`; the
/// fresh signature is then checked with `Verify::verify` against the
/// keypair's own public key before it is returned, so success itself
/// witnesses the first clause — the stored binary form may carry a
/// public half that does not match its secret half, and signing with
/// such a form yields a signature that does not verify. A keypair
/// whose halves do match signs and checks out, which is the signature
/// scheme's documented behavior.
#[verifier::external_body]
pub(crate) fn keypair_sign(kb: &Vec<u8>, msg: &Vec<u8>) -> (r: Result<Vec<u8>, Error>)
    requires
        kb@.len() > 0,
        safe_keypair_tag(kb@[0]),
    ensures
        r matches Ok(sig) ==> keypair_wf(kb@) && sig_verifies(
            keypair_pubkey_bytes(kb@),
            msg@,
            sig@,
        ),
        keypair_wf(kb@) && keypair_consistent(kb@) ==> r is Ok,
        !keypair_wf(kb@) ==> r is Err,
{
    match helium_crypto::Keypair::try_from(&kb[..]) {
        Ok(keypair) => match keypair.sign(msg) {
            Ok(sig) => match keypair.public_key().verify(msg, &sig) {
                Ok(()) => Ok(sig),
                Err(e) => Err(Error::Crypto(e.to_string())),
            },
            Err(e) => Err(Error::Crypto(e.to_string())),
        },
        Err(e) => Err(Error::Crypto(e.to_string())),
    }
}

/// Relies on `helium_crypto::PublicKey::try_from`, which accepts exactly
/// the well-formed binary forms of the accepted key types, and on the
/// public key's display form.
#[verifier::external_body]
pub(crate) fn pubkey_to_string(pb: &Vec<u8>) -> (r: Result<String, Error>)
    requires
        parsable_pubkey(pb@),
    ensures
        r is Ok <==> pubkey_wf(pb@),
        r matches Ok(s) ==> s@ == pubkey_string_of(pb@),
{
    match helium_crypto::PublicKey::try_from(&pb[..]) {
        Ok(pk) => Ok(pk.to_string()),
        Err(e) => Err(Error::Crypto(e.to_string())),
    }
}

/// Relies on `helium_crypto::PublicKey::try_from` and `Verify::verify`;
/// whether a signature verifies is a function of the key, message and
/// signature bytes alone, and a mismatch is a `false` result, never a
/// crash.
#[verifier::external_body]
pub(crate) fn pubkey_verify(pb: &Vec<u8>, msg: &Vec<u8>, sig: &Vec<u8>) -> (r: Result<bool, Error>)
    requires
        parsable_pubkey(pb@),
    ensures
        r is Ok <==> pubkey_wf(pb@),
        r matches Ok(v) ==> v == sig_verifies(pb@, msg@, sig@),
{
    match helium_crypto::PublicKey::try_from(&pb[..]) {
        Ok(pk) => Ok(pk.verify(msg, sig).is_ok()),
        Err(e) => Err(Error::Crypto(e.to_string())),
    }
}

} // verus!
