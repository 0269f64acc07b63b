//! Trusted boundary to the external base64 codec (standard alphabet, with
//! padding), used for the transport form of encoded transactions.

use crate::result::{DecodeError, Error};
use base64::Engine;
use vstd::prelude::*;

verus! {

/// The base64 encoding (standard alphabet, padded) of `b`, as ASCII bytes.
pub uninterp spec fn b64_of(b: Seq<u8>) -> Seq<u8>;

/// What the base64 decoder accepts: the byte sequence a string decodes
/// to, or `None` when it is not well-formed base64.
pub uninterp spec fn b64_decoded(s: Seq<char>) -> Option<Seq<u8>>;

/// The characters of an ASCII byte sequence, one character per byte.
pub open spec fn ascii_chars(b: Seq<u8>) -> Seq<char> {
    b.map_values(|x: u8| x as char)
}

/// Relies on base64's standard-alphabet, padded encoding; its output is
/// ASCII, four characters for every started group of three input bytes.
#[verifier::external_body]
pub(crate) fn b64_encode(b: &Vec<u8>) -> (r: Vec<u8>)
    ensures
        r@ == b64_of(b@),
        r@.len() == 4 * ((b@.len() + 2) / 3),
        forall|i: int| 0 <= i < r@.len() ==> r@[i] < 128,
{
    base64::engine::general_purpose::STANDARD.encode(b).into_bytes()
}

/// Relies on base64's standard-alphabet decoding: it accepts exactly the
/// well-formed strings, and inverts the encoding.
#[verifier::external_body]
pub(crate) fn b64_decode(s: &str) -> (r: Result<Vec<u8>, Error>)
    ensures
        r is Ok <==> b64_decoded(s@) is Some,
        r matches Ok(v) ==> b64_decoded(s@) == Some(v@),
        r matches Ok(v) ==> forall|x: Seq<u8>| s@ == ascii_chars(b64_of(x)) ==> v@ == x,
        r is Err ==> forall|x: Seq<u8>| s@ != ascii_chars(b64_of(x)),
        r is Err ==> r matches Err(Error::Decode(DecodeError::InvalidTransaction(_))),
{
    match base64::engine::general_purpose::STANDARD.decode(s) {
        Ok(v) => Ok(v),
        Err(e) => Err(Error::Decode(DecodeError::InvalidTransaction(e.to_string()))),
    }
}

/// Relies on `String::from_utf8`: UTF-8 decoding is the identity on ASCII
/// bytes.
#[verifier::external_body]
pub(crate) fn ascii_to_string(b: &Vec<u8>) -> (r: String)
    requires
        forall|i: int| 0 <= i < b@.len() ==> b@[i] < 128,
    ensures
        r@ == ascii_chars(b@),
{
    String::from_utf8(b.clone()).unwrap_or_default()
}

} // verus!
