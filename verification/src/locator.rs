//! The device locator: a URL-shaped string selecting and configuring a
//! key-storage backend.
//!
//! The accepted shape is `scheme://host[:port][/path][?query]`, all ASCII;
//! a string without `://` is a bare path (the file backend's default
//! form). Parsing is a pure function of the string: the same locator
//! string always yields the same value, and [`spec_parse_locator`] is the
//! exact grammar.

use crate::proto::copy_range;
use vstd::string::StringSliceAdditionalSpecFns;
use crate::b64::{ascii_chars, ascii_to_string};
use crate::result::{DecodeError, Error};
use vstd::prelude::*;

verus! {

/// Whether the scheme separator `://` sits at index `i`.
pub open spec fn sep_at(b: Seq<u8>, i: int) -> bool {
    &&& i + 3 <= b.len()
    &&& b[i] == 58u8
    &&& b[i + 1] == 47u8
    &&& b[i + 2] == 47u8
}

/// The first index at or after `i` where the scheme separator sits.
pub open spec fn spec_find_sep(b: Seq<u8>, i: nat) -> Option<nat>
    decreases b.len() - i,
{
    if i + 3 > b.len() {
        None
    } else if sep_at(b, i as int) {
        Some(i)
    } else {
        spec_find_sep(b, i + 1)
    }
}

/// The first index at or after `i` holding byte `c`, or the length when
/// there is none.
pub open spec fn spec_find_byte(b: Seq<u8>, i: nat, c: u8) -> nat
    decreases b.len() - i,
{
    if i >= b.len() {
        b.len()
    } else if b[i as int] == c {
        i
    } else {
        spec_find_byte(b, i + 1, c)
    }
}

/// An ASCII decimal digit.
pub open spec fn is_digit(c: u8) -> bool {
    48 <= c <= 57
}

/// The value of a digit string read in base ten.
pub open spec fn spec_digits_value(b: Seq<u8>) -> nat
    decreases b.len(),
{
    if b.len() == 0 {
        0
    } else {
        (spec_digits_value(b.drop_last()) * 10 + (b.last() - 48)) as nat
    }
}

/// Whether every byte is a decimal digit.
pub open spec fn all_digits(b: Seq<u8>) -> bool {
    forall|i: int| 0 <= i < b.len() ==> is_digit(b[i])
}

/// The port number a digit string denotes: at least one digit, digits
/// only, value within sixteen bits.
pub open spec fn spec_parse_u16(b: Seq<u8>) -> Option<u16> {
    if b.len() > 0 && all_digits(b) && spec_digits_value(b) <= 65535 {
        Some(spec_digits_value(b) as u16)
    } else {
        None
    }
}

/// An ASCII letter.
pub open spec fn is_alpha(c: u8) -> bool {
    (65 <= c <= 90) || (97 <= c <= 122)
}

/// A byte allowed in a scheme after its first letter: letters, digits,
/// `+`, `-` and `.`.
pub open spec fn is_scheme_char(c: u8) -> bool {
    is_alpha(c) || is_digit(c) || c == 43 || c == 45 || c == 46
}

/// A well-formed scheme: a letter followed by scheme characters.
pub open spec fn valid_scheme(b: Seq<u8>) -> bool {
    &&& b.len() > 0
    &&& is_alpha(b[0])
    &&& forall|i: int| 0 < i < b.len() ==> is_scheme_char(b[i])
}

/// Whether every byte is ASCII.
pub open spec fn all_ascii(b: Seq<u8>) -> bool {
    forall|i: int| 0 <= i < b.len() ==> b[i] < 128
}

/// The parts of a parsed locator, over the locator string's bytes.
pub ghost struct LocatorView {
    pub scheme: Option<Seq<u8>>,
    pub host: Option<Seq<u8>>,
    pub port: Option<u16>,
    pub path: Seq<u8>,
    pub query: Option<Seq<u8>>,
}

/// The locator grammar. A string with `://` splits into a scheme (which
/// must be well formed), an authority up to the first `/` or `?` (a host
/// and, after a `:`, a port that must be a sixteen-bit decimal number),
/// a path up to the first `?`, and the query after it. An empty host is
/// no host. A string without `://` is a bare path with an optional
/// query. Non-ASCII bytes, a malformed scheme and a malformed port do
/// not parse.
pub open spec fn spec_parse_locator(b: Seq<u8>) -> Option<LocatorView> {
    if !all_ascii(b) {
        None
    } else {
        match spec_find_sep(b, 0) {
            None => {
                let q = spec_find_byte(b, 0, 63);
                let path = b.subrange(0, q as int);
                let query = if q < b.len() {
                    Some(b.subrange(q as int + 1, b.len() as int))
                } else {
                    None
                };
                Some(
                    LocatorView {
                        scheme: None,
                        host: None,
                        port: None,
                        path: path,
                        query: query,
                    },
                )
            },
            Some(p) => {
                let scheme = b.subrange(0, p as int);
                if !valid_scheme(scheme) {
                    None
                } else {
                    let rest = b.subrange(p as int + 3, b.len() as int);
                    let q = spec_find_byte(rest, 0, 63);
                    let query = if q < rest.len() {
                        Some(rest.subrange(q as int + 1, rest.len() as int))
                    } else {
                        None
                    };
                    let before_q = rest.subrange(0, q as int);
                    let slash = spec_find_byte(before_q, 0, 47);
                    let authority = before_q.subrange(0, slash as int);
                    let path = before_q.subrange(slash as int, before_q.len() as int);
                    let colon = spec_find_byte(authority, 0, 58);
                    let hostpart = authority.subrange(0, colon as int);
                    let host = if hostpart.len() > 0 {
                        Some(hostpart)
                    } else {
                        None
                    };
                    if colon < authority.len() {
                        match spec_parse_u16(
                            authority.subrange(colon as int + 1, authority.len() as int),
                        ) {
                            None => None,
                            Some(port) => Some(
                                LocatorView {
                                    scheme: Some(scheme),
                                    host: host,
                                    port: Some(port),
                                    path: path,
                                    query: query,
                                },
                            ),
                        }
                    } else {
                        Some(
                            LocatorView {
                                scheme: Some(scheme),
                                host: host,
                                port: None,
                                path: path,
                                query: query,
                            },
                        )
                    }
                }
            },
        }
    }
}

/// A parsed device locator. Immutable once parsed; it fully determines
/// which backend is constructed and how it is addressed.
#[derive(Debug, Clone)]
pub struct Locator {
    /// The string the locator was parsed from.
    pub raw: String,
    pub scheme: Option<String>,
    pub host: Option<String>,
    pub port: Option<u16>,
    pub path: String,
    /// The raw query bytes after `?`, consumed by the device-argument
    /// parser.
    pub query: Option<Vec<u8>>,
}

impl Locator {
    /// Whether this value carries exactly the parts `lv`, its string
    /// fields holding the parts' ASCII bytes as characters.
    pub open spec fn models(&self, lv: LocatorView) -> bool {
        &&& (match (self.scheme, lv.scheme) {
            (Some(s), Some(sb)) => s@ == ascii_chars(sb),
            (None, None) => true,
            _ => false,
        })
        &&& (match (self.host, lv.host) {
            (Some(h), Some(hb)) => h@ == ascii_chars(hb),
            (None, None) => true,
            _ => false,
        })
        &&& self.port == lv.port
        &&& self.path@ == ascii_chars(lv.path)
        &&& (match (self.query, lv.query) {
            (Some(q), Some(qb)) => q@ == qb,
            (None, None) => true,
            _ => false,
        })
    }
}

/// The first scheme-separator position, as [`spec_find_sep`] gives it.
fn find_sep(b: &Vec<u8>, i: usize) -> (r: Option<usize>)
    requires
        i <= b.len(),
    ensures
        (match r {
            Some(p) => spec_find_sep(b@, i as nat) == Some(p as nat) && i <= p && p + 3 <= b.len(),
            None => spec_find_sep(b@, i as nat) is None,
        }),
    decreases b@.len() - i,
{
    if b.len() < 3 || i > b.len() - 3 {
        return None;
    }
    if b[i] == 58 && b[i + 1] == 47 && b[i + 2] == 47 {
        Some(i)
    } else {
        find_sep(b, i + 1)
    }
}

/// The first position of `c`, as [`spec_find_byte`] gives it.
fn find_byte(b: &Vec<u8>, i: usize, c: u8) -> (r: usize)
    requires
        i <= b.len(),
    ensures
        r == spec_find_byte(b@, i as nat, c),
        i <= r <= b.len(),
        r < b.len() ==> b@[r as int] == c,
    decreases b@.len() - i,
{
    if i == b.len() {
        return b.len();
    }
    if b[i] == c {
        i
    } else {
        find_byte(b, i + 1, c)
    }
}

/// Reads a digit string as a port number, as [`spec_parse_u16`] gives it.
fn parse_u16(b: &Vec<u8>) -> (r: Option<u16>)
    ensures
        r == spec_parse_u16(b@),
{
    if b.len() == 0 {
        return None;
    }
    let mut acc: u32 = 0;
    let mut i: usize = 0;
    while i < b.len()
        invariant
            0 < b.len(),
            i <= b.len(),
            all_digits(b@.take(i as int)),
            acc == if spec_digits_value(b@.take(i as int)) <= 65535 {
                spec_digits_value(b@.take(i as int))
            } else {
                65536nat
            },
        decreases b@.len() - i,
    {
        let c = b[i];
        if c < 48 || c > 57 {
            proof {
                assert(!all_digits(b@));
            }
            return None;
        }
        let d: u32 = (c - 48) as u32;
        proof {
            assert(b@.take(i + 1).drop_last() =~= b@.take(i as int));
            assert(b@.take(i + 1).last() == c);
        }
        if acc > 65535 || acc * 10 + d > 65535 {
            acc = 65536;
        } else {
            acc = acc * 10 + d;
        }
        i = i + 1;
    }
    proof {
        assert(b@.take(b@.len() as int) =~= b@);
    }
    if acc > 65535 {
        None
    } else {
        Some(acc as u16)
    }
}

/// Whether `b` is a well-formed scheme, as [`valid_scheme`] gives it.
fn check_scheme(b: &Vec<u8>) -> (r: bool)
    ensures
        r == valid_scheme(b@),
{
    if b.len() == 0 {
        return false;
    }
    let c0 = b[0];
    if !((65 <= c0 && c0 <= 90) || (97 <= c0 && c0 <= 122)) {
        return false;
    }
    let mut i: usize = 1;
    while i < b.len()
        invariant
            1 <= i <= b.len(),
            forall|k: int| 0 < k < i ==> is_scheme_char(b@[k]),
        decreases b@.len() - i,
    {
        let c = b[i];
        let ok = (65 <= c && c <= 90) || (97 <= c && c <= 122) || (48 <= c && c <= 57) || c == 43
            || c == 45 || c == 46;
        if !ok {
            return false;
        }
        i = i + 1;
    }
    true
}

/// Parses a locator string. Yields the locator exactly when
/// [`spec_parse_locator`] accepts the string's bytes; a rejected string
/// is an invalid-URL error carrying the string itself.
pub fn parse_locator(s: &str) -> (r: Result<Locator, Error>)
    ensures
        (match r {
            Ok(loc) => {
                &&& spec_parse_locator(s.spec_bytes()) matches Some(lv) && loc.models(lv)
                &&& loc.raw@ == s@
            },
            Err(e) => {
                &&& spec_parse_locator(s.spec_bytes()) is None
                &&& e matches Error::Decode(DecodeError::InvalidUrl(u)) && u@ == s@
            },
        }),
        r is Ok <==> spec_parse_locator(s.spec_bytes()) is Some,
{
    let b = s.as_bytes_vec();
    let mut i: usize = 0;
    while i < b.len()
        invariant
            i <= b.len(),
            b@ == s.spec_bytes(),
            forall|k: int| 0 <= k < i ==> b@[k] < 128,
        decreases b@.len() - i,
    {
        if b[i] >= 128 {
            return Err(
                Error::Decode(DecodeError::InvalidUrl(String::from_str(s))),
            );
        }
        i = i + 1;
    }
    proof {
        assert(all_ascii(b@));
    }
    match find_sep(&b, 0) {
        None => {
            let q = find_byte(&b, 0, 63);
            let path = copy_range(&b, 0, q);
            let query = if q < b.len() {
                Some(copy_range(&b, q + 1, b.len()))
            } else {
                None
            };
            Ok(
                Locator {
                    raw: String::from_str(s),
                    scheme: None,
                    host: None,
                    port: None,
                    path: ascii_to_string(&path),
                    query: query,
                },
            )
        },
        Some(p) => {
            let scheme = copy_range(&b, 0, p);
            if !check_scheme(&scheme) {
                return Err(
                    Error::Decode(DecodeError::InvalidUrl(String::from_str(s))),
                );
            }
            let rest = copy_range(&b, p + 3, b.len());
            let q = find_byte(&rest, 0, 63);
            let query = if q < rest.len() {
                Some(copy_range(&rest, q + 1, rest.len()))
            } else {
                None
            };
            let before_q = copy_range(&rest, 0, q);
            let slash = find_byte(&before_q, 0, 47);
            let authority = copy_range(&before_q, 0, slash);
            let path = copy_range(&before_q, slash, before_q.len());
            let colon = find_byte(&authority, 0, 58);
            let hostpart = copy_range(&authority, 0, colon);
            let host = if hostpart.len() > 0 {
                Some(ascii_to_string(&hostpart))
            } else {
                None
            };
            let port = if colon < authority.len() {
                let portpart = copy_range(&authority, colon + 1, authority.len());
                match parse_u16(&portpart) {
                    None => {
                        return Err(
                            Error::Decode(DecodeError::InvalidUrl(String::from_str(s))),
                        );
                    },
                    Some(port) => Some(port),
                }
            } else {
                None
            };
            Ok(
                Locator {
                    raw: String::from_str(s),
                    scheme: Some(ascii_to_string(&scheme)),
                    host: host,
                    port: port,
                    path: ascii_to_string(&path),
                    query: query,
                },
            )
        },
    }
}

} // verus!
