//! The security-device abstraction: a closed set of key-storage backends
//! selected by a locator string.
//!
//! A locator of scheme `ecc` selects the secure-element backend, `tpm`
//! the TPM backend, `nova-tz` the trusted-execution key-blob backend, and
//! `file` — or no scheme at all — the file backend. Any other scheme is
//! rejected, naming the offending locator. Locator query parameters
//! become typed device arguments with backend-defined defaults.

use crate::b64::ascii_chars;
use crate::crypto::{key_type_of, keypair_consistent, keypair_wf, safe_keypair_tag};
use crate::locator::{
    all_digits, is_digit, parse_locator, spec_digits_value, spec_find_byte, spec_parse_locator, Locator,
    LocatorView,
};
use crate::proto::{clone_bytes, copy_range};
use crate::result::{DecodeError, Error};
use vstd::prelude::*;
use vstd::string::StringSliceAdditionalSpecFns;

pub mod ecc;
pub mod file;
pub mod nova_tz;
pub mod tpm;

verus! {

/// An ASCII hexadecimal digit.
pub open spec fn is_hex(c: u8) -> bool {
    (48 <= c <= 57) || (65 <= c <= 70) || (97 <= c <= 102)
}

/// The value of a hexadecimal digit.
pub open spec fn spec_hex_val(c: u8) -> u8 {
    if 48 <= c <= 57 {
        (c - 48) as u8
    } else if 65 <= c <= 70 {
        (c - 55) as u8
    } else {
        (c - 87) as u8
    }
}

/// URL percent-decoding from index `i`: `%XX` with two hexadecimal
/// digits is the byte `XX`, `+` is a space, anything else is itself.
pub open spec fn spec_pct_decode(b: Seq<u8>, i: nat) -> Seq<u8>
    decreases b.len() - i,
{
    if i >= b.len() {
        Seq::empty()
    } else if b[i as int] == 37 && i + 2 < b.len() && is_hex(b[i as int + 1]) && is_hex(
        b[i as int + 2],
    ) {
        seq![(spec_hex_val(b[i as int + 1]) * 16 + spec_hex_val(b[i as int + 2])) as u8]
            + spec_pct_decode(b, i + 3)
    } else if b[i as int] == 43 {
        seq![32u8] + spec_pct_decode(b, i + 1)
    } else {
        seq![b[i as int]] + spec_pct_decode(b, i + 1)
    }
}

/// The key/value pair of one query segment: the key up to the first `=`,
/// the value after it (empty when there is no `=`), both
/// percent-decoded.
pub open spec fn spec_pair_of(seg: Seq<u8>) -> (Seq<u8>, Seq<u8>) {
    let eq = spec_find_byte(seg, 0, 61);
    let key = spec_pct_decode(seg.subrange(0, eq as int), 0);
    let val = if eq < seg.len() {
        spec_pct_decode(seg.subrange(eq as int + 1, seg.len() as int), 0)
    } else {
        Seq::empty()
    };
    (key, val)
}

proof fn lemma_find_byte_bounds(b: Seq<u8>, i: nat, c: u8)
    requires
        i <= b.len(),
    ensures
        i <= spec_find_byte(b, i, c) <= b.len(),
    decreases b.len() - i,
{
    if i < b.len() && b[i as int] != c {
        lemma_find_byte_bounds(b, i + 1, c);
    }
}

/// The key/value pairs of a query string from index `i`: segments split
/// on `&`, empty segments skipped, in the order they appear.
pub open spec fn spec_parse_args(b: Seq<u8>, i: nat) -> Seq<(Seq<u8>, Seq<u8>)>
    decreases b.len() - i,
        via spec_parse_args_dec
{
    if i >= b.len() {
        Seq::empty()
    } else {
        let k = spec_find_byte(b, i, 38);
        let seg = b.subrange(i as int, k as int);
        let rest = if k < b.len() {
            spec_parse_args(b, k + 1)
        } else {
            Seq::empty()
        };
        if seg.len() == 0 {
            rest
        } else {
            seq![spec_pair_of(seg)] + rest
        }
    }
}

#[via_fn]
proof fn spec_parse_args_dec(b: Seq<u8>, i: nat) {
    if i < b.len() {
        lemma_find_byte_bounds(b, i, 38);
    }
}

/// The value stored under `name`: the last occurrence wins.
pub open spec fn spec_lookup(args: Seq<(Seq<u8>, Seq<u8>)>, name: Seq<u8>) -> Option<Seq<u8>>
    decreases args.len(),
{
    if args.len() == 0 {
        None
    } else if args.last().0 == name {
        Some(args.last().1)
    } else {
        spec_lookup(args.drop_last(), name)
    }
}

/// The eight-bit number a stored option value denotes: an optional `+`
/// sign, then at least one decimal digit, value at most 255.
pub open spec fn spec_parse_u8_bytes(v: Seq<u8>) -> Option<u8> {
    let d = if v.len() > 0 && v[0] == 43 {
        v.subrange(1, v.len() as int)
    } else {
        v
    };
    if d.len() > 0 && all_digits(d) && spec_digits_value(d) <= 255 {
        Some(spec_digits_value(d) as u8)
    } else {
        None
    }
}

/// A typed option read: the stored value parsed as an eight-bit number,
/// or the default when the option is absent; `None` when the stored
/// value does not parse.
pub open spec fn spec_get_u8(
    args: Seq<(Seq<u8>, Seq<u8>)>,
    name: Seq<u8>,
    default: u8,
) -> Option<u8> {
    match spec_lookup(args, name) {
        None => Some(default),
        Some(v) => spec_parse_u8_bytes(v),
    }
}

/// Device arguments: the key/value pairs of a locator's query part, in
/// order of appearance.
pub struct DeviceArgs(pub Vec<(Vec<u8>, Vec<u8>)>);

impl DeviceArgs {
    /// The pairs this value holds.
    pub open spec fn args(&self) -> Seq<(Seq<u8>, Seq<u8>)> {
        self.0@.map_values(|p: (Vec<u8>, Vec<u8>)| (p.0@, p.1@))
    }
}

/// The decoded value of one hexadecimal digit.
fn hex_val(c: u8) -> (r: u8)
    requires
        is_hex(c),
    ensures
        r == spec_hex_val(c),
{
    if 48 <= c && c <= 57 {
        c - 48
    } else if 65 <= c && c <= 70 {
        c - 55
    } else {
        c - 87
    }
}

/// Percent-decodes `b`, as [`spec_pct_decode`] gives it.
fn pct_decode(b: &Vec<u8>) -> (r: Vec<u8>)
    ensures
        r@ == spec_pct_decode(b@, 0),
{
    let mut out: Vec<u8> = Vec::new();
    let mut i: usize = 0;
    proof {
        assert(out@ + spec_pct_decode(b@, 0) =~= spec_pct_decode(b@, 0));
    }
    while i < b.len()
        invariant
            i <= b.len(),
            out@ + spec_pct_decode(b@, i as nat) == spec_pct_decode(b@, 0),
        decreases b@.len() - i,
    {
        let c = b[i];
        if c == 37 && b.len() - i > 2 {
            let h1 = b[i + 1];
            let h2 = b[i + 2];
            let hex1 = (48 <= h1 && h1 <= 57) || (65 <= h1 && h1 <= 70) || (97 <= h1 && h1 <= 102);
            let hex2 = (48 <= h2 && h2 <= 57) || (65 <= h2 && h2 <= 70) || (97 <= h2 && h2 <= 102);
            if hex1 && hex2 {
                let d = hex_val(h1) * 16 + hex_val(h2);
                out.push(d);
                proof {
                    assert(out@ + spec_pct_decode(b@, (i + 3) as nat) =~= spec_pct_decode(b@, 0));
                }
                i = i + 3;
                continue ;
            }
        }
        if c == 43 {
            out.push(32);
        } else {
            out.push(c);
        }
        proof {
            assert(out@ + spec_pct_decode(b@, (i + 1) as nat) =~= spec_pct_decode(b@, 0));
        }
        i = i + 1;
    }
    out
}

/// The first position of `c` at or after `i`, as
/// [`crate::locator::spec_find_byte`] gives it.
fn find_byte_in(b: &Vec<u8>, i: usize, c: u8) -> (r: usize)
    requires
        i <= b.len(),
    ensures
        r == spec_find_byte(b@, i as nat, c),
        i <= r <= b.len(),
    decreases b@.len() - i,
{
    if i == b.len() {
        return b.len();
    }
    if b[i] == c {
        i
    } else {
        find_byte_in(b, i + 1, c)
    }
}

/// Splits a query into device-argument pairs, as [`spec_parse_args`]
/// gives it.
fn parse_args(q: &Vec<u8>) -> (r: Vec<(Vec<u8>, Vec<u8>)>)
    ensures
        r@.map_values(|p: (Vec<u8>, Vec<u8>)| (p.0@, p.1@)) == spec_parse_args(q@, 0),
{
    let mut out: Vec<(Vec<u8>, Vec<u8>)> = Vec::new();
    let mut i: usize = 0;
    proof {
        assert(out@.map_values(|p: (Vec<u8>, Vec<u8>)| (p.0@, p.1@)) + spec_parse_args(q@, 0)
            =~= spec_parse_args(q@, 0));
    }
    loop
        invariant_except_break
            i <= q.len(),
            out@.map_values(|p: (Vec<u8>, Vec<u8>)| (p.0@, p.1@)) + spec_parse_args(q@, i as nat)
                == spec_parse_args(q@, 0),
        ensures
            out@.map_values(|p: (Vec<u8>, Vec<u8>)| (p.0@, p.1@)) == spec_parse_args(q@, 0),
        decreases q@.len() - i,
    {
        if i >= q.len() {
            proof {
                assert(spec_parse_args(q@, i as nat) =~= Seq::<(Seq<u8>, Seq<u8>)>::empty());
                assert(out@.map_values(|p: (Vec<u8>, Vec<u8>)| (p.0@, p.1@)) =~= spec_parse_args(
                    q@,
                    0,
                ));
            }
            break ;
        }
        let k = find_byte_in(q, i, 38);
        if k > i {
            let seg = copy_range(q, i, k);
            let eq = find_byte_in(&seg, 0, 61);
            let keyb = pct_decode(&copy_range(&seg, 0, eq));
            let valb = if eq < seg.len() {
                pct_decode(&copy_range(&seg, eq + 1, seg.len()))
            } else {
                Vec::new()
            };
            proof {
                assert((keyb@, valb@) == spec_pair_of(seg@));
            }
            out.push((keyb, valb));
        }
        if k == q.len() {
            proof {
                assert(out@.map_values(|p: (Vec<u8>, Vec<u8>)| (p.0@, p.1@)) =~= spec_parse_args(
                    q@,
                    0,
                ));
            }
            break ;
        }
        proof {
            assert(out@.map_values(|p: (Vec<u8>, Vec<u8>)| (p.0@, p.1@)) + spec_parse_args(
                q@,
                (k + 1) as nat,
            ) =~= spec_parse_args(q@, 0));
        }
        i = k + 1;
    }
    out
}

impl DeviceArgs {
    /// Parses the query part of a locator into device arguments; a
    /// locator without a query has none.
    pub fn from_uri(loc: &Locator) -> (r: Result<DeviceArgs, Error>)
        ensures
            r matches Ok(a) && a.args() == (match loc.query {
                None => Seq::<(Seq<u8>, Seq<u8>)>::empty(),
                Some(q) => spec_parse_args(q@, 0),
            }),
    {
        match &loc.query {
            None => {
                let a = DeviceArgs(Vec::new());
                proof {
                    assert(a.args() =~= Seq::<(Seq<u8>, Seq<u8>)>::empty());
                }
                Ok(a)
            },
            Some(q) => Ok(DeviceArgs(parse_args(q))),
        }
    }

    /// Looks up `name` and parses the stored value as an eight-bit
    /// number, yielding `default` when the option is absent and an
    /// error naming the option when the value does not parse.
    pub fn get(&self, name: &str, default: u8) -> (r: Result<u8, Error>)
        ensures
            (match spec_get_u8(self.args(), name.spec_bytes(), default) {
                Some(v) => r matches Ok(v2) && v2 == v,
                None => r matches Err(Error::Decode(DecodeError::InvalidDeviceUrlArgument(n)))
                    && n@ == name@,
            }),
    {
        let nameb = name.as_bytes_vec();
        proof {
            assert(self.args().take(self.0.len() as int) =~= self.args());
        }
        let mut i: usize = self.0.len();
        while i > 0
            invariant
                i <= self.0.len(),
                nameb@ == name.spec_bytes(),
                spec_lookup(self.args(), nameb@) == spec_lookup(
                    self.args().take(i as int),
                    nameb@,
                ),
            decreases i,
        {
            i = i - 1;
            proof {
                assert(self.args().take(i + 1).drop_last() =~= self.args().take(i as int));
                assert(self.args().take(i + 1).last() == self.args()[i as int]);
            }
            if bytes_eq(&self.0[i].0, &nameb) {
                let v = clone_bytes(&self.0[i].1);
                proof {
                    assert(spec_lookup(self.args(), nameb@) == Some(v@));
                }
                return parse_u8_arg(&v, name);
            }
        }
        proof {
            assert(self.args().take(0) =~= Seq::<(Seq<u8>, Seq<u8>)>::empty());
        }
        Ok(default)
    }
}

/// The bytes of the `ecc` scheme.
pub open spec fn scheme_ecc() -> Seq<u8> {
    seq![101u8, 99u8, 99u8]
}

/// The bytes of the `tpm` scheme.
pub open spec fn scheme_tpm() -> Seq<u8> {
    seq![116u8, 112u8, 109u8]
}

/// The bytes of the `nova-tz` scheme.
pub open spec fn scheme_nova_tz() -> Seq<u8> {
    seq![110u8, 111u8, 118u8, 97u8, 45u8, 116u8, 122u8]
}

/// The bytes of the `file` scheme.
pub open spec fn scheme_file() -> Seq<u8> {
    seq![102u8, 105u8, 108u8, 101u8]
}

/// The bytes of the path prefix `/dev/` put before a bus device name.
pub open spec fn dev_prefix() -> Seq<u8> {
    seq![47u8, 100u8, 101u8, 118u8, 47u8]
}

/// The arguments of a parsed locator's query, over its parts.
pub open spec fn lv_args(lv: LocatorView) -> Seq<(Seq<u8>, Seq<u8>)> {
    match lv.query {
        None => Seq::empty(),
        Some(q) => spec_parse_args(q, 0),
    }
}

/// What a parsed locator selects: which backend with which addressing,
/// or which rejection.
pub ghost enum DeviceSpec {
    File(Seq<u8>),
    Tpm(Seq<u8>),
    TrustZone(Seq<u8>),
    /// Device path (with the `/dev/` prefix), bus address, slot.
    Ecc(Seq<u8>, u16, u8),
    UnsupportedScheme,
    MissingHost,
    BadSlot,
}

/// The backend-selection rule over a parsed locator: no scheme or
/// `file` is the file backend on the locator's path; `tpm` and
/// `nova-tz` address their drivers by the path; `ecc` needs a host
/// (the bus device under `/dev`), takes the port as bus address
/// (default 96) and the `slot` option as slot (default 0); any other
/// scheme is unsupported.
pub open spec fn spec_device_from(lv: LocatorView) -> DeviceSpec {
    match lv.scheme {
        None => DeviceSpec::File(lv.path),
        Some(sch) => {
            if sch == scheme_file() {
                DeviceSpec::File(lv.path)
            } else if sch == scheme_tpm() {
                DeviceSpec::Tpm(lv.path)
            } else if sch == scheme_nova_tz() {
                DeviceSpec::TrustZone(lv.path)
            } else if sch == scheme_ecc() {
                match spec_get_u8(lv_args(lv), ecc::slot_name(), 0) {
                    None => DeviceSpec::BadSlot,
                    Some(slot) => match lv.host {
                        None => DeviceSpec::MissingHost,
                        Some(h) => DeviceSpec::Ecc(
                            dev_prefix() + h,
                            (match lv.port {
                                Some(p) => p,
                                None => 96u16,
                            }),
                            slot,
                        ),
                    },
                }
            } else {
                DeviceSpec::UnsupportedScheme
            }
        },
    }
}

proof fn lemma_ascii_chars_injective(a: Seq<u8>, b: Seq<u8>)
    requires
        ascii_chars(a) == ascii_chars(b),
    ensures
        a == b,
{
    assert(ascii_chars(a).len() == a.len());
    assert(ascii_chars(b).len() == b.len());
    assert forall|j: int| 0 <= j < a.len() implies a[j] == b[j] by {
        assert(ascii_chars(a)[j] == a[j] as char);
        assert(ascii_chars(b)[j] == b[j] as char);
    }
    assert(a =~= b);
}

/// A security device: one active backend variant, selected once from a
/// locator.
#[derive(Debug, Clone)]
pub enum Device {
    Ecc(ecc::Device),
    Tpm(tpm::Device),
    TrustZone(nova_tz::Device),
    File(file::Device),
}

/// Descriptive information about a device: a backend-tagged snapshot,
/// never used to perform cryptography.
#[derive(Debug, Clone)]
pub enum Info {
    Ecc(ecc::Info),
    Tpm(tpm::Info),
    TrustZone(nova_tz::Info),
    File(file::Info),
}

/// What acquiring a keypair from the active backend amounts to. The
/// file backend's key material is produced here; each hardware backend
/// names the driver access the caller must perform, which no function
/// of this library can.
#[derive(Debug, Clone)]
pub enum KeypairAction {
    /// Key material in hand; when its `persist` flag is set the caller
    /// must write it to the file backend's path.
    Ready(file::KeypairEntry),
    /// Read the key at this TPM key path.
    ReadTpm(String),
    /// Read the trusted-execution key blob at this path.
    ReadTrustZone(String),
    /// Perform this secure-element slot access.
    ReadEcc(ecc::SlotAccess),
}

impl Device {
    /// Parses a locator string and selects the backend, as
    /// [`spec_device_from`] describes; every rejection carries the
    /// offending locator string, and an unparseable slot option names
    /// the option.
    pub fn from_url_str(s: &str) -> (r: Result<Device, Error>)
        ensures
            (match spec_parse_locator(s.spec_bytes()) {
                None => r matches Err(Error::Decode(DecodeError::InvalidUrl(u))) && u@ == s@,
                Some(lv) => match spec_device_from(lv) {
                    DeviceSpec::File(p) => r matches Ok(Device::File(d)) && d.path@
                        == ascii_chars(p),
                    DeviceSpec::Tpm(p) => r matches Ok(Device::Tpm(d)) && d.path@
                        == ascii_chars(p),
                    DeviceSpec::TrustZone(p) => r matches Ok(Device::TrustZone(d)) && d.path@
                        == ascii_chars(p),
                    DeviceSpec::Ecc(p, a, sl) => r matches Ok(Device::Ecc(d)) && d.path@
                        == ascii_chars(p) && d.address == a && d.slot == sl,
                    DeviceSpec::UnsupportedScheme => r matches Err(
                        Error::Decode(DecodeError::InvalidDeviceUrl(u)),
                    ) && u@ == s@,
                    DeviceSpec::MissingHost => r matches Err(
                        Error::Decode(DecodeError::InvalidDeviceUrl(u)),
                    ) && u@ == s@,
                    DeviceSpec::BadSlot => r matches Err(
                        Error::Decode(DecodeError::InvalidDeviceUrlArgument(n)),
                    ) && n@ == "slot"@,
                },
            }),
    {
        let loc = match parse_locator(s) {
            Ok(l) => l,
            Err(e) => { return Err(e) },
        };
        proof {
            reveal_strlit("ecc");
            reveal_strlit("tpm");
            reveal_strlit("nova-tz");
            reveal_strlit("file");
            assert(ascii_chars(scheme_ecc()) =~= "ecc"@);
            assert(ascii_chars(scheme_tpm()) =~= "tpm"@);
            assert(ascii_chars(scheme_nova_tz()) =~= "nova-tz"@);
            assert(ascii_chars(scheme_file()) =~= "file"@);
        }
        let ghost lv = spec_parse_locator(s.spec_bytes())->Some_0;
        match &loc.scheme {
            None => match file::Device::from_url(&loc) {
                Ok(d) => Ok(Device::File(d)),
                Err(e) => Err(e),
            },
            Some(sch) => {
                let ghost sb = lv.scheme->Some_0;
                proof {
                    assert(sch@ == ascii_chars(sb));
                }
                if *sch == String::from_str("file") {
                    proof {
                        lemma_ascii_chars_injective(sb, scheme_file());
                    }
                    match file::Device::from_url(&loc) {
                        Ok(d) => Ok(Device::File(d)),
                        Err(e) => Err(e),
                    }
                } else if *sch == String::from_str("tpm") {
                    proof {
                        lemma_ascii_chars_injective(sb, scheme_tpm());
                    }
                    match tpm::Device::from_url(&loc) {
                        Ok(d) => Ok(Device::Tpm(d)),
                        Err(e) => Err(e),
                    }
                } else if *sch == String::from_str("nova-tz") {
                    proof {
                        lemma_ascii_chars_injective(sb, scheme_nova_tz());
                    }
                    match nova_tz::Device::from_url(&loc) {
                        Ok(d) => Ok(Device::TrustZone(d)),
                        Err(e) => Err(e),
                    }
                } else if *sch == String::from_str("ecc") {
                    proof {
                        lemma_ascii_chars_injective(sb, scheme_ecc());
                        assert(ecc::spec_loc_args(loc) == lv_args(lv));
                        reveal_strlit("/dev/");
                        assert(ascii_chars(dev_prefix()) =~= "/dev/"@);
                        if lv.host is Some {
                            let hb = lv.host->Some_0;
                            assert(ascii_chars(dev_prefix() + hb) =~= ascii_chars(dev_prefix())
                                + ascii_chars(hb));
                        }
                    }
                    match ecc::Device::from_url(&loc) {
                        Ok(d) => Ok(Device::Ecc(d)),
                        Err(e) => Err(e),
                    }
                } else {
                    Err(Error::Decode(DecodeError::InvalidDeviceUrl(loc.raw.clone())))
                }
            },
        }
    }

    /// Acquires the active backend's keypair, or names the driver
    /// access that would. `file_contents` is what the file backend's
    /// path holds, `None` when the file does not exist; the other
    /// backends ignore it. Asking the trusted-execution backend to
    /// create is excluded: it is a fatal misuse, not a recoverable
    /// error.
    pub fn get_keypair(&self, create: bool, file_contents: Option<&Vec<u8>>) -> (r: Result<
        KeypairAction,
        Error,
    >)
        requires
            !(self is TrustZone && create),
        ensures
            (match self {
                Device::Ecc(d) => r matches Ok(KeypairAction::ReadEcc(a)) && a.path@ == d.path@
                    && a.address == d.address && a.slot == d.slot && a.create == create,
                Device::Tpm(d) => {
                    &&& (create ==> r matches Err(Error::CreateNotSupported))
                    &&& (!create ==> (r matches Ok(KeypairAction::ReadTpm(p)) && p@ == d.path@))
                },
                Device::TrustZone(d) => r matches Ok(KeypairAction::ReadTrustZone(p)) && p@
                    == d.path@,
                Device::File(_) => {
                    &&& (r is Ok ==> r matches Ok(KeypairAction::Ready(_)))
                    &&& (create || file_contents is None) ==> (r matches Ok(
                        KeypairAction::Ready(e),
                    ) && e.persist && keypair_wf(e.bytes@) && e.bytes@.len() > 0
                        && safe_keypair_tag(e.bytes@[0]) && keypair_consistent(e.bytes@))
                    &&& (match file_contents {
                        Some(c) => !create ==> ((r is Ok <==> c@.len() > 0 && safe_keypair_tag(
                            c@[0],
                        ) && keypair_wf(c@)) && (r matches Ok(KeypairAction::Ready(e))
                            ==> e.bytes@ == c@ && !e.persist)),
                        None => true,
                    })
                },
            }),
    {
        match self {
            Device::Ecc(d) => match d.get_keypair(create) {
                Ok(a) => Ok(KeypairAction::ReadEcc(a)),
                Err(e) => Err(e),
            },
            Device::Tpm(d) => match d.get_keypair(create) {
                Ok(p) => Ok(KeypairAction::ReadTpm(p)),
                Err(e) => Err(e),
            },
            Device::TrustZone(d) => match d.get_keypair(create) {
                Ok(p) => Ok(KeypairAction::ReadTrustZone(p)),
                Err(e) => Err(e),
            },
            Device::File(d) => match d.get_keypair(create, file_contents) {
                Ok(e) => Ok(KeypairAction::Ready(e)),
                Err(e) => Err(e),
            },
        }
    }

    /// A read-only descriptive snapshot of the active backend.
    /// `file_keypair` is the file backend's stored key material (which
    /// the caller reads from the backing path; the key's algorithm tag
    /// is read from it); the other backends ignore it.
    pub fn get_info(&self, file_keypair: Option<&Vec<u8>>) -> (r: Result<Info, Error>)
        requires
            self is File ==> file_keypair is Some,
        ensures
            (match self {
                Device::Ecc(d) => r matches Ok(Info::Ecc(i)) && i.path@ == d.path@ && i.address
                    == d.address && i.slot == d.slot,
                Device::Tpm(d) => r matches Ok(Info::Tpm(i)) && i.path@ == d.path@,
                Device::TrustZone(d) => r matches Ok(Info::TrustZone(i)) && i.path@ == d.path@,
                Device::File(d) => (match file_keypair {
                    Some(kb) => {
                        &&& (r is Ok <==> kb@.len() > 0 && safe_keypair_tag(kb@[0])
                            && keypair_wf(kb@))
                        &&& (r matches Ok(Info::File(i)) ==> i.key_type@ == key_type_of(kb@)
                            && i.path@ == d.path@)
                        &&& (r is Ok ==> r matches Ok(Info::File(_)))
                    },
                    None => true,
                }),
            }),
    {
        match self {
            Device::Ecc(d) => match d.get_info() {
                Ok(i) => Ok(Info::Ecc(i)),
                Err(e) => Err(e),
            },
            Device::Tpm(d) => match d.get_info() {
                Ok(i) => Ok(Info::Tpm(i)),
                Err(e) => Err(e),
            },
            Device::TrustZone(d) => match d.get_info() {
                Ok(i) => Ok(Info::TrustZone(i)),
                Err(e) => Err(e),
            },
            Device::File(d) => match file_keypair {
                Some(kb) => match d.get_info(kb) {
                    Ok(i) => Ok(Info::File(i)),
                    Err(e) => Err(e),
                },
                None => Err(Error::Crypto(String::from_str("missing key material"))),
            },
        }
    }
}

impl core::str::FromStr for Device {
    type Err = Error;

    fn from_str(s: &str) -> Result<Device, Error> {
        Device::from_url_str(s)
    }
}

/// Whether two byte strings are equal.
fn bytes_eq(a: &Vec<u8>, b: &Vec<u8>) -> (r: bool)
    ensures
        r == (a@ == b@),
{
    if a.len() != b.len() {
        proof {
            assert(a@ != b@);
        }
        return false;
    }
    let mut i: usize = 0;
    while i < a.len()
        invariant
            i <= a.len(),
            a@.len() == b@.len(),
            forall|k: int| 0 <= k < i ==> a@[k] == b@[k],
        decreases a@.len() - i,
    {
        if a[i] != b[i] {
            return false;
        }
        i = i + 1;
    }
    proof {
        assert(a@ =~= b@);
    }
    true
}

/// Parses a stored option value as an eight-bit number, as
/// [`spec_parse_u8_bytes`] gives it; failure names the option.
fn parse_u8_arg(v: &Vec<u8>, name: &str) -> (r: Result<u8, Error>)
    ensures
        (match spec_parse_u8_bytes(v@) {
            Some(x) => r matches Ok(x2) && x2 == x,
            None => r matches Err(Error::Decode(DecodeError::InvalidDeviceUrlArgument(n))) && n@
                == name@,
        }),
{
    let d = if v.len() > 0 && v[0] == 43 {
        copy_range(v, 1, v.len())
    } else {
        clone_bytes(v)
    };
    if d.len() == 0 {
        return Err(
            Error::Decode(DecodeError::InvalidDeviceUrlArgument(String::from_str(name))),
        );
    }
    let mut acc: u32 = 0;
    let mut i: usize = 0;
    while i < d.len()
        invariant
            0 < d.len(),
            i <= d.len(),
            d@ == (if v@.len() > 0 && v@[0] == 43 {
                v@.subrange(1, v@.len() as int)
            } else {
                v@
            }),
            all_digits(d@.take(i as int)),
            acc == if spec_digits_value(d@.take(i as int)) <= 255 {
                spec_digits_value(d@.take(i as int))
            } else {
                256nat
            },
        decreases d@.len() - i,
    {
        let c = d[i];
        if c < 48 || c > 57 {
            proof {
                assert(!is_digit(d@[i as int]));
                assert(!all_digits(d@));
            }
            return Err(
                Error::Decode(DecodeError::InvalidDeviceUrlArgument(String::from_str(name))),
            );
        }
        proof {
            assert(d@.take(i + 1).drop_last() =~= d@.take(i as int));
            assert(d@.take(i + 1).last() == c);
        }
        let dv: u32 = (c - 48) as u32;
        if acc > 255 || acc * 10 + dv > 255 {
            acc = 256;
        } else {
            acc = acc * 10 + dv;
        }
        i = i + 1;
    }
    proof {
        assert(d@.take(d@.len() as int) =~= d@);
    }
    if acc > 255 {
        Err(Error::Decode(DecodeError::InvalidDeviceUrlArgument(String::from_str(name))))
    } else {
        Ok(acc as u8)
    }
}

} // verus!
