//! The secure-element backend: a key held in a numbered slot of a part
//! on an i2c or swi bus.

use crate::device::{spec_get_u8, spec_parse_args, DeviceArgs};
use crate::locator::Locator;
use crate::result::{DecodeError, Error};
use vstd::prelude::*;
use vstd::string::StringSliceAdditionalSpecFns;

verus! {

/// A secure-element device: bus device path, bus address, key slot.
#[derive(Debug, Clone)]
pub struct Device {
    /// The i2c/swi device path.
    pub path: String,
    /// The bus address.
    pub address: u16,
    /// The slot holding the key.
    pub slot: u8,
}

/// Descriptive information about a secure-element device.
#[derive(Debug, Clone)]
pub struct Info {
    /// The i2c/swi device path.
    pub path: String,
    /// The bus address.
    pub address: u16,
    /// The slot holding the key.
    pub slot: u8,
}

/// A slot access for the secure-element driver to perform: which device,
/// address and slot, and whether to generate a key first.
#[derive(Debug, Clone)]
pub struct SlotAccess {
    pub path: String,
    pub address: u16,
    pub slot: u8,
    pub create: bool,
}

/// The bytes of the option name selecting the key slot, `slot`.
pub open spec fn slot_name() -> Seq<u8> {
    seq![115u8, 108u8, 111u8, 116u8]
}

/// The query arguments a locator carries.
pub open spec fn spec_loc_args(loc: Locator) -> Seq<(Seq<u8>, Seq<u8>)> {
    match loc.query {
        None => Seq::empty(),
        Some(q) => spec_parse_args(q@, 0),
    }
}

impl Device {
    /// Builds a secure-element device from a parsed `ecc` locator: the
    /// host names the device file under `/dev`, the locator's port is
    /// the bus address (default 96), and the `slot` option is the slot
    /// (default 0). A locator without a host, or with an unparseable
    /// slot option, is rejected.
    pub fn from_url(loc: &Locator) -> (r: Result<Device, Error>)
        ensures
            (match spec_get_u8(spec_loc_args(*loc), slot_name(), 0) {
                None => r matches Err(Error::Decode(DecodeError::InvalidDeviceUrlArgument(n)))
                    && n@ == "slot"@,
                Some(slot) => match loc.host {
                    None => r matches Err(Error::Decode(DecodeError::InvalidDeviceUrl(u))) && u@
                        == loc.raw@,
                    Some(h) => {
                        &&& r matches Ok(d)
                        &&& d.path@ == "/dev/"@ + h@
                        &&& d.slot == slot
                        &&& d.address == (match loc.port {
                            Some(p) => p,
                            None => 96u16,
                        })
                    },
                },
            }),
    {
        let args = match DeviceArgs::from_uri(loc) {
            Ok(a) => a,
            Err(e) => { return Err(e) },
        };
        let address: u16 = match loc.port {
            Some(p) => p,
            None => 96,
        };
        proof {
            reveal_strlit("slot");
            vstd::string::is_ascii_spec_bytes("slot");
            assert("slot".spec_bytes() =~= slot_name());
        }
        let slot = match args.get("slot", 0) {
            Ok(v) => v,
            Err(e) => { return Err(e) },
        };
        match &loc.host {
            None => Err(Error::Decode(DecodeError::InvalidDeviceUrl(loc.raw.clone()))),
            Some(h) => Ok(
                Device { path: String::from_str("/dev/").concat(h.as_str()), address, slot },
            ),
        }
    }

    /// A read-only snapshot of the device's addressing.
    pub fn get_info(&self) -> (r: Result<Info, Error>)
        ensures
            r matches Ok(i) && i.path@ == self.path@ && i.address == self.address && i.slot
                == self.slot,
    {
        Ok(Info { path: self.path.clone(), address: self.address, slot: self.slot })
    }

    /// The slot access that acquiring this device's keypair amounts to;
    /// the bus transaction itself belongs to the hardware driver.
    pub fn get_keypair(&self, create: bool) -> (r: Result<SlotAccess, Error>)
        ensures
            r matches Ok(a) && a.path@ == self.path@ && a.address == self.address && a.slot
                == self.slot && a.create == create,
    {
        Ok(
            SlotAccess {
                path: self.path.clone(),
                address: self.address,
                slot: self.slot,
                create,
            },
        )
    }
}

/// The read-back retry rule for key generation: after a generation
/// command the slot is read back, and on failure the pair is retried up
/// to five more times before the last error stands. Given the read-back
/// outcome of each attempt, yields the first attempt that succeeded, or
/// `None` when all six allowed attempts failed.
pub fn first_successful_attempt(outcomes: &Vec<bool>) -> (r: Option<usize>)
    requires
        outcomes@.len() >= 6,
    ensures
        (match r {
            Some(i) => {
                &&& i < 6
                &&& outcomes@[i as int]
                &&& forall|j: int| 0 <= j < i ==> !outcomes@[j]
            },
            None => forall|j: int| 0 <= j < 6 ==> !outcomes@[j],
        }),
{
    let mut i: usize = 0;
    while i < 6
        invariant
            i <= 6,
            outcomes@.len() >= 6,
            forall|j: int| 0 <= j < i ==> !outcomes@[j],
        decreases 6 - i,
    {
        if outcomes[i] {
            return Some(i);
        }
        i = i + 1;
    }
    None
}

} // verus!
