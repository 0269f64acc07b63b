//! The trusted-execution backend: a key blob at a filesystem path,
//! readable only by the trusted-execution driver. It has no creation
//! path at all: asking to create is outside every contract here, and a
//! caller that cannot rule it out must treat it as fatal.

use crate::locator::Locator;
use crate::result::Error;
use vstd::prelude::*;

verus! {

/// A trusted-execution device: the key-blob path.
#[derive(Debug, Clone)]
pub struct Device {
    /// The TrustZone key-blob path.
    pub path: String,
}

/// Descriptive information about a trusted-execution device.
#[derive(Debug, Clone)]
pub struct Info {
    /// The TrustZone key-blob path.
    pub path: String,
}

impl Device {
    /// Builds a trusted-execution device from a parsed `nova-tz`
    /// locator: the locator's path is the key-blob path.
    pub fn from_url(loc: &Locator) -> (r: Result<Device, Error>)
        ensures
            r matches Ok(d) && d.path@ == loc.path@,
    {
        Ok(Device { path: loc.path.clone() })
    }

    /// A read-only snapshot of the device's addressing.
    pub fn get_info(&self) -> (r: Result<Info, Error>)
        ensures
            r matches Ok(i) && i.path@ == self.path@,
    {
        Ok(Info { path: self.path.clone() })
    }

    /// The key-blob path the trusted-execution driver must read to
    /// acquire this device's keypair; the driver call itself belongs to
    /// the caller. The backing library offers no generation entry
    /// point, so asking to create is excluded outright.
    pub fn get_keypair(&self, create: bool) -> (r: Result<String, Error>)
        requires
            !create,
        ensures
            r matches Ok(p) && p@ == self.path@,
    {
        Ok(self.path.clone())
    }
}

} // verus!
