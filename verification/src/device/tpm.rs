//! The TPM backend: a key addressed by a key path handed opaquely to the
//! TPM driver. It has no creation path: asking to create is an explicit
//! error, and generation is never attempted.

use crate::locator::Locator;
use crate::result::Error;
use vstd::prelude::*;

verus! {

/// A TPM device: the key path for the TPM driver.
#[derive(Debug, Clone)]
pub struct Device {
    /// The TPM key path.
    pub path: String,
}

/// Descriptive information about a TPM device.
#[derive(Debug, Clone)]
pub struct Info {
    /// The TPM key path.
    pub path: String,
}

impl Device {
    /// Builds a TPM device from a parsed `tpm` locator: the locator's
    /// path is the key path.
    pub fn from_url(loc: &Locator) -> (r: Result<Device, Error>)
        ensures
            r matches Ok(d) && d.path@ == loc.path@,
    {
        Ok(Device { path: loc.path.clone() })
    }

    /// A read-only snapshot of the device's addressing.
    pub fn get_info(&self) -> (r: Result<Info, Error>)
        ensures
            r matches Ok(i) && i.path@ == self.path@,
    {
        Ok(Info { path: self.path.clone() })
    }

    /// The key path the TPM driver must read to acquire this device's
    /// keypair; the driver call itself belongs to the caller. Creation
    /// is unsupported and is reported as such, never attempted.
    pub fn get_keypair(&self, create: bool) -> (r: Result<String, Error>)
        ensures
            create ==> r matches Err(Error::CreateNotSupported),
            !create ==> (r matches Ok(p) && p@ == self.path@),
    {
        if create {
            return Err(Error::CreateNotSupported);
        }
        Ok(self.path.clone())
    }
}

} // verus!
