//! The file backend: a keypair persisted in its canonical binary form at
//! a filesystem path. This is the default backend when a locator names
//! no scheme.

use crate::crypto::{
    check_key_tag, generate_keypair, key_type_of, keypair_consistent, keypair_key_type,
    keypair_public_bytes, keypair_wf, safe_keypair_tag,
};
use crate::locator::Locator;
use crate::proto::clone_bytes;
use crate::result::Error;
use vstd::prelude::*;

verus! {

/// A file device: the path holding the keypair's binary form.
#[derive(Debug, Clone)]
pub struct Device {
    /// The keypair file path.
    pub path: String,
}

/// Descriptive information about a file device: the key's algorithm tag
/// and the path. Non-authoritative; never used for cryptography.
#[derive(Debug, Clone)]
pub struct Info {
    /// The key's algorithm tag.
    pub key_type: String,
    /// The keypair file path.
    pub path: String,
}

/// Key material acquired from the file backend. When `persist` is set
/// the material is freshly generated and the caller must write it to
/// the backing path before relying on it being stored.
#[derive(Debug, Clone)]
pub struct KeypairEntry {
    /// The keypair's canonical binary form.
    pub bytes: Vec<u8>,
    /// Whether the caller must persist the bytes to the device's path.
    pub persist: bool,
}

impl Device {
    /// Builds a file device from a parsed locator: the locator's path is
    /// the keypair file path.
    pub fn from_url(loc: &Locator) -> (r: Result<Device, Error>)
        ensures
            r matches Ok(d) && d.path@ == loc.path@,
    {
        Ok(Device { path: loc.path.clone() })
    }

    /// A read-only snapshot over the stored key material (which the
    /// caller reads from the backing path): the key's algorithm tag and
    /// the path. Fails exactly when the material is empty, carries a
    /// key-type tag other than the accepted ed25519 one, or is not a
    /// well-formed keypair.
    pub fn get_info(&self, keypair: &Vec<u8>) -> (r: Result<Info, Error>)
        ensures
            r is Ok <==> keypair@.len() > 0 && safe_keypair_tag(keypair@[0]) && keypair_wf(
                keypair@,
            ),
            r matches Ok(i) ==> i.key_type@ == key_type_of(keypair@) && i.path@ == self.path@,
    {
        if keypair.len() == 0 {
            return Err(Error::Crypto(String::from_str("empty keypair file")));
        }
        if !check_key_tag(keypair) {
            return Err(Error::Crypto(String::from_str("unsupported key type")));
        }
        match keypair_key_type(keypair) {
            Ok(t) => Ok(Info { key_type: t, path: self.path.clone() }),
            Err(e) => Err(e),
        }
    }

    /// Acquires key material. `contents` is what the backing path holds
    /// (`None` when the file does not exist). When the file is missing,
    /// or `create` is asked, a fresh keypair is generated and handed
    /// back to be persisted; otherwise the stored bytes are validated
    /// and returned unchanged — so a second acquisition over what the
    /// first persisted returns the identical key. Stored material is
    /// accepted for the ed25519 key type only — the type this backend
    /// generates; on the others the external library can crash on a
    /// corrupted file (see [`safe_keypair_tag`]).
    pub fn get_keypair(&self, create: bool, contents: Option<&Vec<u8>>) -> (r: Result<
        KeypairEntry,
        Error,
    >)
        ensures
            (create || contents is None) ==> (r matches Ok(e) && e.persist && keypair_wf(
                e.bytes@,
            ) && e.bytes@.len() > 0 && safe_keypair_tag(e.bytes@[0]) && keypair_consistent(
                e.bytes@,
            )),
            (match contents {
                Some(c) => !create ==> ((r is Ok <==> c@.len() > 0 && safe_keypair_tag(c@[0])
                    && keypair_wf(c@)) && (r matches Ok(e) ==> e.bytes@ == c@ && !e.persist)),
                None => true,
            }),
    {
        if !create {
            if let Some(c) = contents {
                if c.len() == 0 {
                    return Err(Error::Crypto(String::from_str("empty keypair file")));
                }
                if !check_key_tag(c) {
                    return Err(Error::Crypto(String::from_str("unsupported key type")));
                }
                return match keypair_public_bytes(c) {
                    Ok(_) => Ok(KeypairEntry { bytes: clone_bytes(c), persist: false }),
                    Err(e) => Err(e),
                };
            }
        }
        let kb = generate_keypair();
        Ok(KeypairEntry { bytes: kb, persist: true })
    }
}

} // verus!
