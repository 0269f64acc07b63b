//! Error taxonomy for the security-device library.
//!
//! Every failure surfaces as one of these variants; nothing is silently
//! swallowed. Each locator failure carries the offending string.

use vstd::prelude::*;

verus! {

/// Errors raised while decoding a device locator or a received transaction.
#[derive(Debug, Clone)]
pub enum DecodeError {
    /// The locator string is not a well-formed URL.
    InvalidUrl(String),
    /// The locator names an unsupported scheme or lacks a required part;
    /// carries the whole offending locator.
    InvalidDeviceUrl(String),
    /// A query option of the locator did not parse; carries the option name.
    InvalidDeviceUrlArgument(String),
    /// The byte form of a received transaction is malformed.
    InvalidTransaction(String),
}

/// The library's error type.
#[derive(Debug, Clone)]
pub enum Error {
    /// A locator or transaction failed to decode.
    Decode(DecodeError),
    /// The external cryptography library reported a failure; carries its
    /// description.
    Crypto(String),
    /// The active backend has no key-creation entry point.
    CreateNotSupported,
    /// A decoded transaction is not an add-gateway transaction.
    InvalidTxnType,
}

impl DecodeError {
    /// The description each variant carries.
    pub open spec fn spec_message(&self) -> Seq<char> {
        match self {
            DecodeError::InvalidUrl(s) => "invalid url: \""@ + s@ + "\""@,
            DecodeError::InvalidDeviceUrl(s) => "invalid device url: \""@ + s@ + "\""@,
            DecodeError::InvalidDeviceUrlArgument(s) => "invalid device url argument: \""@ + s@
                + "\""@,
            DecodeError::InvalidTransaction(s) => "invalid transaction: \""@ + s@ + "\""@,
        }
    }

    /// A human-readable description, mirroring the wording the errors carry
    /// on the command line.
    pub fn message(&self) -> (r: String)
        ensures
            r@ == self.spec_message(),
    {
        match self {
            DecodeError::InvalidUrl(s) => {
                let mut m = String::from_str("invalid url: \"");
                m.append(s.as_str());
                m.append("\"");
                m
            },
            DecodeError::InvalidDeviceUrl(s) => {
                let mut m = String::from_str("invalid device url: \"");
                m.append(s.as_str());
                m.append("\"");
                m
            },
            DecodeError::InvalidDeviceUrlArgument(s) => {
                let mut m = String::from_str("invalid device url argument: \"");
                m.append(s.as_str());
                m.append("\"");
                m
            },
            DecodeError::InvalidTransaction(s) => {
                let mut m = String::from_str("invalid transaction: \"");
                m.append(s.as_str());
                m.append("\"");
                m
            },
        }
    }
}

impl Error {
    /// The description each variant carries.
    pub open spec fn spec_message(&self) -> Seq<char> {
        match self {
            Error::Decode(e) => e.spec_message(),
            Error::Crypto(s) => "crypto error: "@ + s@,
            Error::CreateNotSupported => "keypair creation not supported"@,
            Error::InvalidTxnType => "invalid transaction type"@,
        }
    }

    /// A human-readable description of the error.
    pub fn message(&self) -> (r: String)
        ensures
            r@ == self.spec_message(),
    {
        match self {
            Error::Decode(e) => e.message(),
            Error::Crypto(s) => {
                let mut m = String::from_str("crypto error: ");
                m.append(s.as_str());
                m
            },
            Error::CreateNotSupported => String::from_str("keypair creation not supported"),
            Error::InvalidTxnType => String::from_str("invalid transaction type"),
        }
    }
}

} // verus!
