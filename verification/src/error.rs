//! The error type shared by every component.

use vstd::prelude::*;
use vstd::string::*;

verus! {

/// What can go wrong in the pairing and synchronisation protocol. Each variant
/// carries a human-readable detail.
#[derive(Debug, Clone, PartialEq, Eq)]
pub enum Error {
    /// Signing, verification or authenticated encryption failed.
    Crypto(String),
    /// A structured payload was malformed.
    Serialization(String),
    /// The transport failed: connect, read or write.
    Network(String),
    /// Advertising or browsing for peers failed.
    Discovery(String),
    /// The platform clipboard could not be accessed.
    Clipboard(String),
    /// A frame, a pairing URL or a handshake message was not acceptable.
    InvalidMessage(String),
    /// An operation needed an active pairing session and there was none.
    NotPaired(String),
    /// An input or output operation failed.
    Io(String),
}

impl Error {
    /// The fixed words that introduce the detail of each kind of error.
    pub open spec fn label(self) -> Seq<char> {
        match self {
            Error::Crypto(_) => "Cryptographic operation failed: "@,
            Error::Serialization(_) => "Failed to serialize/deserialize: "@,
            Error::Network(_) => "Network error: "@,
            Error::Discovery(_) => "Discovery error: "@,
            Error::Clipboard(_) => "Clipboard error: "@,
            Error::InvalidMessage(_) => "Invalid message: "@,
            Error::NotPaired(_) => "Device not paired: "@,
            Error::Io(_) => "IO error: "@,
        }
    }

    /// The detail carried by the error.
    pub open spec fn detail(self) -> Seq<char> {
        match self {
            Error::Crypto(m) => m@,
            Error::Serialization(m) => m@,
            Error::Network(m) => m@,
            Error::Discovery(m) => m@,
            Error::Clipboard(m) => m@,
            Error::InvalidMessage(m) => m@,
            Error::NotPaired(m) => m@,
            Error::Io(m) => m@,
        }
    }

    /// The full text shown for the error: label, then detail.
    pub open spec fn text(self) -> Seq<char> {
        self.label() + self.detail()
    }

    /// Renders the error for display.
    pub fn message(&self) -> (s: String)
        ensures
            s@ == self.text(),
    {
        match self {
            Error::Crypto(m) => String::from_str("Cryptographic operation failed: ").concat(
                m.as_str(),
            ),
            Error::Serialization(m) => String::from_str("Failed to serialize/deserialize: ").concat(
                m.as_str(),
            ),
            Error::Network(m) => String::from_str("Network error: ").concat(m.as_str()),
            Error::Discovery(m) => String::from_str("Discovery error: ").concat(m.as_str()),
            Error::Clipboard(m) => String::from_str("Clipboard error: ").concat(m.as_str()),
            Error::InvalidMessage(m) => String::from_str("Invalid message: ").concat(m.as_str()),
            Error::NotPaired(m) => String::from_str("Device not paired: ").concat(m.as_str()),
            Error::Io(m) => String::from_str("IO error: ").concat(m.as_str()),
        }
    }
}

} // verus!
