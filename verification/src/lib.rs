//! Secure pairing and encrypted clipboard synchronisation between devices on a
//! local network.
//!
//! Two devices pair through a QR code: one shows a pairing URL, the other
//! answers with a request, both derive the same session key from an X25519
//! exchange, and the first signs the exchange with its long-term identity.
//! After that, clipboard content travels between them encrypted under the
//! session key, in frames with a length prefix.
//!
//! The library decides and computes; it neither reads nor writes a socket,
//! a clipboard or a clock. Its functions take what was read and say what is
//! to be done:
//!
//! - [`crypto`]: keys, signatures, key exchange, encryption, base64 text.
//! - [`protocol`]: messages, content hashes, pairing sessions, the pairing
//!   URL and its QR code.
//! - [`sync`]: framing, the pairing handshake, the registry of paired
//!   devices, the answer to a message that a connection brings.
//! - [`service`]: the state of a running service and its reaction to every
//!   event.
//! - [`discovery`]: the peers found on the network.
//! - [`clipboard`]: change detection for the clipboard.
//!
//! Every function states in its contract what it returns and changes, and
//! the contracts are proved. What other crates compute (digests, signatures,
//! ciphertexts, base64 text) is taken on trust, under a name or as stated at
//! the function that makes the call.

use vstd::prelude::*;
use vstd::string::*;

pub mod clipboard;
pub mod crypto;
pub mod discovery;
pub mod error;
pub mod ident;
pub mod protocol;
pub mod service;
pub mod sync;
pub mod text;

pub use crypto::{EncryptedPayload, SessionKey};
pub use discovery::PeerInfo;
pub use error::Error;
pub use protocol::{ClipboardContent, Message};
pub use service::{OmniclipService, ServiceEvent};

verus! {

/// The identity of a device: its id, its name and its long-term signing key.
pub struct DeviceIdentity {
    pub id: u128,
    pub name: String,
    pub signing_key: crypto::SigningKey,
}

impl Clone for DeviceIdentity {
    fn clone(&self) -> (copy: Self)
        ensures
            copy == *self,
    {
        DeviceIdentity {
            id: self.id,
            name: self.name.clone(),
            signing_key: self.signing_key.clone(),
        }
    }
}

impl DeviceIdentity {
    /// A new identity with a fresh id and a fresh signing key.
    pub fn new(name: String) -> (identity: Self)
        ensures
            identity.name == name,
    {
        DeviceIdentity { id: ident::fresh_id(), name, signing_key: crypto::SigningKey::generate() }
    }

    /// The fingerprint of the public identity key, for display and
    /// comparison: twelve characters.
    pub fn fingerprint(&self) -> (text: String)
        ensures
            text@ == crypto::keys::fingerprint_text(
                crypto::keys::ed25519_public_key(self.signing_key@),
            ),
            text@.len() == crypto::keys::FINGERPRINT_LEN,
    {
        self.signing_key.public_key_fingerprint()
    }
}

/// Settings of the service.
#[derive(Debug, Clone)]
pub struct Config {
    /// Port to listen on for incoming connections.
    pub port: u16,
    /// Service type to advertise and browse for.
    pub service_name: String,
    /// Directory for persistent data.
    pub data_dir: String,
}

impl Config {
    /// The default settings, with persistent data under `data_dir`.
    pub fn new(data_dir: String) -> (config: Self)
        ensures
            config.port == protocol::constants::DEFAULT_PORT,
            config.service_name@ == protocol::constants::SERVICE_TYPE@,
            config.data_dir == data_dir,
    {
        Config {
            port: protocol::constants::DEFAULT_PORT,
            service_name: String::from_str(protocol::constants::SERVICE_TYPE),
            data_dir,
        }
    }
}

} // verus!
