//! Cryptographic building blocks.
//!
//! - Ed25519 signatures bind a device to its long-term identity.
//! - X25519 key exchange agrees on a secret for each pairing.
//! - AES-256-GCM encrypts what two paired devices send each other.

pub mod digest;
pub mod encoding;
pub mod encryption;
pub mod keys;

pub use encryption::{EncryptedPayload, SessionKey};
pub use keys::{EphemeralSecret, PublicKey, SharedSecret, SigningKey, VerifyingKey};
