//! Peer synchronisation: framing, the pairing handshake, connection handling
//! and the paired-device registry.

pub mod framing;
pub mod handshake;
pub mod server;

pub use framing::{read_framed_message, write_framed_message};
pub use server::{ConnectionAction, PairedDevice, SyncEvent, SyncServer};
