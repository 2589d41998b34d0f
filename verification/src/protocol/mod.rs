//! Protocol vocabulary: constants, messages and the pairing handshake.

pub mod constants;
pub mod grammar;
pub mod messages;
pub mod pairing;
pub mod qr;
pub mod url;

pub use messages::{
    AnnounceMessage, ClipboardContent, ClipboardSyncMessage, ContentHash, Message,
    PairAcceptMessage, PairRequestMessage,
};
pub use pairing::{PairingQrData, PairingSession};
