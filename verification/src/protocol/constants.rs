//! Protocol-level constants shared by every component.

use vstd::prelude::*;

verus! {

/// Default TCP port of the sync server.
pub const DEFAULT_PORT: u16 = 17394;

/// Service type under which devices advertise themselves on the network.
pub const SERVICE_TYPE: &'static str = "_omniclip._tcp.local.";

/// Scheme and path with which every pairing URL begins.
pub const PAIRING_URL_SCHEME: &'static str = "omniclip://pair";

/// Largest payload, in bytes, that one frame may carry (10 MiB).
pub const MAX_MESSAGE_SIZE: usize = 10485760;

/// Domain-separation label of the session-key derivation: the ASCII text
/// `omniclip-session-key`.
pub const SESSION_KEY_INFO: [u8; 20] = [
    111, 109, 110, 105, 99, 108, 105, 112, 45, 115, 101, 115, 115, 105, 111, 110, 45, 107, 101, 121,
];

/// Tag that opens the hash input of plain text: the ASCII text `text:`.
pub const TEXT_TAG: [u8; 5] = [116, 101, 120, 116, 58];

/// Tag that opens the hash input of rich text: the ASCII text `rich:`.
pub const RICH_TAG: [u8; 5] = [114, 105, 99, 104, 58];

/// Version of the wire protocol announced to peers.
pub const PROTOCOL_VERSION: u16 = 1;

/// Interval between two looks at the clipboard, in milliseconds.
pub const CLIPBOARD_POLL_INTERVAL_MS: u64 = 500;

} // verus!
