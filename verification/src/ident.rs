//! Identifiers of devices, pairing sessions and messages.
//!
//! An identifier is a UUID, held as the 128-bit number that its sixteen bytes
//! spell most significant first.

use uuid::Uuid;
use vstd::prelude::*;

use crate::text::be_bytes;

verus! {

/// The sixteen bytes of an identifier.
pub open spec fn id_bytes(id: u128) -> Seq<u8> {
    be_bytes(id as nat, 16)
}

/// `Uuid::new_v4` of the `uuid` crate: a fresh random identifier. Nothing is
/// claimed of its value.
#[verifier::external_body]
pub(crate) fn fresh_id() -> (id: u128) {
    Uuid::new_v4().as_u128()
}

/// The sixteen bytes of an identifier, as they enter a signed transcript.
pub fn id_to_bytes(id: u128) -> (bytes: [u8; 16])
    ensures
        bytes@ == id_bytes(id),
{
    let mut bytes = [0u8; 16];
    let mut rest: u128 = id;
    let mut i: usize = 16;
    while i > 0
        invariant
            i <= 16,
            id_bytes(id) =~= be_bytes(rest as nat, i as nat) + bytes@.subrange(i as int, 16),
        decreases i,
    {
        i -= 1;
        bytes[i] = (rest % 256) as u8;
        rest = rest / 256;
    }
    bytes
}

} // verus!
