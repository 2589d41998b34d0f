//! The pairing handshake.
//!
//! The device that shows the pairing code is the responder; the device that
//! scans it is the requester.
//!
//! 1. The requester reads the session id and the responder's ephemeral
//!    public key from the code and sends a request with its own ephemeral
//!    public key.
//! 2. The responder tests the request against its active session, derives
//!    the session key, and answers with an acceptance that it signs, with
//!    its long-term identity key, over the session id and both ephemeral
//!    keys.
//! 3. The requester tests the acceptance against the code and the
//!    signature, and derives the session key.
//!
//! Both arrive at the same session key.

use vstd::prelude::*;
use vstd::string::*;

use crate::crypto::encryption::derived_key;
use crate::crypto::keys::{
    ed25519_accepts, ed25519_public_key, ed25519_signature, x25519_public_key,
    x25519_shared_secret,
};
use crate::error::Error;
use crate::protocol::grammar::QrFields;
use crate::protocol::pairing::{pairing_transcript, transcript};
use crate::protocol::{PairAcceptMessage, PairRequestMessage, PairingQrData, PairingSession};
use crate::sync::server::PairedDevice;
use crate::text::same_bytes;
use crate::DeviceIdentity;

verus! {

/// The request that a device with a given identity and ephemeral key pair
/// makes for the session of a pairing code.
pub open spec fn is_request(
    request: PairRequestMessage,
    scanned: QrFields,
    session: PairingSession,
    identity: DeviceIdentity,
) -> bool {
    &&& request.session_id == scanned.session_id
    &&& request.device_id == identity.id
    &&& request.device_name == identity.name
    &&& request.ephemeral_pubkey == session.ephemeral_public
    &&& request.identity_pubkey@ == ed25519_public_key(identity.signing_key@)
}

/// Makes the request that answers a pairing code. The session holds the
/// requester's ephemeral key pair; the pairing is concluded with it.
pub fn request_pairing(
    scanned: &PairingQrData,
    session: &PairingSession,
    identity: &DeviceIdentity,
) -> (request: PairRequestMessage)
    ensures
        is_request(request, scanned@, *session, *identity),
{
    PairRequestMessage {
        session_id: scanned.session_id,
        device_id: identity.id,
        device_name: identity.name.clone(),
        ephemeral_pubkey: session.ephemeral_public,
        identity_pubkey: identity.signing_key.verifying_key(),
    }
}

/// The acceptance that answers a request in a session, signed with the
/// identity key over the transcript of the exchange.
pub open spec fn is_acceptance(
    accept: PairAcceptMessage,
    request: PairRequestMessage,
    session: PairingSession,
    identity: DeviceIdentity,
) -> bool {
    &&& accept.session_id == request.session_id
    &&& accept.device_id == identity.id
    &&& accept.device_name == identity.name
    &&& accept.ephemeral_pubkey == session.ephemeral_public
    &&& accept.identity_pubkey@ == ed25519_public_key(identity.signing_key@)
    &&& accept.signature@ == ed25519_signature(
        identity.signing_key@,
        transcript(request.session_id, session.ephemeral_public@, request.ephemeral_pubkey@),
    )
    &&& accept.signature@.len() == 64
    &&& ed25519_accepts(
        accept.identity_pubkey@,
        transcript(request.session_id, session.ephemeral_public@, request.ephemeral_pubkey@),
        accept.signature@,
    )
}

/// The registry entry for the device that made a request in a session. Its
/// session key is derived from the secret of the exchange, and it is the key
/// that the requester derives from its own secret and the session's public
/// key.
pub open spec fn is_pairing_of(
    device: PairedDevice,
    request: PairRequestMessage,
    session: PairingSession,
    now: u64,
) -> bool {
    &&& device.device_id == request.device_id
    &&& device.device_name == request.device_name
    &&& device.session_key@ == derived_key(
        x25519_shared_secret(session.ephemeral_secret@, request.ephemeral_pubkey@),
    )
    &&& forall|theirs: Seq<u8>|
        theirs.len() == 32 && request.ephemeral_pubkey@ == #[trigger] x25519_public_key(theirs)
            ==> device.session_key@ == derived_key(
            x25519_shared_secret(theirs, x25519_public_key(session.ephemeral_secret@)),
        )
    &&& device.last_seen == now
}

/// What answering a pairing request does to the active session, and what
/// comes of it.
///
/// - Without an active session the request fails, as not paired.
/// - A request for another session than the active one fails, as an invalid
///   message, and the active session stays as it was.
/// - A request for the active session uses the session up and yields the
///   acceptance to send and the device to register.
pub open spec fn pairing_answered(
    request: PairRequestMessage,
    before: Option<PairingSession>,
    after: Option<PairingSession>,
    identity: DeviceIdentity,
    now: u64,
    r: Result<(PairAcceptMessage, PairedDevice), Error>,
) -> bool {
    match before {
        None => r matches Err(Error::NotPaired(detail)) && detail@ == "no active pairing session"@
            && after == before,
        Some(session) => if session.session_id != request.session_id {
            r matches Err(Error::InvalidMessage(detail)) && detail@ == "session ID mismatch"@
                && after == before
        } else {
            r matches Ok((accept, device)) && is_acceptance(accept, request, session, identity)
                && is_pairing_of(device, request, session, now) && after is None
        },
    }
}

/// Answers a pairing request against the active session.
pub fn accept_pairing(
    request: &PairRequestMessage,
    active_pairing: &mut Option<PairingSession>,
    identity: &DeviceIdentity,
    now: u64,
) -> (r: Result<(PairAcceptMessage, PairedDevice), Error>)
    ensures
        pairing_answered(*request, *old(active_pairing), *final(active_pairing), *identity, now, r),
{
    let session = match active_pairing.take() {
        Some(session) => session,
        None => {
            return Err(Error::NotPaired(String::from_str("no active pairing session")));
        },
    };
    if request.session_id != session.session_id {
        *active_pairing = Some(session);
        return Err(Error::InvalidMessage(String::from_str("session ID mismatch")));
    }
    let our_ephemeral_pubkey = session.ephemeral_public;
    let data = pairing_transcript(
        request.session_id,
        &our_ephemeral_pubkey,
        &request.ephemeral_pubkey,
    );
    let session_key = session.complete(&request.ephemeral_pubkey);
    let signature = identity.signing_key.sign(data.as_slice());
    let accept = PairAcceptMessage {
        session_id: request.session_id,
        device_id: identity.id,
        device_name: identity.name.clone(),
        ephemeral_pubkey: our_ephemeral_pubkey,
        identity_pubkey: identity.signing_key.verifying_key(),
        signature,
    };
    let device = PairedDevice {
        device_id: request.device_id,
        device_name: request.device_name.clone(),
        session_key,
        last_seen: now,
    };
    Ok((accept, device))
}

/// Why an acceptance does not conclude a pairing.
pub enum AcceptanceFault {
    /// The acceptance is for another session than the code.
    SessionMismatch,
    /// The acceptance carries another ephemeral key than the code.
    KeyMismatch,
    /// The signature is not one of the responder's identity key over the
    /// session id and both ephemeral keys.
    BadSignature,
}

/// The first fault of an acceptance for a requester that scanned a code and
/// sent its own ephemeral public key, if there is one.
pub open spec fn acceptance_fault(
    accept: PairAcceptMessage,
    scanned: QrFields,
    own_public: Seq<u8>,
) -> Option<AcceptanceFault> {
    if accept.session_id != scanned.session_id {
        Some(AcceptanceFault::SessionMismatch)
    } else if accept.ephemeral_pubkey@ != scanned.pubkey {
        Some(AcceptanceFault::KeyMismatch)
    } else if !(accept.signature@.len() == 64 && ed25519_accepts(
        accept.identity_pubkey@,
        transcript(accept.session_id, accept.ephemeral_pubkey@, own_public),
        accept.signature@,
    )) {
        Some(AcceptanceFault::BadSignature)
    } else {
        None
    }
}

/// The registry entry for the device that accepted a pairing, as the
/// requester makes it. Its session key is derived from the secret of the
/// exchange, and it is the key that the responder derives from its own
/// secret and the requester's public key.
pub open spec fn is_conclusion(
    device: PairedDevice,
    accept: PairAcceptMessage,
    session: PairingSession,
    now: u64,
) -> bool {
    &&& device.device_id == accept.device_id
    &&& device.device_name == accept.device_name
    &&& device.session_key@ == derived_key(
        x25519_shared_secret(session.ephemeral_secret@, accept.ephemeral_pubkey@),
    )
    &&& forall|theirs: Seq<u8>|
        theirs.len() == 32 && accept.ephemeral_pubkey@ == #[trigger] x25519_public_key(theirs)
            ==> device.session_key@ == derived_key(
            x25519_shared_secret(theirs, x25519_public_key(session.ephemeral_secret@)),
        )
    &&& device.last_seen == now
}

/// Concludes a pairing on the requester's side: tests the acceptance
/// against the code that was scanned and against its signature, and derives
/// the session key. The session, which holds the requester's ephemeral key
/// pair, is used up.
pub fn conclude_pairing(
    accept: &PairAcceptMessage,
    scanned: &PairingQrData,
    session: PairingSession,
    now: u64,
) -> (r: Result<PairedDevice, Error>)
    ensures
        match acceptance_fault(*accept, scanned@, session.ephemeral_public@) {
            None => r matches Ok(device) && is_conclusion(device, *accept, session, now),
            Some(AcceptanceFault::SessionMismatch) => r matches Err(Error::InvalidMessage(detail))
                && detail@ == "session ID mismatch"@,
            Some(AcceptanceFault::KeyMismatch) => r matches Err(Error::InvalidMessage(detail))
                && detail@ == "ephemeral key mismatch"@,
            Some(AcceptanceFault::BadSignature) => r matches Err(e) && e is Crypto,
        },
{
    if accept.session_id != scanned.session_id {
        return Err(Error::InvalidMessage(String::from_str("session ID mismatch")));
    }
    let their_public = accept.ephemeral_pubkey.to_bytes();
    if !same_bytes(their_public.as_slice(), scanned.pubkey.as_slice()) {
        return Err(Error::InvalidMessage(String::from_str("ephemeral key mismatch")));
    }
    let data = pairing_transcript(
        accept.session_id,
        &accept.ephemeral_pubkey,
        &session.ephemeral_public,
    );
    match accept.identity_pubkey.verify(data.as_slice(), accept.signature.as_slice()) {
        Ok(()) => {},
        Err(e) => {
            return Err(e);
        },
    }
    let session_key = session.complete(&accept.ephemeral_pubkey);
    Ok(
        PairedDevice {
            device_id: accept.device_id,
            device_name: accept.device_name.clone(),
            session_key,
            last_seen: now,
        },
    )
}

/// A genuine acceptance concludes the pairing: the acceptance that a
/// responder makes for the request of a requester who scanned the
/// responder's code has no fault.
pub proof fn lemma_genuine_acceptance_fits(
    scanned: QrFields,
    request: PairRequestMessage,
    accept: PairAcceptMessage,
    responder_session: PairingSession,
    responder_identity: DeviceIdentity,
)
    requires
        scanned.session_id == responder_session.session_id,
        scanned.pubkey == responder_session.ephemeral_public@,
        request.session_id == scanned.session_id,
        is_acceptance(accept, request, responder_session, responder_identity),
    ensures
        acceptance_fault(accept, scanned, request.ephemeral_pubkey@) is None,
{
}

/// Both sides of a handshake arrive at the same session key, and each
/// registers the other.
pub proof fn lemma_handshake_agrees(
    request: PairRequestMessage,
    accept: PairAcceptMessage,
    requester_session: PairingSession,
    requester_identity: DeviceIdentity,
    responder_session: PairingSession,
    responder_identity: DeviceIdentity,
    at_responder: PairedDevice,
    at_requester: PairedDevice,
    scanned: QrFields,
    responder_now: u64,
    requester_now: u64,
)
    requires
        requester_session.wf(),
        responder_session.wf(),
        is_request(request, scanned, requester_session, requester_identity),
        is_acceptance(accept, request, responder_session, responder_identity),
        is_pairing_of(at_responder, request, responder_session, responder_now),
        is_conclusion(at_requester, accept, requester_session, requester_now),
    ensures
        at_responder.session_key@ == at_requester.session_key@,
        at_responder.device_id == requester_identity.id,
        at_responder.device_name == requester_identity.name,
        at_requester.device_id == responder_identity.id,
        at_requester.device_name == responder_identity.name,
{
    requester_session.ephemeral_secret.lemma_len();
    responder_session.ephemeral_secret.lemma_len();
}

} // verus!
