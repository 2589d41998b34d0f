use omniclip_core::crypto::{EncryptedPayload, SessionKey};
use omniclip_core::protocol::messages::AnnounceMessage;
use omniclip_core::protocol::pairing::pairing_transcript;
use omniclip_core::protocol::{
    ClipboardSyncMessage, ContentHash, Message, PairRequestMessage, PairingQrData, PairingSession,
};
use omniclip_core::sync::handshake::{accept_pairing, conclude_pairing, request_pairing};
use omniclip_core::sync::{ConnectionAction, PairedDevice, SyncEvent, SyncServer};
use omniclip_core::{DeviceIdentity, Error};

fn device(id: u128, name: &str) -> PairedDevice {
    PairedDevice {
        device_id: id,
        device_name: name.to_string(),
        session_key: SessionKey::from_bytes(&[id as u8; 32]),
        last_seen: 0,
    }
}

fn request_for(session_id: u128, requester: &DeviceIdentity, ephemeral: &PairingSession) -> PairRequestMessage {
    PairRequestMessage {
        session_id,
        device_id: requester.id,
        device_name: requester.name.clone(),
        ephemeral_pubkey: ephemeral.ephemeral_public,
        identity_pubkey: requester.signing_key.verifying_key(),
    }
}

fn sync_from(sender_id: u128) -> ClipboardSyncMessage {
    ClipboardSyncMessage {
        message_id: 1,
        sender_id,
        content_hash: ContentHash([0u8; 32]),
        encrypted_content: EncryptedPayload {
            nonce: [0u8; 12],
            ciphertext: vec![1, 2, 3],
        },
        timestamp: 5,
    }
}

#[test]
fn new_server_has_no_devices() {
    let server = SyncServer::new(17394);
    assert_eq!(server.port(), 17394);
    assert!(server.get_paired_devices().is_empty());
    assert!(server.paired_device(1).is_none());
}

#[test]
fn devices_are_registered_by_id() {
    let mut server = SyncServer::new(0);
    server.add_paired_device(device(1, "one"));
    server.add_paired_device(device(2, "two"));
    assert_eq!(server.paired_device(1).unwrap().device_name, "one");
    assert_eq!(server.paired_device(2).unwrap().device_name, "two");
    assert!(server.paired_device(3).is_none());

    let mut ids: Vec<u128> = server.get_paired_devices().iter().map(|d| d.device_id).collect();
    ids.sort();
    assert_eq!(ids, vec![1, 2]);
    assert_eq!(server.port(), 0);
}

#[test]
fn device_with_the_same_id_is_replaced() {
    let mut server = SyncServer::new(0);
    server.add_paired_device(device(1, "old"));
    server.add_paired_device(device(1, "new"));
    let all = server.get_paired_devices();
    assert_eq!(all.len(), 1);
    assert_eq!(all[0].device_name, "new");
}

#[test]
fn device_is_removed() {
    let mut server = SyncServer::new(0);
    server.add_paired_device(device(1, "one"));
    server.add_paired_device(device(2, "two"));
    server.remove_paired_device(&1);
    assert!(server.paired_device(1).is_none());
    assert!(server.paired_device(2).is_some());
    // Removing a device that is not there changes nothing.
    server.remove_paired_device(&9);
    assert_eq!(server.get_paired_devices().len(), 1);
}

#[test]
fn paired_device_clone_is_the_same_device() {
    let d = device(7, "seven");
    let copy = d.clone();
    assert_eq!(copy.device_id, 7);
    assert_eq!(copy.device_name, "seven");
    assert_eq!(copy.last_seen, 0);
    let payload = d.session_key.encrypt(b"x").unwrap();
    assert_eq!(copy.session_key.decrypt(&payload).unwrap(), b"x");
}

#[test]
fn confirming_a_pairing_registers_and_reports_the_device() {
    let mut server = SyncServer::new(0);
    let event = server.confirm_pairing(device(4, "four"));
    assert!(matches!(event, SyncEvent::DevicePaired { ref device } if device.device_id == 4));
    assert_eq!(server.paired_device(4).unwrap().device_name, "four");
}

#[test]
fn request_without_active_session_is_not_paired() {
    let identity = DeviceIdentity::new("A".to_string());
    let requester = DeviceIdentity::new("B".to_string());
    let ephemeral = PairingSession::new();
    let mut slot: Option<PairingSession> = None;
    let result = accept_pairing(&request_for(1, &requester, &ephemeral), &mut slot, &identity, 0);
    assert_eq!(
        result.err(),
        Some(Error::NotPaired("no active pairing session".to_string()))
    );
    assert!(slot.is_none());
}

#[test]
fn request_for_another_session_keeps_the_active_one() {
    let identity = DeviceIdentity::new("A".to_string());
    let requester = DeviceIdentity::new("B".to_string());
    let ephemeral = PairingSession::new();
    let session = PairingSession::new();
    let session_id = session.session_id;
    let public = session.ephemeral_public.to_bytes();
    let mut slot = Some(session);

    let stale = request_for(session_id.wrapping_add(1), &requester, &ephemeral);
    let result = accept_pairing(&stale, &mut slot, &identity, 0);
    assert_eq!(
        result.err(),
        Some(Error::InvalidMessage("session ID mismatch".to_string()))
    );
    let kept = slot.as_ref().unwrap();
    assert_eq!(kept.session_id, session_id);
    assert_eq!(kept.ephemeral_public.to_bytes(), public);

    // The session is still good for the right request.
    let right = request_for(session_id, &requester, &ephemeral);
    assert!(accept_pairing(&right, &mut slot, &identity, 0).is_ok());
    assert!(slot.is_none());
}

#[test]
fn request_for_the_active_session_is_accepted() {
    let identity = DeviceIdentity::new("A".to_string());
    let requester = DeviceIdentity::new("B".to_string());
    let theirs = PairingSession::new();
    let their_public = theirs.ephemeral_public;
    let session = PairingSession::new();
    let session_id = session.session_id;
    let our_public = session.ephemeral_public;
    let mut slot = Some(session);

    let request = request_for(session_id, &requester, &theirs);
    let (accept, paired) = accept_pairing(&request, &mut slot, &identity, 77).unwrap();
    assert!(slot.is_none());

    assert_eq!(accept.session_id, session_id);
    assert_eq!(accept.device_id, identity.id);
    assert_eq!(accept.device_name, "A");
    assert_eq!(accept.ephemeral_pubkey.to_bytes(), our_public.to_bytes());
    assert_eq!(
        accept.identity_pubkey.to_bytes(),
        identity.signing_key.verifying_key().to_bytes()
    );
    let transcript = pairing_transcript(session_id, &our_public, &their_public);
    assert!(accept.identity_pubkey.verify(&transcript, &accept.signature).is_ok());

    assert_eq!(paired.device_id, requester.id);
    assert_eq!(paired.device_name, "B");
    assert_eq!(paired.last_seen, 77);

    // The requester derives the same key from the acceptance.
    let their_key = theirs.complete(&accept.ephemeral_pubkey);
    let payload = paired.session_key.encrypt(b"hello").unwrap();
    assert_eq!(their_key.decrypt(&payload).unwrap(), b"hello");
}

#[test]
fn session_is_used_once() {
    let identity = DeviceIdentity::new("A".to_string());
    let requester = DeviceIdentity::new("B".to_string());
    let theirs = PairingSession::new();
    let session = PairingSession::new();
    let session_id = session.session_id;
    let mut slot = Some(session);
    let request = request_for(session_id, &requester, &theirs);
    assert!(accept_pairing(&request, &mut slot, &identity, 0).is_ok());
    assert_eq!(
        accept_pairing(&request, &mut slot, &identity, 0).err(),
        Some(Error::NotPaired("no active pairing session".to_string()))
    );
}

#[test]
fn handler_answers_a_pairing_request() {
    let server = SyncServer::new(0);
    let identity = DeviceIdentity::new("A".to_string());
    let requester = DeviceIdentity::new("B".to_string());
    let theirs = PairingSession::new();
    let session = PairingSession::new();
    let session_id = session.session_id;
    let mut slot = Some(session);
    let message = Message::PairRequest(request_for(session_id, &requester, &theirs));
    let action = server
        .handle_connection_with_pairing(message, &mut slot, &identity, 3)
        .ok()
        .unwrap();
    match action {
        ConnectionAction::Accept { accept, device } => {
            assert_eq!(accept.session_id, session_id);
            assert_eq!(device.device_id, requester.id);
            assert_eq!(device.last_seen, 3);
        }
        _ => panic!("no acceptance"),
    }
    // Nothing is registered before the acceptance is confirmed as sent.
    assert!(server.get_paired_devices().is_empty());
}

#[test]
fn handler_refuses_a_stale_pairing_request() {
    let server = SyncServer::new(0);
    let identity = DeviceIdentity::new("A".to_string());
    let requester = DeviceIdentity::new("B".to_string());
    let theirs = PairingSession::new();
    let session = PairingSession::new();
    let session_id = session.session_id;
    let mut slot = Some(session);
    let message = Message::PairRequest(request_for(session_id ^ 1, &requester, &theirs));
    let result = server.handle_connection_with_pairing(message, &mut slot, &identity, 3);
    assert_eq!(
        result.err(),
        Some(Error::InvalidMessage("session ID mismatch".to_string()))
    );
    assert_eq!(slot.unwrap().session_id, session_id);
}

#[test]
fn handler_forwards_content_of_a_paired_device() {
    let mut server = SyncServer::new(0);
    server.add_paired_device(device(42, "peer"));
    let identity = DeviceIdentity::new("A".to_string());
    let session = PairingSession::new();
    let session_id = session.session_id;
    let mut slot = Some(session);
    let action = server
        .handle_connection_with_pairing(Message::ClipboardSync(sync_from(42)), &mut slot, &identity, 0)
        .ok()
        .unwrap();
    match action {
        ConnectionAction::Forward(SyncEvent::MessageReceived {
            peer_id,
            message: Message::ClipboardSync(sync),
        }) => {
            assert_eq!(peer_id, 42);
            assert_eq!(sync.sender_id, 42);
            assert_eq!(sync.timestamp, 5);
            assert_eq!(sync.encrypted_content.ciphertext, vec![1, 2, 3]);
        }
        _ => panic!("not forwarded"),
    }
    // The active session is not touched.
    assert_eq!(slot.unwrap().session_id, session_id);
}

#[test]
fn handler_drops_content_of_an_unknown_device() {
    let mut server = SyncServer::new(0);
    server.add_paired_device(device(42, "peer"));
    let identity = DeviceIdentity::new("A".to_string());
    let mut slot = None;
    let action = server
        .handle_connection_with_pairing(Message::ClipboardSync(sync_from(43)), &mut slot, &identity, 0)
        .ok()
        .unwrap();
    assert!(matches!(action, ConnectionAction::UnknownSender { sender_id: 43 }));
}

#[test]
fn handler_ignores_other_messages() {
    let server = SyncServer::new(0);
    let identity = DeviceIdentity::new("A".to_string());
    let session = PairingSession::new();
    let session_id = session.session_id;
    let mut slot = Some(session);
    let others = vec![
        Message::Ping { timestamp: 1 },
        Message::Pong { timestamp: 2 },
        Message::Ack { message_id: 3 },
        Message::PairReject {
            session_id,
            reason: "no".to_string(),
        },
        Message::Announce(AnnounceMessage {
            device_id: 1,
            device_name: "Test Device".to_string(),
            pubkey_fingerprint: "abc123".to_string(),
            protocol_version: 1,
        }),
    ];
    for message in others {
        let action = server
            .handle_connection_with_pairing(message, &mut slot, &identity, 0)
            .ok()
            .unwrap();
        assert!(matches!(action, ConnectionAction::Ignore(_)));
    }
    assert_eq!(slot.unwrap().session_id, session_id);
}

#[test]
fn server_without_pairing_forwards_requests_only() {
    let requester = DeviceIdentity::new("B".to_string());
    let theirs = PairingSession::new();
    let request = request_for(9, &requester, &theirs);
    match SyncServer::handle_connection(Message::PairRequest(request)) {
        ConnectionAction::Forward(SyncEvent::MessageReceived {
            peer_id,
            message: Message::PairRequest(request),
        }) => {
            assert_eq!(peer_id, requester.id);
            assert_eq!(request.session_id, 9);
        }
        _ => panic!("not forwarded"),
    }
    assert!(matches!(
        SyncServer::handle_connection(Message::Ping { timestamp: 1 }),
        ConnectionAction::Ignore(Message::Ping { timestamp: 1 })
    ));
    assert!(matches!(
        SyncServer::handle_connection(Message::ClipboardSync(sync_from(1))),
        ConnectionAction::Ignore(Message::ClipboardSync(_))
    ));
}

#[test]
fn pairing_end_to_end() {
    // Device A starts pairing and shows a QR code.
    let identity_a = DeviceIdentity::new("A".to_string());
    let mut server_a = SyncServer::new(17394);
    let session = PairingSession::new();
    let session_id = session.session_id;
    let url = session.qr_data("192.168.1.10", 17394, &identity_a.name).to_url();
    let mut active = Some(session);

    // Device B scans it and sends a request for that session.
    let identity_b = DeviceIdentity::new("B".to_string());
    let mut server_b = SyncServer::new(17394);
    let scanned = PairingQrData::from_url(&url).unwrap();
    assert_eq!(scanned.session_id, session_id);
    let session_b = PairingSession::new();
    let request = request_pairing(&scanned, &session_b, &identity_b);

    // A stale request is refused and leaves the session usable.
    let stale = PairRequestMessage {
        session_id: session_id.wrapping_add(1),
        device_id: identity_b.id,
        device_name: identity_b.name.clone(),
        ephemeral_pubkey: session_b.ephemeral_public,
        identity_pubkey: identity_b.signing_key.verifying_key(),
    };
    let refused = server_a.handle_connection_with_pairing(Message::PairRequest(stale), &mut active, &identity_a, 1);
    assert_eq!(
        refused.err(),
        Some(Error::InvalidMessage("session ID mismatch".to_string()))
    );
    assert!(active.is_some());

    // A answers the right request and registers B once the answer is sent.
    let action = server_a
        .handle_connection_with_pairing(Message::PairRequest(request), &mut active, &identity_a, 2)
        .ok()
        .unwrap();
    let (accept, device_b) = match action {
        ConnectionAction::Accept { accept, device } => (accept, device),
        _ => panic!("no acceptance"),
    };
    let event = server_a.confirm_pairing(device_b);
    assert!(matches!(event, SyncEvent::DevicePaired { ref device } if device.device_id == identity_b.id));

    // B checks the acceptance against the code it scanned and registers A.
    let device_a = conclude_pairing(&accept, &scanned, session_b, 2).unwrap();
    server_b.add_paired_device(device_a);

    // Both hold an entry for each other, with the same key.
    let entry_a = server_a.paired_device(identity_b.id).unwrap();
    let entry_b = server_b.paired_device(identity_a.id).unwrap();
    assert_eq!(entry_a.device_name, "B");
    assert_eq!(entry_b.device_name, "A");
    let payload = entry_a.session_key.encrypt(b"hello").unwrap();
    assert_eq!(entry_b.session_key.decrypt(&payload).unwrap(), b"hello");
}

fn handshake() -> (
    DeviceIdentity,
    DeviceIdentity,
    PairingQrData,
    PairingSession,
    omniclip_core::protocol::PairAcceptMessage,
    PairedDevice,
) {
    let responder = DeviceIdentity::new("A".to_string());
    let requester = DeviceIdentity::new("B".to_string());
    let session = PairingSession::new();
    let scanned = PairingQrData::from_url(&session.qr_data("10.0.0.1", 17394, "A").to_url()).unwrap();
    let theirs = PairingSession::new();
    let request = request_pairing(&scanned, &theirs, &requester);
    let mut slot = Some(session);
    let (accept, device) = accept_pairing(&request, &mut slot, &responder, 5).unwrap();
    (responder, requester, scanned, theirs, accept, device)
}

#[test]
fn request_answers_the_scanned_code() {
    let requester = DeviceIdentity::new("B".to_string());
    let session = PairingSession::new();
    let scanned = PairingQrData::from_url(&session.qr_data("10.0.0.1", 17394, "A").to_url()).unwrap();
    let theirs = PairingSession::new();
    let request = request_pairing(&scanned, &theirs, &requester);
    assert_eq!(request.session_id, session.session_id);
    assert_eq!(request.device_id, requester.id);
    assert_eq!(request.device_name, "B");
    assert_eq!(request.ephemeral_pubkey.to_bytes(), theirs.ephemeral_public.to_bytes());
    assert_eq!(
        request.identity_pubkey.to_bytes(),
        requester.signing_key.verifying_key().to_bytes()
    );
}

#[test]
fn genuine_acceptance_concludes_the_pairing() {
    let (responder, requester, scanned, theirs, accept, at_responder) = handshake();
    let at_requester = conclude_pairing(&accept, &scanned, theirs, 9).unwrap();
    assert_eq!(at_requester.device_id, responder.id);
    assert_eq!(at_requester.device_name, "A");
    assert_eq!(at_requester.last_seen, 9);
    assert_eq!(at_responder.device_id, requester.id);
    assert_eq!(at_responder.device_name, "B");
    // Both hold the same session key.
    let payload = at_responder.session_key.encrypt(b"hello").unwrap();
    assert_eq!(at_requester.session_key.decrypt(&payload).unwrap(), b"hello");
    let payload = at_requester.session_key.encrypt(b"world").unwrap();
    assert_eq!(at_responder.session_key.decrypt(&payload).unwrap(), b"world");
}

#[test]
fn acceptance_for_another_session_does_not_conclude() {
    let (_, _, scanned, theirs, mut accept, _) = handshake();
    accept.session_id ^= 1;
    assert_eq!(
        conclude_pairing(&accept, &scanned, theirs, 0).err(),
        Some(Error::InvalidMessage("session ID mismatch".to_string()))
    );
}

#[test]
fn acceptance_with_another_key_does_not_conclude() {
    let (_, _, scanned, theirs, mut accept, _) = handshake();
    accept.ephemeral_pubkey = PairingSession::new().ephemeral_public;
    assert_eq!(
        conclude_pairing(&accept, &scanned, theirs, 0).err(),
        Some(Error::InvalidMessage("ephemeral key mismatch".to_string()))
    );
}

#[test]
fn acceptance_with_a_bad_signature_does_not_conclude() {
    let (_, _, scanned, theirs, mut accept, _) = handshake();
    accept.signature[10] ^= 1;
    assert!(matches!(
        conclude_pairing(&accept, &scanned, theirs, 0),
        Err(Error::Crypto(_))
    ));

    let (_, _, scanned, theirs, mut accept, _) = handshake();
    accept.signature.pop();
    assert_eq!(
        conclude_pairing(&accept, &scanned, theirs, 0).err(),
        Some(Error::Crypto("invalid signature length".to_string()))
    );
}

#[test]
fn acceptance_signed_by_another_identity_does_not_conclude() {
    let (_, _, scanned, theirs, mut accept, _) = handshake();
    // Someone else claims the acceptance as theirs.
    accept.identity_pubkey = DeviceIdentity::new("M".to_string()).signing_key.verifying_key();
    assert!(matches!(
        conclude_pairing(&accept, &scanned, theirs, 0),
        Err(Error::Crypto(_))
    ));
}

#[test]
fn acceptance_for_another_requester_does_not_conclude() {
    let (_, _, scanned, _, accept, _) = handshake();
    // A requester with another ephemeral key is not the one the signature is for.
    let other = PairingSession::new();
    assert!(matches!(
        conclude_pairing(&accept, &scanned, other, 0),
        Err(Error::Crypto(_))
    ));
}
