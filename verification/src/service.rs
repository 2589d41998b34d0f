//! The service that ties the components together.
//!
//! The service owns the device identity, the active pairing session, the
//! registry of paired devices and the hash of the content sent last. Every
//! event from the network, from discovery or from the clipboard is handed to
//! one of its methods, which changes that state and says what to do next.
//! Waiting for the events and carrying the answers out is left to the
//! caller.
//!
//! A method that changes the state takes the service exclusively. So the
//! test of a pairing request against the active session and the use of that
//! session are one step, whatever many connections are handled at once.

use vstd::prelude::*;
use vstd::string::*;
use vstd::utf8::*;

use crate::crypto::encryption::{decrypted, MAX_PLAINTEXT};
use crate::crypto::keys::{ed25519_public_key, fingerprint_text, FINGERPRINT_LEN};
use crate::discovery::{DiscoveryEvent, PeerInfo};
use crate::error::Error;
use crate::ident::fresh_id;
use crate::protocol::grammar::{parse_url, url_bytes, QrFields, UrlFault};
use crate::protocol::pairing::pairing_code_svg;
use crate::protocol::{
    ClipboardContent, ClipboardSyncMessage, ContentHash, Message, PairAcceptMessage,
    PairRequestMessage, PairingQrData, PairingSession,
};
use crate::sync::handshake::{
    acceptance_fault, conclude_pairing, is_conclusion, is_request, pairing_answered,
    request_pairing, AcceptanceFault,
};
use crate::sync::server::pairing_result;
use crate::sync::{ConnectionAction, PairedDevice, SyncEvent, SyncServer};
use crate::text::begins_with;
use crate::{Config, DeviceIdentity};

verus! {

/// What the service reports to the outside.
#[derive(Debug, Clone)]
pub enum ServiceEvent {
    /// A device was discovered on the network.
    DeviceDiscovered(PeerInfo),
    /// A device went away.
    DeviceLost(u128),
    /// A device asked to pair, or was paired.
    PairingRequest { device_id: u128, device_name: String },
    /// Clipboard content arrived from a paired device.
    ClipboardReceived { from_device: u128, content: ClipboardContent },
    /// The local clipboard content was sent to paired devices.
    ClipboardSent { to_devices: Vec<u128> },
    /// Something went wrong.
    Error(String),
}

/// What the service does with an event of the server.
pub enum SyncReaction {
    /// Report the event.
    Emit(ServiceEvent),
    /// Clipboard content of a paired device was decrypted. Once the plaintext
    /// is decoded, the content is reported as received from that device.
    Decrypted { from_device: u128, plaintext: Vec<u8> },
    /// Nothing is to be done.
    Nothing,
}

/// Clipboard content, encrypted for one paired device.
pub struct Outgoing {
    pub to_device: u128,
    pub message: ClipboardSyncMessage,
}

/// What the service does with a change of the local clipboard.
pub enum ClipboardReaction {
    /// The content is the one that was recorded last as sent: nothing is
    /// sent again.
    Suppressed,
    /// The content was encrypted for no device, and nothing is reported.
    NoRecipient,
    /// The content was encrypted for each paired device; the event reports
    /// to which.
    Sent { messages: Vec<Outgoing>, event: ServiceEvent },
}

/// The address that a pairing URL names when no local address is known.
pub const LOOPBACK: &'static str = "127.0.0.1";

/// The address that a pairing URL names: the first local address, or the
/// loopback address if there is none.
pub open spec fn pairing_address(local_ip: Option<&str>) -> Seq<char> {
    match local_ip {
        Some(ip) => ip@,
        None => LOOPBACK@,
    }
}

/// The devices that a list of outgoing messages is addressed to, in order.
pub open spec fn recipients(messages: Seq<Outgoing>) -> Seq<u128> {
    Seq::new(messages.len(), |i: int| messages[i].to_device)
}

/// A list of outgoing messages carries one plaintext from one sender to
/// every device of a registry, each once, encrypted under that device's
/// session key.
pub open spec fn carries(
    messages: Seq<Outgoing>,
    registry: Map<u128, PairedDevice>,
    sender_id: u128,
    hash: ContentHash,
    plaintext: Seq<u8>,
    now: u64,
) -> bool {
    &&& recipients(messages).no_duplicates()
    &&& recipients(messages).to_set() == registry.dom()
    &&& forall|i: int|
        0 <= i < messages.len() ==> {
            let out = #[trigger] messages[i];
            &&& registry.contains_key(out.to_device)
            &&& out.message.sender_id == sender_id
            &&& out.message.content_hash == hash
            &&& out.message.timestamp == now
            &&& decrypted(registry[out.to_device].session_key@, out.message.encrypted_content)
                == Some(plaintext)
        }
}

/// The service.
pub struct OmniclipService {
    config: Config,
    identity: DeviceIdentity,
    server: SyncServer,
    active_pairing: Option<PairingSession>,
    last_sent_hash: Option<ContentHash>,
}

impl OmniclipService {
    /// The settings.
    pub closed spec fn config(&self) -> Config {
        self.config
    }

    /// The identity of this device.
    pub closed spec fn identity(&self) -> DeviceIdentity {
        self.identity
    }

    /// The registry of paired devices.
    pub closed spec fn devices(&self) -> Map<u128, PairedDevice> {
        self.server.devices()
    }

    /// The pairing session that waits for a peer, if any.
    pub closed spec fn active_pairing(&self) -> Option<PairingSession> {
        self.active_pairing
    }

    /// The hash that was recorded last as sent: that of the last change of
    /// the clipboard that was not suppressed, if there was one.
    pub closed spec fn last_sent(&self) -> Option<ContentHash> {
        self.last_sent_hash
    }

    /// The registry of paired devices is finite, and every device in it
    /// stands under its own id.
    pub open spec fn wf(&self) -> bool {
        &&& self.devices().dom().finite()
        &&& forall|id: u128| #[trigger]
            self.devices().contains_key(id) ==> self.devices()[id].device_id == id
    }

    /// A service with default settings that keeps its data under `data_dir`.
    pub fn new(device_name: String, data_dir: String) -> (service: Self)
        ensures
            service.wf(),
            service.identity().name == device_name,
            service.config().data_dir == data_dir,
            service.config().port == crate::protocol::constants::DEFAULT_PORT,
            service.devices() == Map::<u128, PairedDevice>::empty(),
            service.active_pairing() is None,
            service.last_sent() is None,
    {
        Self::with_config(device_name, Config::new(data_dir))
    }

    /// A service with the given settings.
    pub fn with_config(device_name: String, config: Config) -> (service: Self)
        ensures
            service.wf(),
            service.identity().name == device_name,
            service.config() == config,
            service.devices() == Map::<u128, PairedDevice>::empty(),
            service.active_pairing() is None,
            service.last_sent() is None,
    {
        let server = SyncServer::new(config.port);
        OmniclipService {
            config,
            identity: DeviceIdentity::new(device_name),
            server,
            active_pairing: None,
            last_sent_hash: None,
        }
    }

    /// The id of this device.
    pub fn device_id(&self) -> (id: u128)
        ensures
            id == self.identity().id,
    {
        self.identity.id
    }

    /// The name of this device.
    pub fn device_name(&self) -> (name: &str)
        ensures
            name@ == self.identity().name@,
    {
        self.identity.name.as_str()
    }

    /// The fingerprint of this device's public identity key: twelve
    /// characters.
    pub fn fingerprint(&self) -> (text: String)
        ensures
            text@ == fingerprint_text(ed25519_public_key(self.identity().signing_key@)),
            text@.len() == FINGERPRINT_LEN,
    {
        self.identity.fingerprint()
    }

    /// Starts a new pairing session and returns its pairing URL. The new
    /// session takes the place of one that was still waiting.
    pub fn start_pairing(&mut self, local_ip: Option<&str>) -> (url: String)
        requires
            old(self).wf(),
        ensures
            final(self).wf(),
            final(self).config() == old(self).config(),
            final(self).identity() == old(self).identity(),
            final(self).devices() == old(self).devices(),
            final(self).last_sent() == old(self).last_sent(),
            final(self).active_pairing() matches Some(session) && session.wf() && parse_url(
                encode_utf8(url@),
            ) == Ok::<QrFields, UrlFault>(
                QrFields {
                    session_id: session.session_id,
                    pubkey: session.ephemeral_public@,
                    ip: pairing_address(local_ip),
                    port: old(self).config().port,
                    name: old(self).identity().name@,
                },
            ),
    {
        let session = PairingSession::new();
        let ip = match local_ip {
            Some(ip) => ip,
            None => LOOPBACK,
        };
        let qr_data = session.qr_data(ip, self.config.port, self.identity.name.as_str());
        let url = qr_data.to_url();
        self.active_pairing = Some(session);
        url
    }

    /// The QR code of the active pairing session, as an SVG image.
    pub fn get_pairing_qr_svg(&self, local_ip: Option<&str>) -> (r: Result<String, Error>)
        ensures
            match self.active_pairing() {
                None => r matches Err(Error::NotPaired(detail)) && detail@
                    == "no active pairing session"@,
                Some(session) => {
                    let image = pairing_code_svg(
                        (QrFields {
                            session_id: session.session_id,
                            pubkey: session.ephemeral_public@,
                            ip: pairing_address(local_ip),
                            port: self.config().port,
                            name: self.identity().name@,
                        }),
                    );
                    match r {
                        Ok(svg) => image == Some(svg@),
                        Err(e) => e matches Error::Crypto(detail) && begins_with(
                            detail@,
                            "QR generation failed: "@,
                        ) && image is None,
                    }
                },
            },
    {
        let session = match &self.active_pairing {
            Some(session) => session,
            None => {
                return Err(Error::NotPaired(String::from_str("no active pairing session")));
            },
        };
        let ip = match local_ip {
            Some(ip) => ip,
            None => LOOPBACK,
        };
        let qr_data = session.qr_data(ip, self.config.port, self.identity.name.as_str());
        qr_data.to_qr_svg()
    }

    /// The paired devices, each with its id and its name, in no particular
    /// order.
    pub fn get_paired_devices(&self) -> (devices: Vec<(u128, String)>)
        requires
            self.wf(),
        ensures
            Seq::new(devices@.len(), |i: int| devices@[i].0).no_duplicates(),
            Seq::new(devices@.len(), |i: int| devices@[i].0).to_set() == self.devices().dom(),
            forall|i: int|
                0 <= i < devices@.len() ==> (#[trigger] devices@[i]).1
                    == self.devices()[devices@[i].0].device_name,
    {
        let paired = self.server.get_paired_devices();
        let mut devices: Vec<(u128, String)> = Vec::new();
        let mut i: usize = 0;
        while i < paired.len()
            invariant
                i <= paired@.len(),
                devices@.len() == i,
                forall|j: int|
                    0 <= j < i ==> (#[trigger] devices@[j]).0 == paired@[j].device_id
                        && devices@[j].1 == paired@[j].device_name,
            decreases paired@.len() - i,
        {
            devices.push((paired[i].device_id, paired[i].device_name.clone()));
            i += 1;
        }
        assert(Seq::new(devices@.len(), |i: int| devices@[i].0) =~= crate::sync::server::ids_of(
            paired@,
        ));
        devices
    }

    /// Forgets a paired device.
    pub fn unpair_device(&mut self, device_id: u128)
        requires
            old(self).wf(),
        ensures
            final(self).wf(),
            final(self).devices() == old(self).devices().remove(device_id),
            final(self).config() == old(self).config(),
            final(self).identity() == old(self).identity(),
            final(self).active_pairing() == old(self).active_pairing(),
            final(self).last_sent() == old(self).last_sent(),
    {
        self.server.remove_paired_device(&device_id);
    }

    /// Decides what to do with the one message that a connection brought; see
    /// [`SyncServer::handle_connection_with_pairing`]. Only a pairing request
    /// for the active session changes the state: it uses the session up.
    pub fn handle_connection(&mut self, message: Message, now: u64) -> (r: Result<
        ConnectionAction,
        Error,
    >)
        requires
            old(self).wf(),
        ensures
            final(self).wf(),
            final(self).config() == old(self).config(),
            final(self).identity() == old(self).identity(),
            final(self).devices() == old(self).devices(),
            final(self).last_sent() == old(self).last_sent(),
            match message {
                Message::PairRequest(request) => pairing_result(r) matches Some(answer)
                    && pairing_answered(
                    request,
                    old(self).active_pairing(),
                    final(self).active_pairing(),
                    old(self).identity(),
                    now,
                    answer,
                ),
                Message::ClipboardSync(sync) => final(self).active_pairing() == old(self).active_pairing()
                    && (if old(self).devices().contains_key(sync.sender_id) {
                    r == Ok::<ConnectionAction, Error>(
                        ConnectionAction::Forward(
                            SyncEvent::MessageReceived { peer_id: sync.sender_id, message },
                        ),
                    )
                } else {
                    r == Ok::<ConnectionAction, Error>(
                        ConnectionAction::UnknownSender { sender_id: sync.sender_id },
                    )
                }),
                _ => final(self).active_pairing() == old(self).active_pairing() && r == Ok::<
                    ConnectionAction,
                    Error,
                >(ConnectionAction::Ignore(message)),
            },
    {
        self.server.handle_connection_with_pairing(
            message,
            &mut self.active_pairing,
            &self.identity,
            now,
        )
    }

    /// Makes the request that answers a pairing code that this device
    /// scanned. The session holds the ephemeral key pair of this device; the
    /// pairing is concluded with it.
    pub fn request_pairing(&self, scanned: &PairingQrData, session: &PairingSession) -> (request:
        PairRequestMessage)
        ensures
            is_request(request, scanned@, *session, self.identity()),
    {
        request_pairing(scanned, session, &self.identity)
    }

    /// Concludes a pairing that this device requested. An acceptance that
    /// fits the code and is signed by the identity it names registers that
    /// device and is reported; any other acceptance changes nothing.
    pub fn conclude_pairing(
        &mut self,
        accept: &PairAcceptMessage,
        scanned: &PairingQrData,
        session: PairingSession,
        now: u64,
    ) -> (r: Result<SyncEvent, Error>)
        requires
            old(self).wf(),
        ensures
            final(self).wf(),
            final(self).config() == old(self).config(),
            final(self).identity() == old(self).identity(),
            final(self).active_pairing() == old(self).active_pairing(),
            final(self).last_sent() == old(self).last_sent(),
            match acceptance_fault(*accept, scanned@, session.ephemeral_public@) {
                None => r matches Ok(SyncEvent::DevicePaired { device }) && is_conclusion(
                    device,
                    *accept,
                    session,
                    now,
                ) && final(self).devices() == old(self).devices().insert(device.device_id, device),
                Some(AcceptanceFault::SessionMismatch) => r matches Err(
                    Error::InvalidMessage(detail),
                ) && detail@ == "session ID mismatch"@ && final(self).devices() == old(self).devices(),
                Some(AcceptanceFault::KeyMismatch) => r matches Err(Error::InvalidMessage(detail))
                    && detail@ == "ephemeral key mismatch"@ && final(self).devices() == old(self).devices(),
                Some(AcceptanceFault::BadSignature) => r matches Err(e) && e is Crypto && final(self).devices() == old(self).devices(),
            },
    {
        let device = conclude_pairing(accept, scanned, session, now)?;
        Ok(self.server.confirm_pairing(device))
    }

    /// Registers the device of a pairing whose acceptance was sent, and
    /// reports the pairing.
    pub fn confirm_pairing(&mut self, device: PairedDevice) -> (event: SyncEvent)
        requires
            old(self).wf(),
        ensures
            final(self).wf(),
            final(self).devices() == old(self).devices().insert(device.device_id, device),
            final(self).config() == old(self).config(),
            final(self).identity() == old(self).identity(),
            final(self).active_pairing() == old(self).active_pairing(),
            final(self).last_sent() == old(self).last_sent(),
            event == (SyncEvent::DevicePaired { device }),
    {
        self.server.confirm_pairing(device)
    }

    /// What is reported for clipboard content of a paired device once its
    /// plaintext was decoded: the content as received from that device, or
    /// nothing if the plaintext was no content.
    pub fn on_content_decoded(from_device: u128, decoded: Option<ClipboardContent>) -> (reported:
        Option<ServiceEvent>)
        ensures
            reported == match decoded {
                Some(content) => Some(ServiceEvent::ClipboardReceived { from_device, content }),
                None => None,
            },
    {
        match decoded {
            Some(content) => Some(ServiceEvent::ClipboardReceived { from_device, content }),
            None => None,
        }
    }

    /// What is reported for an event of discovery.
    pub fn on_discovery_event(event: DiscoveryEvent) -> (reported: ServiceEvent)
        ensures
            reported == match event {
                DiscoveryEvent::PeerFound(peer) => ServiceEvent::DeviceDiscovered(peer),
                DiscoveryEvent::PeerLost(id) => ServiceEvent::DeviceLost(id),
            },
    {
        match event {
            DiscoveryEvent::PeerFound(peer) => ServiceEvent::DeviceDiscovered(peer),
            DiscoveryEvent::PeerLost(id) => ServiceEvent::DeviceLost(id),
        }
    }

    /// Decides what to do with an event of the server.
    ///
    /// - A pairing, and a pairing request, are reported.
    /// - Clipboard content is decrypted under the session key of the peer it
    ///   came from. Content from a peer that is not paired, or that does not
    ///   decrypt, is dropped.
    /// - Nothing is done for any other event.
    pub fn on_sync_event(&self, event: SyncEvent) -> (reaction: SyncReaction)
        ensures
            match event {
                SyncEvent::DevicePaired { device } => reaction == SyncReaction::Emit(
                    ServiceEvent::PairingRequest {
                        device_id: device.device_id,
                        device_name: device.device_name,
                    },
                ),
                SyncEvent::MessageReceived { peer_id, message: Message::PairRequest(request) } =>
                    reaction == SyncReaction::Emit(
                    ServiceEvent::PairingRequest {
                        device_id: request.device_id,
                        device_name: request.device_name,
                    },
                ),
                SyncEvent::MessageReceived { peer_id, message: Message::ClipboardSync(sync) } => {
                    let opened = if self.devices().contains_key(peer_id) {
                        decrypted(self.devices()[peer_id].session_key@, sync.encrypted_content)
                    } else {
                        None
                    };
                    match opened {
                        Some(plaintext) => reaction matches SyncReaction::Decrypted {
                            from_device,
                            plaintext: bytes,
                        } && from_device == peer_id && bytes@ == plaintext,
                        None => reaction is Nothing,
                    }
                },
                _ => reaction is Nothing,
            },
    {
        match event {
            SyncEvent::DevicePaired { device } => SyncReaction::Emit(
                ServiceEvent::PairingRequest {
                    device_id: device.device_id,
                    device_name: device.device_name,
                },
            ),
            SyncEvent::MessageReceived { peer_id, message } => match message {
                Message::PairRequest(request) => SyncReaction::Emit(
                    ServiceEvent::PairingRequest {
                        device_id: request.device_id,
                        device_name: request.device_name,
                    },
                ),
                Message::ClipboardSync(sync) => match self.server.paired_device(peer_id) {
                    Some(device) => match device.session_key.decrypt(&sync.encrypted_content) {
                        Ok(plaintext) => SyncReaction::Decrypted { from_device: peer_id, plaintext },
                        Err(_) => SyncReaction::Nothing,
                    },
                    None => SyncReaction::Nothing,
                },
                _ => SyncReaction::Nothing,
            },
            _ => SyncReaction::Nothing,
        }
    }

    /// Whether a content with the given hash is the one that was sent last.
    pub fn was_sent_last(&self, hash: &ContentHash) -> (yes: bool)
        ensures
            yes == (self.last_sent() matches Some(last) && last.0@ == hash.0@),
    {
        match &self.last_sent_hash {
            Some(last) => last.same(hash),
            None => false,
        }
    }

    /// Decides what to do with a change of the local clipboard, given the hash
    /// of the new content and the bytes that stand for it on the wire, if it
    /// could be written as bytes.
    ///
    /// - A content with the hash of the content sent last is suppressed, so
    ///   that a remote update that was applied locally is not echoed back.
    /// - The hash of every other content is recorded as sent last, and the
    ///   content is encrypted once for each paired device, under that
    ///   device's session key, with a fresh message id each.
    /// - Where there is no paired device, or the content has no bytes or too
    ///   many for the cipher, no message is made and nothing is reported;
    ///   the hash is recorded all the same.
    pub fn on_clipboard_change(
        &mut self,
        hash: ContentHash,
        plaintext: Option<&[u8]>,
        now: u64,
    ) -> (reaction: ClipboardReaction)
        requires
            old(self).wf(),
        ensures
            final(self).wf(),
            final(self).config() == old(self).config(),
            final(self).identity() == old(self).identity(),
            final(self).devices() == old(self).devices(),
            final(self).active_pairing() == old(self).active_pairing(),
            if old(self).last_sent() matches Some(last) && last.0@ == hash.0@ {
                reaction is Suppressed && final(self).last_sent() == old(self).last_sent()
            } else if plaintext matches Some(bytes) && bytes@.len() <= MAX_PLAINTEXT
                && old(self).devices().dom().len() > 0 {
                reaction matches ClipboardReaction::Sent { messages, event } && carries(
                    messages@,
                    old(self).devices(),
                    old(self).identity().id,
                    hash,
                    plaintext->0@,
                    now,
                ) && (event matches ServiceEvent::ClipboardSent { to_devices } && to_devices@
                    == recipients(messages@)) && final(self).last_sent() == Some(hash)
            } else {
                reaction is NoRecipient && final(self).last_sent() == Some(hash)
            },
    {
        if self.was_sent_last(&hash) {
            return ClipboardReaction::Suppressed;
        }
        self.last_sent_hash = Some(hash);
        let bytes = match plaintext {
            Some(bytes) => bytes,
            None => {
                return ClipboardReaction::NoRecipient;
            },
        };
        let messages = self.encrypt_for_all(hash, bytes, now);
        if messages.len() == 0 {
            return ClipboardReaction::NoRecipient;
        }
        let mut to_devices: Vec<u128> = Vec::new();
        let mut i: usize = 0;
        while i < messages.len()
            invariant
                i <= messages@.len(),
                to_devices@.len() == i,
                forall|j: int| 0 <= j < i ==> to_devices@[j] == messages@[j].to_device,
            decreases messages@.len() - i,
        {
            to_devices.push(messages[i].to_device);
            i += 1;
        }
        ClipboardReaction::Sent { messages, event: ServiceEvent::ClipboardSent { to_devices } }
    }

    /// Encrypts a plaintext once for each paired device. No message is made
    /// where the plaintext is too long for the cipher.
    fn encrypt_for_all(&self, hash: ContentHash, plaintext: &[u8], now: u64) -> (messages: Vec<
        Outgoing,
    >)
        requires
            self.wf(),
        ensures
            plaintext@.len() <= MAX_PLAINTEXT ==> carries(
                messages@,
                self.devices(),
                self.identity().id,
                hash,
                plaintext@,
                now,
            ) && messages@.len() == self.devices().dom().len(),
            plaintext@.len() > MAX_PLAINTEXT ==> messages@.len() == 0,
    {
        let devices = self.server.get_paired_devices();
        let mut messages: Vec<Outgoing> = Vec::new();
        let mut i: usize = 0;
        while i < devices.len()
            invariant
                i <= devices@.len(),
                crate::sync::server::lists(devices@, self.devices()),
                plaintext@.len() > MAX_PLAINTEXT ==> messages@.len() == 0,
                plaintext@.len() <= MAX_PLAINTEXT ==> messages@.len() == i,
                forall|j: int|
                    0 <= j < messages@.len() ==> {
                        let out = #[trigger] messages@[j];
                        &&& out.to_device == devices@[j].device_id
                        &&& out.message.sender_id == self.identity().id
                        &&& out.message.content_hash == hash
                        &&& out.message.timestamp == now
                        &&& decrypted(devices@[j].session_key@, out.message.encrypted_content)
                            == Some(plaintext@)
                    },
            decreases devices@.len() - i,
        {
            let device = &devices[i];
            match device.session_key.encrypt(plaintext) {
                Ok(encrypted_content) => {
                    messages.push(
                        Outgoing {
                            to_device: device.device_id,
                            message: ClipboardSyncMessage {
                                message_id: fresh_id(),
                                sender_id: self.identity.id,
                                content_hash: hash,
                                encrypted_content,
                                timestamp: now,
                            },
                        },
                    );
                },
                Err(_) => {},
            }
            i += 1;
        }
        proof {
            if plaintext@.len() <= MAX_PLAINTEXT {
                assert(recipients(messages@) =~= crate::sync::server::ids_of(devices@));
                assert forall|j: int| 0 <= j < messages@.len() implies {
                    let out = #[trigger] messages@[j];
                    &&& self.devices().contains_key(out.to_device)
                    &&& decrypted(
                        self.devices()[out.to_device].session_key@,
                        out.message.encrypted_content,
                    ) == Some(plaintext@)
                } by {
                    assert(crate::sync::server::ids_of(devices@)[j] == devices@[j].device_id);
                }
                crate::sync::server::ids_of(devices@).unique_seq_to_set();
            }
        }
        messages
    }
}

} // verus!
