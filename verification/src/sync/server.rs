//! The registry of paired devices and what the server does with a message
//! that arrives on a connection.
//!
//! Accepting connections, reading and writing frames is left to the caller;
//! what is decided here is the answer to each message and every change of
//! the registry.

use std::collections::HashMap;
use vstd::prelude::*;
use vstd::std_specs::hash::*;
use vstd::std_specs::iter::IteratorSpec;
use vstd::string::*;

use crate::crypto::SessionKey;
use crate::error::Error;
use crate::protocol::{Message, PairAcceptMessage, PairingSession};
use crate::sync::handshake::{accept_pairing, pairing_answered};
use crate::DeviceIdentity;

verus! {

/// A device that completed the pairing handshake.
pub struct PairedDevice {
    pub device_id: u128,
    pub device_name: String,
    pub session_key: SessionKey,
    /// When the device was last heard of, in seconds since the epoch.
    pub last_seen: u64,
}

impl Clone for PairedDevice {
    fn clone(&self) -> (copy: Self)
        ensures
            copy == *self,
    {
        PairedDevice {
            device_id: self.device_id,
            device_name: self.device_name.clone(),
            session_key: self.session_key.clone(),
            last_seen: self.last_seen,
        }
    }
}

/// What the server reports to the service.
pub enum SyncEvent {
    /// A peer connected.
    PeerConnected { peer_id: u128, peer_name: String },
    /// A peer disconnected.
    PeerDisconnected { peer_id: u128 },
    /// A message arrived from a peer.
    MessageReceived { peer_id: u128, message: Message },
    /// A device was paired.
    DevicePaired { device: PairedDevice },
}

/// What is to be done on a connection after its message was looked at.
pub enum ConnectionAction {
    /// Send the acceptance back on the same connection. Once it is sent,
    /// register the device with [`SyncServer::confirm_pairing`].
    Accept { accept: PairAcceptMessage, device: PairedDevice },
    /// Hand the event to the service.
    Forward(SyncEvent),
    /// Clipboard content from a device that is not paired: drop it, and send
    /// no answer.
    UnknownSender { sender_id: u128 },
    /// A message that calls for nothing at this layer.
    Ignore(Message),
}

/// The ids of a list of devices, in the order of the list.
pub open spec fn ids_of(devices: Seq<PairedDevice>) -> Seq<u128> {
    Seq::new(devices.len(), |i: int| devices[i].device_id)
}

/// A list holds exactly the devices of a registry, each once.
pub open spec fn lists(devices: Seq<PairedDevice>, registry: Map<u128, PairedDevice>) -> bool {
    &&& ids_of(devices).no_duplicates()
    &&& ids_of(devices).to_set() == registry.dom()
    &&& forall|i: int|
        0 <= i < devices.len() ==> registry[(#[trigger] devices[i]).device_id] == devices[i]
}

/// The server's state: the port it listens on and the registry of paired
/// devices, in which every device stands under its own id.
pub struct SyncServer {
    port: u16,
    paired_devices: HashMap<u128, PairedDevice>,
}

/// The answer to a pairing request that an action on a connection stands
/// for, if it stands for one: an acceptance to send, or a failure.
pub open spec fn pairing_result(r: Result<ConnectionAction, Error>) -> Option<
    Result<(PairAcceptMessage, PairedDevice), Error>,
> {
    match r {
        Ok(ConnectionAction::Accept { accept, device }) => Some(Ok((accept, device))),
        Ok(_) => None,
        Err(e) => Some(Err(e)),
    }
}

impl SyncServer {
    /// The registry: each paired device under its id.
    pub closed spec fn devices(&self) -> Map<u128, PairedDevice> {
        self.paired_devices@
    }

    /// The registry is finite, and every device in it stands under its own
    /// id.
    pub open spec fn wf(&self) -> bool {
        &&& self.devices().dom().finite()
        &&& forall|id: u128| #[trigger]
            self.devices().contains_key(id) ==> self.devices()[id].device_id == id
    }

    /// The port, as a specification.
    pub closed spec fn spec_port(&self) -> u16 {
        self.port
    }

    /// A server on the given port, with no paired device.
    pub fn new(port: u16) -> (server: Self)
        ensures
            server.wf(),
            server.spec_port() == port,
            server.devices() == Map::<u128, PairedDevice>::empty(),
    {
        SyncServer { port, paired_devices: HashMap::new() }
    }

    /// The port the server listens on.
    #[verifier::when_used_as_spec(spec_port)]
    pub fn port(&self) -> (port: u16)
        ensures
            port == self.spec_port(),
    {
        self.port
    }

    /// Registers a paired device. A device that was registered under the same
    /// id before is replaced.
    pub fn add_paired_device(&mut self, device: PairedDevice)
        requires
            old(self).wf(),
        ensures
            final(self).wf(),
            final(self).devices() == old(self).devices().insert(device.device_id, device),
            final(self).spec_port() == old(self).spec_port(),
    {
        self.paired_devices.insert(device.device_id, device);
    }

    /// Removes a paired device, if it is registered.
    pub fn remove_paired_device(&mut self, device_id: &u128)
        requires
            old(self).wf(),
        ensures
            final(self).wf(),
            final(self).devices() == old(self).devices().remove(*device_id),
            final(self).spec_port() == old(self).spec_port(),
    {
        self.paired_devices.remove(device_id);
    }

    /// All paired devices, in no particular order.
    pub fn get_paired_devices(&self) -> (devices: Vec<PairedDevice>)
        requires
            self.wf(),
        ensures
            lists(devices@, self.devices()),
    {
        broadcast use axiom_spec_keys_iter;

        let mut devices: Vec<PairedDevice> = Vec::new();
        for id in iter: self.paired_devices.keys()
            invariant
                self.wf(),
                iter.seq() == spec_keys_iter(&self.paired_devices).remaining(),
                devices@.len() == iter.index(),
                forall|j: int|
                    0 <= j < devices@.len() ==> (#[trigger] devices@[j]).device_id == *iter.seq()[j]
                        && self.devices().contains_key(devices@[j].device_id)
                        && self.devices()[devices@[j].device_id] == devices@[j],
        {
            assert(spec_keys_iter(&self.paired_devices).remaining().unref().contains(*id));
            match self.paired_devices.get(id) {
                Some(device) => {
                    devices.push(device.clone());
                },
                None => {},
            }
        }
        assert(ids_of(devices@) =~= spec_keys_iter(&self.paired_devices).remaining().unref());
        devices
    }

    /// Looks a paired device up by its id.
    pub fn paired_device(&self, device_id: u128) -> (device: Option<&PairedDevice>)
        ensures
            match device {
                Some(d) => self.devices().contains_key(device_id) && *d == self.devices()[device_id],
                None => !self.devices().contains_key(device_id),
            },
    {
        self.paired_devices.get(&device_id)
    }

    /// Registers the device of a pairing whose acceptance was sent, and
    /// reports the pairing.
    pub fn confirm_pairing(&mut self, device: PairedDevice) -> (event: SyncEvent)
        requires
            old(self).wf(),
        ensures
            final(self).wf(),
            final(self).devices() == old(self).devices().insert(device.device_id, device),
            final(self).spec_port() == old(self).spec_port(),
            event == (SyncEvent::DevicePaired { device }),
    {
        self.add_paired_device(device.clone());
        SyncEvent::DevicePaired { device }
    }

    /// Decides what to do with the one message that a connection brought.
    ///
    /// - A pairing request is answered as [`accept_pairing`] says.
    /// - Clipboard content is forwarded if its sender is paired and dropped
    ///   otherwise.
    /// - Every other message is ignored.
    ///
    /// Only a pairing request touches the active session.
    pub fn handle_connection_with_pairing(
        &self,
        message: Message,
        active_pairing: &mut Option<PairingSession>,
        identity: &DeviceIdentity,
        now: u64,
    ) -> (r: Result<ConnectionAction, Error>)
        ensures
            match message {
                Message::PairRequest(request) => pairing_result(r) matches Some(answer)
                    && pairing_answered(
                    request,
                    *old(active_pairing),
                    *final(active_pairing),
                    *identity,
                    now,
                    answer,
                ),
                Message::ClipboardSync(sync) => *final(active_pairing) == *old(active_pairing) && (
                if self.devices().contains_key(sync.sender_id) {
                    r == Ok::<ConnectionAction, Error>(
                        ConnectionAction::Forward(
                            SyncEvent::MessageReceived { peer_id: sync.sender_id, message },
                        ),
                    )
                } else {
                    r == Ok::<ConnectionAction, Error>(
                        ConnectionAction::UnknownSender { sender_id: sync.sender_id },
                    )
                }),
                _ => *final(active_pairing) == *old(active_pairing) && r == Ok::<
                    ConnectionAction,
                    Error,
                >(ConnectionAction::Ignore(message)),
            },
    {
        match message {
            Message::PairRequest(request) => {
                let (accept, device) = accept_pairing(&request, active_pairing, identity, now)?;
                Ok(ConnectionAction::Accept { accept, device })
            },
            Message::ClipboardSync(sync) => {
                let sender_id = sync.sender_id;
                if self.paired_device(sender_id).is_some() {
                    Ok(
                        ConnectionAction::Forward(
                            SyncEvent::MessageReceived {
                                peer_id: sender_id,
                                message: Message::ClipboardSync(sync),
                            },
                        ),
                    )
                } else {
                    Ok(ConnectionAction::UnknownSender { sender_id })
                }
            },
            other => Ok(ConnectionAction::Ignore(other)),
        }
    }

    /// Decides what to do with the one message that a connection brought,
    /// on a server that does not pair: a pairing request is forwarded to the
    /// service, every other message is ignored.
    pub fn handle_connection(message: Message) -> (action: ConnectionAction)
        ensures
            match message {
                Message::PairRequest(request) => action == ConnectionAction::Forward(
                    SyncEvent::MessageReceived { peer_id: request.device_id, message },
                ),
                _ => action == ConnectionAction::Ignore(message),
            },
    {
        match message {
            Message::PairRequest(request) => ConnectionAction::Forward(
                SyncEvent::MessageReceived {
                    peer_id: request.device_id,
                    message: Message::PairRequest(request),
                },
            ),
            other => ConnectionAction::Ignore(other),
        }
    }
}

} // verus!
