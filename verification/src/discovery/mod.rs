//! Peers found on the local network.
//!
//! Advertising and browsing is left to the caller; what is decided here is
//! under which names this device is advertised, which peer a resolved
//! service stands for, and which peer is gone when a service is removed.

use std::collections::HashMap;
use vstd::prelude::*;
use vstd::slice::*;
use vstd::std_specs::hash::*;
use vstd::std_specs::iter::IteratorSpec;
use vstd::string::*;
use vstd::utf8::*;

use crate::protocol::constants::PROTOCOL_VERSION;
use crate::protocol::url::{
    find, find_byte, lemma_find_bounds, lemma_uuid_text_bytes, lemma_uuid_text_len, uuid_format,
    uuid_parse, uuid_parsed, uuid_text,
};
use crate::text::{
    ascii_string, contains_bytes, decimal, format_decimal, lemma_decimal_value, occurs_in,
};

verus! {

/// The byte `.`, which separates the labels of a service's full name.
pub const DOT: u8 = 46;

/// An address at which a peer can be reached.
#[derive(Debug, Clone, Copy, PartialEq, Eq)]
pub enum PeerAddress {
    /// An IPv4 address, as its four bytes.
    V4([u8; 4]),
    /// An IPv6 address, as its sixteen bytes.
    V6([u8; 16]),
}

/// What is known of a discovered peer.
#[derive(Debug)]
pub struct PeerInfo {
    pub device_id: u128,
    pub device_name: String,
    pub fingerprint: String,
    pub addresses: Vec<PeerAddress>,
    pub port: u16,
}

/// What is known of a discovered peer, as mathematical values.
pub struct PeerRecord {
    pub device_id: u128,
    pub device_name: Seq<char>,
    pub fingerprint: Seq<char>,
    pub addresses: Seq<PeerAddress>,
    pub port: u16,
}

impl View for PeerInfo {
    type V = PeerRecord;

    open spec fn view(&self) -> PeerRecord {
        PeerRecord {
            device_id: self.device_id,
            device_name: self.device_name@,
            fingerprint: self.fingerprint@,
            addresses: self.addresses@,
            port: self.port,
        }
    }
}

impl Clone for PeerInfo {
    fn clone(&self) -> (copy: Self)
        ensures
            copy@ == self@,
    {
        let mut addresses: Vec<PeerAddress> = Vec::new();
        let mut i: usize = 0;
        while i < self.addresses.len()
            invariant
                i <= self.addresses@.len(),
                addresses@ == self.addresses@.subrange(0, i as int),
            decreases self.addresses@.len() - i,
        {
            addresses.push(self.addresses[i]);
            i += 1;
        }
        assert(addresses@ =~= self.addresses@);
        PeerInfo {
            device_id: self.device_id,
            device_name: self.device_name.clone(),
            fingerprint: self.fingerprint.clone(),
            addresses,
            port: self.port,
        }
    }
}

/// What discovery reports.
#[derive(Debug, Clone)]
pub enum DiscoveryEvent {
    /// A peer appeared, or its record changed.
    PeerFound(PeerInfo),
    /// A peer went away.
    PeerLost(u128),
}

/// The first label of a service's full name: what stands before the first
/// dot.
pub open spec fn first_label(fullname: Seq<u8>) -> Seq<u8> {
    fullname.subrange(0, find(fullname, DOT))
}

/// The first label of a service's full name.
pub fn instance_of(fullname: &str) -> (label: String)
    ensures
        encode_utf8(label@) == first_label(encode_utf8(fullname@)),
{
    let bytes = fullname.as_bytes();
    let at = find_byte(bytes, 0, DOT);
    proof {
        let all = encode_utf8(fullname@);
        assert(all.subrange(0, all.len() as int) =~= all);
        encode_utf8_valid_utf8(fullname@);
        lemma_find_bounds(all, DOT);
        if at < all.len() {
            is_char_boundary_iff_not_is_continuation_byte(all, at as int);
        } else {
            is_char_boundary_start_end_of_seq(all);
        }
    }
    let (head, _) = fullname.split_at(at);
    String::from_str(head)
}

/// The name under which a device advertises its service: the device's name,
/// a hyphen and the first eight characters of its id.
pub open spec fn instance_name_bytes(device_name: Seq<char>, device_id: u128) -> Seq<u8> {
    encode_utf8(device_name) + seq![45u8] + uuid_text(device_id).subrange(0, 8)
}

/// The host name under which a device advertises its service: the machine's
/// host name, or `omniclip` where that is not known, and `.local.`.
pub open spec fn host_name_text(hostname: Option<&str>) -> Seq<char> {
    match hostname {
        Some(name) => name@ + ".local."@,
        None => "omniclip"@ + ".local."@,
    }
}

/// The peers that discovery knows, and the id of this device, which is
/// never among them.
pub struct DiscoveryService {
    our_device_id: u128,
    peers: HashMap<u128, PeerInfo>,
}

/// The peer that a resolved service stands for, if it names a device other
/// than this one.
pub open spec fn resolved_peer(
    our_id: u128,
    id: Option<&str>,
    fingerprint: Option<&str>,
    fullname: &str,
    addresses: Seq<PeerAddress>,
    port: u16,
) -> Option<PeerRecord> {
    let parsed = match id {
        Some(text) => uuid_parsed(encode_utf8(text@)),
        None => None,
    };
    match parsed {
        Some(device_id) => if device_id == our_id {
            None
        } else {
            Some(
                PeerRecord {
                    device_id,
                    device_name: decode_utf8(first_label(encode_utf8(fullname@))),
                    fingerprint: match fingerprint {
                        Some(text) => text@,
                        None => Seq::empty(),
                    },
                    addresses,
                    port,
                },
            )
        },
        None => None,
    }
}

impl DiscoveryService {
    /// The id of this device.
    pub closed spec fn our_id(&self) -> u128 {
        self.our_device_id
    }

    /// The known peers, each under its id.
    pub closed spec fn peers(&self) -> Map<u128, PeerInfo> {
        self.peers@
    }

    /// Every peer stands under its own id, and this device is no peer of
    /// itself.
    pub open spec fn wf(&self) -> bool {
        &&& self.peers().dom().finite()
        &&& !self.peers().contains_key(self.our_id())
        &&& forall|id: u128| #[trigger]
            self.peers().contains_key(id) ==> self.peers()[id].device_id == id
    }

    /// Discovery for the device with the given id, with no peer known yet.
    pub fn new(device_id: u128) -> (service: Self)
        ensures
            service.wf(),
            service.our_id() == device_id,
            service.peers() == Map::<u128, PeerInfo>::empty(),
    {
        DiscoveryService { our_device_id: device_id, peers: HashMap::new() }
    }

    /// The instance name to advertise this device under.
    pub fn instance_name(&self, device_name: &str) -> (name: String)
        ensures
            encode_utf8(name@) == instance_name_bytes(device_name@, self.our_id()),
    {
        let id_text = uuid_format(self.our_device_id);
        proof {
            lemma_uuid_text_len(self.our_device_id);
            lemma_uuid_text_bytes(self.our_device_id);
            encode_utf8_valid_utf8(device_name@);
        }
        let mut bytes: Vec<u8> = Vec::new();
        bytes.extend_from_slice(device_name.as_bytes());
        bytes.push(45);
        bytes.extend_from_slice(slice_subrange(id_text.as_slice(), 0, 8));
        proof {
            let tail = seq![45u8] + uuid_text(self.our_device_id).subrange(0, 8);
            assert(bytes@ =~= encode_utf8(device_name@) + tail);
            assert forall|i: int| 0 <= i < tail.len() implies #[trigger] tail[i] < 0x80 by {}
            crate::text::lemma_ascii_is_utf8(tail);
            valid_utf8_concat(encode_utf8(device_name@), tail);
            decode_utf8_encode_utf8(bytes@);
        }
        match crate::text::string_from_utf8(bytes) {
            Some(name) => name,
            None => String::new(),
        }
    }

    /// The host name to advertise this device under.
    pub fn host_name(hostname: Option<&str>) -> (name: String)
        ensures
            name@ == host_name_text(hostname),
    {
        let mut name = match hostname {
            Some(name) => String::from_str(name),
            None => String::from_str("omniclip"),
        };
        name.append(".local.");
        name
    }

    /// The properties to advertise with the service: the device id under
    /// `id`, the fingerprint of the identity key under `fp` and the protocol
    /// version under `v`.
    pub fn properties(&self, fingerprint: &str) -> (properties: Vec<(String, String)>)
        ensures
            properties@.len() == 3,
            properties@[0].0@ == "id"@,
            encode_utf8(properties@[0].1@) == uuid_text(self.our_id()),
            properties@[1].0@ == "fp"@,
            properties@[1].1@ == fingerprint@,
            properties@[2].0@ == "v"@,
            encode_utf8(properties@[2].1@) == decimal(PROTOCOL_VERSION as nat),
    {
        proof {
            lemma_uuid_text_bytes(self.our_device_id);
            lemma_decimal_value(PROTOCOL_VERSION as nat);
            let text = uuid_text(self.our_device_id);
            assert forall|i: int| 0 <= i < text.len() implies #[trigger] text[i] < 0x80 by {}
        }
        let id = ascii_string(uuid_format(self.our_device_id));
        let version = ascii_string(format_decimal(PROTOCOL_VERSION as u64));
        let mut properties: Vec<(String, String)> = Vec::new();
        properties.push((String::from_str("id"), id));
        properties.push((String::from_str("fp"), String::from_str(fingerprint)));
        properties.push((String::from_str("v"), version));
        properties
    }

    /// Takes note of a service that was resolved, given its `id` and `fp`
    /// properties, its full name, its addresses and its port. A service
    /// without a well-formed device id, and the service of this device itself,
    /// are passed over. Every other service stands for a peer, which is
    /// recorded under its device id, in place of an earlier record, and
    /// reported as found.
    pub fn on_resolved(
        &mut self,
        id: Option<&str>,
        fingerprint: Option<&str>,
        fullname: &str,
        addresses: Vec<PeerAddress>,
        port: u16,
    ) -> (event: Option<DiscoveryEvent>)
        requires
            old(self).wf(),
        ensures
            final(self).wf(),
            final(self).our_id() == old(self).our_id(),
            match resolved_peer(old(self).our_id(), id, fingerprint, fullname, addresses@, port) {
                Some(record) => event matches Some(DiscoveryEvent::PeerFound(peer))
                    && peer@ == record
                    && final(self).peers().contains_key(record.device_id)
                    && final(self).peers()[record.device_id]@ == record
                    && final(self).peers() == old(self).peers().insert(
                    record.device_id,
                    final(self).peers()[record.device_id],
                ),
                None => event is None && final(self).peers() == old(self).peers(),
            },
    {
        let device_id = match id {
            Some(text) => match uuid_parse(text.as_bytes()) {
                Some(device_id) => device_id,
                None => {
                    return None;
                },
            },
            None => {
                return None;
            },
        };
        if device_id == self.our_device_id {
            return None;
        }
        let device_name = instance_of(fullname);
        proof {
            encode_utf8_decode_utf8(device_name@);
        }
        let peer = PeerInfo {
            device_id,
            device_name,
            fingerprint: match fingerprint {
                Some(text) => String::from_str(text),
                None => String::new(),
            },
            addresses,
            port,
        };
        let found = peer.clone();
        self.peers.insert(device_id, peer);
        Some(DiscoveryEvent::PeerFound(found))
    }

    /// The ids of the known peers, in no particular order.
    fn peer_ids(&self) -> (ids: Vec<u128>)
        ensures
            ids@.no_duplicates(),
            ids@.to_set() == self.peers().dom(),
    {
        broadcast use axiom_spec_keys_iter;

        let mut ids: Vec<u128> = Vec::new();
        for id in iter: self.peers.keys()
            invariant
                iter.seq() == spec_keys_iter(&self.peers).remaining(),
                ids@.len() == iter.index(),
                forall|j: int| 0 <= j < ids@.len() ==> ids@[j] == *iter.seq()[j],
        {
            ids.push(*id);
        }
        assert(ids@ =~= spec_keys_iter(&self.peers).remaining().unref());
        ids
    }

    /// Takes note of a service that was removed, given its full name. A peer
    /// whose name stands in the full name is forgotten and reported as lost;
    /// where there are several, one of them is. Where there is none, nothing
    /// changes.
    pub fn on_removed(&mut self, fullname: &str) -> (event: Option<DiscoveryEvent>)
        requires
            old(self).wf(),
        ensures
            final(self).wf(),
            final(self).our_id() == old(self).our_id(),
            match event {
                Some(DiscoveryEvent::PeerLost(id)) => old(self).peers().contains_key(id)
                    && occurs_in(
                    encode_utf8(fullname@),
                    encode_utf8(old(self).peers()[id].device_name@),
                ) && final(self).peers() == old(self).peers().remove(id),
                Some(_) => false,
                None => final(self).peers() == old(self).peers() && forall|id: u128| #[trigger]
                    old(self).peers().contains_key(id) ==> !occurs_in(
                        encode_utf8(fullname@),
                        encode_utf8(old(self).peers()[id].device_name@),
                    ),
            },
    {
        let ids = self.peer_ids();
        let mut i: usize = 0;
        while i < ids.len()
            invariant
                i <= ids@.len(),
                self.wf(),
                *self == *old(self),
                ids@.to_set() == self.peers().dom(),
                forall|j: int|
                    0 <= j < i ==> !occurs_in(
                        encode_utf8(fullname@),
                        encode_utf8(self.peers()[#[trigger] ids@[j]].device_name@),
                    ),
            decreases ids@.len() - i,
        {
            let id = ids[i];
            let named = match self.peers.get(&id) {
                Some(peer) => contains_bytes(fullname.as_bytes(), peer.device_name.as_str().as_bytes()),
                None => false,
            };
            if named {
                self.peers.remove(&id);
                return Some(DiscoveryEvent::PeerLost(id));
            }
            i += 1;
        }
        assert forall|id: u128| #[trigger] self.peers().contains_key(id) implies !occurs_in(
            encode_utf8(fullname@),
            encode_utf8(self.peers()[id].device_name@),
        ) by {
            assert(ids@.to_set().contains(id));
            let j = choose|j: int| 0 <= j < ids@.len() && ids@[j] == id;
            assert(ids@[j] == id);
        }
        None
    }

    /// The known peers, in no particular order.
    pub fn get_peers(&self) -> (peers: Vec<PeerInfo>)
        requires
            self.wf(),
        ensures
            Seq::new(peers@.len(), |i: int| peers@[i].device_id).no_duplicates(),
            Seq::new(peers@.len(), |i: int| peers@[i].device_id).to_set() == self.peers().dom(),
            forall|i: int|
                0 <= i < peers@.len() ==> (#[trigger] peers@[i])@
                    == self.peers()[peers@[i].device_id]@,
    {
        let ids = self.peer_ids();
        let mut peers: Vec<PeerInfo> = Vec::new();
        let mut i: usize = 0;
        while i < ids.len()
            invariant
                i <= ids@.len(),
                self.wf(),
                ids@.to_set() == self.peers().dom(),
                peers@.len() == i,
                forall|j: int|
                    0 <= j < i ==> (#[trigger] peers@[j]).device_id == ids@[j] && peers@[j]@
                        == self.peers()[ids@[j]]@,
            decreases ids@.len() - i,
        {
            match self.peers.get(&ids[i]) {
                Some(peer) => {
                    peers.push(peer.clone());
                },
                None => {},
            }
            i += 1;
        }
        assert(Seq::new(peers@.len(), |i: int| peers@[i].device_id) =~= ids@);
        peers
    }

    /// The peer with the given id, if it is known.
    pub fn get_peer(&self, id: &u128) -> (peer: Option<PeerInfo>)
        ensures
            match peer {
                Some(p) => self.peers().contains_key(*id) && p@ == self.peers()[*id]@,
                None => !self.peers().contains_key(*id),
            },
    {
        match self.peers.get(id) {
            Some(peer) => Some(peer.clone()),
            None => None,
        }
    }
}

} // verus!
