use omniclip_core::discovery::{instance_of, DiscoveryEvent, DiscoveryService, PeerAddress};
use uuid::Uuid;

const OURS: u128 = 0xa1a2a3a4_b1b2_c1c2_d1d2_d3d4d5d6d7d8;
const THEIRS: &str = "67e55044-10b1-426f-9247-bb680e5fe0c8";

fn theirs() -> u128 {
    Uuid::parse_str(THEIRS).unwrap().as_u128()
}

fn addresses() -> Vec<PeerAddress> {
    vec![PeerAddress::V4([192, 168, 1, 20]), PeerAddress::V6([0; 16])]
}

#[test]
fn instance_name_is_device_name_and_start_of_id() {
    let discovery = DiscoveryService::new(OURS);
    assert_eq!(discovery.instance_name("Desk"), "Desk-a1a2a3a4");
    assert_eq!(discovery.instance_name(""), "-a1a2a3a4");
    assert_eq!(discovery.instance_name("Zoë's Mac"), "Zoë's Mac-a1a2a3a4");
    let id = Uuid::new_v4();
    assert_eq!(
        DiscoveryService::new(id.as_u128()).instance_name("x"),
        format!("x-{}", &id.to_string()[..8])
    );
}

#[test]
fn host_name_ends_in_local() {
    assert_eq!(DiscoveryService::host_name(Some("desk")), "desk.local.");
    assert_eq!(DiscoveryService::host_name(None), "omniclip.local.");
}

#[test]
fn advertised_properties() {
    let discovery = DiscoveryService::new(OURS);
    assert_eq!(
        discovery.properties("If4x36FUomE="),
        vec![
            ("id".to_string(), "a1a2a3a4-b1b2-c1c2-d1d2-d3d4d5d6d7d8".to_string()),
            ("fp".to_string(), "If4x36FUomE=".to_string()),
            ("v".to_string(), "1".to_string()),
        ]
    );
}

#[test]
fn first_label_of_a_full_name() {
    assert_eq!(instance_of("Phone-67e55044._omniclip._tcp.local."), "Phone-67e55044");
    assert_eq!(instance_of("nodots"), "nodots");
    assert_eq!(instance_of(".leading"), "");
    assert_eq!(instance_of(""), "");
    assert_eq!(instance_of("Zoë.x"), "Zoë");
}

#[test]
fn resolved_service_is_a_peer() {
    let mut discovery = DiscoveryService::new(OURS);
    let event = discovery.on_resolved(
        Some(THEIRS),
        Some("fp"),
        "Phone-67e55044._omniclip._tcp.local.",
        addresses(),
        17394,
    );
    match event {
        Some(DiscoveryEvent::PeerFound(peer)) => {
            assert_eq!(peer.device_id, theirs());
            assert_eq!(peer.device_name, "Phone-67e55044");
            assert_eq!(peer.fingerprint, "fp");
            assert_eq!(peer.addresses, addresses());
            assert_eq!(peer.port, 17394);
        }
        _ => panic!("no peer"),
    }
    let known = discovery.get_peer(&theirs()).unwrap();
    assert_eq!(known.device_name, "Phone-67e55044");
    assert_eq!(known.addresses, addresses());
    assert_eq!(discovery.get_peers().len(), 1);
    assert!(discovery.get_peer(&OURS).is_none());
}

#[test]
fn service_without_fingerprint_has_an_empty_one() {
    let mut discovery = DiscoveryService::new(OURS);
    match discovery.on_resolved(Some(THEIRS), None, "Phone.local.", vec![], 1) {
        Some(DiscoveryEvent::PeerFound(peer)) => assert_eq!(peer.fingerprint, ""),
        _ => panic!("no peer"),
    }
}

#[test]
fn service_without_device_id_is_passed_over() {
    let mut discovery = DiscoveryService::new(OURS);
    assert!(discovery.on_resolved(None, Some("fp"), "Phone.local.", addresses(), 1).is_none());
    assert!(discovery
        .on_resolved(Some("not an id"), Some("fp"), "Phone.local.", addresses(), 1)
        .is_none());
    assert!(discovery.get_peers().is_empty());
}

#[test]
fn own_service_is_passed_over() {
    let mut discovery = DiscoveryService::new(OURS);
    let own = "a1a2a3a4-b1b2-c1c2-d1d2-d3d4d5d6d7d8";
    assert!(discovery.on_resolved(Some(own), Some("fp"), "Desk.local.", addresses(), 1).is_none());
    assert!(discovery.get_peers().is_empty());
}

#[test]
fn later_record_replaces_earlier_one() {
    let mut discovery = DiscoveryService::new(OURS);
    let _ = discovery.on_resolved(Some(THEIRS), Some("fp"), "Old.local.", addresses(), 1);
    let _ = discovery.on_resolved(Some(THEIRS), Some("fp2"), "New.local.", vec![], 2);
    let peers = discovery.get_peers();
    assert_eq!(peers.len(), 1);
    assert_eq!(peers[0].device_name, "New");
    assert_eq!(peers[0].fingerprint, "fp2");
    assert_eq!(peers[0].port, 2);
    assert!(peers[0].addresses.is_empty());
}

#[test]
fn removed_service_is_a_lost_peer() {
    let mut discovery = DiscoveryService::new(OURS);
    let _ = discovery.on_resolved(Some(THEIRS), Some("fp"), "Phone-67e55044._omniclip._tcp.local.", addresses(), 1);
    let other = Uuid::new_v4();
    let _ = discovery.on_resolved(Some(&other.to_string()), Some("fp"), "Tablet-1._omniclip._tcp.local.", addresses(), 1);
    assert_eq!(discovery.get_peers().len(), 2);

    assert!(discovery.on_removed("Laptop-2._omniclip._tcp.local.").is_none());
    assert_eq!(discovery.get_peers().len(), 2);

    let event = discovery.on_removed("Phone-67e55044._omniclip._tcp.local.");
    assert!(matches!(event, Some(DiscoveryEvent::PeerLost(id)) if id == theirs()));
    assert!(discovery.get_peer(&theirs()).is_none());
    assert!(discovery.get_peer(&other.as_u128()).is_some());

    // It is lost once.
    assert!(discovery.on_removed("Phone-67e55044._omniclip._tcp.local.").is_none());
}

#[test]
fn peers_are_listed_each_once() {
    let mut discovery = DiscoveryService::new(OURS);
    let mut expected = Vec::new();
    for i in 0..5 {
        let id = Uuid::new_v4();
        expected.push(id.as_u128());
        let _ = discovery.on_resolved(Some(&id.to_string()), None, &format!("Peer{}.local.", i), vec![], 1);
    }
    let mut listed: Vec<u128> = discovery.get_peers().iter().map(|p| p.device_id).collect();
    listed.sort();
    expected.sort();
    assert_eq!(listed, expected);
}
