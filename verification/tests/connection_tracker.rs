use libp2p::{Multiaddr, PeerId, multiaddr::Protocol};
use p2p_protos::tracker::ConnectionTracker;

#[test]
fn test_empty_default() {
    let connections = ConnectionTracker::default();

    assert_eq!(connections.connection_count(), 0);
    assert_eq!(connections.known_peers_count(), 0);
}

#[test]
fn test_add_peer() {
    let mut connections = ConnectionTracker::default();
    let peer_id = PeerId::random().to_string();

    connections.add_active_peer(peer_id.clone());
    assert!(connections.has_connection(&peer_id));
    assert_eq!(connections.connection_count(), 1);
}

#[test]
fn test_add_and_remove_peer() {
    let mut connections = ConnectionTracker::default();
    let peer_id = PeerId::random().to_string();

    connections.add_active_peer(peer_id.clone());
    assert!(connections.has_connection(&peer_id));
    assert_eq!(connections.connection_count(), 1);

    connections.remove_active_peer(&peer_id);
    assert_eq!(connections.known_peers_count(), 0);
}

#[test]
fn test_add_duplicate_peer() {
    let mut connections = ConnectionTracker::default();
    let peer_id = PeerId::random().to_string();

    connections.add_active_peer(peer_id.clone());
    connections.add_active_peer(peer_id.clone());
    assert!(connections.has_connection(&peer_id));
    assert_eq!(connections.connection_count(), 1);
}

#[test]
fn test_set_known_peers() {
    let mut connections = ConnectionTracker::default();
    let addrs: Vec<String> = (0..3)
        .map(|i| Multiaddr::from(Protocol::Memory(i)).to_string())
        .collect();

    connections.set_known(addrs.clone());
    assert_eq!(connections.known_peers_count(), 3);

    connections.set_known(vec![addrs[0].clone()]);
    assert_eq!(connections.known_peers_count(), 1);
}

#[test]
fn test_returns_shared_ref() {
    let mut connections = ConnectionTracker::default();
    let peer_id = PeerId::random().to_string();
    connections.add_active_peer(peer_id.clone());

    let shared = connections.connections();

    assert!(shared.contains(&peer_id))
}

#[test]
fn removed_peer_is_no_longer_connected() {
    let mut connections = ConnectionTracker::new();
    let a = PeerId::random().to_string();
    let b = PeerId::random().to_string();
    connections.add_active_peer(a.clone());
    connections.add_active_peer(b.clone());
    connections.remove_active_peer(&a);
    assert!(!connections.has_connection(&a));
    assert!(connections.has_connection(&b));
    assert_eq!(connections.connection_count(), 1);
}
