use libp2p::PeerId;
use p2p_protos::addr::{split_peer_id, AddrPart};

#[test]
fn test_split_peer_id_with_peer() {
    let peer_id = PeerId::random().to_string();
    let addr = vec![
        AddrPart::Ip4(127, 0, 0, 1),
        AddrPart::Other("/tcp/8080".to_string()),
        AddrPart::P2p(peer_id.clone()),
    ];

    let result = split_peer_id(addr.clone());
    assert!(result.is_some());

    let (extracted_peer, base) = result.unwrap();
    assert_eq!(extracted_peer, peer_id);
    assert_eq!(base.len(), 2);
    assert!(matches!(base[0], AddrPart::Ip4(127, 0, 0, 1)));
    assert!(matches!(&base[1], AddrPart::Other(s) if s == "/tcp/8080"));
}

#[test]
fn test_split_peer_id_without_peer() {
    let addr = vec![AddrPart::Ip4(127, 0, 0, 1), AddrPart::Other("/tcp/8080".to_string())];

    let result = split_peer_id(addr);
    assert!(result.is_none());
}

#[test]
fn split_stops_at_first_peer() {
    let addr = vec![
        AddrPart::Other("/memory/7".to_string()),
        AddrPart::P2p("first".to_string()),
        AddrPart::P2p("second".to_string()),
    ];
    let (peer, base) = split_peer_id(addr).unwrap();
    assert_eq!(peer, "first");
    assert_eq!(base.len(), 1);
}
