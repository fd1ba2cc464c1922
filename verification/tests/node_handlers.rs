use std::time::Instant;

use p2p_protos::effects::{ConnectionOp, KadOp, StateMutation};
use p2p_protos::events::NetworkEvent;
use p2p_protos::handlers::{dispatch, HandlerCtx, KadQueries};
use p2p_protos::history::{Elapsed, KadMode, PeerIdentity};
use p2p_protos::info::{IdentifyInfo, KademliaInfo};
use p2p_protos::inputs::{Endpoint, IdentifyInput, KadInput, QueryOutcome, SwarmInput};
use p2p_protos::messages::{NodeCommand, NodeResponse};
use p2p_protos::node::{NodeCore, NodeResult, SwarmReply};
use p2p_protos::tracker::ConnectionTracker;
use tokio_util::sync::CancellationToken;

fn at() -> Elapsed {
    Elapsed { secs: 1, nanos: 5 }
}

fn fresh_node() -> NodeCore {
    NodeCore::new(
        "me".to_string(),
        "/memory/1".to_string(),
        None,
        KadMode::Server,
        IdentifyInfo::new(vec![1, 2], "/ipfs/id/1.0.0".to_string(), "node-network/0.1".to_string(), "/memory/1".to_string()),
        KademliaInfo::new(KadMode::Server, false),
        vec![],
        Instant::now(),
        CancellationToken::new(),
    )
}

#[test]
fn established_connection_is_recorded_and_bootstraps() {
    let tracker = ConnectionTracker::new();
    let ctx = HandlerCtx {
        self_peer_id: "me".to_string(),
        bind_address: None,
        bootstrapped: false,
        kad_queries: KadQueries::new(),
        connections: &tracker,
    };
    let event = SwarmInput::ConnectionEstablished {
        peer_id: "p".to_string(),
        endpoint: Endpoint::Dialer { address: "/memory/2".to_string() },
    };
    let (effects, claimed) = dispatch(&event, &ctx, at());
    assert!(claimed);
    assert_eq!(effects.log_entries.len(), 1);
    assert_eq!(effects.kad_ops.len(), 2);
    assert!(matches!(&effects.kad_ops[0], KadOp::AddAddress { peer, addr } if peer == "p" && addr == "/memory/2"));
    assert!(matches!(effects.kad_ops[1], KadOp::Bootstrap));
    assert!(matches!(&effects.connection_ops[0], ConnectionOp::AddActive { peer } if peer == "p"));
    assert!(matches!(&effects.published[0], NetworkEvent::NodesConnected { peer_one, peer_two } if peer_one == "p" && peer_two == "me"));
}

#[test]
fn identified_simulation_peer_is_dialed() {
    let tracker = ConnectionTracker::new();
    let ctx = HandlerCtx {
        self_peer_id: "me".to_string(),
        bind_address: None,
        bootstrapped: true,
        kad_queries: KadQueries::new(),
        connections: &tracker,
    };
    let info = PeerIdentity {
        protocol_version: "/ipfs/id/1.0.0".to_string(),
        agent_version: "node-network/0.1".to_string(),
        listen_addrs: vec!["/memory/9".to_string(), "/memory/10".to_string()],
    };
    let event = SwarmInput::Identify(IdentifyInput::Received { peer_id: "q".to_string(), info });
    let (effects, claimed) = dispatch(&event, &ctx, at());
    assert!(claimed);
    assert_eq!(effects.dials, vec!["/memory/9".to_string()]);
}

#[test]
fn last_bootstrap_step_marks_bootstrapped() {
    let tracker = ConnectionTracker::new();
    let mut queries = KadQueries::new();
    queries.bootstrap = Some(7);
    let ctx = HandlerCtx {
        self_peer_id: "me".to_string(),
        bind_address: None,
        bootstrapped: false,
        kad_queries: queries,
        connections: &tracker,
    };
    let event = SwarmInput::Kademlia(KadInput::OutboundQueryProgressed {
        id: 7,
        result: QueryOutcome::BootstrapOk { peer: "x".to_string(), num_remaining: 0 },
        last: true,
    });
    let (effects, _) = dispatch(&event, &ctx, at());
    assert!(matches!(effects.kad_ops[0], KadOp::SetBootstrapped(true)));
    assert!(matches!(&effects.kad_ops[1], KadOp::GetProviders { key } if key == "node-network/0.1"));
    assert_eq!(effects.state_mutations, vec![StateMutation::ClearBootstrapQuery, StateMutation::MarkBootstrapped]);
}

#[test]
fn unknown_event_is_not_claimed() {
    let tracker = ConnectionTracker::new();
    let ctx = HandlerCtx {
        self_peer_id: "me".to_string(),
        bind_address: None,
        bootstrapped: false,
        kad_queries: KadQueries::new(),
        connections: &tracker,
    };
    let (effects, claimed) = dispatch(&SwarmInput::Other, &ctx, at());
    assert!(!claimed);
    assert!(effects.log_entries.is_empty() && effects.published.is_empty());
}

#[test]
fn node_counts_events_and_answers_commands() {
    let mut node = fresh_node();
    let (_, claimed) = node.handle_swarm_event(&SwarmInput::Dialing { peer_id: None }, at());
    assert!(claimed);
    assert_eq!(node.stats.total_recvd(), 1);

    let r = node.respond(NodeCommand::ConnectTo { peer: "/memory/3".to_string() }, SwarmReply::Dialed(false));
    assert!(matches!(r, NodeResponse::Failed));
    let r = node.respond(NodeCommand::PutRecord { key: "k".to_string(), value: "v".to_string() }, SwarmReply::Put(true));
    assert!(matches!(r, NodeResponse::RecordPlaced));
    let r = node.respond(
        NodeCommand::GetKademliaInfo,
        SwarmReply::KadSnapshot { closest_peers: vec!["c".to_string()], buckets: vec![] },
    );
    assert!(matches!(r, NodeResponse::KademliaInfo { info } if info.closest_peers == vec!["c".to_string()]));
    assert_eq!(node.run_result(), NodeResult::Success);
    let r = node.respond(NodeCommand::Stop, SwarmReply::Nothing);
    assert!(matches!(r, NodeResponse::Stopped));
    assert!(node.state.stopped());
    assert_eq!(node.run_result(), NodeResult::Killed);
}

#[test]
fn kad_ops_apply_locally_in_order_and_hand_back_swarm_ops() {
    let mut node = fresh_node();
    let ops = vec![
        KadOp::AddAddress { peer: "p2".to_string(), addr: "/memory/2".to_string() },
        KadOp::SetMode(KadMode::Client),
        KadOp::Bootstrap,
        KadOp::SetBootstrapped(true),
        KadOp::SetMode(KadMode::Server),
        KadOp::GetProviders { key: "agent".to_string() },
    ];
    let swarm_ops = node.apply_kad_ops(ops);
    assert_eq!(node.kad_info.mode, KadMode::Server);
    assert!(node.kad_info.bootstrapped);
    assert_eq!(swarm_ops.len(), 3);
    assert!(matches!(&swarm_ops[0], KadOp::AddAddress { peer, addr } if peer == "p2" && addr == "/memory/2"));
    assert!(matches!(&swarm_ops[1], KadOp::Bootstrap));
    assert!(matches!(&swarm_ops[2], KadOp::GetProviders { key } if key == "agent"));
}

#[test]
fn last_kad_mode_set_wins() {
    let mut node = fresh_node();
    let swarm_ops = node.apply_kad_ops(vec![KadOp::SetMode(KadMode::Client), KadOp::SetBootstrapped(true), KadOp::SetBootstrapped(false)]);
    assert!(swarm_ops.is_empty());
    assert_eq!(node.kad_info.mode, KadMode::Client);
    assert!(!node.kad_info.bootstrapped);
}

#[test]
fn kad_settings_survive_the_rest_of_the_effects() {
    let mut node = fresh_node();
    let swarm_ops = node.apply_kad_ops(vec![KadOp::SetMode(KadMode::Client), KadOp::SetBootstrapped(true)]);
    assert!(swarm_ops.is_empty());
    node.apply_connection_ops(vec![
        ConnectionOp::AddActive { peer: "p2".to_string() },
        ConnectionOp::RemoveActive { peer: "p3".to_string() },
    ]);
    node.apply_state_mutations(vec![StateMutation::MarkBootstrapped, StateMutation::ClearBootstrapQuery]);
    assert_eq!(node.kad_info.mode, KadMode::Client);
    assert!(node.kad_info.bootstrapped);
    assert_eq!(node.peer_id, "me");
    assert_eq!(node.listen_address, "/memory/1");
    assert_eq!(node.kad_mode, KadMode::Server);
    assert!(node.connection_tracker.has_connection(&"p2".to_string()));
}
