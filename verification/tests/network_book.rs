use p2p_protos::config::{check_node_counts, MAX_NODES};
use p2p_protos::error::AppError;
use p2p_protos::events::NetworkEvent;
use p2p_protos::history::{Elapsed, KadMode, LogMessage, MessageHistory, SwarmEventInfo};
use p2p_protos::messages::{LifecycleCommand, NetworkCommand, NodeCommand, NodeResponse, SwarmCommand};
use p2p_protos::network::{translate, CommandPlan, NetworkBook, Translate, TransportMode};

#[test]
fn start_is_refused_at_max_nodes() {
    let mut book = NetworkBook::new(2, TransportMode::Memory, None);
    book.register_node("a".to_string(), "/memory/1".to_string());
    let plan = book.plan_command(NetworkCommand::Lifecycle(LifecycleCommand::Start { kad_mode: KadMode::Server }));
    assert!(matches!(plan, CommandPlan::StartNode { kad_mode: KadMode::Server }));
    book.register_node("b".to_string(), "/memory/2".to_string());
    let plan = book.plan_command(NetworkCommand::Lifecycle(LifecycleCommand::Start { kad_mode: KadMode::Client }));
    assert!(matches!(plan, CommandPlan::RejectMaxNodes));
}

#[test]
fn connect_dials_the_known_address() {
    let mut book = NetworkBook::new(MAX_NODES, TransportMode::Memory, None);
    book.register_node("a".to_string(), "/memory/1".to_string());
    book.register_node("b".to_string(), "/memory/2".to_string());
    let plan = book.plan_command(NetworkCommand::Swarm(SwarmCommand::Connect {
        peer_one: "a".to_string(),
        peer_two: "b".to_string(),
    }));
    assert!(matches!(plan, CommandPlan::Request { target, command: NodeCommand::ConnectTo { peer }, forget: false, .. } if target == "a" && peer == "/memory/2"));
    let plan = book.plan_command(NetworkCommand::Swarm(SwarmCommand::Connect {
        peer_one: "a".to_string(),
        peer_two: "unknown".to_string(),
    }));
    assert!(matches!(plan, CommandPlan::Done));
}

#[test]
fn stop_forgets_and_external_is_recorded() {
    let mut book = NetworkBook::new(MAX_NODES, TransportMode::Memory, None);
    book.register_node("a".to_string(), "/memory/1".to_string());
    let plan = book.plan_command(NetworkCommand::Lifecycle(LifecycleCommand::Stop { peer_id: "a".to_string() }));
    assert!(matches!(plan, CommandPlan::Request { command: NodeCommand::Stop, forget: true, .. }));
    let plan = book.plan_command(NetworkCommand::Lifecycle(LifecycleCommand::AddExternal {
        peer_id: "x".to_string(),
        address: "/ip4/10.0.0.1/tcp/4001".to_string(),
    }));
    assert!(matches!(plan, CommandPlan::Done));
    assert_eq!(book.address_of(&"x".to_string()), Some("/ip4/10.0.0.1/tcp/4001".to_string()));
}

#[test]
fn disconnect_reply_is_published() {
    let e = translate(Translate::Disconnected { peer_one: "a".to_string() }, NodeResponse::Disconnected { peer: "b".to_string() });
    assert!(matches!(e, Some(NetworkEvent::NodesDisconnected { peer_one, peer_two }) if peer_one == "a" && peer_two == "b"));
    assert!(translate(Translate::Nothing, NodeResponse::Stopped).is_none());
}

#[test]
fn too_many_starting_nodes_is_an_error() {
    assert!(check_node_counts(10, MAX_NODES).is_ok());
    match check_node_counts(11, MAX_NODES) {
        Err(AppError::BuildError(msg)) => assert_eq!(msg, "starting nodes 11 > than max nodes 10"),
        _ => panic!("expected a build error"),
    }
}

#[test]
fn history_keeps_the_most_recent_events() {
    let mut h = MessageHistory::new();
    for i in 0..300u64 {
        h.add_swarm_event(
            SwarmEventInfo::ConnectionEstablished { peer_id: format!("p{}", i) },
            Elapsed { secs: i, nanos: 0 },
        );
    }
    let swarm = h.swarm_messages();
    assert_eq!(swarm.len(), 250);
    assert!(matches!(&swarm[0], LogMessage::Swarm { at, .. } if at.secs == 50));
    assert!(matches!(&swarm[249], LogMessage::Swarm { at, .. } if at.secs == 299));
    assert_eq!(h.all_messages().len(), 300);
}
