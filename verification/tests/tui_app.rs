use p2p_protos::events::NetworkEvent;
use p2p_protos::history::KadMode;
use p2p_protos::messages::{IdentifyCommand, LifecycleCommand, NetworkCommand, SwarmCommand};
use p2p_protos::network::TransportMode;
use p2p_protos::tui::actions::{Action, ActionQueue, Key, PopUpContent};
use p2p_protos::tui::app::{App, Focus};
use p2p_protos::tui::peer_set::peer_set_items;

fn run_actions(app: &mut App) -> Vec<NetworkCommand> {
    let mut sent = Vec::new();
    while let Some(action) = app.next_action() {
        assert!(app.can_take(&action));
        if let Some(cmd) = app.update(action) {
            sent.push(cmd);
        }
    }
    sent
}

fn app_with_nodes(peers: &[&str]) -> App {
    let mut app = App::new(TransportMode::Tcp);
    for p in peers {
        app.handle_network_event(NetworkEvent::NodeRunning { peer_id: p.to_string(), mode: KadMode::Server });
        run_actions(&mut app);
    }
    app
}

#[test]
fn running_node_is_listed_and_its_logs_shown() {
    let app = app_with_nodes(&["p1"]);
    assert_eq!(app.node_list.len, 1);
    assert_eq!(app.node_box.len(), 1);
    assert_eq!(app.node_list.internal.selected(), Some(0));
    assert_eq!(app.node_log.selected, Some("p1".to_string()));
    assert!(app.node_logs.contains(&"p1".to_string()));
    assert!(app.node_connections.get(&"p1".to_string()).is_some());
}

#[test]
fn tab_twice_restores_focus() {
    let mut app = app_with_nodes(&["p1"]);
    assert_eq!(app.focus, Focus::NodeList);
    app.handle_key_event(Key::Tab);
    assert_eq!(app.focus, Focus::NodeLog);
    assert!(app.node_log.focus);
    assert!(!app.node_list.focus);
    app.handle_key_event(Key::Tab);
    assert_eq!(app.focus, Focus::NodeList);
    assert!(!app.node_log.focus);
    assert!(app.node_list.focus);
}

#[test]
fn q_quits() {
    let mut app = App::new(TransportMode::Memory);
    assert!(!app.quit);
    app.handle_key_event(Key::Char('q'));
    assert!(app.quit);
}

#[test]
fn enter_opens_commands_and_esc_closes_them() {
    let mut app = app_with_nodes(&["p1", "p2"]);
    app.handle_key_event(Key::Enter);
    let sent = run_actions(&mut app);
    assert!(sent.is_empty());
    assert_eq!(app.focus, Focus::PopUp);
    assert!(matches!(app.popup.content, Some(PopUpContent::NodeCommands)));
    assert_eq!(app.popup.node, Some("p1".to_string()));

    assert!(app.takes_key(Key::Esc));
    app.handle_key_event(Key::Esc);
    run_actions(&mut app);
    assert_eq!(app.focus, Focus::NodeList);
    assert!(app.node_list.focus);
}

#[test]
fn node_info_menu_asks_for_identify_info() {
    let mut app = app_with_nodes(&["p1"]);
    app.handle_key_event(Key::Enter);
    run_actions(&mut app);
    app.handle_key_event(Key::Down);
    app.handle_key_event(Key::Enter);
    let sent = run_actions(&mut app);
    assert!(sent.is_empty());
    assert!(matches!(app.popup.content, Some(PopUpContent::NodeInfo)));

    app.handle_key_event(Key::Enter);
    let sent = run_actions(&mut app);
    assert_eq!(sent.len(), 1);
    assert!(matches!(&sent[0], NetworkCommand::Identify(IdentifyCommand::GetInfo { peer_id }) if peer_id == "p1"));
    assert!(matches!(app.popup.content, Some(PopUpContent::IdentifyInfo)));
}

#[test]
fn stop_command_then_node_stopped_closes_popup() {
    let mut app = app_with_nodes(&["p1", "p2"]);
    app.handle_key_event(Key::Enter);
    run_actions(&mut app);
    app.handle_key_event(Key::Down);
    app.handle_key_event(Key::Down);
    app.handle_key_event(Key::Enter);
    let sent = run_actions(&mut app);
    assert_eq!(sent.len(), 1);
    assert!(matches!(&sent[0], NetworkCommand::Lifecycle(LifecycleCommand::Stop { peer_id }) if peer_id == "p1"));

    app.handle_network_event(NetworkEvent::NodeStopped { peer_id: "p1".to_string() });
    run_actions(&mut app);
    assert_eq!(app.node_list.len, 1);
    assert_eq!(app.focus, Focus::NodeList);
    assert!(!app.node_logs.contains(&"p1".to_string()));
    assert_eq!(peer_set_items(&app.active_nodes), vec!["p2".to_string()]);
}

#[test]
fn stopped_node_is_replaced_by_the_last_one() {
    let mut app = app_with_nodes(&["p1", "p2", "p3"]);
    app.handle_network_event(NetworkEvent::NodeStopped { peer_id: "p1".to_string() });
    run_actions(&mut app);
    assert_eq!(peer_set_items(&app.active_nodes), vec!["p3".to_string(), "p2".to_string()]);
}

#[test]
fn start_keys_ask_for_new_nodes() {
    let mut app = App::new(TransportMode::Memory);
    app.handle_key_event(Key::Char('s'));
    app.handle_key_event(Key::Char('c'));
    let sent = run_actions(&mut app);
    assert_eq!(sent.len(), 2);
    assert!(matches!(sent[0], NetworkCommand::Lifecycle(LifecycleCommand::Start { kad_mode: KadMode::Server })));
    assert!(matches!(sent[1], NetworkCommand::Lifecycle(LifecycleCommand::Start { kad_mode: KadMode::Client })));
}

#[test]
fn discovered_peer_is_added_once() {
    let mut app = app_with_nodes(&["p1"]);
    app.handle_network_event(NetworkEvent::NodeDiscovered { peer_id: "ext".to_string() });
    let sent = run_actions(&mut app);
    assert_eq!(sent.len(), 1);
    assert!(matches!(&sent[0], NetworkCommand::Lifecycle(LifecycleCommand::AddExternal { peer_id, address }) if peer_id == "ext" && address.is_empty()));

    app.handle_network_event(NetworkEvent::NodeDiscovered { peer_id: "ext".to_string() });
    app.handle_network_event(NetworkEvent::NodeDiscovered { peer_id: "p1".to_string() });
    let sent = run_actions(&mut app);
    assert!(sent.is_empty());
}

#[test]
fn connections_are_recorded_both_ways_and_dropped() {
    let mut app = app_with_nodes(&["p1", "p2"]);
    app.handle_network_event(NetworkEvent::NodesConnected { peer_one: "p1".to_string(), peer_two: "p2".to_string() });
    run_actions(&mut app);
    assert!(app.node_connections.get(&"p1".to_string()).unwrap().contains(&"p2".to_string()));
    assert!(app.node_connections.get(&"p2".to_string()).unwrap().contains(&"p1".to_string()));
    assert_eq!(app.node_box.links().len(), 1);

    app.handle_network_event(NetworkEvent::NodesDisconnected { peer_one: "p2".to_string(), peer_two: "p1".to_string() });
    run_actions(&mut app);
    assert!(!app.node_connections.get(&"p1".to_string()).unwrap().contains(&"p2".to_string()));
    assert!(!app.node_connections.get(&"p2".to_string()).unwrap().contains(&"p1".to_string()));
}

#[test]
fn manage_connections_connects_to_selected_peer() {
    let mut app = app_with_nodes(&["p1", "p2", "p3"]);
    app.handle_key_event(Key::Enter);
    run_actions(&mut app);
    app.handle_key_event(Key::Enter);
    run_actions(&mut app);
    assert!(matches!(app.popup.content, Some(PopUpContent::ManageConnections)));
    app.handle_key_event(Key::Down);
    app.handle_key_event(Key::Char('c'));
    let sent = run_actions(&mut app);
    assert_eq!(sent.len(), 1);
    assert!(matches!(&sent[0], NetworkCommand::Swarm(SwarmCommand::Connect { peer_one, peer_two }) if peer_one == "p1" && peer_two == "p3"));
}

#[test]
fn action_queue_is_first_in_first_out() {
    let mut q = ActionQueue::new();
    q.push(Action::Quit);
    q.push(Action::ClosePopup);
    assert_eq!(q.len(), 2);
    assert!(matches!(q.next(), Some(Action::Quit)));
    assert!(matches!(q.next(), Some(Action::ClosePopup)));
    assert!(q.next().is_none());
}

#[test]
fn unacceptable_key_is_reported() {
    let app = App::new(TransportMode::Memory);
    assert!(!app.takes_key(Key::Down));
    assert!(!app.takes_key(Key::Enter));
    assert!(app.takes_key(Key::Char('s')));
}

#[test]
fn disconnecting_drops_the_graph_line() {
    let mut app = app_with_nodes(&["p1", "p2"]);
    app.handle_network_event(NetworkEvent::NodesConnected { peer_one: "p1".to_string(), peer_two: "p2".to_string() });
    run_actions(&mut app);
    assert_eq!(app.node_box.links().len(), 1);
    assert!(!app.node_box.links()[0].red);
    app.handle_key_event(Key::Up);
    run_actions(&mut app);
    assert!(app.node_box.links()[0].red);
    assert_eq!(app.node_box.red_node(), Some("p1".to_string()));

    app.handle_key_event(Key::Enter);
    run_actions(&mut app);
    app.handle_key_event(Key::Enter);
    run_actions(&mut app);
    app.handle_key_event(Key::Char('d'));
    let sent = run_actions(&mut app);
    assert!(matches!(&sent[0], NetworkCommand::Swarm(SwarmCommand::Disconnect { peer_one, peer_two }) if peer_one == "p1" && peer_two == "p2"));
    assert_eq!(app.node_box.links().len(), 0);
}

#[test]
fn node_list_selection_past_end_is_corrected_when_drawn() {
    let mut app = app_with_nodes(&["p1", "p2"]);
    app.node_list.internal.select(Some(usize::MAX));
    app.node_list.prepare_render(&app.active_nodes, &app.external_nodes);
    assert_eq!(app.node_list.internal.selected(), Some(1));
    app.node_list.internal.select(Some(0));
    app.node_list.prepare_render(&app.active_nodes, &app.external_nodes);
    assert_eq!(app.node_list.internal.selected(), Some(0));
}

#[test]
fn stopped_node_is_no_longer_listed() {
    let mut app = app_with_nodes(&["p1", "p2"]);
    app.handle_network_event(NetworkEvent::NodeStopped { peer_id: "p1".to_string() });
    run_actions(&mut app);
    assert_eq!(peer_set_items(&app.active_nodes), vec!["p2".to_string()]);
}
