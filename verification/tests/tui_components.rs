use p2p_protos::config::fresh_listen_address;
use p2p_protos::events::NetworkEvent;
use p2p_protos::history::KadMode;
use p2p_protos::info::IdentifyInfo as NodeIdentifyInfo;
use p2p_protos::network::TransportMode;
use p2p_protos::tui::info_panels::IdentifyInfo;
use p2p_protos::info::{Distance, KBucketInfo, KademliaInfo as NodeKademliaInfo};
use p2p_protos::strset::StringSet;
use p2p_protos::tui::actions::{Action, ActionQueue, Key, PopUpContent};
use p2p_protos::tui::info_panels::{kademlia_info_lines, RecordsList};
use p2p_protos::tui::kv_store::{Field, KvFocus, KvStore};
use p2p_protos::tui::manage_connections::{format_peer_list, Focus};
use p2p_protos::tui::node_commands::NodeCommands;
use p2p_protos::tui::node_log::NodeLog;
use p2p_protos::tui::selection::{clamp, Selection};

#[test]
fn field_edits_around_multibyte_characters() {
    let mut f = Field::new();
    f.insert_char('a');
    f.insert_char('é');
    f.insert_char('b');
    assert_eq!(f.text(), "aéb");
    assert_eq!(f.cursor_col(), 3);
    f.move_left();
    f.move_left();
    assert_eq!(f.cursor_col(), 1);
    f.delete_char();
    assert_eq!(f.text(), "éb");
    assert_eq!(f.cursor_col(), 0);
    f.delete_char();
    assert_eq!(f.text(), "éb");
    f.move_right();
    f.move_right();
    f.move_right();
    assert_eq!(f.cursor_col(), 2);
}

#[test]
fn typing_then_erasing_restores_the_field() {
    let mut f = Field::new();
    f.insert_char('x');
    f.insert_char('y');
    f.move_left();
    f.insert_char('ß');
    f.delete_char();
    assert_eq!(f.text(), "xy");
    assert_eq!(f.cursor_col(), 1);
}

#[test]
fn kv_focus_toggles_back() {
    assert_eq!(KvFocus::Key.toggle(), KvFocus::Value);
    assert_eq!(KvFocus::Key.toggle().toggle(), KvFocus::Key);
    assert_eq!(Focus::Internal.toggle(), Focus::External);
    assert_eq!(Focus::External.toggle().toggle(), Focus::External);
}

#[test]
fn kv_store_submits_key_and_value() {
    let mut kv = KvStore::new();
    let mut actions = ActionQueue::new();
    kv.handle_key_event(Key::Char('k'), &mut actions);
    assert_eq!(kv.key_text(), "");
    kv.set_node("p1".to_string());
    kv.handle_key_event(Key::Char('k'), &mut actions);
    kv.handle_key_event(Key::Tab, &mut actions);
    kv.handle_key_event(Key::Char('v'), &mut actions);
    kv.handle_key_event(Key::Char('w'), &mut actions);
    kv.handle_key_event(Key::Backspace, &mut actions);
    assert_eq!(kv.key_text(), "k");
    assert_eq!(kv.value_text(), "v");
    assert_eq!(actions.len(), 0);
    kv.handle_key_event(Key::Enter, &mut actions);
    assert_eq!(actions.len(), 2);
    assert!(matches!(actions.next(), Some(Action::PutRecord { peer_id, key, value }) if peer_id == "p1" && key == "k" && value == "v"));
    assert!(matches!(actions.next(), Some(Action::Popup { content: PopUpContent::NodeCommands, peer_id }) if peer_id == "p1"));
}

#[test]
fn command_menu_rows_and_escape() {
    let mut menu = NodeCommands::new();
    let mut actions = ActionQueue::new();
    menu.set_node("n".to_string());
    menu.handle_key_event(Key::Up, &mut actions);
    menu.handle_key_event(Key::Enter, &mut actions);
    assert!(matches!(actions.next(), Some(Action::DisplayManageConnections { peer_id }) if peer_id == "n"));
    for _ in 0..5 {
        menu.handle_key_event(Key::Down, &mut actions);
    }
    menu.handle_key_event(Key::Enter, &mut actions);
    assert!(matches!(actions.next(), Some(Action::StopNode { peer_id }) if peer_id == "n"));
    menu.handle_key_event(Key::Esc, &mut actions);
    assert!(matches!(actions.next(), Some(Action::ClosePopup)));
    assert!(actions.next().is_none());
}

#[test]
fn selection_moves_like_the_list_widget() {
    let mut s = Selection::none();
    s.select_next();
    assert_eq!(s.selected(), Some(0));
    let mut t = Selection::none();
    t.select_previous();
    assert_eq!(t.selected(), Some(usize::MAX));
    t.select_next();
    assert_eq!(t.selected(), Some(usize::MAX));
    let mut u = Selection::with_selected(Some(0));
    u.select_previous();
    assert_eq!(u.selected(), Some(0));
    assert_eq!(clamp(7, 3), 2);
    assert_eq!(clamp(1, 3), 1);
}

#[test]
fn peer_list_marks_connected_peers() {
    let peers = vec!["a".to_string(), "b".to_string()];
    let mut conns = StringSet::new();
    conns.insert("b".to_string());
    assert_eq!(format_peer_list(&peers, Some(&conns)), vec!["[ ] a".to_string(), "[*] b".to_string()]);
    assert_eq!(format_peer_list(&peers, None), vec!["[ ] a".to_string(), "[ ] b".to_string()]);
}

#[test]
fn kademlia_lines_list_peers_and_buckets() {
    let info = NodeKademliaInfo {
        mode: KadMode::Server,
        bootstrapped: true,
        closest_peers: vec!["x".to_string(), "y".to_string()],
        bucket_info: vec![KBucketInfo {
            range_start: Distance { w0: 0, w1: 0, w2: 0, w3: 0 },
            range_end: Distance { w0: 0, w1: 0, w2: 0, w3: 1 },
            num_entries: 12,
        }],
    };
    let lines = kademlia_info_lines(&info);
    assert_eq!(
        lines,
        vec![
            "Node Mode:", "server", "Bootstrapped:", "true", "Closest Local Peers:", "- x", "- y", "Buckets:",
            "Bucket 0 - 12 total entries",
        ]
    );
    let empty = NodeKademliaInfo { mode: KadMode::Client, bootstrapped: false, closest_peers: vec![], bucket_info: vec![] };
    assert_eq!(
        kademlia_info_lines(&empty),
        vec!["Node Mode:", "client", "Bootstrapped:", "false", "Closest Local Peers:", "None", "Buckets:", "None"]
    );
}

#[test]
fn records_list_lines_and_escape() {
    let mut list = RecordsList::new();
    list.set_records(vec![("k".to_string(), "v".to_string())]);
    assert_eq!(list.lines(), vec!["k - v".to_string()]);
    let mut actions = ActionQueue::new();
    list.handle_key_event(Key::Esc, &mut actions);
    assert_eq!(actions.len(), 0);
    list.set_node("p".to_string());
    list.handle_key_event(Key::Esc, &mut actions);
    assert!(matches!(actions.next(), Some(Action::Popup { content: PopUpContent::NodeCommands, peer_id }) if peer_id == "p"));
}

#[test]
fn log_scroll_stays_within_drawn_lines() {
    let mut log = NodeLog::new();
    log.set_len(2);
    log.handle_key_event(Key::Down);
    log.handle_key_event(Key::Down);
    log.handle_key_event(Key::Down);
    assert_eq!(log.scroll, 2);
    log.handle_key_event(Key::Up);
    assert_eq!(log.scroll, 1);
    log.handle_key_event(Key::Up);
    log.handle_key_event(Key::Up);
    assert_eq!(log.scroll, 0);
}

#[test]
fn identify_lines_show_the_peer_id_of_the_key() {
    let keys = libp2p::identity::Keypair::generate_ed25519();
    let peer = keys.public().to_peer_id().to_base58();
    let info = NodeIdentifyInfo::new(
        keys.public().encode_protobuf(),
        "/ipfs/id/1.0.0".to_string(),
        "node-network/0.1".to_string(),
        "/memory/4".to_string(),
    );
    let mut panel = IdentifyInfo::new();
    assert!(panel.lines().is_none());
    panel.on_network_event(&NetworkEvent::IdentifyInfo { info });
    let lines = panel.lines().unwrap();
    assert_eq!(
        lines,
        vec![
            "Peer Id:".to_string(),
            format!("    {peer}"),
            "Protocol Version:".to_string(),
            "    /ipfs/id/1.0.0".to_string(),
            "Agent String:".to_string(),
            "    node-network/0.1".to_string(),
            "Listen Address:".to_string(),
            "    /memory/4".to_string(),
        ]
    );
}

#[test]
fn fresh_listen_addresses_follow_the_transport() {
    let a = fresh_listen_address(TransportMode::Memory, None).unwrap();
    assert!(a.starts_with("/memory/"));
    let b = fresh_listen_address(TransportMode::Tcp, Some((127, 0, 0, 1))).unwrap();
    assert_eq!(b, "/ip4/127.0.0.1/tcp/0");
    assert!(fresh_listen_address(TransportMode::Tcp, None).is_err());
}

#[test]
fn node_log_selection_is_corrected_to_its_length() {
    let mut log = NodeLog::new();
    log.list.select(Some(9));
    log.prepare_render(3);
    assert_eq!(log.len, 3);
    assert_eq!(log.list.selected(), Some(2));
    log.prepare_render(0);
    assert_eq!(log.list.selected(), None);
}
