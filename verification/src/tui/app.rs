//! The interface's application state: which nodes and peers it knows, who is
//! connected to whom, which component has the focus, and how actions, keys
//! and network events change all of it. Sending the resulting commands to
//! the node network is left to the caller.

use indexmap::IndexSet;
use std::hash::RandomState;

use vstd::prelude::*;

use crate::events::{NetworkEvent, NetworkEventView};
use crate::graph::{graph_link, graph_unlink, PeerGraph};
use crate::history::KadMode;
use crate::messages::{
    IdentifyCommand, KademliaCommand, LifecycleCommand, NetworkCommand, NetworkCommandView, SwarmCommand,
};
use crate::network::TransportMode;
use crate::strset::StringSet;
use crate::tui::actions::{Action, ActionQueue, ActionView, Key, PopUpContent};
use crate::tui::node_box::{box_after_action, box_after_key, box_emits, NodeBox, NodeBoxView};
use crate::tui::node_list::NodeList;
use crate::tui::node_log::NodeLog;
use crate::tui::peer_set::{
    index_set_items, peer_set_contains, peer_set_insert, peer_set_new, peer_set_swap_remove,
};
use crate::tui::info_panels::{info_after_action, info_after_key, IdentifyPanelView, KademliaPanelView};
use crate::tui::kv_store::{kv_after_key, KvStoreView};
use crate::tui::manage_connections::{manage_after_action, manage_after_key, ManageView};
use crate::tui::node_commands::{commands_after_key, peer_view, MenuView};
use crate::tui::node_list::scroll_clamp;
use crate::tui::selection::{moved_down, moved_up};
use crate::tui::popup::{content_for, Popup};

verus! {

/// Which part of the interface takes the keys.
#[derive(Clone, Copy, Debug, PartialEq, Eq, Structural)]
pub enum Focus {
    NodeLog,
    NodeList,
    PopUp,
}

/// The command an action asks the node network for, if any.
pub open spec fn command_for(a: ActionView) -> Option<NetworkCommandView> {
    match a {
        ActionView::DisplayIdentifyInfo { peer_id } => Some(NetworkCommandView::GetIdentifyInfo { peer_id }),
        ActionView::DisplayKademliaInfo { peer_id } => Some(NetworkCommandView::GetKademliaInfo { peer_id }),
        ActionView::DisplayRecordsList { peer_id } => Some(NetworkCommandView::RecordsList { peer_id }),
        ActionView::ConnectTo { peer_one, peer_two } => Some(NetworkCommandView::Connect { peer_one, peer_two }),
        ActionView::AddExternalNode { peer_id, address } => Some(NetworkCommandView::AddExternal { peer_id, address }),
        ActionView::PutRecord { peer_id, key, value } => Some(NetworkCommandView::PutRecord { peer_id, key, value }),
        ActionView::DisconnectFrom { peer_one, peer_two } => Some(
            NetworkCommandView::Disconnect { peer_one, peer_two },
        ),
        ActionView::StopNode { peer_id } => Some(NetworkCommandView::Stop { peer_id }),
        ActionView::StartNode { kad_mode } => Some(NetworkCommandView::Start { kad_mode }),
        _ => None,
    }
}

/// The view of an optional command.
pub open spec fn command_view(c: Option<NetworkCommand>) -> Option<NetworkCommandView> {
    match c {
        Some(x) => Some(x@),
        None => None,
    }
}

/// Whether an action takes the focus from the node list and graph.
pub open spec fn unfocuses_list_graph(a: ActionView) -> bool {
    match a {
        ActionView::DisplayManageConnections { .. } | ActionView::DisplayInfo { .. }
        | ActionView::DisplayIdentifyInfo { .. } | ActionView::DisplayKademliaInfo { .. }
        | ActionView::DisplayRecordsList { .. } | ActionView::DisplayKvStore { .. }
        | ActionView::Popup { .. } => true,
        _ => false,
    }
}

/// Whether an action gives the focus back to the node list and graph.
pub open spec fn refocuses_list_graph(a: ActionView) -> bool {
    a is RemoveNode || a is ClosePopup
}

/// The part of the interface with the focus after an action.
pub open spec fn focus_after_action(f: Focus, a: ActionView) -> Focus {
    if refocuses_list_graph(a) {
        Focus::NodeList
    } else if a is Popup {
        Focus::PopUp
    } else {
        f
    }
}

/// The focus flag of the node list and graph after an action.
pub open spec fn list_graph_focus(old_flag: bool, a: ActionView) -> bool {
    if unfocuses_list_graph(a) {
        false
    } else if refocuses_list_graph(a) {
        true
    } else {
        old_flag
    }
}

/// The part of the interface with the focus after Tab switched it.
pub open spec fn focus_after_key(f: Focus, key: Key) -> Focus {
    if key is Tab {
        match f {
            Focus::NodeList => Focus::NodeLog,
            Focus::NodeLog => Focus::NodeList,
            Focus::PopUp => Focus::PopUp,
        }
    } else {
        f
    }
}

/// The interface's state and its components.
pub struct App {
    pub quit: bool,
    pub active_nodes: IndexSet<String, RandomState>,
    pub external_nodes: IndexSet<String, RandomState>,
    /// The nodes whose logs can be shown.
    pub node_logs: StringSet,
    pub node_connections: PeerGraph,
    pub node_box: NodeBox,
    pub node_log: NodeLog,
    pub node_list: NodeList,
    pub popup: Popup,
    pub actions: ActionQueue,
    pub focus: Focus,
    pub transport: TransportMode,
}

impl App {
    /// Nothing known yet, the node list focused.
    pub fn new(transport: TransportMode) -> (a: Self)
        ensures
            !a.quit,
            index_set_items(a.active_nodes) == Seq::<Seq<char>>::empty(),
            index_set_items(a.external_nodes) == Seq::<Seq<char>>::empty(),
            a.node_logs@ == Seq::<Seq<char>>::empty(),
            a.node_connections@ == Map::<Seq<char>, Set<Seq<char>>>::empty(),
            a.actions@ == Seq::<ActionView>::empty(),
            a.focus == Focus::NodeList,
            a.transport == transport,
            a.node_list.len == 0,
            a.node_box@.len == 0,
            a.node_log.selected is None,
            a.popup.content is None,
    {
        App {
            quit: false,
            active_nodes: peer_set_new(),
            external_nodes: peer_set_new(),
            node_logs: StringSet::new(),
            node_connections: PeerGraph::new(),
            node_box: NodeBox::new(),
            node_log: NodeLog::new(),
            node_list: NodeList::new(),
            popup: Popup::new(),
            actions: ActionQueue::new(),
            focus: Focus::NodeList,
            transport,
        }
    }

    /// Whether the external peers are shown: only over TCP.
    pub open spec fn show_external(&self) -> bool {
        self.transport == TransportMode::Tcp
    }

    fn focus_list_graph(&mut self)
        ensures
            final(self).node_list == (NodeList { focus: true, ..old(self).node_list }),
            final(self).node_box@ == (NodeBoxView { focus: true, ..old(self).node_box@ }),
            final(self).focus == Focus::NodeList,
            final(self).quit == old(self).quit,
            final(self).active_nodes == old(self).active_nodes,
            final(self).external_nodes == old(self).external_nodes,
            final(self).node_logs@ == old(self).node_logs@,
            final(self).node_connections@ == old(self).node_connections@,
            final(self).node_log == old(self).node_log,
            final(self).popup == old(self).popup,
            final(self).actions@ == old(self).actions@,
            final(self).transport == old(self).transport,
    {
        self.node_list.focus(true);
        self.node_box.focus(true);
        self.focus = Focus::NodeList;
    }

    fn unfocus_list_graph(&mut self)
        ensures
            final(self).node_list == (NodeList { focus: false, ..old(self).node_list }),
            final(self).node_box@ == (NodeBoxView { focus: false, ..old(self).node_box@ }),
            final(self).focus == old(self).focus,
            final(self).quit == old(self).quit,
            final(self).active_nodes == old(self).active_nodes,
            final(self).external_nodes == old(self).external_nodes,
            final(self).node_logs@ == old(self).node_logs@,
            final(self).node_connections@ == old(self).node_connections@,
            final(self).node_log == old(self).node_log,
            final(self).popup == old(self).popup,
            final(self).actions@ == old(self).actions@,
            final(self).transport == old(self).transport,
    {
        self.node_list.focus(false);
        self.node_box.focus(false);
    }

    /// Switches the focus between the node list with the graph and the log
    /// panel; nothing changes while the popup is open.
    pub fn switch_focus(&mut self)
        ensures
            final(self).focus == focus_after_key(old(self).focus, Key::Tab),
            final(self).node_list == match old(self).focus {
                Focus::NodeList => NodeList { focus: false, ..old(self).node_list },
                Focus::NodeLog => NodeList { focus: true, ..old(self).node_list },
                Focus::PopUp => old(self).node_list,
            },
            final(self).node_box@ == match old(self).focus {
                Focus::NodeList => NodeBoxView { focus: false, ..old(self).node_box@ },
                Focus::NodeLog => NodeBoxView { focus: true, ..old(self).node_box@ },
                Focus::PopUp => old(self).node_box@,
            },
            final(self).node_log.focus == match old(self).focus {
                Focus::NodeList => true,
                Focus::NodeLog => false,
                Focus::PopUp => old(self).node_log.focus,
            },
            final(self).node_log.selected == old(self).node_log.selected,
            final(self).node_log.list == old(self).node_log.list,
            final(self).node_log.scroll == old(self).node_log.scroll,
            final(self).node_log.len == old(self).node_log.len,
            final(self).quit == old(self).quit,
            final(self).active_nodes == old(self).active_nodes,
            final(self).external_nodes == old(self).external_nodes,
            final(self).node_logs@ == old(self).node_logs@,
            final(self).node_connections@ == old(self).node_connections@,
            final(self).popup == old(self).popup,
            final(self).actions@ == old(self).actions@,
            final(self).transport == old(self).transport,
    {
        match self.focus {
            Focus::NodeList => {
                self.unfocus_list_graph();
                self.node_log.focus(true);
                self.focus = Focus::NodeLog;
            },
            Focus::NodeLog => {
                self.focus_list_graph();
                self.node_log.focus(false);
            },
            Focus::PopUp => {},
        }
    }

    /// Asks the application to stop.
    pub fn exit(&mut self)
        ensures
            final(self).quit,
            final(self).focus == old(self).focus,
            final(self).actions@ == old(self).actions@,
            final(self).active_nodes == old(self).active_nodes,
            final(self).external_nodes == old(self).external_nodes,
            final(self).node_logs@ == old(self).node_logs@,
            final(self).node_connections@ == old(self).node_connections@,
            final(self).node_list == old(self).node_list,
            final(self).node_box@ == old(self).node_box@,
            final(self).node_log == old(self).node_log,
            final(self).popup == old(self).popup,
            final(self).transport == old(self).transport,
    {
        self.quit = true;
    }

    /// Takes the next pending action.
    pub fn next_action(&mut self) -> (a: Option<Action>)
        ensures
            match a {
                Some(x) => old(self).actions@.len() > 0 && x@ == old(self).actions@[0]
                    && final(self).actions@ == old(self).actions@.drop_first(),
                None => old(self).actions@.len() == 0 && final(self).actions@ == old(self).actions@,
            },
            final(self).quit == old(self).quit,
            final(self).focus == old(self).focus,
            final(self).active_nodes == old(self).active_nodes,
            final(self).external_nodes == old(self).external_nodes,
            final(self).node_list == old(self).node_list,
            final(self).node_box@ == old(self).node_box@,
            final(self).node_log == old(self).node_log,
            final(self).node_logs@ == old(self).node_logs@,
            final(self).node_connections@ == old(self).node_connections@,
            final(self).transport == old(self).transport,
    {
        self.actions.next()
    }

    /// Whether the components can take `action`.
    pub open spec fn accepts_action(&self, action: ActionView) -> bool {
        &&& self.node_box.accepts_action(action, index_set_items(self.active_nodes))
        &&& self.node_list.accepts_action(action, index_set_items(self.active_nodes))
    }

    /// Whether the components can take `action`.
    pub fn can_take(&self, action: &Action) -> (b: bool)
        ensures
            b == self.accepts_action(action@),
    {
        let active = crate::tui::peer_set::peer_set_len(&self.active_nodes);
        match action {
            Action::AddNode { .. } => {
                self.node_box.len() < usize::MAX && self.node_list.len < usize::MAX && (
                self.node_box.selected().is_some() || active > 0) && (self.node_list.internal.selected().is_some()
                    || active > 0)
            },
            Action::RemoveNode { .. } => self.node_box.len() > 0 && self.node_list.len > 0,
            _ => true,
        }
    }

    /// Performs an action: updates the focus and the log panel, queues what
    /// follows from it, and hands it to the graph, the list and the popup.
    /// Returns the command to send to the node network, if the action asks
    /// for one.
    pub fn update(&mut self, action: Action) -> (cmd: Option<NetworkCommand>)
        requires
            old(self).accepts_action(action@),
        ensures
            command_view(cmd) == command_for(action@),
            final(self).quit == (old(self).quit || action@ is Quit),
            final(self).focus == focus_after_action(old(self).focus, action@),
            final(self).node_list == (NodeList {
                focus: list_graph_focus(old(self).node_list.focus, action@),
                ..old(self).node_list
            }).after_action(action@),
            final(self).node_box@ == box_after_action(
                NodeBoxView { focus: list_graph_focus(old(self).node_box@.focus, action@), ..old(self).node_box@ },
                action@,
                index_set_items(old(self).active_nodes),
            ),
            peer_view(final(self).node_log.selected) == match action@ {
                ActionView::DisplayLogs { peer_id } => if old(self).node_logs@.contains(peer_id) {
                    Some(peer_id)
                } else {
                    peer_view(old(self).node_log.selected)
                },
                _ => peer_view(old(self).node_log.selected),
            },
            final(self).node_log.focus == old(self).node_log.focus,
            final(self).node_log.list == old(self).node_log.list,
            final(self).node_log.scroll == old(self).node_log.scroll,
            final(self).node_log.len == old(self).node_log.len,
            final(self).popup.content == match action@ {
                ActionView::Popup { content, .. } => Some(content),
                _ => match content_for(action@) {
                    Some(c) => Some(c),
                    None => old(self).popup.content,
                },
            },
            action@ matches ActionView::Popup { peer_id, .. } ==> {
                &&& peer_view(final(self).popup.node) == Some(peer_id)
                &&& final(self).popup.node_commands@ == (MenuView { node: Some(peer_id), ..old(self).popup.node_commands@ })
                &&& final(self).popup.node_info@ == (MenuView { node: Some(peer_id), ..old(self).popup.node_info@ })
                &&& final(self).popup.identify_info@ == (IdentifyPanelView { node: Some(peer_id), ..old(self).popup.identify_info@ })
                &&& final(self).popup.kademlia_info@ == (KademliaPanelView { node: Some(peer_id), ..old(self).popup.kademlia_info@ })
                &&& final(self).popup.manage_connections@ == (ManageView { node: Some(peer_id), ..old(self).popup.manage_connections@ })
                &&& final(self).popup.kv_store@ == (KvStoreView { node: Some(peer_id), ..old(self).popup.kv_store@ })
            },
            !(action@ is Popup) ==> {
                &&& final(self).popup.node == old(self).popup.node
                &&& final(self).popup.node_commands@ == old(self).popup.node_commands@
                &&& final(self).popup.node_info@ == info_after_action(old(self).popup.node_info@, action@)
                &&& final(self).popup.identify_info@ == old(self).popup.identify_info@
                &&& final(self).popup.kademlia_info@ == old(self).popup.kademlia_info@
                &&& final(self).popup.manage_connections@ == manage_after_action(old(self).popup.manage_connections@, action@)
                &&& final(self).popup.kv_store@ == old(self).popup.kv_store@
            },
            final(self).actions@ == old(self).actions@ + (if action@ is RemoveNode {
                seq![ActionView::ClosePopup]
            } else {
                Seq::<ActionView>::empty()
            }) + box_emits(old(self).node_box@, action@, index_set_items(old(self).active_nodes))
                + old(self).node_list.action_emits(action@, index_set_items(old(self).active_nodes)),
            final(self).active_nodes == old(self).active_nodes,
            final(self).external_nodes == old(self).external_nodes,
            final(self).node_logs@ == old(self).node_logs@,
            final(self).node_connections@ == old(self).node_connections@,
            final(self).transport == old(self).transport,
    {
        let mut cmd: Option<NetworkCommand> = None;
        match &action {
            Action::Quit => {
                self.quit = true;
            },
            Action::DisplayLogs { peer_id } => {
                if self.node_logs.contains(peer_id) {
                    self.node_log.display_logs(peer_id.clone());
                }
            },
            Action::DisplayManageConnections { .. } | Action::DisplayInfo { .. } | Action::DisplayKvStore {
                ..
            } => {
                self.unfocus_list_graph();
            },
            Action::DisplayIdentifyInfo { peer_id } => {
                cmd = Some(NetworkCommand::Identify(IdentifyCommand::GetInfo { peer_id: peer_id.clone() }));
                self.unfocus_list_graph();
            },
            Action::DisplayKademliaInfo { peer_id } => {
                cmd = Some(NetworkCommand::Kademlia(KademliaCommand::GetInfo { peer_id: peer_id.clone() }));
                self.unfocus_list_graph();
            },
            Action::DisplayRecordsList { peer_id } => {
                cmd = Some(NetworkCommand::Kademlia(KademliaCommand::RecordsList { peer_id: peer_id.clone() }));
                self.unfocus_list_graph();
            },
            Action::ConnectTo { peer_one, peer_two } => {
                cmd = Some(
                    NetworkCommand::Swarm(
                        SwarmCommand::Connect { peer_one: peer_one.clone(), peer_two: peer_two.clone() },
                    ),
                );
            },
            Action::AddExternalNode { peer_id, address } => {
                cmd = Some(
                    NetworkCommand::Lifecycle(
                        LifecycleCommand::AddExternal { peer_id: peer_id.clone(), address: address.clone() },
                    ),
                );
            },
            Action::PutRecord { peer_id, key, value } => {
                cmd = Some(
                    NetworkCommand::Kademlia(
                        KademliaCommand::PutRecord {
                            peer_id: peer_id.clone(),
                            key: key.clone(),
                            value: value.clone(),
                        },
                    ),
                );
            },
            Action::DisconnectFrom { peer_one, peer_two } => {
                cmd = Some(
                    NetworkCommand::Swarm(
                        SwarmCommand::Disconnect { peer_one: peer_one.clone(), peer_two: peer_two.clone() },
                    ),
                );
            },
            Action::StopNode { peer_id } => {
                cmd = Some(NetworkCommand::Lifecycle(LifecycleCommand::Stop { peer_id: peer_id.clone() }));
            },
            Action::RemoveNode { .. } => {
                self.focus_list_graph();
                self.actions.push(Action::ClosePopup);
            },
            Action::StartNode { kad_mode } => {
                cmd = Some(NetworkCommand::Lifecycle(LifecycleCommand::Start { kad_mode: *kad_mode }));
            },
            Action::ClosePopup => {
                self.focus_list_graph();
            },
            Action::Popup { content, peer_id } => {
                self.popup.set_content(*content);
                self.popup.set_node(peer_id.clone());
                self.focus = Focus::PopUp;
                self.unfocus_list_graph();
            },
            _ => {},
        }
        let ghost mid = self.actions@;
        self.node_box.update(&action, &mut self.actions, &self.active_nodes);
        self.node_list.update(&action, &mut self.actions, &self.active_nodes);
        self.popup.update(&action);
        cmd
    }

    /// Updates what the application knows from a network event: nodes that
    /// run or stop, peers discovered, connections made or closed; queues the
    /// matching actions.
    pub fn update_app_state_from_event(&mut self, event: &NetworkEvent)
        ensures
            final(self).quit == old(self).quit,
            final(self).focus == old(self).focus,
            final(self).node_list == old(self).node_list,
            final(self).node_box@ == old(self).node_box@,
            final(self).node_log == old(self).node_log,
            final(self).popup == old(self).popup,
            final(self).transport == old(self).transport,
            final(self).node_logs.set() == match event@ {
                NetworkEventView::NodeRunning { peer_id, .. } => old(self).node_logs.set().insert(peer_id),
                NetworkEventView::NodeStopped { peer_id } => old(self).node_logs.set().remove(peer_id),
                _ => old(self).node_logs.set(),
            },
            match event@ {
                NetworkEventView::NodeRunning { peer_id, .. } => index_set_items(final(self).active_nodes) == if index_set_items(old(self).active_nodes).contains(peer_id) {
                    index_set_items(old(self).active_nodes)
                } else {
                    index_set_items(old(self).active_nodes).push(peer_id)
                },
                NetworkEventView::NodeStopped { peer_id } => swap_removed(
                    index_set_items(old(self).active_nodes),
                    index_set_items(final(self).active_nodes),
                    peer_id,
                ),
                _ => index_set_items(final(self).active_nodes) == index_set_items(old(self).active_nodes),
            },
            match event@ {
                NetworkEventView::NodeRunning { peer_id, .. } => index_set_items(final(self).active_nodes).contains(
                    peer_id,
                ) && index_set_items(final(self).active_nodes).no_duplicates(),
                NetworkEventView::NodeStopped { peer_id } => !index_set_items(final(self).active_nodes).contains(
                    peer_id,
                ) && index_set_items(final(self).active_nodes).no_duplicates(),
                _ => true,
            },
            index_set_items(final(self).external_nodes) == match event@ {
                NetworkEventView::NodeDiscovered { peer_id } => if discovers(
                    index_set_items(old(self).external_nodes),
                    index_set_items(old(self).active_nodes),
                    peer_id,
                ) {
                    index_set_items(old(self).external_nodes).push(peer_id)
                } else {
                    index_set_items(old(self).external_nodes)
                },
                _ => index_set_items(old(self).external_nodes),
            },
            final(self).node_connections@ == match event@ {
                NetworkEventView::NodeRunning { peer_id, .. } => old(self).node_connections@.insert(
                    peer_id,
                    Set::empty(),
                ),
                NetworkEventView::NodesConnected { peer_one, peer_two } => graph_link(
                    graph_link(old(self).node_connections@, peer_one, peer_two),
                    peer_two,
                    peer_one,
                ),
                NetworkEventView::NodesDisconnected { peer_one, peer_two } => graph_unlink(
                    graph_unlink(old(self).node_connections@, peer_one, peer_two),
                    peer_two,
                    peer_one,
                ),
                _ => old(self).node_connections@,
            },
            final(self).actions@ == match event@ {
                NetworkEventView::NodeRunning { peer_id, mode } => old(self).actions@.push(
                    ActionView::AddNode { peer_id, mode },
                ),
                NetworkEventView::NodeStopped { peer_id } => old(self).actions@.push(ActionView::RemoveNode { peer_id }),
                NetworkEventView::NodesConnected { peer_one, peer_two } => old(self).actions@.push(
                    ActionView::UpdateConnections { peer_one, peer_two },
                ),
                NetworkEventView::NodeDiscovered { peer_id } => if discovers(
                    index_set_items(old(self).external_nodes),
                    index_set_items(old(self).active_nodes),
                    peer_id,
                ) {
                    old(self).actions@.push(ActionView::AddExternalNode { peer_id, address: Seq::empty() })
                } else {
                    old(self).actions@
                },
                _ => old(self).actions@,
            },
    {
        match event {
            NetworkEvent::NodeRunning { peer_id, mode } => {
                self.node_logs.insert(peer_id.clone());
                peer_set_insert(&mut self.active_nodes, peer_id.clone());
                self.node_connections.reset(peer_id.clone());
                self.actions.push(Action::AddNode { peer_id: peer_id.clone(), mode: *mode });
            },
            NetworkEvent::NodeStopped { peer_id } => {
                self.node_logs.remove(peer_id);
                peer_set_swap_remove(&mut self.active_nodes, peer_id);
                self.actions.push(Action::RemoveNode { peer_id: peer_id.clone() });
            },
            NetworkEvent::NodesConnected { peer_one, peer_two } => {
                self.node_connections.link(peer_one.clone(), peer_two.clone());
                self.node_connections.link(peer_two.clone(), peer_one.clone());
                self.actions.push(
                    Action::UpdateConnections { peer_one: peer_one.clone(), peer_two: peer_two.clone() },
                );
            },
            NetworkEvent::NodeDiscovered { peer_id } => {
                let already_added = peer_set_contains(&self.external_nodes, peer_id) || peer_set_contains(
                    &self.active_nodes,
                    peer_id,
                );
                if !already_added {
                    peer_set_insert(&mut self.external_nodes, peer_id.clone());
                    let address = String::new();
                    proof {
                        assert(address@ =~= Seq::<char>::empty());
                    }
                    self.actions.push(Action::AddExternalNode { peer_id: peer_id.clone(), address });
                }
            },
            NetworkEvent::NodesDisconnected { peer_one, peer_two } => {
                self.node_connections.unlink(peer_one, peer_two);
                self.node_connections.unlink(peer_two, peer_one);
            },
            _ => {},
        }
    }

    /// Handles a network event: the application's own state first, then the
    /// popup's identify and Kademlia views.
    pub fn handle_network_event(&mut self, event: NetworkEvent)
        ensures
            final(self).popup.identify_info@ == match event@ {
                NetworkEventView::IdentifyInfo { info } => IdentifyPanelView {
                    info: Some(info),
                    ..old(self).popup.identify_info@
                },
                _ => old(self).popup.identify_info@,
            },
            final(self).popup.kademlia_info@ == match event@ {
                NetworkEventView::KademliaInfo { info } => KademliaPanelView {
                    info: Some(info),
                    ..old(self).popup.kademlia_info@
                },
                _ => old(self).popup.kademlia_info@,
            },
            final(self).node_logs.set() == match event@ {
                NetworkEventView::NodeRunning { peer_id, .. } => old(self).node_logs.set().insert(peer_id),
                NetworkEventView::NodeStopped { peer_id } => old(self).node_logs.set().remove(peer_id),
                _ => old(self).node_logs.set(),
            },
            match event@ {
                NetworkEventView::NodeRunning { peer_id, .. } => index_set_items(final(self).active_nodes) == if index_set_items(old(self).active_nodes).contains(peer_id) {
                    index_set_items(old(self).active_nodes)
                } else {
                    index_set_items(old(self).active_nodes).push(peer_id)
                },
                NetworkEventView::NodeStopped { peer_id } => swap_removed(
                    index_set_items(old(self).active_nodes),
                    index_set_items(final(self).active_nodes),
                    peer_id,
                ),
                _ => index_set_items(final(self).active_nodes) == index_set_items(old(self).active_nodes),
            },
            match event@ {
                NetworkEventView::NodeRunning { peer_id, .. } => index_set_items(final(self).active_nodes).contains(
                    peer_id,
                ) && index_set_items(final(self).active_nodes).no_duplicates(),
                NetworkEventView::NodeStopped { peer_id } => !index_set_items(final(self).active_nodes).contains(
                    peer_id,
                ) && index_set_items(final(self).active_nodes).no_duplicates(),
                _ => true,
            },
            index_set_items(final(self).external_nodes) == match event@ {
                NetworkEventView::NodeDiscovered { peer_id } => if discovers(
                    index_set_items(old(self).external_nodes),
                    index_set_items(old(self).active_nodes),
                    peer_id,
                ) {
                    index_set_items(old(self).external_nodes).push(peer_id)
                } else {
                    index_set_items(old(self).external_nodes)
                },
                _ => index_set_items(old(self).external_nodes),
            },
            final(self).node_connections@ == match event@ {
                NetworkEventView::NodeRunning { peer_id, .. } => old(self).node_connections@.insert(
                    peer_id,
                    Set::empty(),
                ),
                NetworkEventView::NodesConnected { peer_one, peer_two } => graph_link(
                    graph_link(old(self).node_connections@, peer_one, peer_two),
                    peer_two,
                    peer_one,
                ),
                NetworkEventView::NodesDisconnected { peer_one, peer_two } => graph_unlink(
                    graph_unlink(old(self).node_connections@, peer_one, peer_two),
                    peer_two,
                    peer_one,
                ),
                _ => old(self).node_connections@,
            },
            final(self).actions@ == match event@ {
                NetworkEventView::NodeRunning { peer_id, mode } => old(self).actions@.push(
                    ActionView::AddNode { peer_id, mode },
                ),
                NetworkEventView::NodeStopped { peer_id } => old(self).actions@.push(ActionView::RemoveNode { peer_id }),
                NetworkEventView::NodesConnected { peer_one, peer_two } => old(self).actions@.push(
                    ActionView::UpdateConnections { peer_one, peer_two },
                ),
                NetworkEventView::NodeDiscovered { peer_id } => if discovers(
                    index_set_items(old(self).external_nodes),
                    index_set_items(old(self).active_nodes),
                    peer_id,
                ) {
                    old(self).actions@.push(ActionView::AddExternalNode { peer_id, address: Seq::empty() })
                } else {
                    old(self).actions@
                },
                _ => old(self).actions@,
            },
            final(self).focus == old(self).focus,
            final(self).quit == old(self).quit,
            final(self).transport == old(self).transport,
            final(self).node_list == old(self).node_list,
            final(self).node_box@ == old(self).node_box@,
            final(self).node_log == old(self).node_log,
            final(self).popup.content == old(self).popup.content,
            final(self).popup.node == old(self).popup.node,
            final(self).popup.node_commands@ == old(self).popup.node_commands@,
            final(self).popup.node_info@ == old(self).popup.node_info@,
            final(self).popup.manage_connections@ == old(self).popup.manage_connections@,
            final(self).popup.kv_store@ == old(self).popup.kv_store@,
    {
        self.update_app_state_from_event(&event);
        self.popup.on_network_event(&event);
    }

    /// Whether the part of the interface that gets `key` can take it.
    pub open spec fn accepts_key(&self, key: Key) -> bool {
        match focus_after_key(self.focus, key) {
            Focus::NodeList => self.node_list.accepts(key, index_set_items(self.active_nodes)) && self.node_box.accepts(
                key,
                index_set_items(self.active_nodes),
            ),
            Focus::NodeLog => self.node_log.accepts(key),
            Focus::PopUp => self.popup.accepts(key),
        }
    }

    /// Whether the part of the interface that gets `key` can take it.
    pub fn takes_key(&self, key: Key) -> (b: bool)
        ensures
            b == self.accepts_key(key),
    {
        let focus = if let Key::Tab = key {
            match self.focus {
                Focus::NodeList => Focus::NodeLog,
                Focus::NodeLog => Focus::NodeList,
                Focus::PopUp => Focus::PopUp,
            }
        } else {
            self.focus
        };
        match focus {
            Focus::NodeList => self.node_list.takes(key, &self.active_nodes) && self.node_box.takes(
                key,
                &self.active_nodes,
            ),
            Focus::NodeLog => self.node_log.takes(key),
            Focus::PopUp => self.popup.takes(key),
        }
    }

    /// `q` quits and Tab switches the focus; then the key goes to the part
    /// of the interface with the focus: the node list and the graph, the log
    /// panel, or the popup.
    pub fn handle_key_event(&mut self, key: Key)
        requires
            old(self).accepts_key(key),
        ensures
            final(self).quit == (old(self).quit || key == Key::Char('q')),
            final(self).focus == focus_after_key(old(self).focus, key),
            final(self).active_nodes == old(self).active_nodes,
            final(self).external_nodes == old(self).external_nodes,
            final(self).node_logs@ == old(self).node_logs@,
            final(self).node_connections@ == old(self).node_connections@,
            final(self).transport == old(self).transport,
            final(self).actions@ == old(self).actions@ + match focus_after_key(old(self).focus, key) {
                Focus::NodeList => old(self).node_list.emits(key, index_set_items(old(self).active_nodes)),
                Focus::NodeLog => Seq::<ActionView>::empty(),
                Focus::PopUp => old(self).popup.emits(
                    key,
                    index_set_items(old(self).active_nodes),
                    index_set_items(old(self).external_nodes),
                    old(self).show_external(),
                ),
            },
            focus_after_key(old(self).focus, key) == Focus::NodeList ==> {
                &&& final(self).node_list == (NodeList {
                    focus: if key is Tab { true } else { old(self).node_list.focus },
                    ..old(self).node_list
                }).after_key(key, index_set_items(old(self).active_nodes), index_set_items(old(self).external_nodes))
                &&& final(self).node_box@ == box_after_key(
                    NodeBoxView { focus: if key is Tab { true } else { old(self).node_box@.focus }, ..old(self).node_box@ },
                    key,
                    index_set_items(old(self).active_nodes),
                    index_set_items(old(self).external_nodes),
                )
            },
            focus_after_key(old(self).focus, key) == Focus::NodeList ==> {
                &&& final(self).node_log == (NodeLog {
                    focus: if key is Tab { false } else { old(self).node_log.focus },
                    ..old(self).node_log
                })
                &&& final(self).popup == old(self).popup
            },
            focus_after_key(old(self).focus, key) == Focus::NodeLog ==> {
                &&& final(self).node_list == (NodeList {
                    focus: if key is Tab { false } else { old(self).node_list.focus },
                    ..old(self).node_list
                })
                &&& final(self).node_box@ == (NodeBoxView {
                    focus: if key is Tab { false } else { old(self).node_box@.focus },
                    ..old(self).node_box@
                })
                &&& final(self).node_log.focus == if key is Tab { true } else { old(self).node_log.focus }
                &&& final(self).node_log.selected == old(self).node_log.selected
                &&& final(self).node_log.len == old(self).node_log.len
                &&& final(self).node_log.list.selected == match key {
                    Key::Up => moved_up(old(self).node_log.list.selected),
                    Key::Down => moved_down(old(self).node_log.list.selected),
                    _ => old(self).node_log.list.selected,
                }
                &&& final(self).node_log.scroll == match key {
                    Key::Up => scroll_clamp(
                        if old(self).node_log.scroll == 0 { 0 } else { old(self).node_log.scroll - 1 },
                        old(self).node_log.len as nat,
                    ),
                    Key::Down => scroll_clamp(old(self).node_log.scroll + 1, old(self).node_log.len as nat),
                    _ => old(self).node_log.scroll,
                }
                &&& final(self).popup == old(self).popup
            },
            focus_after_key(old(self).focus, key) == Focus::PopUp ==> {
                &&& final(self).node_list == old(self).node_list
                &&& final(self).node_box@ == old(self).node_box@
                &&& final(self).node_log == old(self).node_log
                &&& final(self).popup.content == old(self).popup.content
                &&& final(self).popup.node == old(self).popup.node
                &&& final(self).popup.node_commands@ == if old(self).popup.content == Some(PopUpContent::NodeCommands) {
                    commands_after_key(old(self).popup.node_commands@, key)
                } else {
                    old(self).popup.node_commands@
                }
                &&& final(self).popup.node_info@ == if old(self).popup.content == Some(PopUpContent::NodeInfo) {
                    info_after_key(old(self).popup.node_info@, key)
                } else {
                    old(self).popup.node_info@
                }
                &&& final(self).popup.manage_connections@ == if old(self).popup.content == Some(
                    PopUpContent::ManageConnections,
                ) {
                    manage_after_key(old(self).popup.manage_connections@, key, old(self).show_external())
                } else {
                    old(self).popup.manage_connections@
                }
                &&& final(self).popup.kv_store@ == if old(self).popup.content == Some(PopUpContent::KvStore) {
                    kv_after_key(old(self).popup.kv_store@, key)
                } else {
                    old(self).popup.kv_store@
                }
                &&& final(self).popup.identify_info@ == old(self).popup.identify_info@
                &&& final(self).popup.kademlia_info@ == old(self).popup.kademlia_info@
            },
    {
        if key == Key::Char('q') {
            self.exit();
        } else if let Key::Tab = key {
            self.switch_focus();
        }
        let show_external = match self.transport {
            TransportMode::Tcp => true,
            TransportMode::Memory => false,
        };
        match self.focus {
            Focus::NodeList => {
                self.node_list.handle_key_event(key, &mut self.actions, &self.active_nodes, &self.external_nodes);
                self.node_box.handle_key_event(key, &self.active_nodes, &self.external_nodes);
            },
            Focus::NodeLog => {
                self.node_log.handle_key_event(key);
                assert(old(self).actions@ + Seq::<ActionView>::empty() =~= old(self).actions@);
            },
            Focus::PopUp => {
                self.popup.handle_key_event(key, &mut self.actions, &self.active_nodes, &self.external_nodes, show_external);
            },
        }
    }
}

/// `after` is `before` with `p` taken out by moving the last item into its
/// place, or `before` itself when `p` is not in it.
pub open spec fn swap_removed(before: Seq<Seq<char>>, after: Seq<Seq<char>>, p: Seq<char>) -> bool {
    &&& before.contains(p) ==> exists|i: int|
        0 <= i < before.len() && before[i] == p && after == before.update(i, before.last()).drop_last()
    &&& !before.contains(p) ==> after == before
}

/// Whether a discovered peer is new: neither an external peer already nor a
/// running node.
pub open spec fn discovers(external: Seq<Seq<char>>, active: Seq<Seq<char>>, p: Seq<char>) -> bool {
    !external.contains(p) && !active.contains(p)
}

} // verus!
