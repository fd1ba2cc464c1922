//! The popup: which content it shows, for which node, and the routing of
//! keys, actions and events to that content.

use indexmap::IndexSet;
use std::hash::RandomState;

use vstd::prelude::*;

use crate::events::{NetworkEvent, NetworkEventView};
use crate::tui::actions::{Action, ActionQueue, ActionView, Key, PopUpContent};
use crate::tui::info_panels::{
    info_after_action, info_after_key, info_emits, panel_emits, IdentifyInfo, IdentifyPanelView,
    KademliaInfo, KademliaPanelView, NodeInfo,
};
use crate::tui::kv_store::{kv_after_key, kv_emits, KvStore, KvStoreView};
use crate::tui::manage_connections::{manage_after_action, manage_after_key, manage_emits, ManageConnections};
use crate::tui::node_commands::{commands_after_key, commands_emits, peer_view, MenuView, NodeCommands};
use crate::tui::peer_set::index_set_items;

verus! {

/// The content a display request opens, if it is one.
pub open spec fn content_for(a: ActionView) -> Option<PopUpContent> {
    match a {
        ActionView::DisplayManageConnections { .. } => Some(PopUpContent::ManageConnections),
        ActionView::DisplayInfo { .. } => Some(PopUpContent::NodeInfo),
        ActionView::DisplayIdentifyInfo { .. } => Some(PopUpContent::IdentifyInfo),
        ActionView::DisplayKademliaInfo { .. } => Some(PopUpContent::KademliaInfo),
        ActionView::DisplayKvStore { .. } => Some(PopUpContent::KvStore),
        _ => None,
    }
}

/// The popup and the components it can show.
pub struct Popup {
    pub node: Option<String>,
    pub content: Option<PopUpContent>,
    pub node_commands: NodeCommands,
    pub node_info: NodeInfo,
    pub identify_info: IdentifyInfo,
    pub kademlia_info: KademliaInfo,
    pub manage_connections: ManageConnections,
    pub kv_store: KvStore,
}

impl Popup {
    /// No node and no content.
    pub fn new() -> (p: Self)
        ensures
            p.node is None,
            p.content is None,
            p.node_commands@.node is None,
            p.node_info@.node is None,
            p.identify_info@.node is None,
            p.kademlia_info@.node is None,
            p.manage_connections@.node is None,
            p.kv_store@.node is None,
    {
        Popup {
            node: None,
            content: None,
            node_commands: NodeCommands::new(),
            node_info: NodeInfo::new(),
            identify_info: IdentifyInfo::new(),
            kademlia_info: KademliaInfo::new(),
            manage_connections: ManageConnections::new(),
            kv_store: KvStore::new(),
        }
    }

    /// Sets the node of the popup and of every component in it.
    pub fn set_node(&mut self, node: String)
        ensures
            peer_view(final(self).node) == Some(node@),
            final(self).content == old(self).content,
            final(self).node_commands@ == (MenuView { node: Some(node@), ..old(self).node_commands@ }),
            final(self).node_info@ == (MenuView { node: Some(node@), ..old(self).node_info@ }),
            final(self).identify_info@ == (IdentifyPanelView { node: Some(node@), ..old(self).identify_info@ }),
            final(self).kademlia_info@ == (KademliaPanelView { node: Some(node@), ..old(self).kademlia_info@ }),
            final(self).manage_connections@ == (crate::tui::manage_connections::ManageView {
                node: Some(node@),
                ..old(self).manage_connections@
            }),
            final(self).kv_store@ == (KvStoreView { node: Some(node@), ..old(self).kv_store@ }),
    {
        self.node = Some(node.clone());
        self.node_commands.set_node(node.clone());
        self.manage_connections.set_node(node.clone());
        self.node_info.set_node(node.clone());
        self.identify_info.set_node(node.clone());
        self.kademlia_info.set_node(node.clone());
        self.kv_store.set_node(node);
    }

    /// Sets what the popup shows.
    pub fn set_content(&mut self, content: PopUpContent)
        ensures
            final(self).content == Some(content),
            final(self).node == old(self).node,
            final(self).node_commands@ == old(self).node_commands@,
            final(self).node_info@ == old(self).node_info@,
            final(self).identify_info@ == old(self).identify_info@,
            final(self).kademlia_info@ == old(self).kademlia_info@,
            final(self).manage_connections@ == old(self).manage_connections@,
            final(self).kv_store@ == old(self).kv_store@,
    {
        self.content = Some(content);
    }

    /// A display request switches the content; the node-info menu and the
    /// connections popup take their node from the request.
    pub fn update(&mut self, action: &Action)
        ensures
            final(self).content == match content_for(action@) {
                Some(c) => Some(c),
                None => old(self).content,
            },
            final(self).node == old(self).node,
            final(self).node_commands@ == old(self).node_commands@,
            final(self).node_info@ == info_after_action(old(self).node_info@, action@),
            final(self).identify_info@ == old(self).identify_info@,
            final(self).kademlia_info@ == old(self).kademlia_info@,
            final(self).manage_connections@ == manage_after_action(old(self).manage_connections@, action@),
            final(self).kv_store@ == old(self).kv_store@,
    {
        match action {
            Action::DisplayManageConnections { .. } => self.set_content(PopUpContent::ManageConnections),
            Action::DisplayInfo { .. } => self.set_content(PopUpContent::NodeInfo),
            Action::DisplayIdentifyInfo { .. } => self.set_content(PopUpContent::IdentifyInfo),
            Action::DisplayKademliaInfo { .. } => self.set_content(PopUpContent::KademliaInfo),
            Action::DisplayKvStore { .. } => self.set_content(PopUpContent::KvStore),
            _ => {},
        }
        self.node_info.update(action);
        self.manage_connections.update(action);
    }

    /// Whether the shown content can take `key`.
    pub open spec fn accepts(&self, key: Key) -> bool {
        match self.content {
            Some(PopUpContent::NodeCommands) => self.node_commands.accepts(key),
            Some(PopUpContent::IdentifyInfo) => self.identify_info.accepts(key),
            Some(PopUpContent::KademliaInfo) => self.kademlia_info.accepts(key),
            Some(PopUpContent::KvStore) => self.kv_store.accepts(key),
            _ => true,
        }
    }

    /// Whether the shown content can take `key`.
    pub fn takes(&self, key: Key) -> (b: bool)
        ensures
            b == self.accepts(key),
    {
        match self.content {
            Some(PopUpContent::NodeCommands) => self.node_commands.takes(key),
            Some(PopUpContent::IdentifyInfo) => self.identify_info.takes(key),
            Some(PopUpContent::KademliaInfo) => self.kademlia_info.takes(key),
            Some(PopUpContent::KvStore) => self.kv_store.takes(key),
            _ => true,
        }
    }

    /// The actions the shown content queues on `key`.
    pub open spec fn emits(
        &self,
        key: Key,
        active: Seq<Seq<char>>,
        external: Seq<Seq<char>>,
        show_external: bool,
    ) -> Seq<ActionView> {
        match self.content {
            Some(PopUpContent::NodeCommands) => commands_emits(self.node_commands@, key),
            Some(PopUpContent::ManageConnections) => manage_emits(
                self.manage_connections@,
                key,
                active,
                external,
                show_external,
            ),
            Some(PopUpContent::NodeInfo) => info_emits(self.node_info@, key),
            Some(PopUpContent::KvStore) => kv_emits(self.kv_store@, key),
            Some(PopUpContent::IdentifyInfo) => panel_emits(self.identify_info@.node, key),
            Some(PopUpContent::KademliaInfo) => panel_emits(self.kademlia_info@.node, key),
            None => Seq::<ActionView>::empty(),
        }
    }

    /// Hands `key` to the shown content.
    pub fn handle_key_event(
        &mut self,
        key: Key,
        actions: &mut ActionQueue,
        active_nodes: &IndexSet<String, RandomState>,
        external_nodes: &IndexSet<String, RandomState>,
        show_external: bool,
    )
        requires
            old(self).accepts(key),
        ensures
            final(self).node == old(self).node,
            final(self).content == old(self).content,
            final(self).node_commands@ == if old(self).content == Some(PopUpContent::NodeCommands) {
                commands_after_key(old(self).node_commands@, key)
            } else {
                old(self).node_commands@
            },
            final(self).node_info@ == if old(self).content == Some(PopUpContent::NodeInfo) {
                info_after_key(old(self).node_info@, key)
            } else {
                old(self).node_info@
            },
            final(self).manage_connections@ == if old(self).content == Some(PopUpContent::ManageConnections) {
                manage_after_key(old(self).manage_connections@, key, show_external)
            } else {
                old(self).manage_connections@
            },
            final(self).kv_store@ == if old(self).content == Some(PopUpContent::KvStore) {
                kv_after_key(old(self).kv_store@, key)
            } else {
                old(self).kv_store@
            },
            final(self).identify_info@ == old(self).identify_info@,
            final(self).kademlia_info@ == old(self).kademlia_info@,
            final(actions)@ == old(actions)@ + old(self).emits(
                key,
                index_set_items(*active_nodes),
                index_set_items(*external_nodes),
                show_external,
            ),
    {
        match self.content {
            Some(PopUpContent::NodeCommands) => self.node_commands.handle_key_event(key, actions),
            Some(PopUpContent::ManageConnections) => self.manage_connections.handle_key_event(
                key,
                actions,
                active_nodes,
                external_nodes,
                show_external,
            ),
            Some(PopUpContent::NodeInfo) => self.node_info.handle_key_event(key, actions),
            Some(PopUpContent::KvStore) => self.kv_store.handle_key_event(key, actions),
            Some(PopUpContent::IdentifyInfo) => self.identify_info.handle_key_event(key, actions),
            Some(PopUpContent::KademliaInfo) => self.kademlia_info.handle_key_event(key, actions),
            None => {
                assert(old(actions)@ + Seq::<ActionView>::empty() =~= old(actions)@);
            },
        }
    }

    /// Hands a network event to the identify and Kademlia popups.
    pub fn on_network_event(&mut self, event: &NetworkEvent)
        ensures
            final(self).node == old(self).node,
            final(self).content == old(self).content,
            final(self).node_commands@ == old(self).node_commands@,
            final(self).node_info@ == old(self).node_info@,
            final(self).manage_connections@ == old(self).manage_connections@,
            final(self).kv_store@ == old(self).kv_store@,
            final(self).identify_info@ == match event@ {
                NetworkEventView::IdentifyInfo { info } => IdentifyPanelView {
                    info: Some(info),
                    ..old(self).identify_info@
                },
                _ => old(self).identify_info@,
            },
            final(self).kademlia_info@ == match event@ {
                NetworkEventView::KademliaInfo { info } => KademliaPanelView {
                    info: Some(info),
                    ..old(self).kademlia_info@
                },
                _ => old(self).kademlia_info@,
            },
    {
        self.identify_info.on_network_event(event);
        self.kademlia_info.on_network_event(event);
    }
}

} // verus!
