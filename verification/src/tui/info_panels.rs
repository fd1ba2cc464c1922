//! Popups that show what a node knows: its node-info menu, its identify and
//! Kademlia information, and the records it stores.

use vstd::prelude::*;

use crate::history::{mode_string, mode_text, opt_view, strings_view};
use crate::info::{IdentifyInfo as NodeIdentifyInfo, IdentifyInfoView, KademliaInfo as NodeKademliaInfo, KademliaInfoView};
use crate::events::{records_view, NetworkEvent};
use crate::text::{decimal, decimal_string};
use crate::tui::actions::{Action, ActionQueue, ActionView, Key, PopUpContent};
use crate::tui::node_commands::{chosen_row, menu_moved, peer_view, MenuView};
use crate::tui::selection::{clamp, clamp_spec, list_drawn, moved_down, moved_up, Selection};

verus! {

/// Number of rows of the node-info menu.
pub const INFO_ROWS: usize = 2;

/// The action a row of the node-info menu stands for.
pub open spec fn info_for_row(row: usize, peer: Seq<char>) -> ActionView {
    if row == 0 {
        ActionView::DisplayIdentifyInfo { peer_id: peer }
    } else {
        ActionView::DisplayKademliaInfo { peer_id: peer }
    }
}

/// The node-info menu's state after `key`: it moves only with a node set.
pub open spec fn info_after_key(v: MenuView, key: Key) -> MenuView {
    if v.node is Some {
        menu_moved(v, key)
    } else {
        v
    }
}

/// The actions the node-info menu queues on `key`.
pub open spec fn info_emits(v: MenuView, key: Key) -> Seq<ActionView> {
    match v.node {
        None => seq![],
        Some(peer) => match key {
            Key::Enter => seq![info_for_row(chosen_row(v.selected, INFO_ROWS), peer)],
            Key::Esc => seq![ActionView::Popup { content: PopUpContent::NodeCommands, peer_id: peer }],
            _ => seq![],
        },
    }
}

/// The node-info menu's state after an action: a request to display node
/// info sets its node.
pub open spec fn info_after_action(v: MenuView, a: ActionView) -> MenuView {
    match a {
        ActionView::DisplayInfo { peer_id } => MenuView { node: Some(peer_id), ..v },
        _ => v,
    }
}

/// The actions an information popup about `node` queues on `key`.
pub open spec fn panel_emits(node: Option<Seq<char>>, key: Key) -> Seq<ActionView> {
    match key {
        Key::Esc => seq![ActionView::Popup { content: PopUpContent::NodeInfo, peer_id: node->0 }],
        _ => seq![],
    }
}

/// Menu choosing between the identify and the Kademlia information.
#[derive(Debug)]
pub struct NodeInfo {
    node: Option<String>,
    list_state: Selection,
}

impl View for NodeInfo {
    type V = MenuView;

    closed spec fn view(&self) -> MenuView {
        MenuView { node: peer_view(self.node), selected: self.list_state.selected }
    }
}

impl NodeInfo {
    /// The menu with its first row highlighted and no node.
    pub fn new() -> (c: Self)
        ensures
            c@.node is None,
            c@.selected == Some(0usize),
    {
        NodeInfo { node: None, list_state: Selection::with_selected(Some(0)) }
    }

    /// Sets the node the menu is about.
    pub fn set_node(&mut self, node: String)
        ensures
            final(self)@.node == Some(node@),
            final(self)@.selected == old(self)@.selected,
    {
        self.node = Some(node);
    }

    /// Highlights the next row.
    pub fn select_next(&mut self)
        ensures
            final(self)@.node == old(self)@.node,
            final(self)@.selected == moved_down(old(self)@.selected),
    {
        self.list_state.select_next();
    }

    /// Highlights the previous row.
    pub fn select_previous(&mut self)
        ensures
            final(self)@.node == old(self)@.node,
            final(self)@.selected == moved_up(old(self)@.selected),
    {
        self.list_state.select_previous();
    }

    /// The highlighted row.
    pub fn selected(&self) -> (r: Option<usize>)
        ensures
            r == self@.selected,
    {
        self.list_state.selected()
    }

    /// What drawing the menu does: with a node set, its rows are drawn and
    /// the highlight corrected to them.
    pub fn prepare_render(&mut self)
        ensures
            final(self)@.node == old(self)@.node,
            final(self)@.selected == if old(self)@.node is Some {
                list_drawn(old(self)@.selected, INFO_ROWS as nat)
            } else {
                old(self)@.selected
            },
    {
        if self.node.is_some() {
            self.list_state.correct_for(INFO_ROWS);
        }
    }

    /// Keeps a row index inside the menu.
    pub fn clamp(&self, idx: usize) -> (r: usize)
        ensures
            r == clamp_spec(idx, INFO_ROWS),
    {
        clamp(idx, INFO_ROWS)
    }

    /// With a node set: Up and Down move the highlight, Enter queues the
    /// highlighted view, Esc goes back to the node's commands. Without a
    /// node nothing happens.
    pub fn handle_key_event(&mut self, key: Key, actions: &mut ActionQueue)
        ensures
            final(self)@ == info_after_key(old(self)@, key),
            final(actions)@ == old(actions)@ + info_emits(old(self)@, key),
    {
        let peer_id = match &self.node {
            Some(p) => p.clone(),
            None => {
                return ;
            },
        };
        match key {
            Key::Up => self.select_previous(),
            Key::Down => self.select_next(),
            Key::Enter => {
                let selection = self.clamp(self.list_state.selected().unwrap_or(0));
                if selection == 0 {
                    actions.push(Action::DisplayIdentifyInfo { peer_id });
                } else {
                    actions.push(Action::DisplayKademliaInfo { peer_id });
                }
            },
            Key::Esc => actions.push(Action::Popup { content: PopUpContent::NodeCommands, peer_id }),
            _ => {},
        }
    }

    /// Takes the node from a request to display node info.
    pub fn update(&mut self, action: &Action)
        ensures
            final(self)@ == info_after_action(old(self)@, action@),
    {
        if let Action::DisplayInfo { peer_id } = action {
            self.node = Some(peer_id.clone());
        }
    }
}

/// The identify popup's state.
pub struct IdentifyPanelView {
    pub node: Option<Seq<char>>,
    pub info: Option<IdentifyInfoView>,
    pub focus: bool,
}

/// Popup showing what the identify protocol told a node.
#[derive(Debug)]
pub struct IdentifyInfo {
    node: Option<String>,
    info: Option<NodeIdentifyInfo>,
    focus: bool,
}

impl View for IdentifyInfo {
    type V = IdentifyPanelView;

    closed spec fn view(&self) -> IdentifyPanelView {
        IdentifyPanelView {
            node: peer_view(self.node),
            info: match self.info {
                Some(i) => Some(i@),
                None => None,
            },
            focus: self.focus,
        }
    }
}

/// The peer id, in its textual form, that a protobuf-encoded public key
/// stands for; `None` when the bytes do not decode to a key.
pub uninterp spec fn key_peer_id(key: Seq<u8>) -> Option<Seq<char>>;

/// The peer id an encoded public key stands for, by
/// `PublicKey::try_decode_protobuf` followed by the key's peer id in base58.
#[verifier::external_body]
fn peer_id_of_key(key: &Vec<u8>) -> (r: Option<String>)
    ensures
        opt_view(r) == key_peer_id(key@),
{
    libp2p::identity::PublicKey::try_decode_protobuf(key).ok().map(|k| k.to_peer_id().to_base58())
}

/// The peer id line shows the key's peer id, or nothing for a key that does
/// not decode.
pub open spec fn shown_peer_id(key: Seq<u8>) -> Seq<char> {
    match key_peer_id(key) {
        Some(p) => p,
        None => Seq::empty(),
    }
}

/// The lines the identify popup shows for `info`, the peer id standing for
/// its public key given as `peer_id`.
pub open spec fn identify_lines(info: IdentifyInfoView, peer_id: Seq<char>) -> Seq<Seq<char>> {
    seq![
        "Peer Id:"@,
        "    "@ + peer_id,
        "Protocol Version:"@,
        "    "@ + info.protocol_version,
        "Agent String:"@,
        "    "@ + info.agent_string,
        "Listen Address:"@,
        "    "@ + info.listen_addr,
    ]
}

fn indented(s: &String) -> (r: String)
    ensures
        r@ == "    "@ + s@,
{
    let mut r = String::from_str("    ");
    r.append(s.as_str());
    r
}

impl IdentifyInfo {
    /// No node and no information.
    pub fn new() -> (c: Self)
        ensures
            c@.node is None,
            c@.info is None,
            !c@.focus,
    {
        IdentifyInfo { node: None, info: None, focus: false }
    }

    /// Sets the node the popup is about.
    pub fn set_node(&mut self, node: String)
        ensures
            final(self)@ == (IdentifyPanelView { node: Some(node@), ..old(self)@ }),
    {
        self.node = Some(node);
    }

    /// Sets the information shown.
    pub fn set_info(&mut self, info: NodeIdentifyInfo)
        ensures
            final(self)@ == (IdentifyPanelView { info: Some(info@), ..old(self)@ }),
    {
        self.info = Some(info);
    }

    /// Sets whether the popup has the focus.
    pub fn focus(&mut self, focus: bool)
        ensures
            final(self)@ == (IdentifyPanelView { focus, ..old(self)@ }),
    {
        self.focus = focus;
    }

    /// Whether the popup can take `key`: leaving needs the node.
    pub open spec fn accepts(&self, key: Key) -> bool {
        key is Esc ==> self@.node is Some
    }

    /// Whether the popup can take `key`.
    pub fn takes(&self, key: Key) -> (b: bool)
        ensures
            b == self.accepts(key),
    {
        match key {
            Key::Esc => self.node.is_some(),
            _ => true,
        }
    }

    /// Esc goes back to the node-info menu; other keys do nothing.
    pub fn handle_key_event(&self, key: Key, actions: &mut ActionQueue)
        requires
            self.accepts(key),
        ensures
            final(actions)@ == old(actions)@ + panel_emits(self@.node, key),
    {
        if let Key::Esc = key {
            let peer_id = match &self.node {
                Some(p) => p.clone(),
                None => String::new(),
            };
            actions.push(Action::Popup { content: PopUpContent::NodeInfo, peer_id });
        }
    }

    /// Takes identify information from the network events.
    pub fn on_network_event(&mut self, event: &NetworkEvent)
        ensures
            final(self)@ == match event {
                NetworkEvent::IdentifyInfo { info, .. } => IdentifyPanelView {
                    info: Some(info@),
                    ..old(self)@
                },
                _ => old(self)@,
            },
    {
        if let NetworkEvent::IdentifyInfo { info, .. } = event {
            self.info = Some(info.duplicate());
        }
    }

    /// The encoded public key of the information shown, if any.
    pub fn public_key(&self) -> (r: Option<Vec<u8>>)
        ensures
            match r {
                Some(k) => self@.info is Some && k@ == self@.info->0.public_key,
                None => self@.info is None,
            },
    {
        match &self.info {
            Some(info) => Some(info.public_key.clone()),
            None => None,
        }
    }

    /// The lines to show, with the peer id the shown key stands for; `None`
    /// while there is no information.
    pub fn lines(&self) -> (r: Option<Vec<String>>)
        ensures
            match r {
                Some(v) => self@.info is Some && strings_view(v@) == identify_lines(
                    self@.info->0,
                    shown_peer_id(self@.info->0.public_key),
                ),
                None => self@.info is None,
            },
    {
        match &self.info {
            None => None,
            Some(info) => {
                let peer_id = match peer_id_of_key(&info.public_key) {
                    Some(p) => p,
                    None => String::new(),
                };
                self.lines_with_peer(&peer_id)
            },
        }
    }

    /// The lines to show, given the peer id that the public key stands for;
    /// `None` while there is no information.
    pub fn lines_with_peer(&self, peer_id: &String) -> (r: Option<Vec<String>>)
        ensures
            match r {
                Some(v) => self@.info is Some && strings_view(v@) == identify_lines(
                    self@.info->0,
                    peer_id@,
                ),
                None => self@.info is None,
            },
    {
        match &self.info {
            None => None,
            Some(info) => {
                let v = vec![
                    String::from_str("Peer Id:"),
                    indented(peer_id),
                    String::from_str("Protocol Version:"),
                    indented(&info.protocol_version),
                    String::from_str("Agent String:"),
                    indented(&info.agent_string),
                    String::from_str("Listen Address:"),
                    indented(&info.listen_addr),
                ];
                proof {
                    assert(strings_view(v@) =~= identify_lines(info@, peer_id@));
                }
                Some(v)
            },
        }
    }
}

/// The Kademlia popup's state.
pub struct KademliaPanelView {
    pub node: Option<Seq<char>>,
    pub info: Option<KademliaInfoView>,
}

/// The text of a boolean.
pub open spec fn bool_text(b: bool) -> Seq<char> {
    if b {
        "true"@
    } else {
        "false"@
    }
}

/// One line per closest peer, or `None` when there is none.
pub open spec fn peer_lines(peers: Seq<Seq<char>>) -> Seq<Seq<char>> {
    if peers.len() == 0 {
        seq!["None"@]
    } else {
        peers.map_values(|p: Seq<char>| "- "@ + p)
    }
}

/// The line describing bucket `i` with `n` entries.
pub open spec fn bucket_line(i: nat, n: nat) -> Seq<char> {
    "Bucket "@ + decimal(i) + " - "@ + decimal(n) + " total entries"@
}

/// One line per bucket, or `None` when there is none.
pub open spec fn bucket_lines(counts: Seq<nat>) -> Seq<Seq<char>> {
    if counts.len() == 0 {
        seq!["None"@]
    } else {
        Seq::new(counts.len(), |i: int| bucket_line(i as nat, counts[i]))
    }
}

/// The lines the Kademlia popup shows for `info`.
pub open spec fn kademlia_lines(info: KademliaInfoView) -> Seq<Seq<char>> {
    seq!["Node Mode:"@, mode_text(info.mode), "Bootstrapped:"@, bool_text(info.bootstrapped), "Closest Local Peers:"@]
        + peer_lines(info.closest_peers) + seq!["Buckets:"@] + bucket_lines(
        info.bucket_info.map_values(|b: crate::info::KBucketInfo| b.num_entries as nat),
    )
}

/// Popup showing a node's Kademlia state.
#[derive(Debug)]
pub struct KademliaInfo {
    node: Option<String>,
    info: Option<NodeKademliaInfo>,
}

impl View for KademliaInfo {
    type V = KademliaPanelView;

    closed spec fn view(&self) -> KademliaPanelView {
        KademliaPanelView {
            node: peer_view(self.node),
            info: match self.info {
                Some(i) => Some(i@),
                None => None,
            },
        }
    }
}

impl KademliaInfo {
    /// No node and no information.
    pub fn new() -> (c: Self)
        ensures
            c@.node is None,
            c@.info is None,
    {
        KademliaInfo { node: None, info: None }
    }

    /// Sets the node the popup is about.
    pub fn set_node(&mut self, node: String)
        ensures
            final(self)@ == (KademliaPanelView { node: Some(node@), ..old(self)@ }),
    {
        self.node = Some(node);
    }

    /// Sets the information shown.
    pub fn set_info(&mut self, info: NodeKademliaInfo)
        ensures
            final(self)@ == (KademliaPanelView { info: Some(info@), ..old(self)@ }),
    {
        self.info = Some(info);
    }

    /// Whether the popup can take `key`: leaving needs the node.
    pub open spec fn accepts(&self, key: Key) -> bool {
        key is Esc ==> self@.node is Some
    }

    /// Whether the popup can take `key`.
    pub fn takes(&self, key: Key) -> (b: bool)
        ensures
            b == self.accepts(key),
    {
        match key {
            Key::Esc => self.node.is_some(),
            _ => true,
        }
    }

    /// Esc goes back to the node-info menu; other keys do nothing.
    pub fn handle_key_event(&self, key: Key, actions: &mut ActionQueue)
        requires
            self.accepts(key),
        ensures
            final(actions)@ == old(actions)@ + panel_emits(self@.node, key),
    {
        if let Key::Esc = key {
            let peer_id = match &self.node {
                Some(p) => p.clone(),
                None => String::new(),
            };
            actions.push(Action::Popup { content: PopUpContent::NodeInfo, peer_id });
        }
    }

    /// Takes Kademlia information from the network events.
    pub fn on_network_event(&mut self, event: &NetworkEvent)
        ensures
            final(self)@ == match event {
                NetworkEvent::KademliaInfo { info, .. } => KademliaPanelView {
                    info: Some(info@),
                    ..old(self)@
                },
                _ => old(self)@,
            },
    {
        if let NetworkEvent::KademliaInfo { info, .. } = event {
            self.info = Some(info.duplicate());
        }
    }

    /// The lines to show; `None` while there is no information.
    pub fn lines(&self) -> (r: Option<Vec<String>>)
        ensures
            match r {
                Some(v) => self@.info is Some && strings_view(v@) == kademlia_lines(self@.info->0),
                None => self@.info is None,
            },
    {
        match &self.info {
            None => None,
            Some(info) => Some(kademlia_info_lines(info)),
        }
    }
}

fn bool_string(b: bool) -> (s: String)
    ensures
        s@ == bool_text(b),
{
    if b {
        String::from_str("true")
    } else {
        String::from_str("false")
    }
}

/// The lines describing Kademlia information.
pub fn kademlia_info_lines(info: &NodeKademliaInfo) -> (v: Vec<String>)
    ensures
        strings_view(v@) == kademlia_lines(info@),
{
    let mut v: Vec<String> = Vec::new();
    v.push(String::from_str("Node Mode:"));
    v.push(mode_string(info.mode));
    v.push(String::from_str("Bootstrapped:"));
    v.push(bool_string(info.bootstrapped));
    v.push(String::from_str("Closest Local Peers:"));
    let ghost head = strings_view(v@);
    assert(head =~= seq!["Node Mode:"@, mode_text(info@.mode), "Bootstrapped:"@, bool_text(info@.bootstrapped), "Closest Local Peers:"@]);
    if info.closest_peers.len() == 0 {
        v.push(String::from_str("None"));
    } else {
        let mut i: usize = 0;
        while i < info.closest_peers.len()
            invariant
                i <= info.closest_peers@.len(),
                info.closest_peers@.len() > 0,
                strings_view(v@) == head + strings_view(info.closest_peers@).subrange(0, i as int).map_values(
                    |p: Seq<char>| "- "@ + p,
                ),
            decreases info.closest_peers@.len() - i,
        {
            let mut line = String::from_str("- ");
            line.append(info.closest_peers[i].as_str());
            let ghost before = v@;
            v.push(line);
            proof {
                assert(strings_view(v@) =~= strings_view(before).push(line@));
                assert(strings_view(info.closest_peers@).subrange(0, i + 1).map_values(
                    |p: Seq<char>| "- "@ + p,
                ) =~= strings_view(info.closest_peers@).subrange(0, i as int).map_values(
                    |p: Seq<char>| "- "@ + p,
                ).push("- "@ + info.closest_peers@[i as int]@));
            }
            i += 1;
        }
        proof {
            assert(strings_view(info.closest_peers@).subrange(0, i as int) =~= strings_view(info.closest_peers@));
        }
    }
    let ghost mid = strings_view(v@);
    assert(mid =~= head + peer_lines(info@.closest_peers));
    v.push(String::from_str("Buckets:"));
    let ghost mid2 = strings_view(v@);
    assert(mid2 =~= head + peer_lines(info@.closest_peers) + seq!["Buckets:"@]);
    let ghost counts = info@.bucket_info.map_values(|b: crate::info::KBucketInfo| b.num_entries as nat);
    if info.bucket_info.len() == 0 {
        v.push(String::from_str("None"));
        proof {
            assert(strings_view(v@) =~= kademlia_lines(info@));
        }
    } else {
        let mut i: usize = 0;
        while i < info.bucket_info.len()
            invariant
                i <= info.bucket_info@.len(),
                counts == info@.bucket_info.map_values(|b: crate::info::KBucketInfo| b.num_entries as nat),
                info@.bucket_info == info.bucket_info@,
                strings_view(v@) == mid2 + Seq::new(i as nat, |k: int| bucket_line(k as nat, counts[k])),
            decreases info.bucket_info@.len() - i,
        {
            let mut line = String::from_str("Bucket ");
            let idx = decimal_string(i as u64);
            line.append(idx.as_str());
            line.append(" - ");
            let n = decimal_string(info.bucket_info[i].num_entries as u64);
            line.append(n.as_str());
            line.append(" total entries");
            let ghost before = v@;
            v.push(line);
            proof {
                assert(counts[i as int] == info.bucket_info@[i as int].num_entries as nat);
                assert(line@ == bucket_line(i as nat, counts[i as int]));
                assert(strings_view(v@) =~= strings_view(before).push(line@));
                assert(strings_view(v@) =~= mid2 + Seq::new((i + 1) as nat, |k: int| bucket_line(k as nat, counts[k])));
            }
            i += 1;
        }
        proof {
            assert(strings_view(v@) =~= kademlia_lines(info@));
        }
    }
    v
}

/// The records popup's state.
pub struct RecordsPanelView {
    pub node: Option<Seq<char>>,
    pub records: Seq<(Seq<char>, Seq<char>)>,
}

/// The line showing one record.
pub open spec fn record_line(r: (Seq<char>, Seq<char>)) -> Seq<char> {
    r.0 + " - "@ + r.1
}

/// Popup listing the records a node stores.
#[derive(Debug)]
pub struct RecordsList {
    node: Option<String>,
    records: Vec<(String, String)>,
}

impl View for RecordsList {
    type V = RecordsPanelView;

    closed spec fn view(&self) -> RecordsPanelView {
        RecordsPanelView { node: peer_view(self.node), records: records_view(self.records@) }
    }
}

impl RecordsList {
    /// No node and no records.
    pub fn new() -> (c: Self)
        ensures
            c@.node is None,
            c@.records == Seq::<(Seq<char>, Seq<char>)>::empty(),
    {
        let c = RecordsList { node: None, records: Vec::new() };
        assert(c@.records =~= Seq::<(Seq<char>, Seq<char>)>::empty());
        c
    }

    /// Sets the node the popup is about.
    pub fn set_node(&mut self, node: String)
        ensures
            final(self)@.node == Some(node@),
            final(self)@.records == old(self)@.records,
    {
        self.node = Some(node);
    }

    /// Replaces the records shown.
    pub fn set_records(&mut self, records: Vec<(String, String)>)
        ensures
            final(self)@.node == old(self)@.node,
            final(self)@.records == records_view(records@),
    {
        self.records = records;
    }

    /// With a node set, Esc goes back to the node's commands.
    pub fn handle_key_event(&self, key: Key, actions: &mut ActionQueue)
        ensures
            final(actions)@ == match (self@.node, key) {
                (Some(peer), Key::Esc) => old(actions)@.push(
                    ActionView::Popup { content: PopUpContent::NodeCommands, peer_id: peer },
                ),
                _ => old(actions)@,
            },
    {
        if let Some(peer) = &self.node {
            if let Key::Esc = key {
                actions.push(Action::Popup { content: PopUpContent::NodeCommands, peer_id: peer.clone() });
            }
        }
    }

    /// Takes the records from a records-list event.
    pub fn on_network_event(&mut self, event: &NetworkEvent)
        ensures
            final(self)@ == match event {
                NetworkEvent::RecordsList { records, .. } => RecordsPanelView {
                    records: records_view(records@),
                    ..old(self)@
                },
                _ => old(self)@,
            },
    {
        if let NetworkEvent::RecordsList { records, .. } = event {
            let mut copy: Vec<(String, String)> = Vec::new();
            let mut i: usize = 0;
            while i < records.len()
                invariant
                    i <= records@.len(),
                    records_view(copy@) == records_view(records@.subrange(0, i as int)),
                decreases records@.len() - i,
            {
                let k = records[i].0.clone();
                let v = records[i].1.clone();
                let ghost before = copy@;
                copy.push((k, v));
                proof {
                    assert(copy@ == before.push((k, v)));
                    assert(records_view(copy@) =~= records_view(before).push((k@, v@)));
                    assert(records@.subrange(0, i + 1) =~= records@.subrange(0, i as int).push(records@[i as int]));
                    assert(records_view(records@.subrange(0, i + 1)) =~= records_view(records@.subrange(0, i as int)).push((k@, v@)));
                }
                i += 1;
            }
            proof {
                assert(records@.subrange(0, records@.len() as int) =~= records@);
            }
            self.records = copy;
        }
    }

    /// The lines to show: one `key - value` line per record.
    pub fn lines(&self) -> (v: Vec<String>)
        ensures
            strings_view(v@) == self@.records.map_values(|r: (Seq<char>, Seq<char>)| record_line(r)),
    {
        let mut v: Vec<String> = Vec::new();
        let mut i: usize = 0;
        while i < self.records.len()
            invariant
                i <= self.records@.len(),
                strings_view(v@) == records_view(self.records@).subrange(0, i as int).map_values(
                    |r: (Seq<char>, Seq<char>)| record_line(r),
                ),
            decreases self.records@.len() - i,
        {
            let mut line = self.records[i].0.clone();
            line.append(" - ");
            line.append(self.records[i].1.as_str());
            let ghost before = v@;
            v.push(line);
            proof {
                assert(strings_view(v@) =~= strings_view(before).push(line@));
                assert(records_view(self.records@).subrange(0, i + 1).map_values(
                    |r: (Seq<char>, Seq<char>)| record_line(r),
                ) =~= records_view(self.records@).subrange(0, i as int).map_values(
                    |r: (Seq<char>, Seq<char>)| record_line(r),
                ).push(record_line(records_view(self.records@)[i as int])));
            }
            i += 1;
        }
        proof {
            assert(records_view(self.records@).subrange(0, i as int) =~= records_view(self.records@));
        }
        v
    }
}

} // verus!
