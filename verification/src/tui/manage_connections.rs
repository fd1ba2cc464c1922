//! The popup for connecting a node to, or disconnecting it from, other peers.

use indexmap::IndexSet;
use std::hash::RandomState;

use vstd::prelude::*;

use crate::history::strings_view;
use crate::strset::StringSet;
use crate::tui::actions::{Action, ActionQueue, ActionView, Key, PopUpContent};
use crate::tui::node_commands::peer_view;
use crate::tui::peer_set::{index_set_items, peer_set_items};
use crate::tui::selection::{moved_down, moved_up, Selection};

verus! {

/// Which of the two peer lists receives navigation and action keys.
#[derive(Clone, Copy, Debug, PartialEq, Eq, Structural)]
pub enum Focus {
    Internal,
    External,
}

impl Focus {
    /// The other list.
    pub open spec fn toggle_spec(self) -> Focus {
        match self {
            Focus::Internal => Focus::External,
            Focus::External => Focus::Internal,
        }
    }

    /// The other list.
    pub fn toggle(self) -> (r: Self)
        ensures
            r == self.toggle_spec(),
    {
        match self {
            Focus::Internal => Focus::External,
            Focus::External => Focus::Internal,
        }
    }
}

/// `s` without the occurrences of `x`, in order.
pub open spec fn without(s: Seq<Seq<char>>, x: Seq<char>) -> Seq<Seq<char>>
    decreases s.len(),
{
    if s.len() == 0 {
        s
    } else {
        let r = without(s.drop_last(), x);
        if s.last() == x {
            r
        } else {
            r.push(s.last())
        }
    }
}

/// The peer a selection designates in a list: the selected row, or the first
/// when none is selected, kept to the last row; nothing in an empty list.
pub open spec fn resolve(selected: Option<usize>, peers: Seq<Seq<char>>) -> Option<Seq<char>> {
    if peers.len() == 0 {
        None
    } else {
        let i = match selected {
            Some(i) => i as int,
            None => 0,
        };
        Some(peers[if i < peers.len() - 1 { i } else { peers.len() - 1 }])
    }
}

/// A selection after the list of `len` rows has been drawn: kept to the last
/// row, the first row when none was selected.
pub open spec fn drawn(selected: Option<usize>, len: nat) -> Option<usize> {
    if len == 0 {
        selected
    } else {
        match selected {
            Some(i) => if i > len - 1 { Some((len - 1) as usize) } else { Some(i) },
            None => Some(0usize),
        }
    }
}

/// The line showing `p`, marked when it is among `connections`.
pub open spec fn peer_line(p: Seq<char>, connections: Option<Set<Seq<char>>>) -> Seq<char> {
    match connections {
        Some(c) => if c.contains(p) { "[*] "@ + p } else { "[ ] "@ + p },
        None => "[ ] "@ + p,
    }
}

/// The popup's state.
pub struct ManageView {
    pub node: Option<Seq<char>>,
    pub focus: Focus,
    pub internal: Option<usize>,
    pub external: Option<usize>,
}

/// Popup listing the other nodes and the external peers, with the keys to
/// connect the current node to the selected one or disconnect it.
#[derive(Debug)]
pub struct ManageConnections {
    node: Option<String>,
    focus: Focus,
    internal_state: Selection,
    external_state: Selection,
}

impl View for ManageConnections {
    type V = ManageView;

    closed spec fn view(&self) -> ManageView {
        ManageView {
            node: peer_view(self.node),
            focus: self.focus,
            internal: self.internal_state.selected,
            external: self.external_state.selected,
        }
    }
}

/// The focus in force once the external list may be hidden.
pub open spec fn effective_focus(f: Focus, show_external: bool) -> Focus {
    if !show_external && f == Focus::External {
        Focus::Internal
    } else {
        f
    }
}

/// The peer the focused list designates.
pub open spec fn target(
    v: ManageView,
    focus: Focus,
    active: Seq<Seq<char>>,
    external: Seq<Seq<char>>,
    current: Seq<char>,
) -> Option<Seq<char>> {
    match focus {
        Focus::Internal => resolve(v.internal, without(active, current)),
        Focus::External => resolve(v.external, external),
    }
}

/// The popup's state after `key`.
pub open spec fn manage_after_key(v: ManageView, key: Key, show_external: bool) -> ManageView {
    if v.node is None {
        v
    } else {
        let f = effective_focus(v.focus, show_external);
        let s = ManageView { focus: f, ..v };
        match key {
            Key::Tab => if show_external { ManageView { focus: f.toggle_spec(), ..s } } else { s },
            Key::Up => match f {
                Focus::Internal => ManageView { internal: moved_up(s.internal), ..s },
                Focus::External => ManageView { external: moved_up(s.external), ..s },
            },
            Key::Down => match f {
                Focus::Internal => ManageView { internal: moved_down(s.internal), ..s },
                Focus::External => ManageView { external: moved_down(s.external), ..s },
            },
            _ => s,
        }
    }
}

/// The popup's state after an action: opening it for a node focuses the
/// internal list and selects its first row when nothing is selected.
pub open spec fn manage_after_action(v: ManageView, a: ActionView) -> ManageView {
    match a {
        ActionView::DisplayManageConnections { peer_id } => ManageView {
            node: Some(peer_id),
            focus: Focus::Internal,
            internal: if v.internal is None { Some(0usize) } else { v.internal },
            external: v.external,
        },
        _ => v,
    }
}

/// The actions the popup queues on `key`.
pub open spec fn manage_emits(
    v: ManageView,
    key: Key,
    active: Seq<Seq<char>>,
    external: Seq<Seq<char>>,
    show_external: bool,
) -> Seq<ActionView> {
    match v.node {
        None => seq![],
        Some(peer) => {
            let f = effective_focus(v.focus, show_external);
            let t = target(v, f, active, external, peer);
            match key {
                Key::Char(c) => if c == 'c' && t is Some {
                    seq![ActionView::ConnectTo { peer_one: peer, peer_two: t->0 }]
                } else if c == 'd' && t is Some {
                    seq![ActionView::DisconnectFrom { peer_one: peer, peer_two: t->0 }]
                } else {
                    seq![]
                },
                Key::Esc => seq![ActionView::Popup { content: PopUpContent::NodeCommands, peer_id: peer }],
                _ => seq![],
            }
        },
    }
}

impl ManageConnections {
    /// No node, the internal list focused, nothing selected.
    pub fn new() -> (c: Self)
        ensures
            c@ == (ManageView { node: None, focus: Focus::Internal, internal: None, external: None }),
    {
        ManageConnections {
            node: None,
            focus: Focus::Internal,
            internal_state: Selection::none(),
            external_state: Selection::none(),
        }
    }

    /// Sets the node whose connections are managed.
    pub fn set_node(&mut self, node: String)
        ensures
            final(self)@ == (ManageView { node: Some(node@), ..old(self)@ }),
    {
        self.node = Some(node);
    }

    /// The active nodes other than `current`: those it can connect to.
    pub fn internal_peers(active_nodes: &IndexSet<String, RandomState>, current: &String) -> (v: Vec<String>)
        ensures
            strings_view(v@) == without(index_set_items(*active_nodes), current@),
    {
        let all = peer_set_items(active_nodes);
        let mut v: Vec<String> = Vec::new();
        let mut i: usize = 0;
        while i < all.len()
            invariant
                i <= all@.len(),
                strings_view(all@) == index_set_items(*active_nodes),
                strings_view(v@) == without(strings_view(all@.subrange(0, i as int)), current@),
            decreases all@.len() - i,
        {
            let ghost prefix = strings_view(all@.subrange(0, i + 1));
            assert(prefix.drop_last() =~= strings_view(all@.subrange(0, i as int)));
            assert(prefix.last() == all@[i as int]@);
            if all[i] != *current {
                let ghost before = v@;
                v.push(all[i].clone());
                assert(strings_view(v@) =~= strings_view(before).push(all@[i as int]@));
            }
            i += 1;
        }
        assert(all@.subrange(0, all@.len() as int) =~= all@);
        v
    }

    /// The peer a selection designates in `peers`.
    pub fn resolve_selection(state: &Selection, peers: &Vec<String>) -> (r: Option<String>)
        ensures
            match r {
                Some(p) => resolve(state.selected, strings_view(peers@)) == Some(p@),
                None => resolve(state.selected, strings_view(peers@)) is None,
            },
    {
        if peers.len() == 0 {
            return None;
        }
        let wanted = state.selected().unwrap_or(0);
        let last = peers.len() - 1;
        let idx = if wanted < last { wanted } else { last };
        Some(peers[idx].clone())
    }

    /// The peer the focused list designates for `current`.
    fn selected_target(
        &self,
        active_nodes: &IndexSet<String, RandomState>,
        external_nodes: &IndexSet<String, RandomState>,
        current: &String,
    ) -> (r: Option<String>)
        ensures
            match r {
                Some(p) => target(self@, self@.focus, index_set_items(*active_nodes), index_set_items(*external_nodes), current@) == Some(p@),
                None => target(self@, self@.focus, index_set_items(*active_nodes), index_set_items(*external_nodes), current@) is None,
            },
    {
        match self.focus {
            Focus::Internal => {
                let internal = Self::internal_peers(active_nodes, current);
                Self::resolve_selection(&self.internal_state, &internal)
            },
            Focus::External => {
                let external = peer_set_items(external_nodes);
                Self::resolve_selection(&self.external_state, &external)
            },
        }
    }

    /// With a node set: the external list loses the focus while hidden; Tab
    /// switches list when the external one is shown; Up and Down move in the
    /// focused list; `c` and `d` queue a connection to, or a disconnection
    /// from, the peer the focused list designates; Esc goes back to the
    /// node's commands.
    pub fn handle_key_event(
        &mut self,
        key: Key,
        actions: &mut ActionQueue,
        active_nodes: &IndexSet<String, RandomState>,
        external_nodes: &IndexSet<String, RandomState>,
        show_external: bool,
    )
        ensures
            final(self)@ == manage_after_key(old(self)@, key, show_external),
            final(actions)@ == old(actions)@ + manage_emits(
                old(self)@,
                key,
                index_set_items(*active_nodes),
                index_set_items(*external_nodes),
                show_external,
            ),
    {
        let peer_id = match &self.node {
            Some(p) => p.clone(),
            None => {
                return ;
            },
        };
        if !show_external && self.focus == Focus::External {
            self.focus = Focus::Internal;
        }
        match key {
            Key::Tab => {
                if show_external {
                    self.focus = self.focus.toggle();
                }
            },
            Key::Up => match self.focus {
                Focus::Internal => self.internal_state.select_previous(),
                Focus::External => self.external_state.select_previous(),
            },
            Key::Down => match self.focus {
                Focus::Internal => self.internal_state.select_next(),
                Focus::External => self.external_state.select_next(),
            },
            Key::Char(c) => {
                if c == 'c' {
                    if let Some(peer_two) = self.selected_target(active_nodes, external_nodes, &peer_id) {
                        actions.push(Action::ConnectTo { peer_one: peer_id, peer_two });
                    }
                } else if c == 'd' {
                    if let Some(peer_two) = self.selected_target(active_nodes, external_nodes, &peer_id) {
                        actions.push(Action::DisconnectFrom { peer_one: peer_id, peer_two });
                    }
                }
            },
            Key::Esc => {
                actions.push(Action::Popup { content: PopUpContent::NodeCommands, peer_id });
            },
            _ => {},
        }
    }

    /// What drawing the popup does to its state: the external list loses the
    /// focus while hidden, and each list drawn keeps its selection on a row.
    /// The internal list is drawn when a node is set, the external one when
    /// it is shown too.
    pub fn prepare_render(
        &mut self,
        active_nodes: &IndexSet<String, RandomState>,
        external_nodes: &IndexSet<String, RandomState>,
        show_external: bool,
    )
        ensures
            final(self)@.node == old(self)@.node,
            final(self)@.focus == effective_focus(old(self)@.focus, show_external),
            final(self)@.internal == match old(self)@.node {
                Some(p) => drawn(old(self)@.internal, without(index_set_items(*active_nodes), p).len()),
                None => old(self)@.internal,
            },
            final(self)@.external == if old(self)@.node is Some && show_external {
                drawn(old(self)@.external, index_set_items(*external_nodes).len())
            } else {
                old(self)@.external
            },
    {
        if !show_external && self.focus == Focus::External {
            self.focus = Focus::Internal;
        }
        let node = match &self.node {
            Some(p) => p.clone(),
            None => {
                return ;
            },
        };
        let internal = Self::internal_peers(active_nodes, &node);
        Self::keep_on_row(&mut self.internal_state, internal.len());
        if show_external {
            let external = peer_set_items(external_nodes);
            Self::keep_on_row(&mut self.external_state, external.len());
        }
    }

    fn keep_on_row(state: &mut Selection, len: usize)
        ensures
            final(state).selected == drawn(old(state).selected, len as nat),
    {
        if len == 0 {
            return ;
        }
        let max_idx = len - 1;
        match state.selected() {
            Some(sel) => {
                if sel > max_idx {
                    state.select(Some(max_idx));
                }
            },
            None => state.select(Some(0)),
        }
    }

    /// Opening the popup for a node focuses the internal list and selects
    /// its first row when nothing is selected.
    pub fn update(&mut self, action: &Action)
        ensures
            final(self)@ == manage_after_action(old(self)@, action@),
    {
        if let Action::DisplayManageConnections { peer_id } = action {
            self.node = Some(peer_id.clone());
            self.focus = Focus::Internal;
            if self.internal_state.selected().is_none() {
                self.internal_state.select(Some(0));
            }
        }
    }

    /// The title line naming the current node.
    pub fn title(&self) -> (s: String)
        ensures
            s@ == match self@.node {
                Some(p) => "Current Node: "@ + p,
                None => "No node selected"@,
            },
    {
        match &self.node {
            Some(p) => {
                let mut s = String::from_str("Current Node: ");
                s.append(p.as_str());
                s
            },
            None => String::from_str("No node selected"),
        }
    }

    /// The focused list.
    pub fn focus(&self) -> (f: Focus)
        ensures
            f == self@.focus,
    {
        self.focus
    }

    /// The node whose connections are managed.
    pub fn node(&self) -> (r: Option<String>)
        ensures
            peer_view(r) == self@.node,
    {
        match &self.node {
            Some(p) => Some(p.clone()),
            None => None,
        }
    }

    /// The selection of the internal list.
    pub fn internal_selected(&self) -> (r: Option<usize>)
        ensures
            r == self@.internal,
    {
        self.internal_state.selected()
    }

    /// The selection of the external list.
    pub fn external_selected(&self) -> (r: Option<usize>)
        ensures
            r == self@.external,
    {
        self.external_state.selected()
    }
}

/// The lines listing `peers`, each marked `[*]` when connected to the current
/// node according to `connections`, `[ ]` otherwise.
pub fn format_peer_list(peers: &Vec<String>, connections: Option<&StringSet>) -> (v: Vec<String>)
    ensures
        strings_view(v@) == strings_view(peers@).map_values(
            |p: Seq<char>| peer_line(
                p,
                match connections {
                    Some(c) => Some(c.set()),
                    None => None,
                },
            ),
        ),
{
    let ghost conns = match connections {
        Some(c) => Some(c.set()),
        None => None,
    };
    let mut v: Vec<String> = Vec::new();
    let mut i: usize = 0;
    while i < peers.len()
        invariant
            i <= peers@.len(),
            conns == match connections {
                Some(c) => Some(c.set()),
                None => None::<Set<Seq<char>>>,
            },
            strings_view(v@) == strings_view(peers@.subrange(0, i as int)).map_values(
                |p: Seq<char>| peer_line(p, conns),
            ),
        decreases peers@.len() - i,
    {
        let connected = match connections {
            Some(c) => c.contains(&peers[i]),
            None => false,
        };
        let mut line = if connected {
            String::from_str("[*] ")
        } else {
            String::from_str("[ ] ")
        };
        line.append(peers[i].as_str());
        let ghost before = v@;
        v.push(line);
        proof {
            assert(line@ == peer_line(peers@[i as int]@, conns));
            assert(strings_view(v@) =~= strings_view(before).push(line@));
            assert(strings_view(peers@.subrange(0, i + 1)) =~= strings_view(peers@.subrange(0, i as int)).push(
                peers@[i as int]@,
            ));
            assert(strings_view(v@) =~= strings_view(peers@.subrange(0, i + 1)).map_values(
                |p: Seq<char>| peer_line(p, conns),
            ));
        }
        i += 1;
    }
    proof {
        assert(peers@.subrange(0, peers@.len() as int) =~= peers@);
    }
    v
}

} // verus!
