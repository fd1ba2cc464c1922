//! The node graph: which nodes and peers are drawn, which connection lines
//! join them, and which of them are highlighted for the selected node. Where
//! each shape goes on the canvas is left to the drawing side.

use indexmap::IndexSet;
use std::hash::RandomState;

use vstd::prelude::*;

use crate::strset::StringSet;
use crate::tui::actions::{Action, ActionQueue, ActionView, Key};
use crate::tui::node_commands::peer_view;
use crate::tui::node_list::Lists;
use crate::tui::peer_set::{index_set_items, peer_set_get, peer_set_len};
use crate::tui::selection::{moved_down, moved_up, Selection};

verus! {

/// A connection line between two drawn peers, highlighted or not.
#[derive(Clone, Debug)]
pub struct Link {
    pub one: String,
    pub two: String,
    pub red: bool,
}

/// The content of a list of lines.
pub open spec fn links_view(v: Seq<Link>) -> Seq<(Seq<char>, Seq<char>, bool)> {
    v.map_values(|l: Link| (l.one@, l.two@, l.red))
}

/// Whether a line joins `a` to `b`, in that order.
pub open spec fn has_link(s: Seq<(Seq<char>, Seq<char>, bool)>, a: Seq<char>, b: Seq<char>) -> bool {
    exists|i: int| 0 <= i < s.len() && s[i].0 == a && s[i].1 == b
}

/// The lines other than those joining `a` to `b`, in order.
pub open spec fn without_pair(s: Seq<(Seq<char>, Seq<char>, bool)>, a: Seq<char>, b: Seq<char>) -> Seq<
    (Seq<char>, Seq<char>, bool),
>
    decreases s.len(),
{
    if s.len() == 0 {
        s
    } else {
        let r = without_pair(s.drop_last(), a, b);
        if s.last().0 == a && s.last().1 == b {
            r
        } else {
            r.push(s.last())
        }
    }
}

/// The lines that do not touch `p`, in order.
pub open spec fn without_peer(s: Seq<(Seq<char>, Seq<char>, bool)>, p: Seq<char>) -> Seq<
    (Seq<char>, Seq<char>, bool),
>
    decreases s.len(),
{
    if s.len() == 0 {
        s
    } else {
        let r = without_peer(s.drop_last(), p);
        if s.last().0 == p || s.last().1 == p {
            r
        } else {
            r.push(s.last())
        }
    }
}

/// The lines with exactly those touching `p` highlighted.
pub open spec fn recolored(s: Seq<(Seq<char>, Seq<char>, bool)>, p: Seq<char>) -> Seq<
    (Seq<char>, Seq<char>, bool),
> {
    s.map_values(|l: (Seq<char>, Seq<char>, bool)| (l.0, l.1, l.0 == p || l.1 == p))
}

/// The graph's state.
pub struct NodeBoxView {
    pub list: Lists,
    pub len: nat,
    pub selected: Option<usize>,
    pub focus: bool,
    /// The drawn node highlighted as selected.
    pub red_node: Option<Seq<char>>,
    /// Running nodes that are drawn.
    pub shaped: Set<Seq<char>>,
    /// External peers that are drawn.
    pub external_shaped: Set<Seq<char>>,
    pub links: Seq<(Seq<char>, Seq<char>, bool)>,
}

/// Canvas of the running nodes and external peers joined by their
/// connections.
pub struct NodeBox {
    list: Lists,
    len: usize,
    list_state: Selection,
    focus: bool,
    red_node: Option<String>,
    shaped: StringSet,
    external_shaped: StringSet,
    links: Vec<Link>,
}

impl View for NodeBox {
    type V = NodeBoxView;

    closed spec fn view(&self) -> NodeBoxView {
        NodeBoxView {
            list: self.list,
            len: self.len as nat,
            selected: self.list_state.selected,
            focus: self.focus,
            red_node: peer_view(self.red_node),
            shaped: self.shaped.set(),
            external_shaped: self.external_shaped.set(),
            links: links_view(self.links@),
        }
    }
}

/// The row a selection stands for in the graph, kept to the last node.
pub open spec fn box_row(selected: Option<usize>, len: nat) -> usize {
    let idx = match selected {
        Some(i) => i,
        None => 0usize,
    };
    if idx >= len {
        if len == 0 { 0usize } else { (len - 1) as usize }
    } else {
        idx
    }
}

/// The graph with the node at its selected row highlighted, the selection
/// kept to the last node.
pub open spec fn highlighted(v: NodeBoxView, active: Seq<Seq<char>>) -> NodeBoxView {
    let idx = match v.selected {
        Some(i) => i,
        None => 0usize,
    };
    let row = box_row(v.selected, v.len);
    let peer = active[row as int];
    NodeBoxView {
        selected: if idx >= v.len { Some(row) } else { v.selected },
        red_node: if v.shaped.contains(peer) { Some(peer) } else { None },
        links: recolored(v.links, peer),
        ..v
    }
}

/// The graph after `key`.
pub open spec fn box_after_key(v: NodeBoxView, key: Key, active: Seq<Seq<char>>, external: Seq<Seq<char>>) -> NodeBoxView {
    match key {
        Key::Up => if v.list == Lists::Internal {
            highlighted(NodeBoxView { selected: moved_up(v.selected), ..v }, active)
        } else {
            v
        },
        Key::Down => if v.list == Lists::Internal {
            highlighted(NodeBoxView { selected: moved_down(v.selected), ..v }, active)
        } else {
            v
        },
        Key::Char(c) => if c == 'e' && external.len() > 0 {
            NodeBoxView { list: v.list.other(), ..v }
        } else {
            v
        },
        _ => v,
    }
}

/// The graph after an action.
pub open spec fn box_after_action(v: NodeBoxView, a: ActionView, active: Seq<Seq<char>>) -> NodeBoxView {
    match a {
        ActionView::AddNode { peer_id, .. } => {
            let added = NodeBoxView { len: v.len + 1, shaped: v.shaped.insert(peer_id), ..v };
            if v.selected is None {
                highlighted(NodeBoxView { selected: Some(0usize), ..added }, active)
            } else {
                added
            }
        },
        ActionView::AddExternalNode { peer_id, .. } => NodeBoxView {
            external_shaped: v.external_shaped.insert(peer_id),
            ..v
        },
        ActionView::RemoveNode { peer_id } => NodeBoxView {
            len: (v.len - 1) as nat,
            shaped: v.shaped.remove(peer_id),
            links: without_peer(v.links, peer_id),
            ..v
        },
        ActionView::UpdateConnections { peer_one, peer_two } => {
            let drawn = v.shaped + v.external_shaped;
            if !has_link(v.links, peer_one, peer_two) && drawn.contains(peer_one) && drawn.contains(
                peer_two,
            ) {
                NodeBoxView { links: v.links.push((peer_one, peer_two, false)), ..v }
            } else {
                v
            }
        },
        ActionView::DisconnectFrom { peer_one, peer_two } => NodeBoxView {
            links: without_pair(without_pair(v.links, peer_one, peer_two), peer_two, peer_one),
            ..v
        },
        _ => v,
    }
}

/// The actions the graph queues on an action.
pub open spec fn box_emits(v: NodeBoxView, a: ActionView, active: Seq<Seq<char>>) -> Seq<ActionView> {
    match a {
        ActionView::AddNode { .. } => if v.selected is None {
            seq![ActionView::DisplayLogs { peer_id: active[0] }]
        } else {
            seq![]
        },
        _ => seq![],
    }
}

impl NodeBox {
    /// Nothing drawn, the internal list in use, no focus.
    pub fn new() -> (b: Self)
        ensures
            b@.list == Lists::Internal,
            b@.len == 0,
            b@.selected is None,
            !b@.focus,
            b@.red_node is None,
            b@.shaped == Set::<Seq<char>>::empty(),
            b@.external_shaped == Set::<Seq<char>>::empty(),
            b@.links == Seq::<(Seq<char>, Seq<char>, bool)>::empty(),
    {
        let b = NodeBox {
            list: Lists::Internal,
            len: 0,
            list_state: Selection::none(),
            focus: false,
            red_node: None,
            shaped: StringSet::new(),
            external_shaped: StringSet::new(),
            links: Vec::new(),
        };
        assert(b@.shaped =~= Set::<Seq<char>>::empty());
        assert(b@.external_shaped =~= Set::<Seq<char>>::empty());
        assert(b@.links =~= Seq::<(Seq<char>, Seq<char>, bool)>::empty());
        b
    }

    /// Sets whether the graph has the focus.
    pub fn focus(&mut self, focus: bool)
        ensures
            final(self)@ == (NodeBoxView { focus, ..old(self)@ }),
    {
        self.focus = focus;
    }

    /// Moves the selection down.
    pub fn select_next(&mut self)
        ensures
            final(self)@ == (NodeBoxView { selected: moved_down(old(self)@.selected), ..old(self)@ }),
    {
        self.list_state.select_next();
    }

    /// Moves the selection up.
    pub fn select_previous(&mut self)
        ensures
            final(self)@ == (NodeBoxView { selected: moved_up(old(self)@.selected), ..old(self)@ }),
    {
        self.list_state.select_previous();
    }

    /// Keeps a row inside the graph, moving the selection there when it was
    /// past the last node.
    fn clamp(&mut self, idx: usize) -> (r: usize)
        ensures
            r == box_row(Some(idx), old(self)@.len),
            final(self)@ == if idx >= old(self)@.len {
                NodeBoxView { selected: Some(r), ..old(self)@ }
            } else {
                old(self)@
            },
    {
        if idx >= self.len {
            let idx = self.len.saturating_sub(1);
            self.list_state.select(Some(idx));
            idx
        } else {
            idx
        }
    }

    fn recolor_lines(&mut self, peer: &String)
        ensures
            final(self)@ == (NodeBoxView { links: recolored(old(self)@.links, peer@), ..old(self)@ }),
    {
        let mut links: Vec<Link> = Vec::new();
        std::mem::swap(&mut links, &mut self.links);
        let ghost old_links = links_view(links@);
        let mut out: Vec<Link> = Vec::new();
        let mut i: usize = 0;
        while i < links.len()
            invariant
                i <= links@.len(),
                old_links == links_view(links@),
                links_view(out@) == recolored(old_links.subrange(0, i as int), peer@),
            decreases links@.len() - i,
        {
            let one = links[i].one.clone();
            let two = links[i].two.clone();
            let red = links[i].one == *peer || links[i].two == *peer;
            let ghost before = out@;
            out.push(Link { one, two, red });
            proof {
                assert(links_view(out@) =~= links_view(before).push((one@, two@, red)));
                assert(recolored(old_links.subrange(0, i + 1), peer@) =~= recolored(
                    old_links.subrange(0, i as int),
                    peer@,
                ).push((one@, two@, red)));
            }
            i += 1;
        }
        proof {
            assert(old_links.subrange(0, links@.len() as int) =~= old_links);
        }
        self.links = out;
    }

    fn update_selection_in_graph(&mut self, active_nodes: &IndexSet<String, RandomState>)
        requires
            box_row(old(self)@.selected, old(self)@.len) < index_set_items(*active_nodes).len(),
        ensures
            final(self)@ == highlighted(old(self)@, index_set_items(*active_nodes)),
    {
        self.red_node = None;
        let node_idx = self.clamp(self.list_state.selected().unwrap_or(0));
        let peer = match peer_set_get(active_nodes, node_idx) {
            Some(p) => p,
            None => String::new(),
        };
        if self.shaped.contains(&peer) {
            self.red_node = Some(peer.clone());
        }
        self.recolor_lines(&peer);
    }

    /// Whether the graph can take `key`: moving in the internal list needs
    /// the designated row among the active nodes.
    pub open spec fn accepts(&self, key: Key, active: Seq<Seq<char>>) -> bool {
        match key {
            Key::Up => self@.list == Lists::Internal ==> box_row(moved_up(self@.selected), self@.len)
                < active.len(),
            Key::Down => self@.list == Lists::Internal ==> box_row(moved_down(self@.selected), self@.len)
                < active.len(),
            _ => true,
        }
    }

    /// Whether the graph can take `key`.
    pub fn takes(&self, key: Key, active_nodes: &IndexSet<String, RandomState>) -> (b: bool)
        ensures
            b == self.accepts(key, index_set_items(*active_nodes)),
    {
        let moved = match key {
            Key::Up => {
                let mut s = self.list_state;
                s.select_previous();
                s
            },
            Key::Down => {
                let mut s = self.list_state;
                s.select_next();
                s
            },
            _ => {
                return true;
            },
        };
        match self.list {
            Lists::External => true,
            Lists::Internal => {
                let idx = moved.selected().unwrap_or(0);
                let row = if idx >= self.len { self.len.saturating_sub(1) } else { idx };
                row < peer_set_len(active_nodes)
            },
        }
    }

    /// Up and Down move the selection in the internal list and highlight the
    /// selected node and its lines; `e` switches list when there are
    /// external peers.
    pub fn handle_key_event(
        &mut self,
        key: Key,
        active_nodes: &IndexSet<String, RandomState>,
        external_nodes: &IndexSet<String, RandomState>,
    )
        requires
            old(self).accepts(key, index_set_items(*active_nodes)),
        ensures
            final(self)@ == box_after_key(old(self)@, key, index_set_items(*active_nodes), index_set_items(*external_nodes)),
    {
        match key {
            Key::Up => {
                if let Lists::Internal = self.list {
                    self.select_previous();
                    self.update_selection_in_graph(active_nodes);
                }
            },
            Key::Down => {
                if let Lists::Internal = self.list {
                    self.select_next();
                    self.update_selection_in_graph(active_nodes);
                }
            },
            Key::Char(c) => {
                if c == 'e' && peer_set_len(external_nodes) > 0 {
                    self.list = match self.list {
                        Lists::Internal => Lists::External,
                        Lists::External => Lists::Internal,
                    };
                }
            },
            _ => {},
        }
    }

    fn has_link(&self, a: &String, b: &String) -> (r: bool)
        ensures
            r == has_link(self@.links, a@, b@),
    {
        let mut i: usize = 0;
        while i < self.links.len()
            invariant
                i <= self.links@.len(),
                forall|j: int| 0 <= j < i ==> !(self.links@[j].one@ == a@ && self.links@[j].two@ == b@),
            decreases self.links@.len() - i,
        {
            if self.links[i].one == *a && self.links[i].two == *b {
                proof {
                    assert(links_view(self.links@)[i as int].0 == a@);
                }
                return true;
            }
            i += 1;
        }
        proof {
            if has_link(self@.links, a@, b@) {
                let k = choose|k: int| 0 <= k < self@.links.len() && self@.links[k].0 == a@ && self@.links[k].1 == b@;
                assert(links_view(self.links@)[k] == (self.links@[k].one@, self.links@[k].two@, self.links@[k].red));
            }
        }
        false
    }

    fn remove_pair(&mut self, a: &String, b: &String)
        ensures
            final(self)@ == (NodeBoxView { links: without_pair(old(self)@.links, a@, b@), ..old(self)@ }),
    {
        let mut links: Vec<Link> = Vec::new();
        std::mem::swap(&mut links, &mut self.links);
        let ghost old_links = links_view(links@);
        let mut out: Vec<Link> = Vec::new();
        let mut i: usize = 0;
        while i < links.len()
            invariant
                i <= links@.len(),
                old_links == links_view(links@),
                links_view(out@) == without_pair(old_links.subrange(0, i as int), a@, b@),
            decreases links@.len() - i,
        {
            let ghost pre = old_links.subrange(0, i + 1);
            assert(pre.drop_last() =~= old_links.subrange(0, i as int));
            if !(links[i].one == *a && links[i].two == *b) {
                let l = Link { one: links[i].one.clone(), two: links[i].two.clone(), red: links[i].red };
                let ghost before = out@;
                out.push(l);
                assert(links_view(out@) =~= links_view(before).push(old_links[i as int]));
            }
            i += 1;
        }
        proof {
            assert(old_links.subrange(0, links@.len() as int) =~= old_links);
        }
        self.links = out;
    }

    fn remove_line(&mut self, p: &String)
        ensures
            final(self)@ == (NodeBoxView { links: without_peer(old(self)@.links, p@), ..old(self)@ }),
    {
        let mut links: Vec<Link> = Vec::new();
        std::mem::swap(&mut links, &mut self.links);
        let ghost old_links = links_view(links@);
        let mut out: Vec<Link> = Vec::new();
        let mut i: usize = 0;
        while i < links.len()
            invariant
                i <= links@.len(),
                old_links == links_view(links@),
                links_view(out@) == without_peer(old_links.subrange(0, i as int), p@),
            decreases links@.len() - i,
        {
            let ghost pre = old_links.subrange(0, i + 1);
            assert(pre.drop_last() =~= old_links.subrange(0, i as int));
            if !(links[i].one == *p || links[i].two == *p) {
                let l = Link { one: links[i].one.clone(), two: links[i].two.clone(), red: links[i].red };
                let ghost before = out@;
                out.push(l);
                assert(links_view(out@) =~= links_view(before).push(old_links[i as int]));
            }
            i += 1;
        }
        proof {
            assert(old_links.subrange(0, links@.len() as int) =~= old_links);
        }
        self.links = out;
    }

    /// Whether the graph can take `action`: adding counts one node more and,
    /// when nothing is selected yet, highlights the first active node;
    /// removing needs a node counted.
    pub open spec fn accepts_action(&self, a: ActionView, active: Seq<Seq<char>>) -> bool {
        match a {
            ActionView::AddNode { .. } => self@.len < usize::MAX && (self@.selected is None ==> active.len()
                > 0),
            ActionView::RemoveNode { .. } => self@.len > 0,
            _ => true,
        }
    }

    /// Draws added nodes and peers, forgets removed nodes with their lines,
    /// joins connected peers that are drawn, and drops the lines of
    /// disconnected ones. The first node added is selected, highlighted,
    /// and its logs shown.
    pub fn update(&mut self, action: &Action, actions: &mut ActionQueue, active_nodes: &IndexSet<String, RandomState>)
        requires
            old(self).accepts_action(action@, index_set_items(*active_nodes)),
        ensures
            final(self)@ == box_after_action(old(self)@, action@, index_set_items(*active_nodes)),
            final(actions)@ == old(actions)@ + box_emits(old(self)@, action@, index_set_items(*active_nodes)),
    {
        match action {
            Action::AddNode { peer_id, .. } => {
                self.len = self.len + 1;
                self.shaped.insert(peer_id.clone());
                if self.list_state.selected().is_none() {
                    self.list_state = Selection::with_selected(Some(0));
                    self.update_selection_in_graph(active_nodes);
                    let first = match peer_set_get(active_nodes, 0) {
                        Some(p) => p,
                        None => String::new(),
                    };
                    actions.push(Action::DisplayLogs { peer_id: first });
                }
            },
            Action::AddExternalNode { peer_id, .. } => {
                self.external_shaped.insert(peer_id.clone());
            },
            Action::RemoveNode { peer_id } => {
                self.len = self.len - 1;
                self.shaped.remove(peer_id);
                self.remove_line(peer_id);
            },
            Action::UpdateConnections { peer_one, peer_two } => {
                if !self.has_link(peer_one, peer_two) {
                    let one_drawn = self.shaped.contains(peer_one) || self.external_shaped.contains(peer_one);
                    let two_drawn = self.shaped.contains(peer_two) || self.external_shaped.contains(peer_two);
                    if one_drawn && two_drawn {
                        let ghost before = self.links@;
                        self.links.push(Link { one: peer_one.clone(), two: peer_two.clone(), red: false });
                        assert(links_view(self.links@) =~= links_view(before).push((peer_one@, peer_two@, false)));
                    }
                }
            },
            Action::DisconnectFrom { peer_one, peer_two } => {
                self.remove_pair(peer_one, peer_two);
                self.remove_pair(peer_two, peer_one);
            },
            _ => {},
        }
    }

    /// The lines, for drawing.
    pub fn links(&self) -> (r: &Vec<Link>)
        ensures
            links_view(r@) == self@.links,
    {
        &self.links
    }

    /// The node highlighted as selected, for drawing.
    pub fn red_node(&self) -> (r: Option<String>)
        ensures
            peer_view(r) == self@.red_node,
    {
        match &self.red_node {
            Some(p) => Some(p.clone()),
            None => None,
        }
    }

    /// Number of nodes counted.
    pub fn len(&self) -> (n: usize)
        ensures
            n == self@.len,
    {
        self.len
    }

    /// The selected row.
    pub fn selected(&self) -> (r: Option<usize>)
        ensures
            r == self@.selected,
    {
        self.list_state.selected()
    }

    /// Whether the graph has the focus.
    pub fn has_focus(&self) -> (b: bool)
        ensures
            b == self@.focus,
    {
        self.focus
    }
}

} // verus!
