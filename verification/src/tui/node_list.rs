//! The list of running nodes and of external peers, with its selection and
//! scroll positions.

use indexmap::IndexSet;
use std::hash::RandomState;

use vstd::prelude::*;

use crate::config::MAX_NODES;
use crate::history::KadMode;
use crate::tui::actions::{Action, ActionQueue, ActionView, Key, PopUpContent};
use crate::tui::peer_set::{index_set_items, peer_set_get, peer_set_len};
use crate::tui::selection::{clamp, clamp_spec, list_drawn, moved_down, moved_up, Selection};

verus! {

/// Which of the two lists has the focus.
#[derive(Clone, Copy, Debug, PartialEq, Eq, Structural)]
pub enum Lists {
    Internal,
    External,
}

impl Lists {
    /// The other list.
    pub open spec fn other(self) -> Lists {
        match self {
            Lists::Internal => Lists::External,
            Lists::External => Lists::Internal,
        }
    }
}

/// A scroll position moved to `new_pos`, kept to at most `len`.
pub open spec fn scroll_clamp(new_pos: int, len: nat) -> usize {
    if new_pos > len {
        len as usize
    } else {
        new_pos as usize
    }
}

/// The selection of a list, the first row when none.
pub open spec fn sel_or_first(s: Option<usize>) -> usize {
    match s {
        Some(i) => i,
        None => 0,
    }
}

/// Scrollable lists of the running nodes and of the external peers.
#[derive(Clone, Copy, Debug)]
pub struct NodeList {
    /// Number of nodes added and not removed.
    pub len: usize,
    pub internal: Selection,
    pub external: Selection,
    pub internal_scroll: usize,
    pub external_scroll: usize,
    pub list: Lists,
    pub focus: bool,
}

impl NodeList {
    /// Empty lists, the internal one in use, no focus.
    pub fn new() -> (l: Self)
        ensures
            l.len == 0,
            l.internal.selected is None,
            l.external.selected is None,
            l.internal_scroll == 0,
            l.external_scroll == 0,
            l.list == Lists::Internal,
            !l.focus,
    {
        NodeList {
            len: 0,
            internal: Selection::none(),
            external: Selection::none(),
            internal_scroll: 0,
            external_scroll: 0,
            list: Lists::Internal,
            focus: false,
        }
    }

    /// Sets whether the list has the focus.
    pub fn focus(&mut self, focus: bool)
        ensures
            *final(self) == (NodeList { focus, ..*old(self) }),
    {
        self.focus = focus;
    }

    /// The selection of the list in use.
    pub open spec fn current(&self) -> Option<usize> {
        match self.list {
            Lists::Internal => self.internal.selected,
            Lists::External => self.external.selected,
        }
    }

    /// The scroll position of the list in use.
    pub open spec fn current_scroll(&self) -> usize {
        match self.list {
            Lists::Internal => self.internal_scroll,
            Lists::External => self.external_scroll,
        }
    }

    /// Moves the selection of the list in use down.
    pub fn select_next(&mut self)
        ensures
            *final(self) == match old(self).list {
                Lists::Internal => NodeList {
                    internal: Selection { selected: moved_down(old(self).internal.selected) },
                    ..*old(self)
                },
                Lists::External => NodeList {
                    external: Selection { selected: moved_down(old(self).external.selected) },
                    ..*old(self)
                },
            },
    {
        match self.list {
            Lists::Internal => self.internal.select_next(),
            Lists::External => self.external.select_next(),
        }
    }

    /// Moves the selection of the list in use up.
    pub fn select_previous(&mut self)
        ensures
            *final(self) == match old(self).list {
                Lists::Internal => NodeList {
                    internal: Selection { selected: moved_up(old(self).internal.selected) },
                    ..*old(self)
                },
                Lists::External => NodeList {
                    external: Selection { selected: moved_up(old(self).external.selected) },
                    ..*old(self)
                },
            },
    {
        match self.list {
            Lists::Internal => self.internal.select_previous(),
            Lists::External => self.external.select_previous(),
        }
    }

    /// Keeps a row index inside the list of nodes.
    pub fn clamp(&self, idx: usize) -> (r: usize)
        requires
            self.len > 0,
        ensures
            r == clamp_spec(idx, self.len),
    {
        clamp(idx, self.len)
    }

    /// A scroll position kept to the length of the list in use.
    fn clap_scrollbar_pos(
        &self,
        new_pos: usize,
        active_nodes: &IndexSet<String, RandomState>,
        external_nodes: &IndexSet<String, RandomState>,
    ) -> (r: usize)
        ensures
            r == scroll_clamp(
                new_pos as int,
                match self.list {
                    Lists::Internal => index_set_items(*active_nodes).len(),
                    Lists::External => index_set_items(*external_nodes).len(),
                },
            ),
    {
        let len = match self.list {
            Lists::Internal => peer_set_len(active_nodes),
            Lists::External => peer_set_len(external_nodes),
        };
        if new_pos > len {
            len
        } else {
            new_pos
        }
    }

    /// The list after `key` moved its selection.
    pub open spec fn moved(&self, key: Key) -> NodeList {
        match key {
            Key::Up => match self.list {
                Lists::Internal => NodeList { internal: Selection { selected: moved_up(self.internal.selected) }, ..*self },
                Lists::External => NodeList { external: Selection { selected: moved_up(self.external.selected) }, ..*self },
            },
            Key::Down => match self.list {
                Lists::Internal => NodeList { internal: Selection { selected: moved_down(self.internal.selected) }, ..*self },
                Lists::External => NodeList { external: Selection { selected: moved_down(self.external.selected) }, ..*self },
            },
            _ => *self,
        }
    }

    /// The node row `key` designates, after it moved the selection.
    pub open spec fn node_row(&self, key: Key) -> usize {
        clamp_spec(sel_or_first(self.moved(key).current()), self.len)
    }

    /// Whether the list can take `key`: moving and opening need a node, the
    /// row designated must be among the active nodes where it is used, and
    /// the scroll position must not be at the machine limit.
    pub open spec fn accepts(&self, key: Key, active: Seq<Seq<char>>) -> bool {
        match key {
            Key::Up | Key::Down => {
                &&& self.len > 0
                &&& self.current_scroll() < usize::MAX
                &&& self.list == Lists::Internal ==> self.node_row(key) < active.len()
            },
            Key::Enter => self.len > 0 && self.node_row(key) < active.len(),
            _ => true,
        }
    }

    /// The list after `key`.
    pub open spec fn after_key(&self, key: Key, active: Seq<Seq<char>>, external: Seq<Seq<char>>) -> NodeList {
        let m = self.moved(key);
        match key {
            Key::Up | Key::Down => match self.list {
                Lists::Internal => NodeList {
                    internal_scroll: scroll_clamp(self.internal_scroll + 1, active.len()),
                    ..m
                },
                Lists::External => NodeList {
                    external_scroll: scroll_clamp(self.external_scroll + 1, external.len()),
                    ..m
                },
            },
            Key::Char(c) => if c == 'e' && external.len() > 0 {
                NodeList { list: self.list.other(), ..*self }
            } else {
                *self
            },
            _ => *self,
        }
    }

    /// The actions the list queues on `key`.
    pub open spec fn emits(&self, key: Key, active: Seq<Seq<char>>) -> Seq<ActionView> {
        match key {
            Key::Up | Key::Down => if self.list == Lists::Internal {
                seq![ActionView::DisplayLogs { peer_id: active[self.node_row(key) as int] }]
            } else {
                seq![]
            },
            Key::Char(c) => if self.list == Lists::Internal && c == 's' {
                seq![ActionView::StartNode { kad_mode: KadMode::Server }]
            } else if self.list == Lists::Internal && c == 'c' {
                seq![ActionView::StartNode { kad_mode: KadMode::Client }]
            } else {
                seq![]
            },
            Key::Enter => seq![
                ActionView::Popup {
                    content: PopUpContent::NodeCommands,
                    peer_id: active[self.node_row(key) as int],
                },
            ],
            _ => seq![],
        }
    }

    /// What drawing the lists does to their selections: the internal list
    /// is always drawn, the external one when there are external peers, and
    /// each drawn list corrects its selection to its rows.
    pub fn prepare_render(
        &mut self,
        active_nodes: &IndexSet<String, RandomState>,
        external_nodes: &IndexSet<String, RandomState>,
    )
        ensures
            *final(self) == (NodeList {
                internal: Selection {
                    selected: list_drawn(old(self).internal.selected, index_set_items(*active_nodes).len()),
                },
                external: if index_set_items(*external_nodes).len() > 0 {
                    Selection {
                        selected: list_drawn(old(self).external.selected, index_set_items(*external_nodes).len()),
                    }
                } else {
                    old(self).external
                },
                ..*old(self)
            }),
    {
        let active = peer_set_len(active_nodes);
        self.internal.correct_for(active);
        let external = peer_set_len(external_nodes);
        if external > 0 {
            self.external.correct_for(external);
        }
    }

    /// Whether the list can take `key`.
    pub fn takes(&self, key: Key, active_nodes: &IndexSet<String, RandomState>) -> (b: bool)
        ensures
            b == self.accepts(key, index_set_items(*active_nodes)),
    {
        match key {
            Key::Up | Key::Down => {
                if self.len == 0 {
                    return false;
                }
                let mut moved = *self;
                if let Key::Up = key {
                    moved.select_previous();
                } else {
                    moved.select_next();
                }
                let sel = match moved.list {
                    Lists::Internal => moved.internal.selected(),
                    Lists::External => moved.external.selected(),
                };
                let row = self.clamp(sel.unwrap_or(0));
                let scroll = match self.list {
                    Lists::Internal => self.internal_scroll,
                    Lists::External => self.external_scroll,
                };
                let in_reach = match self.list {
                    Lists::Internal => row < peer_set_len(active_nodes),
                    Lists::External => true,
                };
                scroll < usize::MAX && in_reach
            },
            Key::Enter => {
                if self.len == 0 {
                    return false;
                }
                let sel = match self.list {
                    Lists::Internal => self.internal.selected(),
                    Lists::External => self.external.selected(),
                };
                let row = self.clamp(sel.unwrap_or(0));
                row < peer_set_len(active_nodes)
            },
            _ => true,
        }
    }

    /// Up and Down move the selection of the list in use and advance its
    /// scroll position, showing the logs of the designated node in the
    /// internal list; `s` and `c` start a server or a client node; `e`
    /// switches list when there are external peers; Enter opens the
    /// command popup for the designated node.
    pub fn handle_key_event(
        &mut self,
        key: Key,
        actions: &mut ActionQueue,
        active_nodes: &IndexSet<String, RandomState>,
        external_nodes: &IndexSet<String, RandomState>,
    )
        requires
            old(self).accepts(key, index_set_items(*active_nodes)),
        ensures
            *final(self) == old(self).after_key(key, index_set_items(*active_nodes), index_set_items(*external_nodes)),
            final(actions)@ == old(actions)@ + old(self).emits(key, index_set_items(*active_nodes)),
    {
        let ghost active = index_set_items(*active_nodes);
        match key {
            Key::Up | Key::Down => {
                if let Key::Up = key {
                    self.select_previous();
                } else {
                    self.select_next();
                }
                let sel = match self.list {
                    Lists::Internal => self.internal.selected(),
                    Lists::External => self.external.selected(),
                };
                let node_idx = self.clamp(sel.unwrap_or(0));
                match self.list {
                    Lists::External => {
                        let pos = self.clap_scrollbar_pos(self.external_scroll + 1, active_nodes, external_nodes);
                        self.external_scroll = pos;
                        assert(old(actions)@ + Seq::<ActionView>::empty() =~= old(actions)@);
                    },
                    Lists::Internal => {
                        let pos = self.clap_scrollbar_pos(self.internal_scroll + 1, active_nodes, external_nodes);
                        self.internal_scroll = pos;
                        let peer_id = match peer_set_get(active_nodes, node_idx) {
                            Some(p) => p,
                            None => String::new(),
                        };
                        actions.push(Action::DisplayLogs { peer_id });
                    },
                }
            },
            Key::Char(c) => {
                if c == 's' {
                    if let Lists::Internal = self.list {
                        actions.push(Action::StartNode { kad_mode: KadMode::Server });
                    }
                } else if c == 'c' {
                    if let Lists::Internal = self.list {
                        actions.push(Action::StartNode { kad_mode: KadMode::Client });
                    }
                } else if c == 'e' && peer_set_len(external_nodes) > 0 {
                    self.list = match self.list {
                        Lists::Internal => Lists::External,
                        Lists::External => Lists::Internal,
                    };
                }
                assert(old(actions)@ + Seq::<ActionView>::empty() =~= old(actions)@);
            },
            Key::Enter => {
                let sel = match self.list {
                    Lists::Internal => self.internal.selected(),
                    Lists::External => self.external.selected(),
                };
                let node_idx = self.clamp(sel.unwrap_or(0));
                let peer_id = match peer_set_get(active_nodes, node_idx) {
                    Some(p) => p,
                    None => String::new(),
                };
                actions.push(Action::Popup { content: PopUpContent::NodeCommands, peer_id });
            },
            _ => {
                assert(old(actions)@ + Seq::<ActionView>::empty() =~= old(actions)@);
            },
        }
    }

    /// Whether the list can take `action`: adding counts one node more and,
    /// when nothing is selected yet, shows the first active node; removing
    /// needs a node counted.
    pub open spec fn accepts_action(&self, a: ActionView, active: Seq<Seq<char>>) -> bool {
        match a {
            ActionView::AddNode { .. } => self.len < usize::MAX && (self.internal.selected is None
                ==> active.len() > 0),
            ActionView::RemoveNode { .. } => self.len > 0,
            _ => true,
        }
    }

    /// The list after an action.
    pub open spec fn after_action(&self, a: ActionView) -> NodeList {
        match a {
            ActionView::AddNode { .. } => NodeList {
                len: (self.len + 1) as usize,
                internal: if self.internal.selected is None {
                    Selection { selected: Some(0usize) }
                } else {
                    self.internal
                },
                ..*self
            },
            ActionView::RemoveNode { .. } => NodeList { len: (self.len - 1) as usize, ..*self },
            _ => *self,
        }
    }

    /// The actions the list queues on an action.
    pub open spec fn action_emits(&self, a: ActionView, active: Seq<Seq<char>>) -> Seq<ActionView> {
        match a {
            ActionView::AddNode { .. } => if self.internal.selected is None {
                seq![ActionView::DisplayLogs { peer_id: active[0] }]
            } else {
                seq![]
            },
            _ => seq![],
        }
    }

    /// A node added counts one more and selects the first row when nothing
    /// was selected, showing the first active node's logs; a node removed
    /// counts one less.
    pub fn update(&mut self, action: &Action, actions: &mut ActionQueue, active_nodes: &IndexSet<String, RandomState>)
        requires
            old(self).accepts_action(action@, index_set_items(*active_nodes)),
        ensures
            *final(self) == old(self).after_action(action@),
            final(actions)@ == old(actions)@ + old(self).action_emits(action@, index_set_items(*active_nodes)),
    {
        match action {
            Action::AddNode { .. } => {
                self.len = self.len + 1;
                if self.internal.selected().is_none() {
                    self.internal = Selection::with_selected(Some(0));
                    let peer_id = match peer_set_get(active_nodes, 0) {
                        Some(p) => p,
                        None => String::new(),
                    };
                    actions.push(Action::DisplayLogs { peer_id });
                }
            },
            Action::RemoveNode { .. } => {
                self.len = self.len - 1;
            },
            _ => {},
        }
    }
}

/// The hint at the bottom of the node list.
pub open spec fn footer_text(active_len: nat, external_empty: bool) -> Seq<char> {
    if active_len < MAX_NODES && !external_empty {
        "<s> Add server node <c> Add client node <e> Switch to external"@
    } else if active_len < MAX_NODES && external_empty {
        "<s> Add server node <c> Add client node"@
    } else {
        "MAX NODES"@
    }
}

/// The hint at the bottom of the node list, which offers to add nodes while
/// fewer than the maximum run.
pub fn footer(active_nodes: &IndexSet<String, RandomState>, external_nodes: &IndexSet<String, RandomState>) -> (s: String)
    ensures
        s@ == footer_text(index_set_items(*active_nodes).len(), index_set_items(*external_nodes).len() == 0),
{
    let active = peer_set_len(active_nodes);
    let max_nodes = MAX_NODES as usize;
    let external_empty = peer_set_len(external_nodes) == 0;
    if active < max_nodes && !external_empty {
        String::from_str("<s> Add server node <c> Add client node <e> Switch to external")
    } else if active < max_nodes && external_empty {
        String::from_str("<s> Add server node <c> Add client node")
    } else {
        String::from_str("MAX NODES")
    }
}

} // verus!
