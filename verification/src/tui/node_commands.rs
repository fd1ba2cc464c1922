//! The popup menu of commands for one node.

use vstd::prelude::*;

use crate::tui::actions::{Action, ActionQueue, ActionView, Key};
use crate::tui::selection::{clamp, clamp_spec, list_drawn, moved_down, moved_up, Selection};

verus! {

/// The view of an optional peer.
pub open spec fn peer_view(p: Option<String>) -> Option<Seq<char>> {
    match p {
        Some(s) => Some(s@),
        None => None,
    }
}

/// The menu's state: the node it acts on and the highlighted row.
pub struct MenuView {
    pub node: Option<Seq<char>>,
    pub selected: Option<usize>,
}

/// The action a row of the command menu stands for.
pub open spec fn command_for_row(row: usize, peer: Seq<char>) -> ActionView {
    if row == 0 {
        ActionView::DisplayManageConnections { peer_id: peer }
    } else if row == 1 {
        ActionView::DisplayInfo { peer_id: peer }
    } else {
        ActionView::StopNode { peer_id: peer }
    }
}

/// The row chosen by Enter: the highlighted one, the first when none is,
/// kept inside a menu of `rows` rows.
pub open spec fn chosen_row(selected: Option<usize>, rows: usize) -> usize {
    clamp_spec(
        match selected {
            Some(i) => i,
            None => 0,
        },
        rows,
    )
}

/// A menu's state after Up or Down moved its highlight.
pub open spec fn menu_moved(v: MenuView, key: Key) -> MenuView {
    match key {
        Key::Up => MenuView { selected: moved_up(v.selected), ..v },
        Key::Down => MenuView { selected: moved_down(v.selected), ..v },
        _ => v,
    }
}

/// The command menu's state after `key`.
pub open spec fn commands_after_key(v: MenuView, key: Key) -> MenuView {
    menu_moved(v, key)
}

/// The actions the command menu queues on `key`.
pub open spec fn commands_emits(v: MenuView, key: Key) -> Seq<ActionView> {
    match key {
        Key::Enter => seq![command_for_row(chosen_row(v.selected, COMMAND_ROWS), v.node->0)],
        Key::Esc => seq![ActionView::ClosePopup],
        _ => seq![],
    }
}

/// Number of rows of the command menu.
pub const COMMAND_ROWS: usize = 3;

/// Menu of the commands for a node: manage connections, node info, stop.
#[derive(Debug)]
pub struct NodeCommands {
    node: Option<String>,
    list_state: Selection,
}

impl View for NodeCommands {
    type V = MenuView;

    closed spec fn view(&self) -> MenuView {
        MenuView { node: peer_view(self.node), selected: self.list_state.selected }
    }
}

impl NodeCommands {
    /// The menu with its first row highlighted and no node.
    pub fn new() -> (c: Self)
        ensures
            c@.node is None,
            c@.selected == Some(0usize),
    {
        NodeCommands { node: None, list_state: Selection::with_selected(Some(0)) }
    }

    /// Sets the node the commands act on.
    pub fn set_node(&mut self, node: String)
        ensures
            final(self)@.node == Some(node@),
            final(self)@.selected == old(self)@.selected,
    {
        self.node = Some(node);
    }

    /// Highlights the next row.
    pub fn select_next(&mut self)
        ensures
            final(self)@.node == old(self)@.node,
            final(self)@.selected == moved_down(old(self)@.selected),
    {
        self.list_state.select_next();
    }

    /// Highlights the previous row.
    pub fn select_previous(&mut self)
        ensures
            final(self)@.node == old(self)@.node,
            final(self)@.selected == moved_up(old(self)@.selected),
    {
        self.list_state.select_previous();
    }

    /// The highlighted row.
    pub fn selected(&self) -> (r: Option<usize>)
        ensures
            r == self@.selected,
    {
        self.list_state.selected()
    }

    /// Keeps a row index inside the menu.
    pub fn clamp(&self, idx: usize) -> (r: usize)
        ensures
            r == clamp_spec(idx, COMMAND_ROWS),
    {
        clamp(idx, COMMAND_ROWS)
    }

    /// Whether the menu can take `key`: a row is chosen only for a node.
    pub open spec fn accepts(&self, key: Key) -> bool {
        key is Enter ==> self@.node is Some
    }

    /// What drawing the menu does: with a node set, its rows are drawn and
    /// the highlight corrected to them.
    pub fn prepare_render(&mut self)
        ensures
            final(self)@.node == old(self)@.node,
            final(self)@.selected == if old(self)@.node is Some {
                list_drawn(old(self)@.selected, COMMAND_ROWS as nat)
            } else {
                old(self)@.selected
            },
    {
        if self.node.is_some() {
            self.list_state.correct_for(COMMAND_ROWS);
        }
    }

    /// Whether the menu can take `key`.
    pub fn takes(&self, key: Key) -> (b: bool)
        ensures
            b == self.accepts(key),
    {
        match key {
            Key::Enter => self.node.is_some(),
            _ => true,
        }
    }

    /// Moves the highlight on Up and Down; Enter queues the highlighted
    /// command for the node, Esc closes the popup.
    pub fn handle_key_event(&mut self, key: Key, actions: &mut ActionQueue)
        requires
            old(self).accepts(key),
        ensures
            final(self)@ == commands_after_key(old(self)@, key),
            final(actions)@ == old(actions)@ + commands_emits(old(self)@, key),
    {
        match key {
            Key::Up => self.select_previous(),
            Key::Down => self.select_next(),
            Key::Enter => {
                let selection = self.clamp(self.list_state.selected().unwrap_or(0));
                let peer_id = match &self.node {
                    Some(p) => p.clone(),
                    None => String::new(),
                };
                if selection == 0 {
                    actions.push(Action::DisplayManageConnections { peer_id });
                } else if selection == 1 {
                    actions.push(Action::DisplayInfo { peer_id });
                } else {
                    actions.push(Action::StopNode { peer_id });
                }
            },
            Key::Esc => actions.push(Action::ClosePopup),
            _ => {},
        }
    }
}

} // verus!
