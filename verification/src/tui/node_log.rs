//! The log panel of the selected node: which node it shows and where it is
//! scrolled to.

use vstd::prelude::*;

use crate::tui::actions::Key;
use crate::tui::node_list::scroll_clamp;
use crate::tui::selection::{list_drawn, moved_down, moved_up, Selection};

verus! {

/// Scrollable log panel for the selected node.
#[derive(Clone, Debug)]
pub struct NodeLog {
    /// The node whose logs are shown.
    pub selected: Option<String>,
    pub list: Selection,
    pub scroll: usize,
    /// Number of log lines last drawn.
    pub len: usize,
    pub focus: bool,
}

impl NodeLog {
    /// No node shown, at the top, no focus.
    pub fn new() -> (l: Self)
        ensures
            l.selected is None,
            l.list.selected is None,
            l.scroll == 0,
            l.len == 0,
            !l.focus,
    {
        NodeLog { selected: None, list: Selection::none(), scroll: 0, len: 0, focus: false }
    }

    /// Sets whether the panel has the focus.
    pub fn focus(&mut self, focus: bool)
        ensures
            final(self).focus == focus,
            final(self).selected == old(self).selected,
            final(self).list == old(self).list,
            final(self).scroll == old(self).scroll,
            final(self).len == old(self).len,
    {
        self.focus = focus;
    }

    /// Shows the logs of `peer`.
    pub fn display_logs(&mut self, peer: String)
        ensures
            final(self).selected == Some(peer),
            final(self).focus == old(self).focus,
            final(self).list == old(self).list,
            final(self).scroll == old(self).scroll,
            final(self).len == old(self).len,
    {
        self.selected = Some(peer);
    }

    /// Records how many log lines were drawn.
    pub fn set_len(&mut self, len: usize)
        ensures
            final(self).len == len,
            final(self).selected == old(self).selected,
            final(self).focus == old(self).focus,
            final(self).list == old(self).list,
            final(self).scroll == old(self).scroll,
    {
        self.len = len;
    }

    /// What drawing `len` log lines does: the count is recorded and the
    /// highlighted line corrected to the lines drawn.
    pub fn prepare_render(&mut self, len: usize)
        ensures
            final(self).len == len,
            final(self).list.selected == list_drawn(old(self).list.selected, len as nat),
            final(self).selected == old(self).selected,
            final(self).focus == old(self).focus,
            final(self).scroll == old(self).scroll,
    {
        self.len = len;
        self.list.correct_for(len);
    }

    /// Whether the panel can take `key`: scrolling down must stay below the
    /// machine limit.
    pub open spec fn accepts(&self, key: Key) -> bool {
        key is Down ==> self.scroll < usize::MAX
    }

    /// Whether the panel can take `key`.
    pub fn takes(&self, key: Key) -> (b: bool)
        ensures
            b == self.accepts(key),
    {
        match key {
            Key::Down => self.scroll < usize::MAX,
            _ => true,
        }
    }

    /// Up and Down move the highlighted line and the scroll position, the
    /// position kept to at most the number of lines drawn.
    pub fn handle_key_event(&mut self, key: Key)
        requires
            old(self).accepts(key),
        ensures
            final(self).selected == old(self).selected,
            final(self).focus == old(self).focus,
            final(self).len == old(self).len,
            final(self).list.selected == match key {
                Key::Up => moved_up(old(self).list.selected),
                Key::Down => moved_down(old(self).list.selected),
                _ => old(self).list.selected,
            },
            final(self).scroll == match key {
                Key::Up => scroll_clamp(if old(self).scroll == 0 { 0 } else { old(self).scroll - 1 }, old(self).len as nat),
                Key::Down => scroll_clamp(old(self).scroll + 1, old(self).len as nat),
                _ => old(self).scroll,
            },
    {
        match key {
            Key::Up => {
                self.list.select_previous();
                self.scroll = self.clap_scrollbar_pos(self.scroll.saturating_sub(1));
            },
            Key::Down => {
                self.scroll = self.clap_scrollbar_pos(self.scroll + 1);
                self.list.select_next();
            },
            _ => {},
        }
    }

    fn clap_scrollbar_pos(&self, new_pos: usize) -> (r: usize)
        ensures
            r == scroll_clamp(new_pos as int, self.len as nat),
    {
        if new_pos > self.len {
            self.len
        } else {
            new_pos
        }
    }
}

} // verus!
