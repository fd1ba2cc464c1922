//! The selected row of a list, moved the way the list widget moves it.

use vstd::prelude::*;

verus! {

/// The selection after moving down one row: the first row when none was
/// selected. Drawing the list then corrects an index past its end
/// ([`list_drawn`]).
pub open spec fn moved_down(s: Option<usize>) -> Option<usize> {
    Some(
        match s {
            None => 0usize,
            Some(i) => if i == usize::MAX { usize::MAX } else { (i + 1) as usize },
        },
    )
}

/// The selection after moving up one row: the last row when none was
/// selected.
pub open spec fn moved_up(s: Option<usize>) -> Option<usize> {
    Some(
        match s {
            None => usize::MAX,
            Some(i) => if i == 0 { 0usize } else { (i - 1) as usize },
        },
    )
}

/// A selection after a list of `len` rows has been drawn: none in an empty
/// list, the last row for an index past the end, unchanged otherwise.
pub open spec fn list_drawn(s: Option<usize>, len: nat) -> Option<usize> {
    if len == 0 {
        None
    } else {
        match s {
            Some(i) => if i >= len { Some((len - 1) as usize) } else { Some(i) },
            None => None,
        }
    }
}

/// The selected index of a list, if any.
#[derive(Clone, Copy, Debug, PartialEq, Eq, Structural)]
pub struct Selection {
    pub selected: Option<usize>,
}

impl Selection {
    /// Nothing selected.
    pub fn none() -> (s: Self)
        ensures
            s.selected is None,
    {
        Selection { selected: None }
    }

    /// The given index selected.
    pub fn with_selected(selected: Option<usize>) -> (s: Self)
        ensures
            s.selected == selected,
    {
        Selection { selected }
    }

    /// The selected index.
    pub fn selected(&self) -> (r: Option<usize>)
        ensures
            r == self.selected,
    {
        self.selected
    }

    /// Selects the given index.
    pub fn select(&mut self, index: Option<usize>)
        ensures
            final(self).selected == index,
    {
        self.selected = index;
    }

    /// Corrects the selection the way drawing a list of `len` rows does.
    pub fn correct_for(&mut self, len: usize)
        ensures
            final(self).selected == list_drawn(old(self).selected, len as nat),
    {
        if len == 0 {
            self.selected = None;
        } else {
            match self.selected {
                Some(i) => {
                    if i >= len {
                        self.selected = Some(len - 1);
                    }
                },
                None => {},
            }
        }
    }

    /// Selects the next row, or the first when nothing is selected. Drawing
    /// the list then corrects an index past its end ([`Selection::correct_for`]).
    pub fn select_next(&mut self)
        ensures
            final(self).selected == moved_down(old(self).selected),
    {
        let next = match self.selected {
            None => 0,
            Some(i) => i.saturating_add(1),
        };
        self.selected = Some(next);
    }

    /// Selects the previous row, or the last when nothing is selected.
    pub fn select_previous(&mut self)
        ensures
            final(self).selected == moved_up(old(self).selected),
    {
        let previous = match self.selected {
            None => usize::MAX,
            Some(i) => i.saturating_sub(1),
        };
        self.selected = Some(previous);
    }
}

/// An index kept inside a list of `len` rows: the last row for any index past it.
pub open spec fn clamp_spec(idx: usize, len: usize) -> usize {
    if idx >= len { (len - 1) as usize } else { idx }
}

/// Keeps an index inside a non-empty list of `len` rows.
pub fn clamp(idx: usize, len: usize) -> (r: usize)
    requires
        len > 0,
    ensures
        r == clamp_spec(idx, len),
        r < len,
{
    if idx >= len { len - 1 } else { idx }
}

} // verus!
