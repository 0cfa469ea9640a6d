//! A list whose entries can be walked through with the arrow keys.
use vstd::prelude::*;

use crate::ui::selection::{next_index, next_of, previous_index, previous_of};

verus! {

/// Which entry of a list is highlighted.
#[derive(Clone, Copy, Debug)]
pub struct ListState {
    pub selected: Option<usize>,
}

impl ListState {
    /// No entry highlighted.
    pub fn default() -> (r: ListState)
        ensures
            r.selected is None,
    {
        ListState { selected: None }
    }

    pub fn selected(&self) -> (r: Option<usize>)
        ensures
            r == self.selected,
    {
        self.selected
    }

    pub fn select(&mut self, index: Option<usize>)
        ensures
            final(self).selected == index,
    {
        self.selected = index;
    }
}

/// Text entries with a highlighted entry.
pub struct StatefulList {
    pub state: ListState,
    pub items: Vec<String>,
}

impl StatefulList {
    /// An empty list with nothing highlighted.
    pub fn default() -> (r: StatefulList)
        ensures
            r.state.selected is None,
            r.items@.len() == 0,
    {
        StatefulList { state: ListState::default(), items: Vec::new() }
    }

    /// A list of `items`, highlighted as `state` says (nothing when `state` is `None`).
    pub fn with_items(items: Vec<String>, state: Option<ListState>) -> (r: StatefulList)
        ensures
            r.items == items,
            r.state.selected == (match state {
                Some(s) => s.selected,
                None => None,
            }),
    {
        let state = match state {
            Some(s) => s,
            None => ListState::default(),
        };
        StatefulList { state, items }
    }

    /// Highlights the first entry.
    pub fn first(&mut self)
        ensures
            final(self).state.selected == Some(0usize),
            final(self).items == old(self).items,
    {
        self.state.select(Some(0));
    }

    /// Highlights the next entry, wrapping from the last entry to the first.
    pub fn next(&mut self)
        ensures
            final(self).state.selected == Some(next_index(old(self).state.selected, old(self).items@.len())),
            final(self).items == old(self).items,
    {
        let i = next_of(self.state.selected(), self.items.len());
        self.state.select(Some(i));
    }

    /// Highlights the previous entry, wrapping from the first entry to the last.
    pub fn previous(&mut self)
        ensures
            final(self).state.selected == Some(previous_index(old(self).state.selected, old(self).items@.len())),
            final(self).items == old(self).items,
    {
        let i = previous_of(self.state.selected(), self.items.len());
        self.state.select(Some(i));
    }
}

} // verus!
