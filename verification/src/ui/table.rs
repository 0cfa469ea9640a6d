//! A table whose rows can be walked through with the arrow keys.
use vstd::prelude::*;

use crate::ui::selection::{next_index, next_of, previous_index, previous_of};

verus! {

/// Which row of a table is highlighted.
#[derive(Clone, Copy, Debug)]
pub struct TableState {
    pub selected: Option<usize>,
}

impl TableState {
    /// No row highlighted.
    pub fn default() -> (r: TableState)
        ensures
            r.selected is None,
    {
        TableState { selected: None }
    }

    pub fn selected(&self) -> (r: Option<usize>)
        ensures
            r == self.selected,
    {
        self.selected
    }

    pub fn select(&mut self, index: Option<usize>)
        ensures
            final(self).selected == index,
    {
        self.selected = index;
    }
}

/// Rows of text cells with a highlighted row.
pub struct StatefulTable {
    pub state: TableState,
    pub items: Vec<Vec<String>>,
}

impl StatefulTable {
    /// An empty table with no row highlighted.
    pub fn default() -> (r: StatefulTable)
        ensures
            r.state.selected is None,
            r.items@.len() == 0,
    {
        StatefulTable { state: TableState::default(), items: Vec::new() }
    }

    /// A table of `items` with no row highlighted.
    pub fn with_items(items: Vec<Vec<String>>) -> (r: StatefulTable)
        ensures
            r.state.selected is None,
            r.items == items,
    {
        StatefulTable { state: TableState::default(), items }
    }

    /// Highlights the next row, wrapping from the last row to the first.
    pub fn next(&mut self)
        ensures
            final(self).state.selected == Some(next_index(old(self).state.selected, old(self).items@.len())),
            final(self).items == old(self).items,
    {
        let i = next_of(self.state.selected(), self.items.len());
        self.state.select(Some(i));
    }

    /// Highlights the previous row, wrapping from the first row to the last.
    pub fn previous(&mut self)
        ensures
            final(self).state.selected == Some(previous_index(old(self).state.selected, old(self).items@.len())),
            final(self).items == old(self).items,
    {
        let i = previous_of(self.state.selected(), self.items.len());
        self.state.select(Some(i));
    }
}

} // verus!
