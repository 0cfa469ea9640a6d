//! A table with column headers whose rows can be walked through with the arrow keys.
use vstd::prelude::*;

use crate::ui::selection::{next_index, next_of, previous_index, previous_of};
use crate::ui::table::TableState;
use crate::components::rows::row_views;

verus! {

/// Rows of text cells under column headers, with a highlighted row.
pub struct StatefulTable {
    pub state: TableState,
    pub headers: Vec<&'static str>,
    pub items: Vec<Vec<String>>,
}

fn copy_row(row: &Vec<String>) -> (r: Vec<String>)
    ensures
        r@ == row@,
{
    let mut r: Vec<String> = Vec::new();
    let mut i: usize = 0;
    while i < row.len()
        invariant
            i <= row@.len(),
            r@ == row@.take(i as int),
        decreases row@.len() - i,
    {
        r.push(row[i].clone());
        assert(r@ =~= row@.take(i as int + 1));
        i = i + 1;
    }
    assert(row@.take(row@.len() as int) =~= row@);
    r
}

impl StatefulTable {
    /// No headers, no rows, nothing highlighted.
    pub fn default() -> (r: StatefulTable)
        ensures
            r.state.selected is None,
            r.headers@.len() == 0,
            r.items@.len() == 0,
    {
        StatefulTable { state: TableState::default(), headers: Vec::new(), items: Vec::new() }
    }

    pub fn with_items(&mut self, items: Vec<Vec<String>>) -> (r: &mut StatefulTable)
        ensures
            *r == (StatefulTable { items, ..*old(self) }),
            *final(self) == *final(r),
    {
        self.items = items;
        self
    }

    pub fn with_headers(&mut self, headers: Vec<&'static str>) -> (r: &mut StatefulTable)
        ensures
            *r == (StatefulTable { headers, ..*old(self) }),
            *final(self) == *final(r),
    {
        self.headers = headers;
        self
    }

    /// A copy of the table.
    pub fn build(&self) -> (r: StatefulTable)
        ensures
            r.state == self.state,
            r.headers@ == self.headers@,
            row_views(r.items@) == row_views(self.items@),
    {
        let mut headers: Vec<&'static str> = Vec::new();
        let mut i: usize = 0;
        while i < self.headers.len()
            invariant
                i <= self.headers@.len(),
                headers@ == self.headers@.take(i as int),
            decreases self.headers@.len() - i,
        {
            headers.push(self.headers[i]);
            assert(headers@ =~= self.headers@.take(i as int + 1));
            i = i + 1;
        }
        assert(self.headers@.take(self.headers@.len() as int) =~= self.headers@);
        let mut items: Vec<Vec<String>> = Vec::new();
        let mut k: usize = 0;
        while k < self.items.len()
            invariant
                k <= self.items@.len(),
                items@.len() == k,
                forall|j: int| 0 <= j < k ==> (#[trigger] items@[j])@ == self.items@[j]@,
            decreases self.items@.len() - k,
        {
            items.push(copy_row(&self.items[k]));
            k = k + 1;
        }
        assert(row_views(items@) =~= row_views(self.items@));
        StatefulTable { state: self.state, headers, items }
    }

    /// Highlights the next row, wrapping from the last row to the first.
    pub fn next(&mut self)
        ensures
            final(self).state.selected == Some(next_index(old(self).state.selected, old(self).items@.len())),
            final(self).items == old(self).items,
            final(self).headers == old(self).headers,
    {
        let i = next_of(self.state.selected(), self.items.len());
        self.state.select(Some(i));
    }

    /// Highlights the previous row, wrapping from the first row to the last.
    pub fn previous(&mut self)
        ensures
            final(self).state.selected == Some(previous_index(old(self).state.selected, old(self).items@.len())),
            final(self).items == old(self).items,
            final(self).headers == old(self).headers,
    {
        let i = previous_of(self.state.selected(), self.items.len());
        self.state.select(Some(i));
    }
}

} // verus!
