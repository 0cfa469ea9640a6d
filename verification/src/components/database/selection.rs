//! The list of database kinds of the database tab, walked with the configured keys.
use vstd::prelude::*;

use crate::config::Config;
use crate::events::EventState;
use crate::key::Key;
use crate::ui::list::{ListState, StatefulList};
use crate::ui::selection::{next_index, previous_index};

verus! {

/// The entries of a kind list: the kinds of the configuration, in order.
pub open spec fn kind_entries(kinds: Seq<(Seq<char>, Seq<Seq<char>>)>, items: Seq<String>) -> bool {
    &&& items.len() == kinds.len()
    &&& forall|i: int| 0 <= i < items.len() ==> #[trigger] items[i]@ == kinds[i].0
}

/// The database kinds, with the first one highlighted.
pub struct DatabaseSelectionComponent {
    pub config: Config,
    pub list: StatefulList,
}

impl DatabaseSelectionComponent {
    /// The kinds of the configuration, the first one highlighted.
    pub fn new(config: Config) -> (r: DatabaseSelectionComponent)
        ensures
            r.config == config,
            kind_entries(config@.databases, r.list.items@),
            r.list.state.selected == Some(0usize),
    {
        let items = config.databases.keys();
        let mut state = ListState::default();
        state.select(Some(0));
        let list = StatefulList::with_items(items, Some(state));
        DatabaseSelectionComponent { config, list }
    }

    /// The highlighted kind.
    pub fn state(&self) -> (r: ListState)
        ensures
            r == self.list.state,
    {
        self.list.state
    }

    /// The configured `database_select_up` and `database_select_down` keys move the
    /// highlight with wrap-around; other keys are left alone.
    pub fn event(&mut self, key: Key) -> (r: EventState)
        ensures
            final(self).config == old(self).config,
            final(self).list.items == old(self).list.items,
            if key == old(self).config.key_config.database_select_up {
                final(self).list.state.selected == Some(previous_index(old(self).list.state.selected, old(self).list.items@.len())) && r == EventState::Consumed
            } else if key == old(self).config.key_config.database_select_down {
                final(self).list.state.selected == Some(next_index(old(self).list.state.selected, old(self).list.items@.len())) && r == EventState::Consumed
            } else {
                final(self).list.state == old(self).list.state && r == EventState::NotConsumed
            },
    {
        if key == self.config.key_config.database_select_up {
            self.list.previous();
            return EventState::Consumed;
        }
        if key == self.config.key_config.database_select_down {
            self.list.next();
            return EventState::Consumed;
        }
        EventState::NotConsumed
    }
}

} // verus!
