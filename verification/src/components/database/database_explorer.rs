//! The list of database paths of the selected kind.
use vstd::prelude::*;

use crate::components::navigation::{list_navigation, navigate, ListFocus};
use crate::config::{config_paths, kind_index, Config};
use crate::events::EventState;
use crate::key::Key;
use crate::text::push_str;
use crate::ui::list::{ListState, StatefulList};
use crate::utils::file::{absolutized, get_absolute_path, is_absolute};

verus! {

/// The paths of the databases of one kind.
pub struct DatabaseExplorerComponent {
    pub config: Config,
    pub list: StatefulList,
    pub focus: ListFocus,
}

/// The entries of a path list: each path made absolute against the working directory.
pub open spec fn path_entries(paths: Seq<Seq<char>>, cwd: Seq<char>, items: Seq<String>) -> bool {
    &&& items.len() == paths.len()
    &&& forall|i: int| 0 <= i < items.len() ==> #[trigger] items[i]@ == absolutized(paths[i], cwd)
}

fn build_list(config: &Config, database: &String) -> (r: StatefulList)
    requires
        kind_index(config.databases@, database@) is Some,
        is_absolute(config.cwd@),
    ensures
        path_entries(
            config.databases@[kind_index(config.databases@, database@)->0].1,
            config.cwd@,
            r.items@,
        ),
        r.state.selected is None,
{
    let databases = match config.databases.get(database) {
        Some(d) => d,
        None => {
            proof {
                assert(false);
            }
            return StatefulList::default();
        },
    };
    let mut items: Vec<String> = Vec::new();
    let mut i: usize = 0;
    while i < databases.len()
        invariant
            i <= databases@.len(),
            is_absolute(config.cwd@),
            items@.len() == i,
            forall|j: int|
                0 <= j < i ==> #[trigger] items@[j]@ == absolutized(
                    config_paths(databases@)[j],
                    config.cwd@,
                ),
        decreases databases@.len() - i,
    {
        items.push(get_absolute_path(databases[i].path.as_str(), config.cwd.as_str()));
        i = i + 1;
    }
    StatefulList::with_items(items, None)
}

impl DatabaseExplorerComponent {
    /// The title of the list: `Explorer [ENTER]` outside it, `Explorer [ESC]` inside.
    pub fn label(&self) -> (r: String)
        ensures
            r@ == "Explorer ["@ + (match self.focus {
                ListFocus::Container => "ENTER"@,
                ListFocus::List => "ESC"@,
            }) + "]"@,
    {
        let mut label = String::from_str("Explorer [");
        match self.focus {
            ListFocus::Container => push_str(&mut label, "ENTER"),
            ListFocus::List => push_str(&mut label, "ESC"),
        }
        push_str(&mut label, "]");
        label
    }

    /// The highlighted entry.
    pub fn state(&self) -> (r: ListState)
        ensures
            r == self.list.state,
    {
        self.list.state
    }

    /// Shows the paths of the kind `database`, with nothing highlighted.
    pub fn set_database(&mut self, database: String)
        requires
            kind_index(old(self).config.databases@, database@) is Some,
            is_absolute(old(self).config.cwd@),
        ensures
            final(self).config == old(self).config,
            final(self).focus == old(self).focus,
            final(self).list.state.selected is None,
            path_entries(
                old(self).config.databases@[kind_index(old(self).config.databases@, database@)->0].1,
                old(self).config.cwd@,
                final(self).list.items@,
            ),
    {
        self.list = build_list(&self.config, &database);
    }

    /// The explorer on the first kind of the configuration (empty when there is none).
    pub fn new(config: Config) -> (r: DatabaseExplorerComponent)
        requires
            is_absolute(config.cwd@),
        ensures
            r.config == config,
            r.focus == ListFocus::Container,
            r.list.state.selected is None,
            config.databases@.len() == 0 ==> r.list.items@.len() == 0,
            config.databases@.len() > 0 ==> path_entries(
                config.databases@[0].1,
                config.cwd@,
                r.list.items@,
            ),
    {
        let list = if !config.databases.is_empty() {
            let db = config.databases.kind_at(0);
            let list = build_list(&config, &db);
            list
        } else {
            StatefulList::default()
        };
        DatabaseExplorerComponent { list, config, focus: ListFocus::Container }
    }

    /// `enter` moves into the list at its first entry; inside, `escape` leaves and the arrow
    /// keys move the highlight.
    pub fn event(&mut self, key: Key) -> (r: EventState)
        ensures
            final(self).config == old(self).config,
            list_navigation(old(self).focus, old(self).list, key, final(self).focus, final(self).list, r),
    {
        navigate(&mut self.focus, &mut self.list, key)
    }
}

} // verus!
