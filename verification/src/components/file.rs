//! The file tab: the database tree beside the editor, with a status line.
use vstd::prelude::*;

use crate::components::explorer::{DatabaseExplorerComponent, TreeMove};
use crate::components::status::StatusComponent;
use crate::config::Config;
use crate::constants::DEFAULT_STATUS_TEXT;
use crate::events::EventState;
use crate::key::Key;
use crate::utils::file::is_absolute;

verus! {

/// Which pane of the file tab has the keys.
#[derive(Clone, Copy, Debug, PartialEq, Eq, Structural)]
pub enum FileFocus {
    Explorer,
    Editor,
}

/// The file tab.
pub struct FileTabComponent {
    pub focus: FileFocus,
    pub config: Config,
    pub explorer: DatabaseExplorerComponent,
    pub status: StatusComponent,
}

impl FileTabComponent {
    pub open spec fn wf(&self) -> bool {
        self.explorer.wf()
    }

    /// The tab on `config`, with the keys on the tree.
    pub fn new(config: Config) -> (r: FileTabComponent)
        requires
            is_absolute(config.cwd@),
        ensures
            r.wf(),
            r.config == config,
            r.explorer.config@ == config@,
            r.explorer.selected_database is None,
            r.status.text@ == DEFAULT_STATUS_TEXT@,
            r.focus == FileFocus::Explorer,
    {
        let explorer = DatabaseExplorerComponent::new(config.clone());
        let status = StatusComponent::new(config.clone());
        FileTabComponent { explorer, status, focus: FileFocus::Explorer, config }
    }

    /// On the tree, a key the tree uses also updates the status line (the chosen database's
    /// path, or the default text) and `right` then moves to the editor. On the editor, `left`
    /// moves back. The tree's move is handed on.
    pub fn event(&mut self, key: Key) -> (r: (EventState, Option<TreeMove>))
        requires
            old(self).wf(),
        ensures
            final(self).wf(),
            final(self).config == old(self).config,
            old(self).focus == FileFocus::Explorer ==> {
                let (next, used, tree_move) = crate::components::explorer::explorer_step(
                    old(self).explorer.state(),
                    old(self).explorer.spec_views(),
                    old(self).explorer.config.cwd@,
                    key,
                );
                &&& final(self).explorer.state() == next
                &&& r.0 == used
                &&& r.1 == tree_move
                &&& used == EventState::Consumed ==> {
                    &&& (next.chosen matches Some(d) ==> final(self).status.text@ == d.1)
                    &&& (next.chosen is None ==> final(self).status.text@ == DEFAULT_STATUS_TEXT@)
                    &&& final(self).focus == if key == Key::Right {
                        FileFocus::Editor
                    } else {
                        FileFocus::Explorer
                    }
                }
                &&& used == EventState::NotConsumed ==> {
                    &&& final(self).status == old(self).status
                    &&& final(self).focus == FileFocus::Explorer
                }
            },
            old(self).focus == FileFocus::Editor ==> {
                &&& final(self).explorer == old(self).explorer
                &&& final(self).status == old(self).status
                &&& r.1 is None
                &&& if key == Key::Left {
                    final(self).focus == FileFocus::Explorer && r.0 == EventState::Consumed
                } else {
                    final(self).focus == FileFocus::Editor && r.0 == EventState::NotConsumed
                }
            },
    {
        match self.focus {
            FileFocus::Explorer => {
                let (used, tree_move) = self.explorer.event(key);
                if used.is_consumed() {
                    match self.explorer.selected_file() {
                        Some(d) => self.status.set_text(d.1),
                        None => self.status.reset(),
                    }
                    if key == Key::Right {
                        self.focus = FileFocus::Editor;
                    }
                    return (EventState::Consumed, tree_move);
                }
                (EventState::NotConsumed, tree_move)
            },
            FileFocus::Editor => {
                if key == Key::Left {
                    self.focus = FileFocus::Explorer;
                    return (EventState::Consumed, None);
                }
                (EventState::NotConsumed, None)
            },
        }
    }
}

} // verus!
