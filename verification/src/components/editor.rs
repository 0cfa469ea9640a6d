//! The table of key-value pairs of the open database, with a preview of the selected pair.
use vstd::prelude::*;

use crate::components::database::preview::{preview_event, KeyValuePair, PreviewComponent};
use crate::components::container::{container_color, render_container};
use crate::components::rows::{
    copy_pair, most_newlines, pair_rows, pair_view, pair_views, pairs_table, row_heights, row_views,
};
use crate::terminal::editor::EditorView;
use crate::config::Config;
use crate::events::EventState;
use crate::key::Key;
use crate::text::{decimal, push_decimal, push_str};
use crate::ui::selection::{in_range, next_index, previous_index};
use crate::ui::table::{StatefulTable, TableState};

verus! {

/// Whether keys walk the table rows or stay on the box around it.
#[derive(Clone, Copy, Debug, PartialEq, Eq, Structural)]
pub enum TableFocus {
    Table,
    Container,
}

/// The bytes of an optional pair.
pub open spec fn opt_pair_view(p: Option<KeyValuePair>) -> Option<(Seq<u8>, Seq<u8>)> {
    match p {
        Some(p) => Some(pair_view(p)),
        None => None,
    }
}

/// The pair the preview shows for a selection: the selected pair when there are pairs.
pub open spec fn preview_pair_for(
    selected: Option<usize>,
    pairs: Seq<(Seq<u8>, Seq<u8>)>,
) -> Option<(Seq<u8>, Seq<u8>)> {
    match selected {
        Some(s) => if pairs.len() > 0 {
            Some(pairs[s as int])
        } else {
            None
        },
        None => None,
    }
}

/// The label of the editor box.
pub open spec fn editor_label(n: nat) -> Seq<char> {
    "Editor ("@ + decimal(n) + " key-value pairs)"@
}

/// The key-value table of a database.
pub struct DatabaseEditorComponent {
    pub config: Config,
    pub preview: PreviewComponent,
    pub table: StatefulTable,
    pub pairs: Vec<KeyValuePair>,
    pub focus: TableFocus,
}

impl DatabaseEditorComponent {
    /// The table shows one row per pair, and the highlighted row (if any) is a row of it.
    pub open spec fn wf(&self) -> bool {
        &&& row_views(self.table.items@) == pairs_table(pair_views(self.pairs@))
        &&& (self.table.state.selected matches Some(i) ==> in_range(i, self.pairs@.len()))
    }

    /// The preview shows the highlighted pair.
    pub open spec fn shows_selection(&self) -> bool {
        opt_pair_view(self.preview.pair) == preview_pair_for(
            self.table.state.selected,
            pair_views(self.pairs@),
        )
    }

    /// An empty editor.
    pub fn new(config: Config) -> (r: DatabaseEditorComponent)
        ensures
            r.wf(),
            r.pairs@.len() == 0,
            r.focus == TableFocus::Container,
            r.preview.pair is None,
            r.table.state.selected is None,
    {
        let preview = PreviewComponent::new(config.clone());
        let r = DatabaseEditorComponent {
            preview,
            pairs: Vec::new(),
            table: StatefulTable::default(),
            focus: TableFocus::Container,
            config,
        };
        assert(row_views(r.table.items@) =~= pairs_table(pair_views(r.pairs@)));
        r
    }

    /// The database to read for the kind `name` at `path`: `name:path`.
    pub fn scan_database(&self, name: &str, path: &str) -> (r: String)
        ensures
            r@ == name@ + ":"@ + path@,
    {
        let mut db_path = String::from_str(name);
        push_str(&mut db_path, ":");
        push_str(&mut db_path, path);
        db_path
    }

    /// Shows the pairs read from the database, with no row highlighted.
    pub fn set_pairs(&mut self, pairs: Vec<KeyValuePair>)
        ensures
            final(self).wf(),
            final(self).pairs == pairs,
            final(self).table.state.selected is None,
            final(self).focus == old(self).focus,
            final(self).preview == old(self).preview,
            final(self).config == old(self).config,
    {
        self.table = StatefulTable::with_items(pair_rows(&pairs));
        self.pairs = pairs;
    }

    fn pairs_empty(&self) -> (r: bool)
        ensures
            r == (self.pairs@.len() == 0),
    {
        self.pairs.len() == 0
    }

    /// What the editor shows: the table of pairs, split with the preview when a row is
    /// highlighted and the preview holds a pair; with no pairs, a box titled `Home` that says
    /// there is no data.
    pub fn view(&self, focused: bool) -> (r: EditorView)
        ensures
            self.pairs@.len() > 0 ==> (r matches EditorView::Table {
                container,
                with_preview,
                row_heights,
            } && container.title@ == editor_label(self.pairs@.len()) && container.color
                == container_color(focused) && with_preview == (self.table.state.selected is Some
                && self.preview.pair is Some) && row_heights@.len() == self.table.items@.len()
                && forall|i: int|
                0 <= i < row_heights@.len() ==> #[trigger] row_heights@[i] == (most_newlines(
                    row_views(self.table.items@)[i],
                ) + 1) % 65536),
            self.pairs@.len() == 0 ==> (r matches EditorView::Message { container, text }
                && container.title@ == "Home"@ && container.color == container_color(focused)
                && text@ == "No data found in this database"@),
    {
        if self.pairs.len() > 0 {
            let label = self.generate_label();
            EditorView::Table {
                container: render_container(label.as_str(), focused),
                with_preview: self.table.state.selected.is_some() && self.preview.pair.is_some(),
                row_heights: row_heights(&self.table.items),
            }
        } else {
            EditorView::Message {
                container: render_container("Home", focused),
                text: String::from_str("No data found in this database"),
            }
        }
    }

    /// `Editor (<n> key-value pairs)`.
    pub fn generate_label(&self) -> (r: String)
        ensures
            r@ == editor_label(self.pairs@.len()),
    {
        let mut label = String::from_str("Editor (");
        push_decimal(&mut label, self.pairs.len() as u64);
        push_str(&mut label, " key-value pairs)");
        label
    }

    fn update_preview(&mut self)
        requires
            old(self).wf(),
        ensures
            final(self).shows_selection(),
            final(self).wf(),
            final(self).table == old(self).table,
            final(self).pairs == old(self).pairs,
            final(self).focus == old(self).focus,
            final(self).config == old(self).config,
            final(self).preview.config == old(self).preview.config,
            final(self).preview.key_layout == old(self).preview.key_layout,
            final(self).preview.value_layout == old(self).preview.value_layout,
    {
        match self.table.state.selected() {
            Some(selected) => {
                if !self.pairs_empty() {
                    let pair = copy_pair(&self.pairs[selected]);
                    self.preview.set_pair(Some(pair));
                } else {
                    self.preview.set_pair(None);
                }
            },
            None => self.preview.set_pair(None),
        }
    }

    fn handle_enter(&mut self) -> (r: EventState)
        requires
            old(self).wf(),
        ensures
            final(self).wf(),
            final(self).shows_selection(),
            final(self).table.state.selected is None,
            final(self).table.items == old(self).table.items,
            final(self).focus == TableFocus::Table,
            r == EventState::Consumed,
            final(self).pairs == old(self).pairs,
            final(self).config == old(self).config,
            final(self).preview.key_layout == old(self).preview.key_layout,
            final(self).preview.value_layout == old(self).preview.value_layout,
            final(self).preview.config == old(self).preview.config,
    {
        self.table.state = TableState::default();
        self.focus = TableFocus::Table;
        self.update_preview();
        EventState::Consumed
    }

    fn handle_escape(&mut self) -> (r: EventState)
        requires
            old(self).wf(),
        ensures
            final(self).wf(),
            final(self).shows_selection(),
            final(self).table.state.selected is None,
            final(self).table.items == old(self).table.items,
            final(self).focus == TableFocus::Container,
            r == EventState::Consumed,
            final(self).pairs == old(self).pairs,
            final(self).config == old(self).config,
            final(self).preview.key_layout == old(self).preview.key_layout,
            final(self).preview.value_layout == old(self).preview.value_layout,
            final(self).preview.config == old(self).preview.config,
    {
        self.table.state = TableState::default();
        self.focus = TableFocus::Container;
        self.update_preview();
        EventState::Consumed
    }

    fn handle_prev(&mut self) -> (r: EventState)
        requires
            old(self).wf(),
        ensures
            final(self).wf(),
            final(self).shows_selection(),
            final(self).table.state.selected == Some(previous_index(old(self).table.state.selected, old(self).pairs@.len())),
            final(self).table.items == old(self).table.items,
            final(self).focus == old(self).focus,
            r == EventState::Consumed,
            final(self).pairs == old(self).pairs,
            final(self).config == old(self).config,
            final(self).preview.key_layout == old(self).preview.key_layout,
            final(self).preview.value_layout == old(self).preview.value_layout,
            final(self).preview.config == old(self).preview.config,
    {
        proof {
            assert(self.table.items@.len() == row_views(self.table.items@).len());
            assert(self.pairs@.len() == self.pairs.len());
            crate::ui::selection::lemma_moves_stay_in_range(self.table.state.selected, self.pairs@.len());
        }
        self.table.previous();
        self.update_preview();
        EventState::Consumed
    }

    fn handle_next(&mut self) -> (r: EventState)
        requires
            old(self).wf(),
        ensures
            final(self).wf(),
            final(self).shows_selection(),
            final(self).table.state.selected == Some(next_index(old(self).table.state.selected, old(self).pairs@.len())),
            final(self).table.items == old(self).table.items,
            final(self).focus == TableFocus::Table,
            r == EventState::Consumed,
            final(self).pairs == old(self).pairs,
            final(self).config == old(self).config,
            final(self).preview.key_layout == old(self).preview.key_layout,
            final(self).preview.value_layout == old(self).preview.value_layout,
            final(self).preview.config == old(self).preview.config,
    {
        proof {
            assert(self.table.items@.len() == row_views(self.table.items@).len());
            assert(self.pairs@.len() == self.pairs.len());
            crate::ui::selection::lemma_moves_stay_in_range(self.table.state.selected, self.pairs@.len());
        }
        self.table.next();
        self.focus = TableFocus::Table;
        self.update_preview();
        EventState::Consumed
    }

    /// Handles a key press: the template keys of the preview first; then `enter` moves into
    /// the table with nothing highlighted, `escape` leaves it, the up arrow (inside the table)
    /// and the down arrow move the highlight, and the preview follows the highlighted pair.
    pub fn event(&mut self, key: Key) -> (r: EventState)
        requires
            old(self).wf(),
        ensures
            final(self).wf(),
            final(self).pairs == old(self).pairs,
            final(self).config == old(self).config,
            final(self).table.items == old(self).table.items,
            (key == Key::Char('h') || key == Key::Char('j') || key == Key::Char('k') || key == Key::Char('l')) ==> (final(self).table == old(self).table && final(self).focus == old(self).focus && preview_event(old(self).preview, key, final(self).preview, r)),
            !(key == Key::Char('h') || key == Key::Char('j') || key == Key::Char('k') || key == Key::Char('l')) ==> (final(self).preview.key_layout == old(self).preview.key_layout && final(self).preview.value_layout == old(self).preview.value_layout && if key == Key::Enter {
                final(self).table.state.selected is None && final(self).focus == TableFocus::Table && final(self).shows_selection() && r == EventState::Consumed
            } else if key == Key::Esc {
                final(self).table.state.selected is None && final(self).focus == TableFocus::Container && final(self).shows_selection() && r == EventState::Consumed
            } else if key == Key::Up && old(self).focus == TableFocus::Table {
                final(self).table.state.selected == Some(previous_index(old(self).table.state.selected, old(self).pairs@.len())) && final(self).focus == TableFocus::Table && final(self).shows_selection() && r == EventState::Consumed
            } else if key == Key::Down {
                final(self).table.state.selected == Some(next_index(old(self).table.state.selected, old(self).pairs@.len())) && final(self).focus == TableFocus::Table && final(self).shows_selection() && r == EventState::Consumed
            } else {
                final(self).table == old(self).table && final(self).focus == old(self).focus && final(self).preview == old(self).preview && r == EventState::NotConsumed
            }),
    {
        if self.preview.event(key).is_consumed() {
            return EventState::Consumed;
        }
        if key == Key::Enter {
            return self.handle_enter();
        } else if key == Key::Esc {
            return self.handle_escape();
        } else if key == Key::Up && self.focus == TableFocus::Table {
            return self.handle_prev();
        } else if key == Key::Down {
            return self.handle_next();
        }
        EventState::NotConsumed
    }
}

} // verus!
