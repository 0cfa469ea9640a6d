//! The key-value table of the terminal front end: scans by column family, prefix or suffix,
//! and shows read errors in place of the table.
use vstd::prelude::*;

use crate::components::database::preview::{preview_event, KeyValuePair, PreviewComponent};
use crate::components::editor::{editor_label, opt_pair_view, preview_pair_for, TableFocus};
use crate::components::container::{container_color, render_container, Container};
use crate::components::rows::{
    copy_pair, most_newlines, pair_rows, pair_views, pairs_table, row_heights, row_views,
};
use crate::config::Config;
use crate::events::EventState;
use crate::key::Key;
use crate::terminal::table::StatefulTable;
use crate::text::{push_decimal, push_str};
use crate::ui::selection::{in_range, next_index, previous_index};
use crate::ui::table::TableState;

verus! {

/// What to read from the database.
#[derive(Debug)]
pub enum ScanKind {
    /// Every pair.
    All,
    /// The pairs whose key starts with these bytes.
    Prefix(Vec<u8>),
    /// The pairs whose key ends with these bytes.
    Suffix(Vec<u8>),
}

/// A read of a database for the front end to perform: the database `name:path`, the column
/// family (`None` for the default one) and what to read.
#[derive(Debug)]
pub struct ScanRequest {
    pub tags: Option<Vec<u8>>,
    pub path: String,
    pub kind: ScanKind,
}

/// The database spec `name:path`.
pub open spec fn db_spec(name: Seq<char>, path: Seq<char>) -> Seq<char> {
    name + ":"@ + path
}

fn db_path(name: &str, path: &str) -> (r: String)
    ensures
        r@ == db_spec(name@, path@),
{
    let mut p = String::from_str(name);
    push_str(&mut p, ":");
    push_str(&mut p, path);
    p
}

/// What the key-value table shows.
#[derive(Debug)]
pub enum EditorView {
    /// A message in place of the table.
    Message { container: Container, text: String },
    /// The table, the height of each of its rows, and whether the preview shares the area.
    Table { container: Container, with_preview: bool, row_heights: Vec<u16> },
}

/// The key-value table of the terminal front end.
pub struct DatabaseEditorComponent {
    pub config: Config,
    pub preview: PreviewComponent,
    pub table: StatefulTable,
    pub err: Option<String>,
    pub pairs: Vec<KeyValuePair>,
    pub focus: TableFocus,
}

fn build_table(pairs: &Vec<KeyValuePair>) -> (r: StatefulTable)
    ensures
        row_views(r.items@) == pairs_table(pair_views(pairs@)),
        r.headers@ == seq!["#", "Key", "Value"],
        r.state.selected is None,
{
    let mut headers: Vec<&'static str> = Vec::new();
    headers.push("#");
    headers.push("Key");
    headers.push("Value");
    let mut t = StatefulTable::default();
    t.with_items(pair_rows(pairs)).with_headers(headers).build()
}

impl DatabaseEditorComponent {
    /// The table shows one row per pair, and the highlighted row (if any) is a row of it.
    pub open spec fn wf(&self) -> bool {
        &&& row_views(self.table.items@) == pairs_table(pair_views(self.pairs@))
        &&& (self.table.state.selected matches Some(i) ==> in_range(i, self.pairs@.len()))
    }

    /// The preview shows the highlighted pair.
    pub open spec fn shows_selection(&self) -> bool {
        opt_pair_view(self.preview.pair) == preview_pair_for(
            self.table.state.selected,
            pair_views(self.pairs@),
        )
    }

    /// An empty editor without error.
    pub fn new(config: Config) -> (r: DatabaseEditorComponent)
        ensures
            r.wf(),
            r.pairs@.len() == 0,
            r.err is None,
            r.focus == TableFocus::Container,
            r.preview.pair is None,
            r.table.state.selected is None,
    {
        let preview = PreviewComponent::new(config.clone());
        let r = DatabaseEditorComponent {
            preview,
            pairs: Vec::new(),
            table: StatefulTable::default(),
            focus: TableFocus::Container,
            err: None,
            config,
        };
        assert(row_views(r.table.items@) =~= pairs_table(pair_views(r.pairs@)));
        r
    }

    pub fn clear_err(&mut self)
        ensures
            final(self).err is None,
            final(self).table == old(self).table,
            final(self).pairs == old(self).pairs,
            final(self).focus == old(self).focus,
            final(self).preview == old(self).preview,
            final(self).config == old(self).config,
    {
        self.err = None;
    }

    pub fn set_err(&mut self, err: String)
        ensures
            final(self).err == Some(err),
            final(self).table == old(self).table,
            final(self).pairs == old(self).pairs,
            final(self).focus == old(self).focus,
            final(self).preview == old(self).preview,
            final(self).config == old(self).config,
    {
        self.err = Some(err);
    }

    /// The read of every pair of column family `tags` of the database `name` at `path`.
    pub fn scan_database(&self, tags: Option<Vec<u8>>, name: &str, path: &str) -> (r: ScanRequest)
        ensures
            r.tags == tags,
            r.path@ == db_spec(name@, path@),
            r.kind is All,
    {
        ScanRequest { tags, path: db_path(name, path), kind: ScanKind::All }
    }

    /// The read of the pairs whose key starts with `prefix`.
    pub fn prefix_scan_database(
        &self,
        tags: Option<Vec<u8>>,
        name: &str,
        path: &str,
        prefix: Vec<u8>,
    ) -> (r: ScanRequest)
        ensures
            r.tags == tags,
            r.path@ == db_spec(name@, path@),
            r.kind == ScanKind::Prefix(prefix),
    {
        ScanRequest { tags, path: db_path(name, path), kind: ScanKind::Prefix(prefix) }
    }

    /// The read of the pairs whose key ends with `suffix`.
    pub fn suffix_scan_database(
        &self,
        tags: Option<Vec<u8>>,
        name: &str,
        path: &str,
        suffix: Vec<u8>,
    ) -> (r: ScanRequest)
        ensures
            r.tags == tags,
            r.path@ == db_spec(name@, path@),
            r.kind == ScanKind::Suffix(suffix),
    {
        ScanRequest { tags, path: db_path(name, path), kind: ScanKind::Suffix(suffix) }
    }

    /// Shows the outcome of a read: its pairs, or its error message and no pairs. No row is
    /// highlighted afterwards.
    pub fn apply_scan(&mut self, result: Result<Vec<KeyValuePair>, String>)
        ensures
            final(self).wf(),
            final(self).table.state.selected is None,
            final(self).table.headers@ == seq!["#", "Key", "Value"],
            match result {
                Ok(pairs) => final(self).pairs == pairs && final(self).err is None,
                Err(e) => final(self).pairs@.len() == 0 && final(self).err == Some(e),
            },
            final(self).focus == old(self).focus,
            final(self).preview == old(self).preview,
            final(self).config == old(self).config,
    {
        self.clear_err();
        let pairs = match result {
            Ok(pairs) => pairs,
            Err(err) => {
                self.set_err(err);
                Vec::new()
            },
        };
        self.table = build_table(&pairs);
        self.pairs = pairs;
    }

    fn pairs_empty(&self) -> (r: bool)
        ensures
            r == (self.pairs@.len() == 0),
    {
        self.pairs.len() == 0
    }

    /// What the editor shows: the table of pairs, split with the preview when a row is
    /// highlighted and the preview holds a pair; or, when there are no pairs or the last
    /// read failed, a message (the error, or that there is no data) in a box titled `Editor`.
    pub fn view(&self, focused: bool) -> (r: EditorView)
        ensures
            (self.pairs@.len() > 0 && self.err is None) ==> (r matches EditorView::Table {
                container,
                with_preview,
                row_heights,
            } && container.title@ == editor_label(self.pairs@.len()) && container.color
                == container_color(focused) && with_preview == (self.table.state.selected is Some
                && self.preview.pair is Some) && row_heights@.len() == self.table.items@.len()
                && forall|i: int|
                0 <= i < row_heights@.len() ==> #[trigger] row_heights@[i] == (most_newlines(
                    row_views(self.table.items@)[i],
                ) + 1) % 65536),
            !(self.pairs@.len() > 0 && self.err is None) ==> (r matches EditorView::Message {
                container,
                text,
            } && container.title@ == "Editor"@ && container.color == container_color(focused)
                && text@ == (match self.err {
                Some(e) => e@,
                None => "No data found in this database"@,
            })),
    {
        if self.pairs.len() > 0 && self.err.is_none() {
            let label = self.generate_label();
            EditorView::Table {
                container: render_container(label.as_str(), focused),
                with_preview: self.table.state.selected.is_some() && self.preview.pair.is_some(),
                row_heights: row_heights(&self.table.items),
            }
        } else {
            let text = match &self.err {
                Some(e) => e.clone(),
                None => String::from_str("No data found in this database"),
            };
            EditorView::Message { container: render_container("Editor", focused), text }
        }
    }

    /// `Editor (<n> key-value pairs)`.
    pub fn generate_label(&self) -> (r: String)
        ensures
            r@ == editor_label(self.pairs@.len()),
    {
        let mut label = String::from_str("Editor (");
        push_decimal(&mut label, self.pairs.len() as u64);
        push_str(&mut label, " key-value pairs)");
        label
    }

    fn update_preview(&mut self)
        requires
            old(self).wf(),
        ensures
            final(self).shows_selection(),
            final(self).wf(),
            final(self).table == old(self).table,
            final(self).pairs == old(self).pairs,
            final(self).focus == old(self).focus,
            final(self).err == old(self).err,
            final(self).config == old(self).config,
            final(self).preview.config == old(self).preview.config,
            final(self).preview.key_layout == old(self).preview.key_layout,
            final(self).preview.value_layout == old(self).preview.value_layout,
    {
        match self.table.state.selected() {
            Some(selected) => {
                if !self.pairs_empty() {
                    let pair = copy_pair(&self.pairs[selected]);
                    self.preview.set_pair(Some(pair));
                } else {
                    self.preview.set_pair(None);
                }
            },
            None => self.preview.set_pair(None),
        }
    }

    fn handle_enter(&mut self) -> (r: EventState)
        requires
            old(self).wf(),
        ensures
            final(self).wf(),
            final(self).shows_selection(),
            final(self).table.state.selected is None,
            final(self).table.items == old(self).table.items,
            final(self).table.headers == old(self).table.headers,
            final(self).focus == TableFocus::Table,
            r == EventState::Consumed,
            final(self).pairs == old(self).pairs,
            final(self).err == old(self).err,
            final(self).config == old(self).config,
            final(self).preview.key_layout == old(self).preview.key_layout,
            final(self).preview.value_layout == old(self).preview.value_layout,
            final(self).preview.config == old(self).preview.config,
    {
        self.table.state = TableState::default();
        self.focus = TableFocus::Table;
        self.update_preview();
        EventState::Consumed
    }

    fn handle_escape(&mut self) -> (r: EventState)
        requires
            old(self).wf(),
        ensures
            final(self).wf(),
            final(self).shows_selection(),
            final(self).table.state.selected is None,
            final(self).table.items == old(self).table.items,
            final(self).table.headers == old(self).table.headers,
            final(self).focus == TableFocus::Container,
            r == EventState::Consumed,
            final(self).pairs == old(self).pairs,
            final(self).err == old(self).err,
            final(self).config == old(self).config,
            final(self).preview.key_layout == old(self).preview.key_layout,
            final(self).preview.value_layout == old(self).preview.value_layout,
            final(self).preview.config == old(self).preview.config,
    {
        self.table.state = TableState::default();
        self.focus = TableFocus::Container;
        self.update_preview();
        EventState::Consumed
    }

    fn handle_prev(&mut self) -> (r: EventState)
        requires
            old(self).wf(),
        ensures
            final(self).wf(),
            final(self).shows_selection(),
            final(self).table.state.selected == Some(previous_index(old(self).table.state.selected, old(self).pairs@.len())),
            final(self).table.items == old(self).table.items,
            final(self).table.headers == old(self).table.headers,
            final(self).focus == old(self).focus,
            r == EventState::Consumed,
            final(self).pairs == old(self).pairs,
            final(self).err == old(self).err,
            final(self).config == old(self).config,
            final(self).preview.key_layout == old(self).preview.key_layout,
            final(self).preview.value_layout == old(self).preview.value_layout,
            final(self).preview.config == old(self).preview.config,
    {
        proof {
            assert(self.table.items@.len() == row_views(self.table.items@).len());
            assert(self.pairs@.len() == self.pairs.len());
            crate::ui::selection::lemma_moves_stay_in_range(self.table.state.selected, self.pairs@.len());
        }
        self.table.previous();
        self.update_preview();
        EventState::Consumed
    }

    fn handle_next(&mut self) -> (r: EventState)
        requires
            old(self).wf(),
        ensures
            final(self).wf(),
            final(self).shows_selection(),
            final(self).table.state.selected == Some(next_index(old(self).table.state.selected, old(self).pairs@.len())),
            final(self).table.items == old(self).table.items,
            final(self).table.headers == old(self).table.headers,
            final(self).focus == TableFocus::Table,
            r == EventState::Consumed,
            final(self).pairs == old(self).pairs,
            final(self).err == old(self).err,
            final(self).config == old(self).config,
            final(self).preview.key_layout == old(self).preview.key_layout,
            final(self).preview.value_layout == old(self).preview.value_layout,
            final(self).preview.config == old(self).preview.config,
    {
        proof {
            assert(self.table.items@.len() == row_views(self.table.items@).len());
            assert(self.pairs@.len() == self.pairs.len());
            crate::ui::selection::lemma_moves_stay_in_range(self.table.state.selected, self.pairs@.len());
        }
        self.table.next();
        self.focus = TableFocus::Table;
        self.update_preview();
        EventState::Consumed
    }

    /// Handles a key press with the configured keys: the template keys of the preview
    /// first; on the box, `enter` moves into a non-empty table at its next row; inside,
    /// `enter` clears the highlight, `escape` leaves, `up` and `down` move the highlight, and
    /// the preview follows the highlighted pair.
    pub fn event(&mut self, key: Key) -> (r: EventState)
        requires
            old(self).wf(),
        ensures
            final(self).wf(),
            editor_event(*old(self), key, *final(self), r),
    {
        if self.preview.event(key).is_consumed() {
            return EventState::Consumed;
        }
        let keys = self.config.key_config;
        proof {
            assert(self.table.items@.len() == row_views(self.table.items@).len());
        }
        match self.focus {
            TableFocus::Container => {
                if key == keys.enter && self.table.items.len() != 0 {
                    self.focus = TableFocus::Table;
                    return self.handle_next();
                }
            },
            TableFocus::Table => {
                if key == keys.enter {
                    return self.handle_enter();
                } else if key == keys.escape {
                    return self.handle_escape();
                } else if key == keys.up {
                    return self.handle_prev();
                } else if key == keys.down {
                    return self.handle_next();
                }
            },
        }
        EventState::NotConsumed
    }
}

/// The keys the preview takes.
pub open spec fn is_preview_key(key: Key) -> bool {
    key == Key::Char('h') || key == Key::Char('j') || key == Key::Char('k') || key == Key::Char('l')
}

/// What a key does to the editor: the preview keys go to the preview; the others move the
/// focus and the highlighted row, and the preview then shows the highlighted pair.
pub open spec fn editor_event(
    o: DatabaseEditorComponent,
    key: Key,
    n: DatabaseEditorComponent,
    r: EventState,
) -> bool {
    &&& n.pairs == o.pairs
    &&& n.err == o.err
    &&& n.config == o.config
    &&& n.table.items == o.table.items
    &&& n.table.headers == o.table.headers
    &&& is_preview_key(key) ==> {
        &&& n.table == o.table
        &&& n.focus == o.focus
        &&& preview_event(o.preview, key, n.preview, r)
    }
    &&& !is_preview_key(key) ==> {
        &&& n.preview.config == o.preview.config
        &&& n.preview.key_layout == o.preview.key_layout
        &&& n.preview.value_layout == o.preview.value_layout
        &&& editor_key(
            o.focus,
            o.config.key_config,
            key,
            o.table.state.selected,
            o.pairs@.len(),
            n.focus,
            n.table.state.selected,
            r,
        )
        &&& r == EventState::Consumed ==> n.shows_selection()
        &&& r == EventState::NotConsumed ==> n.preview == o.preview
    }
}

/// How the editor's focus and highlight follow a key press (past the preview keys).
pub open spec fn editor_key(
    focus: TableFocus,
    keys: crate::config::KeyConfig,
    key: Key,
    selected: Option<usize>,
    len: nat,
    new_focus: TableFocus,
    new_selected: Option<usize>,
    r: EventState,
) -> bool {
    match focus {
        TableFocus::Container => if key == keys.enter && len != 0 {
            new_focus == TableFocus::Table && new_selected == Some(next_index(selected, len)) && r
                == EventState::Consumed
        } else {
            new_focus == focus && new_selected == selected && r == EventState::NotConsumed
        },
        TableFocus::Table => if key == keys.enter {
            new_focus == TableFocus::Table && new_selected is None && r == EventState::Consumed
        } else if key == keys.escape {
            new_focus == TableFocus::Container && new_selected is None && r == EventState::Consumed
        } else if key == keys.up {
            new_focus == focus && new_selected == Some(previous_index(selected, len)) && r
                == EventState::Consumed
        } else if key == keys.down {
            new_focus == TableFocus::Table && new_selected == Some(next_index(selected, len)) && r
                == EventState::Consumed
        } else {
            new_focus == focus && new_selected == selected && r == EventState::NotConsumed
        },
    }
}

/// In the table, the up key highlights the row above the highlighted one, and the preview
/// then shows that row's pair.
pub proof fn lemma_editor_up_moves_up(
    o: DatabaseEditorComponent,
    n: DatabaseEditorComponent,
    r: EventState,
    i: usize,
)
    requires
        o.focus == TableFocus::Table,
        o.table.state.selected == Some(i),
        0 < i < o.pairs@.len(),
        !is_preview_key(o.config.key_config.up),
        o.config.key_config.up != o.config.key_config.enter,
        o.config.key_config.up != o.config.key_config.escape,
        editor_event(o, o.config.key_config.up, n, r),
    ensures
        n.table.state.selected == Some((i - 1) as usize),
        n.focus == TableFocus::Table,
        r == EventState::Consumed,
        n.shows_selection(),
{
}

/// In the table, the down key and then the up key bring the highlight back to the row it
/// was on.
pub proof fn lemma_editor_down_then_up(
    o: DatabaseEditorComponent,
    m: DatabaseEditorComponent,
    r1: EventState,
    n: DatabaseEditorComponent,
    r2: EventState,
    i: usize,
)
    requires
        o.focus == TableFocus::Table,
        o.table.state.selected == Some(i),
        i < o.pairs@.len(),
        !is_preview_key(o.config.key_config.up),
        !is_preview_key(o.config.key_config.down),
        o.config.key_config.up != o.config.key_config.enter,
        o.config.key_config.up != o.config.key_config.escape,
        o.config.key_config.down != o.config.key_config.enter,
        o.config.key_config.down != o.config.key_config.escape,
        o.config.key_config.down != o.config.key_config.up,
        editor_event(o, o.config.key_config.down, m, r1),
        editor_event(m, o.config.key_config.up, n, r2),
    ensures
        n.table.state.selected == Some(i),
        n.focus == TableFocus::Table,
{
    assert(o.pairs@.len() == o.pairs.len());
    crate::ui::selection::lemma_previous_undoes_next(i, o.pairs@.len());
}

} // verus!
