//! The database tab: kinds, paths, the command line, the key-value table and the status line.
//! Reading a database is left to the caller: key presses that need one return the reads to
//! perform, and their outcomes are handed back with `apply_scan`.
use vstd::prelude::*;
use vstd::string::*;
use vstd::utf8::encode_utf8;

use crate::components::database::command::{command_event, CommandComponent, InputFocus};
use crate::components::database::database_explorer::{path_entries, DatabaseExplorerComponent};
use crate::components::database::preview::KeyValuePair;
use crate::components::database::selection::{kind_entries, DatabaseSelectionComponent};
use crate::components::navigation::{list_navigation, ListFocus};
use crate::components::status::StatusComponent;
use crate::components::template::container::explorer_highlights;
use crate::config::{kind_index, kinds_distinct, Config};
use crate::constants::DEFAULT_STATUS_TEXT;
use crate::events::EventState;
use crate::key::Key;
use crate::terminal::editor::{db_spec, editor_event, DatabaseEditorComponent, ScanKind, ScanRequest};
use crate::ui::selection::{
    in_range, lemma_moves_stay_in_range, lemma_previous_undoes_next, next_index, previous_index,
};
use crate::utils::byte::str_eq;
use crate::utils::file::{absolutized, get_absolute_path, is_absolute};

verus! {

/// Which part of the database tab receives key presses.
#[derive(Clone, Copy, Debug, PartialEq, Eq, Structural)]
pub enum DatabaseFocus {
    Explorer,
    Editor,
    Command,
}

/// What a read asks for, as bytes.
pub enum ScanKindSpec {
    All,
    Prefix(Seq<u8>),
    Suffix(Seq<u8>),
}

/// The abstract value of a read: column family, database spec and what to read.
pub struct RequestSpec {
    pub tags: Option<Seq<u8>>,
    pub path: Seq<char>,
    pub kind: ScanKindSpec,
}

/// The abstract value of a read request.
pub open spec fn request_view(r: ScanRequest) -> RequestSpec {
    RequestSpec {
        tags: opt_bytes(r.tags),
        path: r.path@,
        kind: match r.kind {
            ScanKind::All => ScanKindSpec::All,
            ScanKind::Prefix(p) => ScanKindSpec::Prefix(p@),
            ScanKind::Suffix(s) => ScanKindSpec::Suffix(s@),
        },
    }
}

/// The bytes of an optional byte vector.
pub open spec fn opt_bytes(o: Option<Vec<u8>>) -> Option<Seq<u8>> {
    match o {
        Some(t) => Some(t@),
        None => None,
    }
}

/// The abstract values of read requests.
pub open spec fn request_views(v: Seq<ScanRequest>) -> Seq<RequestSpec> {
    v.map_values(|r: ScanRequest| request_view(r))
}

/// The reads that a list of commands asks for, in order, on the database `db`: `COLUMN`
/// switches to the column family named by its value and reads all of it; `PREFIX` and
/// `SUFFIX` read the pairs whose key starts or ends with their value, in the current column
/// family (`cf`, at first the default one); other commands are ignored.
pub open spec fn command_reads(
    commands: Seq<(Seq<char>, Seq<char>)>,
    cf: Option<Seq<u8>>,
    db: Seq<char>,
) -> Seq<RequestSpec>
    decreases commands.len(),
{
    if commands.len() == 0 {
        Seq::empty()
    } else {
        let (token, value) = commands[0];
        let rest = commands.drop_first();
        if token == "COLUMN"@ {
            let cf2 = Some(encode_utf8(value));
            seq![RequestSpec { tags: cf2, path: db, kind: ScanKindSpec::All }] + command_reads(rest, cf2, db)
        } else if token == "PREFIX"@ {
            seq![RequestSpec { tags: cf, path: db, kind: ScanKindSpec::Prefix(encode_utf8(value)) }]
                + command_reads(rest, cf, db)
        } else if token == "SUFFIX"@ {
            seq![RequestSpec { tags: cf, path: db, kind: ScanKindSpec::Suffix(encode_utf8(value)) }]
                + command_reads(rest, cf, db)
        } else {
            command_reads(rest, cf, db)
        }
    }
}

/// The token and value of each command.
pub open spec fn command_views(v: Seq<crate::components::database::command::Command>) -> Seq<(Seq<char>, Seq<char>)> {
    v.map_values(|c: crate::components::database::command::Command| (c.token@, c.value@))
}

/// Whether the command line takes a key press.
pub open spec fn command_consumes(c: CommandComponent, key: Key) -> bool {
    let keys = c.config.key_config;
    match c.focus {
        InputFocus::Container => key == keys.enter,
        InputFocus::Textarea => key == keys.escape || key == keys.enter || key is Char || key
            == keys.backspace,
    }
}

/// Which panes of the database tab are drawn as focused: the kind and path lists, the
/// command line and the editor. The status line never is.
#[derive(Clone, Copy, Debug, PartialEq, Eq, Structural)]
pub struct DatabasePanes {
    pub lists: bool,
    pub command: bool,
    pub editor: bool,
}

/// The tab after the outcome of a read reached its table: the pairs read, or the error
/// and no pairs, with no row highlighted; everything else as it was.
pub open spec fn scan_applied(
    o: DatabaseTabComponent,
    result: Result<Vec<KeyValuePair>, String>,
    n: DatabaseTabComponent,
) -> bool {
    &&& n.editor.table.state.selected is None
    &&& match result {
        Ok(pairs) => n.editor.pairs == pairs && n.editor.err is None,
        Err(e) => n.editor.pairs@.len() == 0 && n.editor.err == Some(e),
    }
    &&& n.editor.focus == o.editor.focus
    &&& n.editor.preview == o.editor.preview
    &&& n.editor.config == o.editor.config
    &&& n.focus == o.focus
    &&& n.config == o.config
    &&& n.command == o.command
    &&& n.databases == o.databases
    &&& n.explorer == o.explorer
    &&& n.status == o.status
}

/// What a key does to the database tab, and the reads it asks for.
///
/// On the lists, the right arrow moves to the command line; the database keys move the
/// kind highlight and show the paths of the new kind with none highlighted; the other keys
/// walk the path list, and a highlighted path is read whole and shown in the status line.
/// On the command line, a key it takes is handled there, and the entered commands are then
/// read on the highlighted database and forgotten; otherwise the left arrow goes back to the
/// lists and the down arrow to the table. In the table, keys go to it first; then the left
/// arrow goes back to the lists and the up arrow to the command line.
pub open spec fn database_event(
    o: DatabaseTabComponent,
    key: Key,
    n: DatabaseTabComponent,
    r: EventState,
    reads: Seq<RequestSpec>,
) -> bool {
    let keys = o.config.key_config;
    let path_of = |t: DatabaseTabComponent|
        t.config@.databases[t.selected_kind()].1[t.selected_file()];
    &&& n.config == o.config
    &&& match o.focus {
        DatabaseFocus::Explorer => if key == Key::Right {
            &&& n.focus == DatabaseFocus::Command
            &&& r == EventState::Consumed
            &&& reads.len() == 0
            &&& n.explorer == o.explorer
            &&& n.databases == o.databases
            &&& n.command == o.command
            &&& n.editor == o.editor
            &&& n.status == o.status
        } else if key == keys.database_select_up || key == keys.database_select_down {
            &&& n.focus == DatabaseFocus::Explorer
            &&& r == EventState::Consumed
            &&& reads.len() == 0
            &&& n.databases.list.items == o.databases.list.items
            &&& n.databases.list.state.selected == Some(
                if key == keys.database_select_up {
                    previous_index(o.databases.list.state.selected, o.databases.list.items@.len())
                } else {
                    next_index(o.databases.list.state.selected, o.databases.list.items@.len())
                },
            )
            &&& n.explorer.list.state.selected is None
            &&& n.explorer.focus == o.explorer.focus
            &&& n.command == o.command
            &&& n.editor == o.editor
            &&& n.status == o.status
        } else {
            &&& n.focus == DatabaseFocus::Explorer
            &&& n.databases == o.databases
            &&& n.command == o.command
            &&& n.editor == o.editor
            &&& list_navigation(o.explorer.focus, o.explorer.list, key, n.explorer.focus, n.explorer.list, r)
            &&& r == EventState::Consumed ==> (n.explorer.list.state.selected is Some ==> reads
                == seq![
                RequestSpec {
                    tags: None,
                    path: db_spec(n.config@.databases[n.selected_kind()].0, path_of(n)),
                    kind: ScanKindSpec::All,
                },
            ] && n.status.text@ == absolutized(path_of(n), n.config@.cwd))
            &&& r == EventState::Consumed ==> (n.explorer.list.state.selected is None ==> reads.len()
                == 0 && n.status.text@ == DEFAULT_STATUS_TEXT@)
            &&& r == EventState::NotConsumed ==> reads.len() == 0 && n.status == o.status
        },
        DatabaseFocus::Command => {
            &&& n.explorer == o.explorer
            &&& n.databases == o.databases
            &&& n.editor == o.editor
            &&& n.status == o.status
            &&& if command_consumes(o.command, key) {
                &&& n.focus == DatabaseFocus::Command
                &&& r == EventState::Consumed
                &&& n.command.commands@.len() == 0
                &&& exists|mid: CommandComponent|
                    #[trigger] command_event(o.command, key, mid, EventState::Consumed) && reads
                        == command_reads(
                        command_views(mid.commands@),
                        None,
                        db_spec(o.config@.databases[o.selected_kind()].0, path_of(o)),
                    ) && n.command.text == mid.text && n.command.focus == mid.focus
                        && n.command.invalid == mid.invalid
            } else {
                &&& n.command == o.command
                &&& reads.len() == 0
                &&& if key == Key::Left {
                    n.focus == DatabaseFocus::Explorer && r == EventState::Consumed
                } else if key == Key::Down {
                    n.focus == DatabaseFocus::Editor && r == EventState::Consumed
                } else {
                    n.focus == DatabaseFocus::Command && r == EventState::NotConsumed
                }
            }
        },
        DatabaseFocus::Editor => {
            &&& reads.len() == 0
            &&& n.command == o.command
            &&& n.explorer == o.explorer
            &&& n.databases == o.databases
            &&& n.status == o.status
            &&& exists|used: EventState|
                #[trigger] editor_event(o.editor, key, n.editor, used) && if used
                    == EventState::Consumed {
                    n.focus == DatabaseFocus::Editor && r == EventState::Consumed
                } else if key == Key::Left {
                    n.focus == DatabaseFocus::Explorer && r == EventState::Consumed
                } else if key == Key::Up {
                    n.focus == DatabaseFocus::Command && r == EventState::Consumed
                } else {
                    n.focus == DatabaseFocus::Editor && r == EventState::NotConsumed
                }
        },
    }
}

/// The database tab.
pub struct DatabaseTabComponent {
    pub focus: DatabaseFocus,
    pub config: Config,
    pub command: CommandComponent,
    pub databases: DatabaseSelectionComponent,
    pub explorer: DatabaseExplorerComponent,
    pub editor: DatabaseEditorComponent,
    pub status: StatusComponent,
}

fn utf8_bytes(s: &String) -> (r: Vec<u8>)
    ensures
        r@ == encode_utf8(s@),
{
    vstd::slice::slice_to_vec(s.as_str().as_bytes())
}

impl DatabaseTabComponent {
    /// The parts agree: the kind list lists the kinds with one highlighted, the path list
    /// lists the paths of that kind, and the editor table matches its pairs.
    pub open spec fn wf(&self) -> bool {
        let kinds = self.config@.databases;
        &&& is_absolute(self.config@.cwd)
        &&& self.databases.config@ == self.config@
        &&& self.explorer.config@ == self.config@
        &&& kind_entries(kinds, self.databases.list.items@)
        &&& self.databases.list.state.selected matches Some(s) && in_range(s, kinds.len())
        &&& kinds.len() > 0 ==> path_entries(
            kinds[self.databases.list.state.selected->0 as int].1,
            self.config@.cwd,
            self.explorer.list.items@,
        )
        &&& kinds.len() == 0 ==> self.explorer.list.items@.len() == 0
        &&& self.explorer.list.state.selected matches Some(i) ==> in_range(
            i,
            self.explorer.list.items@.len(),
        )
        &&& self.editor.wf()
    }

    /// The highlighted kind.
    pub open spec fn selected_kind(&self) -> int {
        self.databases.list.state.selected->0 as int
    }

    /// The highlighted path of the highlighted kind (the first when none is highlighted).
    pub open spec fn selected_file(&self) -> int {
        match self.explorer.list.state.selected {
            Some(i) => i as int,
            None => 0,
        }
    }

    /// Key presses the tab can handle: those that read the selected database need at least
    /// one configured kind.
    pub open spec fn accepts(&self, key: Key) -> bool {
        self.config@.databases.len() > 0 || match self.focus {
            DatabaseFocus::Explorer => key == Key::Right || !(key
                == self.config.key_config.database_select_up || key
                == self.config.key_config.database_select_down || explorer_highlights(
                self.explorer.focus,
                key,
            )),
            DatabaseFocus::Command => !command_consumes(self.command, key),
            DatabaseFocus::Editor => true,
        }
    }

    /// The panes drawn as focused when the tab itself is `focused`: the one the keys go to.
    pub fn panes(&self, focused: bool) -> (r: DatabasePanes)
        ensures
            r.lists == (focused && self.focus == DatabaseFocus::Explorer),
            r.command == (focused && self.focus == DatabaseFocus::Command),
            r.editor == (focused && self.focus == DatabaseFocus::Editor),
    {
        DatabasePanes {
            lists: focused && self.focus == DatabaseFocus::Explorer,
            command: focused && self.focus == DatabaseFocus::Command,
            editor: focused && self.focus == DatabaseFocus::Editor,
        }
    }

    /// Whether `accepts` holds: the key can be handled without a database configured.
    pub fn accepts_key(&self, key: Key) -> (r: bool)
        ensures
            r == self.accepts(key),
    {
        if !self.config.databases.is_empty() {
            return true;
        }
        match self.focus {
            DatabaseFocus::Explorer => {
                let keys = &self.config.key_config;
                let highlights = match self.explorer.focus {
                    ListFocus::Container => key == Key::Enter,
                    ListFocus::List => key == Key::Up || key == Key::Down,
                };
                key == Key::Right || !(key == keys.database_select_up || key
                    == keys.database_select_down || highlights)
            },
            DatabaseFocus::Command => {
                let keys = &self.command.config.key_config;
                let consumes = match self.command.focus {
                    InputFocus::Container => key == keys.enter,
                    InputFocus::Textarea => key == keys.escape || key == keys.enter || (match key {
                        Key::Char(_) => true,
                        _ => false,
                    }) || key == keys.backspace,
                };
                !consumes
            },
            DatabaseFocus::Editor => true,
        }
    }

    /// The tab with the focus on the kind and path lists.
    pub fn new(config: Config) -> (r: DatabaseTabComponent)
        requires
            is_absolute(config@.cwd),
        ensures
            r.wf(),
            r.config == config,
            r.focus == DatabaseFocus::Explorer,
            r.databases.list.state.selected == Some(0usize),
            r.explorer.list.state.selected is None,
            r.editor.pairs@.len() == 0,
            r.status.text@ == DEFAULT_STATUS_TEXT@,
    {
        let explorer = DatabaseExplorerComponent::new(config.clone());
        let editor = DatabaseEditorComponent::new(config.clone());
        let status = StatusComponent::new(config.clone());
        let databases = DatabaseSelectionComponent::new(config.clone());
        let command = CommandComponent::new(config.clone());
        DatabaseTabComponent {
            explorer,
            editor,
            status,
            databases,
            command,
            focus: DatabaseFocus::Explorer,
            config,
        }
    }

    fn get_selected_database(&self) -> (r: String)
        requires
            self.wf(),
            self.config@.databases.len() > 0,
        ensures
            r@ == self.config@.databases[self.selected_kind()].0,
            kind_index(self.config@.databases, r@) == Some(self.selected_kind()),
    {
        let database_index = match self.databases.state().selected() {
            Some(i) => i,
            None => 0,
        };
        self.config.databases.kind_at(database_index)
    }

    /// The kind, the path and the absolute path of the highlighted database.
    fn get_database_info(&self) -> (r: (String, String, String))
        requires
            self.wf(),
            self.config@.databases.len() > 0,
        ensures
            r.0@ == self.config@.databases[self.selected_kind()].0,
            r.1@ == self.config@.databases[self.selected_kind()].1[self.selected_file()],
            r.2@ == absolutized(r.1@, self.config@.cwd),
    {
        let selected_file = match self.explorer.state().selected() {
            Some(i) => i,
            None => 0,
        };
        let selected_db = self.get_selected_database();
        let databases = match self.config.databases.get(&selected_db) {
            Some(d) => d,
            None => {
                proof {
                    assert(false);
                }
                return (selected_db, String::new(), get_absolute_path("", self.config.cwd.as_str()));
            },
        };
        proof {
            assert(crate::config::config_paths(databases@).len() == databases@.len());
        }
        let database = &databases[selected_file];
        let path = database.path.clone();
        let abs_p = get_absolute_path(path.as_str(), self.config.cwd.as_str());
        (selected_db, path, abs_p)
    }

    /// The reads the entered commands ask for on the highlighted database, in order; the
    /// commands are then forgotten.
    fn handle_command_event(&mut self) -> (r: Vec<ScanRequest>)
        requires
            old(self).wf(),
            old(self).config@.databases.len() > 0,
        ensures
            final(self).wf(),
            request_views(r@) == command_reads(
                command_views(old(self).command.commands@),
                None,
                db_spec(
                    old(self).config@.databases[old(self).selected_kind()].0,
                    old(self).config@.databases[old(self).selected_kind()].1[old(self).selected_file()],
                ),
            ),
            final(self).command.commands@.len() == 0,
            final(self).command.text == old(self).command.text,
            final(self).command.focus == old(self).command.focus,
            final(self).command.invalid == old(self).command.invalid,
            final(self).command.config == old(self).command.config,
            final(self).focus == old(self).focus,
            final(self).config == old(self).config,
            final(self).databases == old(self).databases,
            final(self).explorer == old(self).explorer,
            final(self).editor == old(self).editor,
            final(self).status == old(self).status,
    {
        let (name, path, _) = self.get_database_info();
        let ghost db = db_spec(name@, path@);
        let mut requests: Vec<ScanRequest> = Vec::new();
        let mut cf_handle: Option<Vec<u8>> = None;
        let mut i: usize = 0;
        let ghost cmds = command_views(self.command.commands@);
        proof {
            assert(cmds.skip(0) =~= cmds);
            assert(request_views(requests@) =~= Seq::<RequestSpec>::empty());
            assert(Seq::<RequestSpec>::empty() + command_reads(cmds, None, db) =~= command_reads(cmds, None, db));
        }
        while i < self.command.commands.len()
            invariant
                i <= self.command.commands@.len(),
                cmds == command_views(self.command.commands@),
                command_reads(cmds, None, db) == request_views(requests@) + command_reads(
                    cmds.skip(i as int),
                    opt_bytes(cf_handle),
                    db,
                ),
                db == db_spec(name@, path@),
            decreases self.command.commands@.len() - i,
        {
            let command = &self.command.commands[i];
            proof {
                assert(cmds.skip(i as int)[0] == (command.token@, command.value@));
                assert(cmds.skip(i as int).drop_first() =~= cmds.skip(i as int + 1));
            }
            let ghost old_requests = requests@;
            if str_eq(command.token.as_str(), "COLUMN") {
                cf_handle = Some(utf8_bytes(&command.value));
                let tags = match &cf_handle {
                    Some(c) => Some(crate::components::rows::copy_bytes(c)),
                    None => None,
                };
                requests.push(self.editor.scan_database(tags, name.as_str(), path.as_str()));
            } else if str_eq(command.token.as_str(), "PREFIX") {
                let tags = match &cf_handle {
                    Some(c) => Some(crate::components::rows::copy_bytes(c)),
                    None => None,
                };
                let bytes = utf8_bytes(&command.value);
                requests.push(self.editor.prefix_scan_database(tags, name.as_str(), path.as_str(), bytes));
            } else if str_eq(command.token.as_str(), "SUFFIX") {
                let tags = match &cf_handle {
                    Some(c) => Some(crate::components::rows::copy_bytes(c)),
                    None => None,
                };
                let bytes = utf8_bytes(&command.value);
                requests.push(self.editor.suffix_scan_database(tags, name.as_str(), path.as_str(), bytes));
            }
            proof {
                if requests@.len() > old_requests.len() {
                    assert(request_views(requests@) =~= request_views(old_requests).push(request_view(requests@.last())));
                } else {
                    assert(requests@ == old_requests);
                }
            }
            i = i + 1;
        }
        proof {
            assert(cmds.skip(cmds.len() as int) =~= Seq::<(Seq<char>, Seq<char>)>::empty());
            assert(request_views(requests@) + Seq::<RequestSpec>::empty() =~= request_views(requests@));
        }
        self.command.reset_command();
        requests
    }

    /// With a path highlighted: shows its absolute path on the status line and returns the
    /// read of all its pairs. Without: resets the status line and reads nothing.
    fn handle_explorer_event(&mut self) -> (r: Vec<ScanRequest>)
        requires
            old(self).wf(),
            old(self).explorer.list.state.selected is Some ==> old(self).config@.databases.len() > 0,
        ensures
            final(self).wf(),
            final(self).focus == old(self).focus,
            final(self).config == old(self).config,
            final(self).command == old(self).command,
            final(self).databases == old(self).databases,
            final(self).explorer == old(self).explorer,
            final(self).editor == old(self).editor,
            final(self).status.config == old(self).status.config,
            old(self).explorer.list.state.selected is Some ==> {
                let kind = old(self).config@.databases[old(self).selected_kind()];
                let path = kind.1[old(self).selected_file()];
                &&& final(self).status.text@ == absolutized(path, old(self).config@.cwd)
                &&& request_views(r@) == seq![RequestSpec { tags: None, path: db_spec(kind.0, path), kind: ScanKindSpec::All }]
            },
            old(self).explorer.list.state.selected is None ==> final(self).status.text@ == DEFAULT_STATUS_TEXT@ && r@.len() == 0,
    {
        let mut requests: Vec<ScanRequest> = Vec::new();
        if self.explorer.state().selected().is_some() {
            let (name, path, abs_p) = self.get_database_info();
            self.status.set_text(abs_p);
            requests.push(self.editor.scan_database(None, name.as_str(), path.as_str()));
            assert(request_views(requests@) =~= seq![request_view(requests@[0])]);
        } else {
            self.status.reset();
        }
        requests
    }

    /// Hands the outcome of a read to the key-value table.
    pub fn apply_scan(&mut self, result: Result<Vec<KeyValuePair>, String>)
        requires
            old(self).wf(),
        ensures
            final(self).wf(),
            scan_applied(*old(self), result, *final(self)),
    {
        self.editor.apply_scan(result);
    }

    /// Handles a key press and returns the reads it asks for.
    ///
    /// On the lists, the right arrow moves to the command line; the kind keys highlight
    /// another kind and show its paths; a key the path list takes updates the status line
    /// and reads the highlighted database. On the command line, every key it takes runs the
    /// entered commands on the highlighted database; otherwise the left arrow goes back to
    /// the lists and the down arrow to the table. In the table, keys go to it first; then
    /// the left arrow goes back to the lists and the up arrow to the command line.
    pub fn event(&mut self, key: Key) -> (r: (EventState, Vec<ScanRequest>))
        requires
            old(self).wf(),
            old(self).accepts(key),
        ensures
            final(self).wf(),
            database_event(*old(self), key, *final(self), r.0, request_views(r.1@)),
    {
        let no_reads: Vec<ScanRequest> = Vec::new();
        match self.focus {
            DatabaseFocus::Explorer => {
                if key == Key::Right {
                    self.focus = DatabaseFocus::Command;
                    return (EventState::Consumed, no_reads);
                }
                proof {
                    assert(self.databases.list.items@.len() == self.config@.databases.len());
                    assert(self.databases.list.items@.len() == self.databases.list.items.len());
                    assert(self.explorer.list.items@.len() == self.explorer.list.items.len());
                    assert(self.config.databases@.len() == self.config@.databases.len());
                    lemma_moves_stay_in_range(self.databases.list.state.selected, self.config@.databases.len());
                    lemma_moves_stay_in_range(self.explorer.list.state.selected, self.explorer.list.items@.len());
                }
                if self.databases.event(key).is_consumed() {
                    let selected = match self.databases.state().selected() {
                        Some(s) => s,
                        None => 0,
                    };
                    let db = self.config.databases.kind_at(selected);
                    self.explorer.set_database(db);
                    return (EventState::Consumed, no_reads);
                }
                if self.explorer.event(key).is_consumed() {
                    let reads = self.handle_explorer_event();
                    return (EventState::Consumed, reads);
                }
                (EventState::NotConsumed, no_reads)
            },
            DatabaseFocus::Command => {
                if self.command.event(key).is_consumed() {
                    let reads = self.handle_command_event();
                    return (EventState::Consumed, reads);
                }
                if key == Key::Left {
                    self.focus = DatabaseFocus::Explorer;
                    return (EventState::Consumed, no_reads);
                }
                if key == Key::Down {
                    self.focus = DatabaseFocus::Editor;
                    return (EventState::Consumed, no_reads);
                }
                (EventState::NotConsumed, no_reads)
            },
            DatabaseFocus::Editor => {
                if self.editor.event(key).is_consumed() {
                    return (EventState::Consumed, no_reads);
                }
                if key == Key::Left {
                    self.focus = DatabaseFocus::Explorer;
                    return (EventState::Consumed, no_reads);
                }
                if key == Key::Up {
                    self.focus = DatabaseFocus::Command;
                    return (EventState::Consumed, no_reads);
                }
                (EventState::NotConsumed, no_reads)
            },
        }
    }
}

/// On the lists, the key that moves the kind highlight down and then the one that moves it
/// up bring the highlight back to the kind it was on.
pub proof fn lemma_database_keys_undo(
    o: DatabaseTabComponent,
    m: DatabaseTabComponent,
    r1: EventState,
    reads1: Seq<RequestSpec>,
    n: DatabaseTabComponent,
    r2: EventState,
    reads2: Seq<RequestSpec>,
)
    requires
        o.wf(),
        o.focus == DatabaseFocus::Explorer,
        o.config.key_config.database_select_down != Key::Right,
        o.config.key_config.database_select_up != Key::Right,
        o.config.key_config.database_select_up != o.config.key_config.database_select_down,
        database_event(o, o.config.key_config.database_select_down, m, r1, reads1),
        database_event(m, o.config.key_config.database_select_up, n, r2, reads2),
    ensures
        n.databases.list.state.selected == o.databases.list.state.selected,
        n.focus == DatabaseFocus::Explorer,
        reads1.len() == 0 && reads2.len() == 0,
{
    let len = o.databases.list.items@.len();
    let i = o.databases.list.state.selected->0;
    assert(len == o.config@.databases.len());
    assert(o.databases.list.items@.len() == o.databases.list.items.len());
    assert(in_range(i, len));
    lemma_previous_undoes_next(i, len);
}

/// The focus of the database tab moves only along lists -right-> command line, command line
/// -left-> lists, command line -down-> table, table -left-> lists and table -up-> command
/// line; a move off the command line or the table happens only when that part left the key
/// alone, and every move takes the key. The right arrow on the lists reaches no part.
pub proof fn lemma_database_focus_moves(
    o: DatabaseTabComponent,
    key: Key,
    n: DatabaseTabComponent,
    r: EventState,
    reads: Seq<RequestSpec>,
)
    requires
        database_event(o, key, n, r, reads),
    ensures
        n.focus != o.focus ==> r == EventState::Consumed && reads.len() == 0 && ({
            ||| o.focus == DatabaseFocus::Explorer && key == Key::Right && n.focus
                == DatabaseFocus::Command
            ||| o.focus == DatabaseFocus::Command && !command_consumes(o.command, key)
                && n.command == o.command && ((key == Key::Left && n.focus
                == DatabaseFocus::Explorer) || (key == Key::Down && n.focus == DatabaseFocus::Editor))
            ||| o.focus == DatabaseFocus::Editor && n.editor == o.editor && ((key == Key::Left
                && n.focus == DatabaseFocus::Explorer) || (key == Key::Up && n.focus
                == DatabaseFocus::Command))
        }),
        o.focus == DatabaseFocus::Explorer && key == Key::Right ==> n.command == o.command
            && n.editor == o.editor && n.explorer == o.explorer && n.databases == o.databases
            && n.status == o.status,
{
    if o.focus == DatabaseFocus::Editor && n.focus != o.focus {
        let used = choose|used: EventState| #[trigger] editor_event(o.editor, key, n.editor, used) && if used
            == EventState::Consumed {
            n.focus == DatabaseFocus::Editor && r == EventState::Consumed
        } else if key == Key::Left {
            n.focus == DatabaseFocus::Explorer && r == EventState::Consumed
        } else if key == Key::Up {
            n.focus == DatabaseFocus::Command && r == EventState::Consumed
        } else {
            n.focus == DatabaseFocus::Editor && r == EventState::NotConsumed
        };
        assert(used == EventState::NotConsumed);
        assert(n.editor.table.state == o.editor.table.state);
        assert(n.editor.table == o.editor.table);
        assert(n.editor == o.editor);
    }
}

/// Each `COLUMN` command reads all of the column family its value names: for commands that
/// are all `COLUMN` words (as the command line makes them), there is one read per command,
/// in order, and read `j` is of every pair of the family named by the UTF-8 bytes of value
/// `j`, on the database `db`.
pub proof fn lemma_column_reads(cmds: Seq<(Seq<char>, Seq<char>)>, cf: Option<Seq<u8>>, db: Seq<char>)
    requires
        forall|j: int| 0 <= j < cmds.len() ==> (#[trigger] cmds[j]).0 == "COLUMN"@,
    ensures
        command_reads(cmds, cf, db).len() == cmds.len(),
        forall|j: int|
            0 <= j < cmds.len() ==> #[trigger] command_reads(cmds, cf, db)[j] == (RequestSpec {
                tags: Some(encode_utf8(cmds[j].1)),
                path: db,
                kind: ScanKindSpec::All,
            }),
    decreases cmds.len(),
{
    if cmds.len() > 0 {
        let rest = cmds.drop_first();
        assert forall|j: int| 0 <= j < rest.len() implies (#[trigger] rest[j]).0 == "COLUMN"@ by {
            assert(rest[j] == cmds[j + 1]);
        }
        let cf2 = Some(encode_utf8(cmds[0].1));
        lemma_column_reads(rest, cf2, db);
        assert(cmds[0].0 == "COLUMN"@);
        assert forall|j: int| 0 <= j < cmds.len() implies #[trigger] command_reads(cmds, cf, db)[j]
            == (RequestSpec {
            tags: Some(encode_utf8(cmds[j].1)),
            path: db,
            kind: ScanKindSpec::All,
        }) by {
            if j > 0 {
                assert(cmds[j] == rest[j - 1]);
                assert(command_reads(cmds, cf, db)[j] == command_reads(rest, cf2, db)[j - 1]);
            }
        }
    }
}

} // verus!
