use edma::app::AppComponent;
use edma::components::container::render_container;
use edma::components::database::command::{CommandComponent, InputFocus};
use edma::components::database::container::{DatabaseFocus, DatabaseTabComponent};
use edma::components::database::selection::DatabaseSelectionComponent;
use edma::components::explorer::{DatabaseExplorerComponent, TreeFocus, TreeMove};
use edma::components::file::{FileFocus, FileTabComponent};
use edma::components::home::{HomeFocus, HomeTabComponent};
use edma::components::menu::{MenuContainerComponent, MenuItem};
use edma::components::status::StatusComponent;
use edma::config::{load_config, CliConfig, Config, RawDatabase};
use edma::constants::{Color, Focus, DEFAULT_STATUS_TEXT};
use edma::events::EventState;
use edma::key::Key;

fn q(s: &str) -> String {
    format!("\"{}\"", s)
}

fn config_with(dbs: &[(&str, &str)]) -> Config {
    let cli = CliConfig { config_path: "edma.json".to_string(), create_config: false };
    let raw: Vec<RawDatabase> =
        dbs.iter().map(|(n, p)| RawDatabase { name: q(n), path: q(p) }).collect();
    load_config(&cli, "/w", Some(raw), None)
}

fn type_text(c: &mut CommandComponent, s: &str) {
    for ch in s.chars() {
        assert_eq!(c.event(Key::Char(ch)), EventState::Consumed);
    }
}

#[test]
fn tree_explorer_lists_every_database() {
    let e = DatabaseExplorerComponent::new(config_with(&[("rocksdb", "/a"), ("redb", "rel")]));
    assert_eq!(e.title, "RocksDB (2 databases)");
    assert_eq!(e.specs, vec!["rocksdb:/a".to_string(), "redb:rel".to_string()]);
    assert_eq!(e.children, vec!["/a".to_string(), "/w/rel".to_string()]);
    assert!(!e.is_selected());
}

#[test]
fn tree_explorer_walks_and_chooses() {
    let mut e = DatabaseExplorerComponent::new(config_with(&[("rocksdb", "/a"), ("redb", "rel")]));
    assert_eq!(e.event(Key::Down), (EventState::NotConsumed, None));
    assert_eq!(e.event(Key::Enter), (EventState::Consumed, Some(TreeMove::First)));
    assert_eq!(e.focus, TreeFocus::TreeView);
    // closed root: moving down chooses nothing
    assert_eq!(e.event(Key::Down), (EventState::Consumed, Some(TreeMove::Down)));
    assert_eq!(e.selected_index, 0);
    assert!(!e.is_selected());
    assert_eq!(e.event(Key::Char(' ')), (EventState::Consumed, Some(TreeMove::Toggle)));
    assert!(e.is_toggled);
    e.event(Key::Down);
    assert_eq!(e.selected_file(), Some(("rocksdb".to_string(), "/a".to_string())));
    e.event(Key::Down);
    assert_eq!(e.selected_file(), Some(("redb".to_string(), "/w/rel".to_string())));
    e.event(Key::Down);
    assert_eq!(e.selected_index, 2);
    e.event(Key::Up);
    assert_eq!(e.selected_file(), Some(("rocksdb".to_string(), "/a".to_string())));
    // home jumps to the root but keeps the choice
    assert_eq!(e.event(Key::Home), (EventState::Consumed, Some(TreeMove::First)));
    assert_eq!(e.selected_index, 0);
    assert!(e.is_selected());
    assert_eq!(e.event(Key::End), (EventState::Consumed, Some(TreeMove::Last)));
    assert_eq!(e.event(Key::Char('x')), (EventState::NotConsumed, None));
    assert_eq!(e.event(Key::Esc), (EventState::Consumed, Some(TreeMove::Reset)));
    assert_eq!(e.focus, TreeFocus::Container);
    assert!(!e.is_selected());
    assert!(!e.is_toggled);
}

#[test]
fn file_tab_updates_its_status_line() {
    let mut f = FileTabComponent::new(config_with(&[("rocksdb", "/a")]));
    assert_eq!(f.status.text, DEFAULT_STATUS_TEXT);
    f.event(Key::Enter);
    f.event(Key::Char(' '));
    f.event(Key::Down);
    assert_eq!(f.status.text, "/a");
    f.event(Key::Up);
    assert_eq!(f.status.text, DEFAULT_STATUS_TEXT);
    assert_eq!(f.event(Key::Right), (EventState::NotConsumed, None));
    assert_eq!(f.focus, FileFocus::Explorer);
}

#[test]
fn file_tab_moves_between_panes() {
    let mut f = FileTabComponent::new(config_with(&[]));
    f.focus = FileFocus::Editor;
    assert_eq!(f.event(Key::Down), (EventState::NotConsumed, None));
    assert_eq!(f.event(Key::Left), (EventState::Consumed, None));
    assert_eq!(f.focus, FileFocus::Explorer);
}

#[test]
fn menu_switches_tabs() {
    let mut m = MenuContainerComponent::new(config_with(&[]));
    assert_eq!(m.active_menu_item, MenuItem::Home);
    assert_eq!(m.event(Key::Char('d')), EventState::Consumed);
    assert_eq!(m.active_focus(), Focus::DatabaseTabBody);
    assert_eq!(m.event(Key::Char('L')), EventState::Consumed);
    assert_eq!(m.active_menu_item, MenuItem::Layout);
    assert_eq!(m.event(Key::Char('x')), EventState::NotConsumed);
    assert_eq!(m.active_menu_item, MenuItem::Layout);
    assert_eq!(usize::from(MenuItem::Home), 0);
    assert_eq!(usize::from(MenuItem::Layout), 2);
}

#[test]
fn command_line_reads_column_words() {
    let mut c = CommandComponent::new(config_with(&[]));
    assert_eq!(c.event(Key::Char('a')), EventState::NotConsumed);
    assert_eq!(c.event(Key::Enter), EventState::Consumed);
    assert_eq!(c.focus, InputFocus::Textarea);
    type_text(&mut c, "COLUMN=users TABLE=x=y");
    assert_eq!(c.event(Key::Enter), EventState::Consumed);
    assert_eq!(c.commands.len(), 2);
    assert_eq!(c.commands[0].token, "COLUMN");
    assert_eq!(c.commands[0].value, "users");
    assert_eq!(c.commands[1].value, "x");
    assert!(!c.invalid.0);
    assert_eq!(c.event(Key::Esc), EventState::Consumed);
    assert_eq!(c.focus, InputFocus::Container);
}

#[test]
fn command_line_refuses_bad_words() {
    let mut c = CommandComponent::new(config_with(&[]));
    c.event(Key::Enter);
    type_text(&mut c, "COLUMN=a COLUMN b");
    c.event(Key::Enter);
    assert_eq!(c.commands.len(), 1);
    assert_eq!(c.invalid, (true, "No COLUMN value found".to_string()));
    for _ in 0.."COLUMN=a COLUMN b".len() {
        c.event(Key::Backspace);
    }
    assert!(c.text.is_empty());
    type_text(&mut c, "select");
    c.event(Key::Enter);
    assert_eq!(c.invalid, (true, "Mismatch command".to_string()));
    c.reset_command();
    assert!(c.commands.is_empty());
}

#[test]
fn home_tab_scrolls() {
    let mut h = HomeTabComponent::new(config_with(&[]));
    assert_eq!(h.event(Key::Down), EventState::NotConsumed);
    assert_eq!(h.event(Key::Enter), EventState::Consumed);
    assert_eq!(h.focus, HomeFocus::Inner);
    h.event(Key::Up);
    assert_eq!(h.scroll_position, 0);
    h.event(Key::Down);
    h.event(Key::Down);
    assert_eq!(h.scroll_position, 2);
    h.event(Key::Esc);
    assert_eq!(h.focus, HomeFocus::Container);
}

#[test]
fn database_selection_uses_nine_and_zero() {
    let mut s = DatabaseSelectionComponent::new(config_with(&[("rocksdb", "/a"), ("redb", "/b")]));
    assert_eq!(s.state().selected(), Some(0));
    assert_eq!(s.event(Key::Char('0')), EventState::Consumed);
    assert_eq!(s.state().selected(), Some(1));
    assert_eq!(s.event(Key::Char('0')), EventState::Consumed);
    assert_eq!(s.state().selected(), Some(0));
    assert_eq!(s.event(Key::Char('9')), EventState::Consumed);
    assert_eq!(s.state().selected(), Some(1));
    assert_eq!(s.event(Key::Up), EventState::NotConsumed);
}

#[test]
fn status_line_text() {
    let mut s = StatusComponent::new(config_with(&[]));
    assert_eq!(s.text, "No status displayed...");
    s.set_text("reading".to_string());
    assert_eq!(s.text, "reading");
    s.reset();
    assert_eq!(s.text, DEFAULT_STATUS_TEXT);
}

#[test]
fn containers_are_white_when_focused() {
    let c = render_container("Explorer", true);
    assert_eq!(c.title, "Explorer");
    assert_eq!(c.color, Color::White);
    assert_eq!(render_container("Explorer", false).color, Color::DarkGray);
}

#[test]
fn app_moves_focus_between_menu_and_tabs() {
    let mut app = AppComponent::new(config_with(&[("rocksdb", "/a")]));
    assert_eq!(app.focus, Focus::MenuContainer);
    assert!(app.accepts_key(Key::Down));
    let (used, reads) = app.event(Key::Char('l'));
    assert_eq!(used, EventState::Consumed);
    assert!(reads.is_empty());
    let (used, _) = app.event(Key::Down);
    assert_eq!(used, EventState::NotConsumed);
    assert_eq!(app.focus, Focus::LayoutTabBody);
    let (used, _) = app.event(Key::Up);
    assert_eq!(used, EventState::NotConsumed);
    assert_eq!(app.focus, Focus::MenuContainer);
}

#[test]
fn app_view_without_databases_names_the_config_file() {
    let app = AppComponent::new(config_with(&[]));
    match app.view() {
        edma::app::AppView::NoDatabases { container, config_line } => {
            assert_eq!(container.title, "No databases found in config file!");
            assert_eq!(container.color, Color::White);
            assert_eq!(config_line, "Config path: /w/edma.json");
        }
        other => panic!("{:?}", other),
    }
}

#[test]
fn app_view_with_databases_shows_the_active_tab() {
    let mut app = AppComponent::new(config_with(&[("rocksdb", "/a")]));
    app.event(Key::Char('d'));
    app.event(Key::Down);
    match app.view() {
        edma::app::AppView::Tabs { menu_focused, tab, tab_focused } => {
            assert!(!menu_focused);
            assert_eq!(tab, MenuItem::Database);
            assert!(tab_focused);
        }
        other => panic!("{:?}", other),
    }
    let panes = app.database.panes(true);
    assert!(panes.lists && !panes.command && !panes.editor);
    assert!(!app.database.panes(false).lists);
}

#[test]
fn database_tab_reads_the_highlighted_path() {
    let mut app = AppComponent::new(config_with(&[("rocksdb", "/a"), ("rocksdb", "b")]));
    app.event(Key::Char('d'));
    app.event(Key::Down);
    assert_eq!(app.focus, Focus::DatabaseTabBody);
    assert!(app.accepts_key(Key::Enter));
    let (used, reads) = app.event(Key::Enter);
    assert_eq!(used, EventState::Consumed);
    assert_eq!(reads.len(), 1);
    assert_eq!(reads[0].path, "rocksdb:/a");
    assert!(reads[0].tags.is_none());
    assert_eq!(app.database.status.text, "/a");
    let (_, reads) = app.event(Key::Down);
    assert_eq!(reads[0].path, "rocksdb:b");
    assert_eq!(app.database.status.text, "/w/b");
    app.apply_scan(Err("no such database".to_string()));
    assert_eq!(app.database.editor.err, Some("no such database".to_string()));
    match app.database.editor.view(false) {
        edma::terminal::editor::EditorView::Message { container, text } => {
            assert_eq!(container.title, "Editor");
            assert_eq!(text, "no such database");
        }
        other => panic!("{:?}", other),
    }
    app.apply_scan(Ok(vec![(b"k".to_vec(), b"v".to_vec())]));
    match app.database.editor.view(true) {
        edma::terminal::editor::EditorView::Table { container, with_preview, row_heights } => {
            assert_eq!(container.title, "Editor (1 key-value pairs)");
            assert_eq!(container.color, Color::White);
            assert!(!with_preview);
            assert_eq!(row_heights, vec![1]);
        }
        other => panic!("{:?}", other),
    }
}

#[test]
fn database_tab_refuses_reads_without_databases() {
    let mut app = AppComponent::new(config_with(&[]));
    app.event(Key::Char('d'));
    app.event(Key::Down);
    assert_eq!(app.focus, Focus::DatabaseTabBody);
    assert!(!app.accepts_key(Key::Enter));
    assert!(app.accepts_key(Key::Right));
}

#[test]
fn path_list_label_follows_its_focus() {
    let mut e = edma::components::database::database_explorer::DatabaseExplorerComponent::new(
        config_with(&[("rocksdb", "/a")]),
    );
    assert_eq!(e.label(), "Explorer [ENTER]");
    e.event(Key::Enter);
    assert_eq!(e.label(), "Explorer [ESC]");
}

#[test]
fn enter_then_escape_returns_each_box_to_where_it_was() {
    let config = config_with(&[("rocksdb", "/a")]);

    let mut c = CommandComponent::new(config.clone());
    c.event(Key::Enter);
    type_text(&mut c, "COLUMN=x");
    c.event(Key::Esc);
    let text_before: Vec<char> = c.text.clone();
    c.event(Key::Enter);
    c.event(Key::Esc);
    assert_eq!(c.focus, InputFocus::Container);
    assert_eq!(c.text, text_before);

    let mut ed = edma::components::template::editor::CommandEditorComponent::new(config.clone());
    ed.event(Key::Enter);
    ed.event(Key::Char('z'));
    ed.event(Key::Esc);
    ed.event(Key::Enter);
    ed.event(Key::Esc);
    assert_eq!(ed.focus, InputFocus::Container);
    assert_eq!(ed.text, vec!['z']);

    let mut h = HomeTabComponent::new(config.clone());
    h.event(Key::Enter);
    h.event(Key::Down);
    h.event(Key::Esc);
    h.event(Key::Enter);
    h.event(Key::Esc);
    assert_eq!((h.focus, h.scroll_position), (HomeFocus::Container, 1));

    let mut list = edma::components::database::database_explorer::DatabaseExplorerComponent::new(config);
    assert_eq!(list.event(Key::Enter), EventState::Consumed);
    assert_eq!(list.state().selected(), Some(0));
    assert_eq!(list.event(Key::Esc), EventState::Consumed);
    assert_eq!(list.state().selected(), None);
    assert_eq!(list.list.items, vec!["/a".to_string()]);
}

#[test]
fn database_keys_undo_each_other_on_the_tab() {
    let mut app = AppComponent::new(config_with(&[("rocksdb", "/a"), ("redb", "/b"), ("sled", "/c")]));
    app.event(Key::Char('d'));
    app.event(Key::Down);
    let before = app.database.databases.state().selected();
    let (used, reads) = app.event(Key::Char('0'));
    assert_eq!((used, reads.len()), (EventState::Consumed, 0));
    assert_eq!(app.database.databases.state().selected(), Some(1));
    assert_eq!(app.database.explorer.list.items, vec!["/b".to_string()]);
    app.event(Key::Char('9'));
    assert_eq!(app.database.databases.state().selected(), before);
    assert_eq!(app.database.explorer.list.items, vec!["/a".to_string()]);
}

#[test]
fn highlighting_a_template_rebuilds_the_layout_table() {
    let cli = CliConfig { config_path: "edma.json".to_string(), create_config: false };
    let config = load_config(&cli, "/w", None, Some(vec![]));
    let mut tab = edma::components::template::container::LayoutTabComponent::new(config);
    assert!(tab.layout.table.is_none());
    tab.event(Key::Enter);
    let table = tab.layout.table.as_ref().unwrap();
    assert_eq!(table.headers, vec!["#", "Name", "Variant", "From", "To"]);
    assert_eq!(table.items.len(), 1);
    assert_eq!(table.items[0][2], "Bytes");
    tab.event(Key::Down);
    let table = tab.layout.table.as_ref().unwrap();
    assert_eq!(table.items[0][2], "String");
    assert_eq!(table.state.selected(), None);
}

#[test]
fn database_tab_focus_moves() {
    let mut tab = DatabaseTabComponent::new(config_with(&[("rocksdb", "/a")]));
    assert_eq!(tab.focus, DatabaseFocus::Explorer);
    let (used, reads) = tab.event(Key::Right);
    assert_eq!((used, reads.len(), tab.focus), (EventState::Consumed, 0, DatabaseFocus::Command));
    assert_eq!(tab.event(Key::Down).0, EventState::Consumed);
    assert_eq!(tab.focus, DatabaseFocus::Editor);
    assert_eq!(tab.event(Key::Up).0, EventState::Consumed);
    assert_eq!(tab.focus, DatabaseFocus::Command);
    assert_eq!(tab.event(Key::Left).0, EventState::Consumed);
    assert_eq!(tab.focus, DatabaseFocus::Explorer);
    assert_eq!(tab.event(Key::Tab).0, EventState::NotConsumed);
    assert_eq!(tab.focus, DatabaseFocus::Explorer);
}
