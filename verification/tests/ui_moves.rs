use edma::events::{EventConfig, EventState};
use edma::key::Key;
use edma::terminal::table::StatefulTable as HeaderTable;
use edma::ui::list::StatefulList;
use edma::ui::scrollbar::{draw_scrollbar, thumb_row, Area, Scrollbar, ScrollbarTrack};
use edma::ui::selection::{next_of, previous_of};
use edma::ui::table::StatefulTable;
use edma::utils::get_key_char;

fn rows(n: usize) -> Vec<Vec<String>> {
    (0..n).map(|i| vec![format!("r{}", i)]).collect()
}

#[test]
fn next_and_previous_wrap_around() {
    assert_eq!(next_of(None, 3), 0);
    assert_eq!(next_of(Some(0), 3), 1);
    assert_eq!(next_of(Some(2), 3), 0);
    assert_eq!(previous_of(None, 3), 0);
    assert_eq!(previous_of(Some(0), 3), 2);
    assert_eq!(previous_of(Some(2), 3), 1);
    assert_eq!(next_of(Some(0), 0), 0);
    assert_eq!(previous_of(Some(0), 0), 0);
}

#[test]
fn previous_undoes_next_on_every_row() {
    for len in 1..6usize {
        for i in 0..len {
            assert_eq!(previous_of(Some(next_of(Some(i), len)), len), i);
            assert_eq!(next_of(Some(previous_of(Some(i), len)), len), i);
        }
    }
}

#[test]
fn moving_down_len_times_comes_back() {
    let mut t = StatefulTable::with_items(rows(4));
    t.state.select(Some(1));
    for _ in 0..4 {
        t.next();
    }
    assert_eq!(t.state.selected(), Some(1));
}

#[test]
fn table_walks_rows() {
    let mut t = StatefulTable::with_items(rows(2));
    assert_eq!(t.state.selected(), None);
    t.next();
    assert_eq!(t.state.selected(), Some(0));
    t.next();
    assert_eq!(t.state.selected(), Some(1));
    t.next();
    assert_eq!(t.state.selected(), Some(0));
    t.previous();
    assert_eq!(t.state.selected(), Some(1));
    let mut empty = StatefulTable::default();
    empty.previous();
    assert_eq!(empty.state.selected(), Some(0));
}

#[test]
fn list_walks_entries() {
    let mut l = StatefulList::with_items(vec!["a".to_string(), "b".to_string(), "c".to_string()], None);
    l.previous();
    assert_eq!(l.state.selected(), Some(0));
    l.previous();
    assert_eq!(l.state.selected(), Some(2));
    l.first();
    assert_eq!(l.state.selected(), Some(0));
    l.next();
    assert_eq!(l.state.selected(), Some(1));
}

#[test]
fn header_table_builds_a_copy() {
    let mut t = HeaderTable::default();
    t.with_items(rows(3)).with_headers(vec!["Key", "Value"]);
    t.next();
    t.next();
    let copy = t.build();
    assert_eq!(copy.headers, vec!["Key", "Value"]);
    assert_eq!(copy.items, rows(3));
    assert_eq!(copy.state.selected(), Some(1));
    t.previous();
    t.previous();
    assert_eq!(t.state.selected(), Some(2));
}

#[test]
fn scrollbar_counts_that_do_not_fit_become_zero() {
    let bar = Scrollbar::new(70000, 12, true, false);
    assert_eq!((bar.max, bar.pos), (0, 12));
    let bar = Scrollbar::new(65535, 65536, false, true);
    assert_eq!((bar.max, bar.pos), (65535, 0));
}

#[test]
fn scrollbar_track_inside_with_border() {
    let area = Area { x: 2, y: 3, width: 10, height: 8 };
    let bar = Scrollbar::new(20, 5, true, true);
    assert_eq!(bar.track(area), Some(ScrollbarTrack { column: 11, top: 4, height: 6 }));
}

#[test]
fn scrollbar_track_outside_without_border() {
    let area = Area { x: 0, y: 0, width: 10, height: 5 };
    let (bar, track) = draw_scrollbar(area, 3, 1, false, false);
    assert_eq!((bar.max, bar.pos), (3, 1));
    assert_eq!(track, Some(ScrollbarTrack { column: 10, top: 0, height: 5 }));
}

#[test]
fn scrollbar_is_not_drawn_on_small_or_empty_areas() {
    let area = Area { x: 0, y: 0, width: 10, height: 2 };
    assert_eq!(draw_scrollbar(area, 3, 1, false, false).1, None);
    let area = Area { x: 0, y: 0, width: 10, height: 9 };
    assert_eq!(draw_scrollbar(area, 0, 0, false, false).1, None);
    let area = Area { x: 5, y: 0, width: 1, height: 9 };
    assert_eq!(draw_scrollbar(area, 4, 1, false, true).1, None);
}

#[test]
fn thumb_rows() {
    let track = ScrollbarTrack { column: 9, top: 4, height: 6 };
    assert_eq!(thumb_row(track, 0), 4);
    assert_eq!(thumb_row(track, 1), 4);
    assert_eq!(thumb_row(track, 6), 9);
}

#[test]
fn event_configuration() {
    let c = EventConfig::default();
    assert_eq!(c.exit_key, Key::Ctrl('c'));
    assert_eq!(c.tick_rate, 250);
    let c = EventConfig::from_tick_rate(100);
    assert_eq!(c.exit_key, Key::Ctrl('c'));
    assert_eq!(c.tick_rate, 100);
    assert!(EventState::Consumed.is_consumed());
    assert!(!EventState::NotConsumed.is_consumed());
}

#[test]
fn key_char() {
    assert_eq!(get_key_char(Key::Char('x')), 'x');
}
