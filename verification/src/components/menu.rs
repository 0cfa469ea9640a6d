//! The menu bar with the three tabs.
use vstd::prelude::*;

use crate::config::Config;
use crate::constants::Focus;
use crate::events::EventState;
use crate::key::Key;

verus! {

/// The tabs of the menu bar.
#[derive(Clone, Copy, Debug, PartialEq, Eq, Structural)]
pub enum MenuItem {
    Home,
    Database,
    Layout,
}

/// The position of a tab in the menu bar, after the title.
pub open spec fn menu_index(item: MenuItem) -> usize {
    match item {
        MenuItem::Home => 0,
        MenuItem::Database => 1,
        MenuItem::Layout => 2,
    }
}

impl vstd::std_specs::convert::FromSpecImpl<MenuItem> for usize {
    open spec fn obeys_from_spec() -> bool {
        true
    }

    open spec fn from_spec(v: MenuItem) -> usize {
        menu_index(v)
    }
}

impl From<MenuItem> for usize {
    fn from(input: MenuItem) -> (r: usize) {
        match input {
            MenuItem::Home => 0,
            MenuItem::Database => 1,
            MenuItem::Layout => 2,
        }
    }
}

/// The body that receives the focus when leaving the menu on a tab.
pub open spec fn tab_focus(item: MenuItem) -> Focus {
    match item {
        MenuItem::Home => Focus::HomeTabBody,
        MenuItem::Database => Focus::DatabaseTabBody,
        MenuItem::Layout => Focus::LayoutTabBody,
    }
}

/// The tab a key press switches to: `h`, `d` and `l`, in either case.
pub open spec fn tab_for_key(key: Key) -> Option<MenuItem> {
    if key == Key::Char('h') || key == Key::Char('H') {
        Some(MenuItem::Home)
    } else if key == Key::Char('d') || key == Key::Char('D') {
        Some(MenuItem::Database)
    } else if key == Key::Char('l') || key == Key::Char('L') {
        Some(MenuItem::Layout)
    } else {
        None
    }
}

/// What a key does to the menu bar: `h`, `d` and `l` (either case) switch tabs and are
/// taken; every other key is left alone.
pub open spec fn menu_event(o: MenuContainerComponent, key: Key, n: MenuContainerComponent, r: EventState) -> bool {
    &&& n.config == o.config
    &&& match tab_for_key(key) {
        Some(item) => n.active_menu_item == item && r == EventState::Consumed,
        None => n.active_menu_item == o.active_menu_item && r == EventState::NotConsumed,
    }
}

/// The menu bar and its active tab.
pub struct MenuContainerComponent {
    pub active_menu_item: MenuItem,
    pub config: Config,
}

impl MenuContainerComponent {
    /// The menu bar, on the home tab.
    pub fn new(config: Config) -> (r: MenuContainerComponent)
        ensures
            r.active_menu_item == MenuItem::Home,
            r.config == config,
    {
        MenuContainerComponent { active_menu_item: MenuItem::Home, config }
    }

    /// The body that the active tab hands the focus to.
    pub fn active_focus(&self) -> (r: Focus)
        ensures
            r == tab_focus(self.active_menu_item),
    {
        match self.active_menu_item {
            MenuItem::Home => Focus::HomeTabBody,
            MenuItem::Database => Focus::DatabaseTabBody,
            MenuItem::Layout => Focus::LayoutTabBody,
        }
    }

    pub fn set_active(&mut self, active_menu_item: MenuItem)
        ensures
            final(self).active_menu_item == active_menu_item,
            final(self).config == old(self).config,
    {
        self.active_menu_item = active_menu_item;
    }

    /// Switches tabs on `h`, `d` or `l` (either case) and consumes the key; leaves every
    /// other key alone.
    pub fn event(&mut self, key: Key) -> (r: EventState)
        ensures
            menu_event(*old(self), key, *final(self), r),
    {
        if key == Key::Char('h') || key == Key::Char('H') {
            self.set_active(MenuItem::Home);
            return EventState::Consumed;
        }
        if key == Key::Char('d') || key == Key::Char('D') {
            self.set_active(MenuItem::Database);
            return EventState::Consumed;
        }
        if key == Key::Char('l') || key == Key::Char('L') {
            self.set_active(MenuItem::Layout);
            return EventState::Consumed;
        }
        EventState::NotConsumed
    }
}

} // verus!
