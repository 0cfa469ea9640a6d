//! The whole screen: the menu bar and the three tabs, and where the focus is.
use vstd::prelude::*;

use crate::components::database::container::{
    database_event, request_views, scan_applied, DatabaseTabComponent, RequestSpec,
};
use crate::components::database::preview::KeyValuePair;
use crate::components::home::{home_event, HomeTabComponent};
use crate::components::container::{container_color, render_container, Container};
use crate::components::menu::{menu_event, tab_focus, tab_for_key, MenuContainerComponent, MenuItem};
use crate::text::push_str;
use crate::components::template::container::{layout_event, LayoutTabComponent};
use crate::config::Config;
use crate::constants::Focus;
use crate::events::EventState;
use crate::key::Key;
use crate::terminal::editor::ScanRequest;
use crate::utils::file::is_absolute;

verus! {

/// What the application screen shows.
#[derive(Debug)]
pub enum AppView {
    /// No database is configured: a focused box saying so, and the line naming the
    /// configuration file.
    NoDatabases { container: Container, config_line: String },
    /// The menu bar and the body of the active tab, each with whether it has the focus.
    Tabs { menu_focused: bool, tab: MenuItem, tab_focused: bool },
}

/// The application: its tabs, the menu and the focus.
pub struct AppComponent {
    pub home: HomeTabComponent,
    pub database: DatabaseTabComponent,
    pub menu: MenuContainerComponent,
    pub layout: LayoutTabComponent,
    pub focus: Focus,
    pub config: Config,
}

/// Where the focus goes on a key press that no component took: down from the menu into the
/// active tab, up from a tab back to the menu.
pub open spec fn moved_focus(focus: Focus, active: Focus, key: Key) -> Focus {
    match focus {
        Focus::MenuContainer => if key == Key::Down {
            active
        } else {
            focus
        },
        _ => if key == Key::Up {
            Focus::MenuContainer
        } else {
            focus
        },
    }
}

/// What the focused part does with a key, and the reads it asks for; the focus itself is
/// left to `app_event`.
pub open spec fn component_step(
    o: AppComponent,
    key: Key,
    n: AppComponent,
    used: EventState,
    reads: Seq<RequestSpec>,
) -> bool {
    &&& n.config == o.config
    &&& match o.focus {
        Focus::MenuContainer => {
            &&& menu_event(o.menu, key, n.menu, used)
            &&& n.home == o.home && n.database == o.database && n.layout == o.layout
            &&& reads.len() == 0
        },
        Focus::HomeTabBody => {
            &&& home_event(o.home, key, n.home, used)
            &&& n.menu == o.menu && n.database == o.database && n.layout == o.layout
            &&& reads.len() == 0
        },
        Focus::DatabaseTabBody => {
            &&& database_event(o.database, key, n.database, used, reads)
            &&& n.menu == o.menu && n.home == o.home && n.layout == o.layout
        },
        Focus::LayoutTabBody => {
            &&& layout_event(o.layout, key, n.layout, used)
            &&& n.menu == o.menu && n.home == o.home && n.database == o.database
            &&& reads.len() == 0
        },
    }
}

/// What a key does to the application: the focused part handles it first; a key it leaves
/// moves the focus down from the menu into the active tab or up from a tab to the menu, and
/// asks for no reads.
pub open spec fn app_event(
    o: AppComponent,
    key: Key,
    n: AppComponent,
    r: EventState,
    reads: Seq<RequestSpec>,
) -> bool {
    exists|used: EventState|
        #[trigger] component_step(o, key, n, used, reads) && if used == EventState::Consumed {
            n.focus == o.focus && r == EventState::Consumed
        } else {
            &&& r == EventState::NotConsumed
            &&& reads.len() == 0
            &&& n.focus == moved_focus(o.focus, tab_focus(o.menu.active_menu_item), key)
        }
}

impl AppComponent {
    /// The tabs are consistent.
    pub open spec fn wf(&self) -> bool {
        self.database.wf() && self.layout.wf()
    }

    /// Key presses the focused tab can handle.
    pub open spec fn accepts(&self, key: Key) -> bool {
        &&& self.focus == Focus::DatabaseTabBody ==> self.database.accepts(key)
        &&& self.focus == Focus::LayoutTabBody ==> self.layout.accepts(key)
    }

    /// Whether `accepts` holds for `key`.
    pub fn accepts_key(&self, key: Key) -> (r: bool)
        ensures
            r == self.accepts(key),
    {
        match self.focus {
            Focus::DatabaseTabBody => self.database.accepts_key(key),
            Focus::LayoutTabBody => self.layout.accepts_key(key),
            _ => true,
        }
    }

    /// What the screen shows.
    pub fn view(&self) -> (r: AppView)
        ensures
            self.config@.databases.len() == 0 ==> (r matches AppView::NoDatabases {
                container,
                config_line,
            } && container.title@ == "No databases found in config file!"@ && container.color
                == container_color(true) && config_line@ == "Config path: "@ + self.config.path@),
            self.config@.databases.len() > 0 ==> (r matches AppView::Tabs {
                menu_focused,
                tab,
                tab_focused,
            } && menu_focused == (self.focus == Focus::MenuContainer) && tab
                == self.menu.active_menu_item && tab_focused == (self.focus == tab_focus(tab))),
    {
        if self.config.databases.is_empty() {
            let mut config_line = String::from_str("Config path: ");
            push_str(&mut config_line, self.config.path.as_str());
            proof {
                reveal_strlit("Config path: ");
            }
            AppView::NoDatabases {
                container: render_container("No databases found in config file!", true),
                config_line,
            }
        } else {
            let tab = self.menu.active_menu_item;
            AppView::Tabs {
                menu_focused: self.focus == Focus::MenuContainer,
                tab,
                tab_focused: self.focus == self.menu.active_focus(),
            }
        }
    }

    /// The application on the home tab with the focus on the menu.
    pub fn new(config: Config) -> (r: AppComponent)
        requires
            is_absolute(config@.cwd),
        ensures
            r.wf(),
            r.focus == Focus::MenuContainer,
            r.config == config,
            r.menu.active_menu_item == crate::components::menu::MenuItem::Home,
            r.home.config@ == config@,
            r.database.config@ == config@,
            r.layout.config@ == config@,
    {
        AppComponent {
            home: HomeTabComponent::new(config.clone()),
            database: DatabaseTabComponent::new(config.clone()),
            menu: MenuContainerComponent::new(config.clone()),
            layout: LayoutTabComponent::new(config.clone()),
            focus: Focus::MenuContainer,
            config,
        }
    }

    fn focus(&self) -> (r: Focus)
        ensures
            r == self.focus,
    {
        self.focus
    }

    fn components_event(&mut self, key: Key) -> (r: (EventState, Vec<ScanRequest>))
        requires
            old(self).wf(),
            old(self).accepts(key),
        ensures
            final(self).wf(),
            final(self).focus == old(self).focus,
            final(self).config == old(self).config,
            component_step(*old(self), key, *final(self), r.0, request_views(r.1@)),
    {
        let no_reads: Vec<ScanRequest> = Vec::new();
        match self.focus {
            Focus::MenuContainer => {
                if self.menu.event(key).is_consumed() {
                    return (EventState::Consumed, no_reads);
                }
            },
            Focus::HomeTabBody => {
                if self.home.event(key).is_consumed() {
                    return (EventState::Consumed, no_reads);
                }
            },
            Focus::DatabaseTabBody => {
                let (state, reads) = self.database.event(key);
                if state.is_consumed() {
                    return (EventState::Consumed, reads);
                }
            },
            Focus::LayoutTabBody => {
                if self.layout.event(key).is_consumed() {
                    return (EventState::Consumed, no_reads);
                }
            },
        }
        (EventState::NotConsumed, no_reads)
    }

    fn move_focus(&mut self, key: Key) -> (r: EventState)
        ensures
            final(self).focus == moved_focus(old(self).focus, tab_focus(old(self).menu.active_menu_item), key),
            r == EventState::NotConsumed,
            final(self).home == old(self).home,
            final(self).database == old(self).database,
            final(self).menu == old(self).menu,
            final(self).layout == old(self).layout,
            final(self).config == old(self).config,
    {
        match self.focus {
            Focus::MenuContainer => {
                if key == Key::Down {
                    self.focus = self.menu.active_focus();
                }
            },
            _ => {
                if key == Key::Up {
                    self.focus = Focus::MenuContainer;
                }
            },
        }
        EventState::NotConsumed
    }

    /// Handles a key press: the focused component first; if it does not take the key, the
    /// focus moves down from the menu into the active tab or up from a tab to the menu. The
    /// result says whether a component took the key, and lists the database reads it asks
    /// for.
    pub fn event(&mut self, key: Key) -> (r: (EventState, Vec<ScanRequest>))
        requires
            old(self).wf(),
            old(self).accepts(key),
        ensures
            final(self).wf(),
            app_event(*old(self), key, *final(self), r.0, request_views(r.1@)),
    {
        let (state, reads) = self.components_event(key);
        if state.is_consumed() {
            proof {
                assert(component_step(*old(self), key, *self, state, request_views(reads@)));
            }
            return (EventState::Consumed, reads);
        }
        proof {
            assert(component_step(*old(self), key, *self, state, request_views(reads@)));
            assert(request_views(reads@).len() == 0);
        }
        self.move_focus(key);
        let none: Vec<ScanRequest> = Vec::new();
        proof {
            assert(request_views(none@) =~= request_views(reads@));
            assert(component_step(*old(self), key, *self, state, request_views(none@)));
        }
        (EventState::NotConsumed, none)
    }

    /// Hands the outcome of a database read to the database tab.
    pub fn apply_scan(&mut self, result: Result<Vec<KeyValuePair>, String>)
        requires
            old(self).wf(),
        ensures
            final(self).wf(),
            scan_applied(old(self).database, result, final(self).database),
            final(self).focus == old(self).focus,
            final(self).config == old(self).config,
            final(self).menu == old(self).menu,
            final(self).home == old(self).home,
            final(self).layout == old(self).layout,
    {
        self.database.apply_scan(result);
    }
}

/// On the menu, a tab key (`h`, `d` or `l`) switches to its tab, and the down arrow that
/// follows moves the focus into that tab; neither key asks for a read.
pub proof fn lemma_tab_key_then_down(
    o: AppComponent,
    tab_key: Key,
    m: AppComponent,
    r1: EventState,
    reads1: Seq<RequestSpec>,
    n: AppComponent,
    r2: EventState,
    reads2: Seq<RequestSpec>,
)
    requires
        o.focus == Focus::MenuContainer,
        tab_for_key(tab_key) is Some,
        app_event(o, tab_key, m, r1, reads1),
        app_event(m, Key::Down, n, r2, reads2),
    ensures
        m.menu.active_menu_item == tab_for_key(tab_key)->0,
        n.menu.active_menu_item == tab_for_key(tab_key)->0,
        n.focus == tab_focus(tab_for_key(tab_key)->0),
        r1 == EventState::Consumed,
        reads1.len() == 0 && reads2.len() == 0,
{
}

} // verus!

