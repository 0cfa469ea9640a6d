//! The home tab: the banner and the change log, which can be scrolled.
use vstd::prelude::*;

use crate::config::Config;
use crate::events::EventState;
use crate::key::Key;

verus! {

/// Whether keys go to the box of the home tab or scroll its text.
#[derive(Clone, Copy, Debug, PartialEq, Eq, Structural)]
pub enum HomeFocus {
    Container,
    Inner,
}

/// The home tab.
pub struct HomeTabComponent {
    pub config: Config,
    pub scroll_position: u16,
    pub focus: HomeFocus,
}

/// `a - b`, or `0` below zero.
pub open spec fn sub_floor(a: u16, b: u16) -> u16 {
    if a >= b {
        (a - b) as u16
    } else {
        0
    }
}

/// `a + b`, or the largest `u16` above it.
pub open spec fn add_ceil(a: u16, b: u16) -> u16 {
    if a + b <= u16::MAX {
        (a + b) as u16
    } else {
        u16::MAX
    }
}

/// What a key does to the home tab: `enter` moves into the text; inside, the arrow keys
/// scroll by one line (stopping at the top) and `escape` leaves.
pub open spec fn home_event(o: HomeTabComponent, key: Key, n: HomeTabComponent, r: EventState) -> bool {
    &&& n.config == o.config
    &&& o.focus == HomeFocus::Container ==> (if key == Key::Enter {
        n.focus == HomeFocus::Inner && n.scroll_position == o.scroll_position && r
            == EventState::Consumed
    } else {
        n == o && r == EventState::NotConsumed
    })
    &&& o.focus == HomeFocus::Inner ==> (if key == Key::Up {
        n.focus == HomeFocus::Inner && n.scroll_position == sub_floor(o.scroll_position, 1) && r
            == EventState::Consumed
    } else if key == Key::Down {
        n.focus == HomeFocus::Inner && n.scroll_position == add_ceil(o.scroll_position, 1) && r
            == EventState::Consumed
    } else if key == Key::Esc {
        n.focus == HomeFocus::Container && n.scroll_position == o.scroll_position && r
            == EventState::Consumed
    } else {
        n == o && r == EventState::NotConsumed
    })
}

impl HomeTabComponent {
    /// The home tab, scrolled to the top.
    pub fn new(config: Config) -> (r: HomeTabComponent)
        ensures
            r.config == config,
            r.scroll_position == 0,
            r.focus == HomeFocus::Container,
    {
        HomeTabComponent { config, scroll_position: 0, focus: HomeFocus::Container }
    }

    /// `enter` moves into the text; inside, the arrow keys scroll by one line (stopping at
    /// the top) and `escape` leaves.
    pub fn event(&mut self, key: Key) -> (r: EventState)
        ensures
            home_event(*old(self), key, *final(self), r),
    {
        match self.focus {
            HomeFocus::Container => {
                if key == Key::Enter {
                    self.focus = HomeFocus::Inner;
                    return EventState::Consumed;
                }
            },
            HomeFocus::Inner => {
                if key == Key::Up {
                    self.scroll_position = self.scroll_position.saturating_sub(1);
                    return EventState::Consumed;
                } else if key == Key::Down {
                    self.scroll_position = self.scroll_position.saturating_add(1);
                    return EventState::Consumed;
                } else if key == Key::Esc {
                    self.focus = HomeFocus::Container;
                    return EventState::Consumed;
                }
            },
        }
        EventState::NotConsumed
    }
}

/// `enter` on the home tab and then `escape` bring it back to where it was.
pub proof fn lemma_home_enter_then_escape(
    o: HomeTabComponent,
    inside: HomeTabComponent,
    r1: EventState,
    back: HomeTabComponent,
    r2: EventState,
)
    requires
        o.focus == HomeFocus::Container,
        home_event(o, Key::Enter, inside, r1),
        home_event(inside, Key::Esc, back, r2),
    ensures
        back == o,
        r1 == EventState::Consumed,
        r2 == EventState::Consumed,
{
}

} // verus!
