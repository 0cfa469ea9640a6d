//! Walking a list with the arrow keys once `enter` has moved into it.
use vstd::prelude::*;

use crate::events::EventState;
use crate::key::Key;
use crate::ui::list::StatefulList;
use crate::ui::selection::{next_index, previous_index};

verus! {

/// Whether keys go to the box around a list or to the list itself.
#[derive(Clone, Copy, Debug, PartialEq, Eq, Structural)]
pub enum ListFocus {
    Container,
    List,
}

/// How a key press moves through a list: `enter` on the box moves into the list at its
/// first entry; inside, `escape` clears the highlight and leaves, the arrow keys move the
/// highlight with wrap-around.
pub open spec fn list_navigation(
    focus: ListFocus,
    list: StatefulList,
    key: Key,
    new_focus: ListFocus,
    new_list: StatefulList,
    r: EventState,
) -> bool {
    &&& new_list.items == list.items
    &&& match focus {
        ListFocus::Container => if key == Key::Enter {
            new_focus == ListFocus::List && new_list.state.selected == Some(0usize) && r
                == EventState::Consumed
        } else {
            new_focus == focus && new_list.state == list.state && r == EventState::NotConsumed
        },
        ListFocus::List => if key == Key::Esc {
            new_focus == ListFocus::Container && new_list.state.selected is None && r
                == EventState::Consumed
        } else if key == Key::Up {
            new_focus == focus && new_list.state.selected == Some(
                previous_index(list.state.selected, list.items@.len()),
            ) && r == EventState::Consumed
        } else if key == Key::Down {
            new_focus == focus && new_list.state.selected == Some(
                next_index(list.state.selected, list.items@.len()),
            ) && r == EventState::Consumed
        } else {
            new_focus == focus && new_list.state == list.state && r == EventState::NotConsumed
        },
    }
}

/// Applies a key press to a list and its focus.
pub fn navigate(focus: &mut ListFocus, list: &mut StatefulList, key: Key) -> (r: EventState)
    ensures
        list_navigation(*old(focus), *old(list), key, *final(focus), *final(list), r),
{
    match *focus {
        ListFocus::Container => {
            if key == Key::Enter {
                *focus = ListFocus::List;
                list.first();
                return EventState::Consumed;
            }
        },
        ListFocus::List => {
            if key == Key::Esc {
                list.state = crate::ui::list::ListState::default();
                *focus = ListFocus::Container;
                return EventState::Consumed;
            } else if key == Key::Up {
                list.previous();
                return EventState::Consumed;
            } else if key == Key::Down {
                list.next();
                return EventState::Consumed;
            }
        },
    }
    EventState::NotConsumed
}

/// `enter` on a list's box and then `escape` leave the focus on the box, the entries as
/// they were and nothing highlighted; both keys are taken.
pub proof fn lemma_list_enter_then_escape(
    list: StatefulList,
    inside: ListFocus,
    entered: StatefulList,
    r1: EventState,
    back: ListFocus,
    left: StatefulList,
    r2: EventState,
)
    requires
        list_navigation(ListFocus::Container, list, Key::Enter, inside, entered, r1),
        list_navigation(inside, entered, Key::Esc, back, left, r2),
    ensures
        back == ListFocus::Container,
        left.items == list.items,
        left.state.selected is None,
        r1 == EventState::Consumed,
        r2 == EventState::Consumed,
{
}

} // verus!
