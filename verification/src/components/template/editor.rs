//! The editor box of the layout tab, where a template command can be typed.
use vstd::prelude::*;

use crate::components::container::{container_color, render_container, Container};
use crate::components::database::command::InputFocus;
use crate::config::Config;
use crate::events::EventState;
use crate::key::Key;

verus! {

/// A text box with fixed keys: `enter` moves in, `escape` out, characters are typed and
/// `backspace` deletes.
pub struct CommandEditorComponent {
    pub config: Config,
    pub text: Vec<char>,
    pub focus: InputFocus,
}

/// What the editor box shows.
#[derive(Debug)]
pub enum EditorView {
    Placeholder(Container),
    Text { container: Container, text: Vec<char> },
}

/// The keys the editor box takes: `enter` outside; `escape`, `enter`, characters and
/// `backspace` inside.
pub open spec fn input_takes(o: CommandEditorComponent, key: Key) -> bool {
    match o.focus {
        InputFocus::Container => key == Key::Enter,
        InputFocus::Textarea => key == Key::Esc || key == Key::Enter || key is Char || key
            == Key::Backspace,
    }
}

/// What a key does to the editor box: `enter` moves in, `escape` moves out, characters are
/// typed and `backspace` deletes the last one; `enter` inside changes nothing.
pub open spec fn input_event(o: CommandEditorComponent, key: Key, n: CommandEditorComponent, r: EventState) -> bool {
    &&& n.config == o.config
    &&& o.focus == InputFocus::Container ==> (if key == Key::Enter {
        n.focus == InputFocus::Textarea && n.text == o.text && r == EventState::Consumed
    } else {
        n == o && r == EventState::NotConsumed
    })
    &&& o.focus == InputFocus::Textarea ==> (if key == Key::Esc {
        n.focus == InputFocus::Container && n.text == o.text && r == EventState::Consumed
    } else if key == Key::Enter {
        n == o && r == EventState::Consumed
    } else if let Key::Char(v) = key {
        n.focus == o.focus && n.text@ == o.text@.push(v) && r == EventState::Consumed
    } else if key == Key::Backspace {
        n.focus == o.focus && n.text@ == (if o.text@.len() == 0 {
            o.text@
        } else {
            o.text@.drop_last()
        }) && r == EventState::Consumed
    } else {
        n == o && r == EventState::NotConsumed
    })
}

impl CommandEditorComponent {
    /// An empty, unfocused editor.
    pub fn new(config: Config) -> (r: CommandEditorComponent)
        ensures
            r.config == config,
            r.text@.len() == 0,
            r.focus == InputFocus::Container,
    {
        CommandEditorComponent { config, text: Vec::new(), focus: InputFocus::Container }
    }

    /// Handles a key press; `enter` inside the box is taken but does nothing yet.
    pub fn event(&mut self, key: Key) -> (r: EventState)
        ensures
            input_event(*old(self), key, *final(self), r),
            r == EventState::Consumed <==> input_takes(*old(self), key),
    {
        match self.focus {
            InputFocus::Container => {
                if key == Key::Enter {
                    self.focus = InputFocus::Textarea;
                    return EventState::Consumed;
                }
            },
            InputFocus::Textarea => {
                if key == Key::Esc {
                    self.focus = InputFocus::Container;
                    return EventState::Consumed;
                } else if key == Key::Enter {
                    return EventState::Consumed;
                } else if let Key::Char(v) = key {
                    self.text.push(v);
                    return EventState::Consumed;
                } else if key == Key::Backspace {
                    self.text.pop();
                    return EventState::Consumed;
                }
            },
        }
        EventState::NotConsumed
    }

    /// What the box shows: the hint outside, the typed text inside, in a box titled `Editor`.
    pub fn view(&self, focused: bool) -> (r: EditorView)
        ensures
            self.focus == InputFocus::Container ==> (r matches EditorView::Placeholder(c) && c.title@ == "Editor"@ && c.color == container_color(focused)),
            self.focus == InputFocus::Textarea ==> (r matches EditorView::Text { container, text } && text@ == self.text@ && container.title@ == "Editor"@ && container.color == container_color(focused)),
    {
        let container = render_container("Editor", focused);
        match self.focus {
            InputFocus::Container => EditorView::Placeholder(container),
            InputFocus::Textarea => {
                let mut text: Vec<char> = Vec::new();
                let mut i: usize = 0;
                while i < self.text.len()
                    invariant
                        i <= self.text@.len(),
                        text@ == self.text@.take(i as int),
                    decreases self.text@.len() - i,
                {
                    text.push(self.text[i]);
                    assert(text@ =~= self.text@.take(i as int + 1));
                    i = i + 1;
                }
                assert(text@ =~= self.text@);
                EditorView::Text { container, text }
            },
        }
    }
}

/// `enter` on the editor box and then `escape` bring it back to where it was, typed text
/// included.
pub proof fn lemma_editor_enter_then_escape(
    o: CommandEditorComponent,
    inside: CommandEditorComponent,
    r1: EventState,
    back: CommandEditorComponent,
    r2: EventState,
)
    requires
        o.focus == InputFocus::Container,
        input_event(o, Key::Enter, inside, r1),
        input_event(inside, Key::Esc, back, r2),
    ensures
        back == o,
        r1 == EventState::Consumed,
        r2 == EventState::Consumed,
{
}

} // verus!
