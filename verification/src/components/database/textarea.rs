//! A plain text box that only collects typed characters.
use vstd::prelude::*;

use crate::components::container::{container_color, render_container, Container};
use crate::components::database::command::{command_label, InputFocus};
use crate::config::Config;
use crate::events::EventState;
use crate::key::Key;
use crate::text::push_str;

verus! {

/// A text box: `enter` moves into it, `escape` out of it, characters are typed.
pub struct TextareaComponent {
    pub config: Config,
    pub text: Vec<char>,
    pub focus: InputFocus,
}

/// Whether a key press on the text box is handled (running the text is not).
pub open spec fn textarea_accepts(t: TextareaComponent, key: Key) -> bool {
    !(t.focus == InputFocus::Textarea && key != t.config.key_config.escape && key
        == t.config.key_config.enter)
}

/// What the text box shows.
#[derive(Debug)]
pub enum TextareaView {
    Placeholder(Container),
    Text { container: Container, text: Vec<char> },
}

impl TextareaComponent {
    /// An empty, unfocused text box.
    pub fn new(config: Config) -> (r: TextareaComponent)
        ensures
            r.config == config,
            r.text@.len() == 0,
            r.focus == InputFocus::Container,
    {
        TextareaComponent { config, text: Vec::new(), focus: InputFocus::Container }
    }

    /// Whether `textarea_accepts` holds for `key`.
    pub fn accepts_key(&self, key: Key) -> (r: bool)
        ensures
            r == textarea_accepts(*self, key),
    {
        !(self.focus == InputFocus::Textarea && key != self.config.key_config.escape && key
            == self.config.key_config.enter)
    }

    /// Handles a key press. Running the typed text with `enter` is not available.
    pub fn event(&mut self, key: Key) -> (r: EventState)
        requires
            textarea_accepts(*old(self), key),
        ensures
            final(self).config == old(self).config,
            old(self).focus == InputFocus::Container ==> (if key == old(self).config.key_config.enter {
                final(self).focus == InputFocus::Textarea && final(self).text == old(self).text && r
                    == EventState::Consumed
            } else {
                *final(self) == *old(self) && r == EventState::NotConsumed
            }),
            old(self).focus == InputFocus::Textarea ==> (if key == old(self).config.key_config.escape {
                final(self).focus == InputFocus::Container && final(self).text == old(self).text && r
                    == EventState::Consumed
            } else if let Key::Char(v) = key {
                final(self).focus == old(self).focus && final(self).text@ == old(self).text@.push(v) && r
                    == EventState::Consumed
            } else if key == old(self).config.key_config.backspace {
                final(self).focus == old(self).focus && final(self).text@ == (if old(self).text@.len()
                    == 0 {
                    old(self).text@
                } else {
                    old(self).text@.drop_last()
                }) && r == EventState::Consumed
            } else {
                *final(self) == *old(self) && r == EventState::NotConsumed
            }),
    {
        match self.focus {
            InputFocus::Container => {
                if key == self.config.key_config.enter {
                    self.focus = InputFocus::Textarea;
                    return EventState::Consumed;
                }
            },
            InputFocus::Textarea => {
                if key == self.config.key_config.escape {
                    self.focus = InputFocus::Container;
                    return EventState::Consumed;
                } else if key == self.config.key_config.enter {
                    proof {
                        assert(false);
                    }
                    return EventState::Consumed;
                } else if let Key::Char(v) = key {
                    self.text.push(v);
                    return EventState::Consumed;
                } else if key == self.config.key_config.backspace {
                    self.text.pop();
                    return EventState::Consumed;
                }
            },
        }
        EventState::NotConsumed
    }

    /// What the text box shows: the hint while it is empty and unfocused, the text otherwise.
    pub fn view(&self, focused: bool) -> (r: TextareaView)
        ensures
            (self.focus == InputFocus::Container && self.text@.len() == 0) ==> (r matches TextareaView::Placeholder(c) && c.title@ == command_label(self.focus) && c.color == container_color(focused)),
            !(self.focus == InputFocus::Container && self.text@.len() == 0) ==> (r matches TextareaView::Text { container, text } && text@ == self.text@ && container.title@ == command_label(self.focus) && container.color == container_color(focused)),
    {
        let code = match self.focus {
            InputFocus::Container => "ENTER",
            InputFocus::Textarea => "ESC",
        };
        let mut label = String::from_str("Command [");
        push_str(&mut label, code);
        push_str(&mut label, "]");
        let container = render_container(label.as_str(), focused);
        if self.focus == InputFocus::Container && self.text.len() == 0 {
            return TextareaView::Placeholder(container);
        }
        let mut text: Vec<char> = Vec::new();
        let mut i: usize = 0;
        while i < self.text.len()
            invariant
                i <= self.text@.len(),
                text@ == self.text@.take(i as int),
            decreases self.text@.len() - i,
        {
            text.push(self.text[i]);
            assert(text@ =~= self.text@.take(i as int + 1));
            i = i + 1;
        }
        assert(text@ =~= self.text@);
        TextareaView::Text { container, text }
    }
}

} // verus!
