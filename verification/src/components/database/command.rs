//! The command line of the database tab: `COLUMN=<name>` words select a column family.
use vstd::prelude::*;
use vstd::string::*;

use crate::components::container::{container_color, render_container, Container};
use crate::config::Config;
use crate::constants::Color;
use crate::events::EventState;
use crate::key::Key;
use crate::text::{push_char, push_str};
use crate::utils::file::{contains_char, second_piece, split_once_char};
use crate::utils::words::{
    has_prefix, lemma_split_pieces_nonempty, lemma_split_prefix_stable, split_pieces, starts_with,
};

verus! {

/// Whether keys go to the box around the command line or to the text in it.
#[derive(Clone, Copy, Debug, PartialEq, Eq, Structural)]
pub enum InputFocus {
    Container,
    Textarea,
}

/// One recognised command word.
#[derive(Debug)]
pub struct Command {
    pub token: String,
    pub value: String,
}

impl Clone for Command {
    fn clone(&self) -> (r: Command)
        ensures
            r == *self,
    {
        Command { token: self.token.clone(), value: self.value.clone() }
    }
}

/// A word that names a command: it starts with `COLUMN` or `TABLE`.
pub open spec fn is_command_token(t: Seq<char>) -> bool {
    has_prefix(t, "COLUMN"@) || has_prefix(t, "TABLE"@)
}

/// A word that is a complete command: a command name and an `=` before its value.
pub open spec fn is_valid_command(t: Seq<char>) -> bool {
    is_command_token(t) && t.contains('=')
}

/// The number of leading words that are complete commands.
pub open spec fn first_invalid(tokens: Seq<Seq<char>>) -> int
    decreases tokens.len(),
{
    if tokens.len() == 0 {
        0
    } else if !is_valid_command(tokens[0]) {
        0
    } else {
        1 + first_invalid(tokens.drop_first())
    }
}

/// The message shown for a word that is not a complete command.
pub open spec fn command_error(t: Seq<char>) -> Seq<char> {
    if is_command_token(t) {
        "No COLUMN value found"@
    } else {
        "Mismatch command"@
    }
}

proof fn lemma_first_invalid_bounds(tokens: Seq<Seq<char>>)
    ensures
        0 <= first_invalid(tokens) <= tokens.len(),
        forall|m: int| 0 <= m < first_invalid(tokens) ==> is_valid_command(#[trigger] tokens[m]),
        first_invalid(tokens) < tokens.len() ==> !is_valid_command(tokens[first_invalid(tokens)]),
    decreases tokens.len(),
{
    if tokens.len() > 0 && is_valid_command(tokens[0]) {
        lemma_first_invalid_bounds(tokens.drop_first());
        assert forall|m: int| 0 <= m < first_invalid(tokens) implies is_valid_command(
            #[trigger] tokens[m],
        ) by {
            if m > 0 {
                assert(tokens[m] == tokens.drop_first()[m - 1]);
            }
        }
    }
}

proof fn lemma_first_invalid_unique(tokens: Seq<Seq<char>>, k: int)
    requires
        0 <= k <= tokens.len(),
        forall|m: int| 0 <= m < k ==> is_valid_command(#[trigger] tokens[m]),
        k < tokens.len() ==> !is_valid_command(tokens[k]),
    ensures
        first_invalid(tokens) == k,
{
    lemma_first_invalid_bounds(tokens);
    let f = first_invalid(tokens);
    if f < k {
        assert(is_valid_command(tokens[f]));
    }
    if k < f {
        assert(is_valid_command(tokens[k]));
    }
}

/// The command line of the database tab.
pub struct CommandComponent {
    pub config: Config,
    pub text: Vec<char>,
    pub focus: InputFocus,
    pub invalid: (bool, String),
    pub commands: Vec<Command>,
}

/// What the command line shows.
#[derive(Debug)]
pub enum CommandView {
    /// The empty, unfocused command line: the hint `Press Enter to write a command`.
    Placeholder(Container),
    /// The typed text in a box; the box is red with the error as its title when the last
    /// command was refused.
    Text { container: Container, invalid: bool, text: Vec<char> },
}

/// The key that moves between the box and the text: `ENTER` outside, `ESC` inside.
pub open spec fn keycode(focus: InputFocus) -> Seq<char> {
    match focus {
        InputFocus::Container => "ENTER"@,
        InputFocus::Textarea => "ESC"@,
    }
}

/// The title of the command line.
pub open spec fn command_label(focus: InputFocus) -> Seq<char> {
    "Command ["@ + keycode(focus) + "]"@
}

impl CommandComponent {
    /// An empty command line, not focused, with no commands.
    pub fn new(config: Config) -> (r: CommandComponent)
        ensures
            r.config == config,
            r.text@.len() == 0,
            r.focus == InputFocus::Container,
            r.invalid.0 == false,
            r.invalid.1@ == ""@,
            r.commands@.len() == 0,
    {
        CommandComponent {
            config,
            text: Vec::new(),
            focus: InputFocus::Container,
            invalid: (false, String::from_str("")),
            commands: Vec::new(),
        }
    }

    fn set_invalid(&mut self, invalid: bool, err: &str)
        ensures
            final(self).invalid.0 == invalid,
            final(self).invalid.1@ == err@,
            final(self).config == old(self).config,
            final(self).text == old(self).text,
            final(self).focus == old(self).focus,
            final(self).commands == old(self).commands,
    {
        self.invalid = (invalid, String::from_str(err));
    }

    fn add_command(&mut self, command: Command)
        ensures
            final(self).commands@ == old(self).commands@.push(command),
            final(self).config == old(self).config,
            final(self).text == old(self).text,
            final(self).focus == old(self).focus,
            final(self).invalid == old(self).invalid,
    {
        self.commands.push(command);
    }

    /// Forgets the commands already run.
    pub fn reset_command(&mut self)
        ensures
            final(self).commands@.len() == 0,
            final(self).config == old(self).config,
            final(self).text == old(self).text,
            final(self).focus == old(self).focus,
            final(self).invalid == old(self).invalid,
    {
        self.commands = Vec::new();
    }

    /// Reads one word: `Ok` with the text after its first `=` (up to a second `=`), or `Err`
    /// with the message for a word that is not a complete command.
    fn read_token(token: &String) -> (r: Result<String, &'static str>)
        ensures
            r is Ok <==> is_valid_command(token@),
            r matches Ok(v) ==> v@ == second_piece(token@, '='),
            r matches Err(e) ==> e@ == command_error(token@),
    {
        if starts_with(token.as_str(), "COLUMN") || starts_with(token.as_str(), "TABLE") {
            let (_, rest) = split_once_char(token.as_str(), '=');
            match rest {
                Some(rest) => {
                    let (value, _) = split_once_char(rest.as_str(), '=');
                    Ok(value)
                },
                None => Err("No COLUMN value found"),
            }
        } else {
            Err("Mismatch command")
        }
    }

    /// Runs the typed text: each word separated by a space must be `COLUMN...=value` or
    /// `TABLE...=value`. The words are read in order; each complete one adds a `COLUMN`
    /// command with its value; the first word that is not complete marks the command line
    /// invalid with its message and ends the run, keeping the commands added before it.
    pub fn handle_command(&mut self)
        ensures
            ran_commands(*old(self), *final(self)),
    {
        self.run_words();
    }

    fn run_words(&mut self)
        ensures
            ({
                let tokens = split_pieces(old(self).text@, ' ');
                let k = first_invalid(tokens);
                let n = old(self).commands@.len();
                &&& 0 <= k <= tokens.len()
                &&& final(self).commands@.len() == n + k
                &&& forall|i: int| 0 <= i < n ==> #[trigger] final(self).commands@[i] == old(
                    self,
                ).commands@[i]
                &&& forall|j: int|
                    0 <= j < k ==> (#[trigger] final(self).commands@[n + j]).token@ == "COLUMN"@
                        && final(self).commands@[n + j].value@ == second_piece(tokens[j], '=')
                &&& final(self).invalid.0 == (k < tokens.len())
                &&& final(self).invalid.1@ == (if k < tokens.len() {
                    command_error(tokens[k])
                } else {
                    ""@
                })
            }),
            final(self).config == old(self).config,
            final(self).text == old(self).text,
            final(self).focus == old(self).focus,
    {
        let ghost text = self.text@;
        let ghost n = self.commands@.len();
        let ghost tokens = split_pieces(text, ' ');
        let mut current = String::new();
        let ghost mut done: Seq<Seq<char>> = Seq::empty();
        let mut i: usize = 0;
        proof {
            assert(text.take(0) =~= Seq::<char>::empty());
        }
        while i < self.text.len()
            invariant
                text == self.text@,
                self.text == old(self).text,
                text == old(self).text@,
                i <= text.len(),
                split_pieces(text.take(i as int), ' ') == done.push(current@),
                forall|m: int| 0 <= m < done.len() ==> is_valid_command(#[trigger] done[m]),
                self.commands@.len() == n + done.len(),
                forall|m: int| 0 <= m < n ==> #[trigger] self.commands@[m] == old(self).commands@[m],
                forall|j: int|
                    0 <= j < done.len() ==> (#[trigger] self.commands@[n + j]).token@ == "COLUMN"@
                        && self.commands@[n + j].value@ == second_piece(done[j], '='),
                self.config == old(self).config,
                self.focus == old(self).focus,
                n == old(self).commands@.len(),
                tokens == split_pieces(text, ' '),
            decreases text.len() - i,
        {
            let ch = self.text[i];
            proof {
                assert(text.take(i as int + 1).drop_last() =~= text.take(i as int));
            }
            if ch == ' ' {
                proof {
                    lemma_split_prefix_stable(text, ' ', i as int + 1, text.len() as int);
                    assert(text.take(text.len() as int) =~= text);
                    assert(split_pieces(text.take(i as int + 1), ' ') == done.push(current@).push(
                        Seq::empty(),
                    ));
                    assert(tokens[done.len() as int] == current@);
                    assert forall|m: int| 0 <= m < done.len() implies tokens[m] == done[m] by {
                        assert(tokens[m] == split_pieces(text.take(i as int + 1), ' ')[m]);
                    }
                }
                match Self::read_token(&current) {
                    Ok(value) => {
                        self.add_command(Command { token: String::from_str("COLUMN"), value });
                    },
                    Err(msg) => {
                        proof {
                            lemma_first_invalid_unique(tokens, done.len() as int);
                        }
                        self.set_invalid(true, msg);
                        return;
                    },
                }
                proof {
                    done = done.push(current@);
                }
                current = String::new();
                proof {
                    assert(split_pieces(text.take(i as int + 1), ' ') =~= done.push(current@));
                }
            } else {
                proof {
                    lemma_split_pieces_nonempty(text.take(i as int), ' ');
                }
                push_char(&mut current, ch);
                proof {
                    assert(split_pieces(text.take(i as int + 1), ' ') =~= done.push(current@));
                }
            }
            i = i + 1;
        }
        proof {
            assert(text.take(text.len() as int) =~= text);
            assert(tokens == done.push(current@));
        }
        match Self::read_token(&current) {
            Ok(value) => {
                self.add_command(Command { token: String::from_str("COLUMN"), value });
                proof {
                    done = done.push(current@);
                    lemma_first_invalid_unique(tokens, tokens.len() as int);
                }
            },
            Err(msg) => {
                proof {
                    lemma_first_invalid_unique(tokens, done.len() as int);
                }
                self.set_invalid(true, msg);
                return;
            },
        }
        self.set_invalid(false, "");
    }

    /// Handles a key press: `enter` on the box moves into the text; inside, `escape` leaves
    /// it, `enter` runs the text, a character is typed and `backspace` deletes the last one.
    pub fn event(&mut self, key: Key) -> (r: EventState)
        ensures
            command_event(*old(self), key, *final(self), r),
    {
        match self.focus {
            InputFocus::Container => {
                if key == self.config.key_config.enter {
                    self.focus = InputFocus::Textarea;
                    return EventState::Consumed;
                }
            },
            InputFocus::Textarea => {
                if key == self.config.key_config.escape {
                    self.focus = InputFocus::Container;
                    return EventState::Consumed;
                } else if key == self.config.key_config.enter {
                    self.handle_command();
                    return EventState::Consumed;
                } else if let Key::Char(v) = key {
                    self.text.push(v);
                    return EventState::Consumed;
                } else if key == self.config.key_config.backspace {
                    self.text.pop();
                    return EventState::Consumed;
                }
            },
        }
        EventState::NotConsumed
    }

    /// What the command line shows.
    pub fn view(&self, focused: bool) -> (r: CommandView)
        ensures
            (self.focus == InputFocus::Container && self.text@.len() == 0) ==> (r matches CommandView::Placeholder(c) && c.title@ == command_label(self.focus) && c.color == container_color(focused)),
            !(self.focus == InputFocus::Container && self.text@.len() == 0) ==> (r matches CommandView::Text { container, invalid, text } && invalid == self.invalid.0 && text@ == self.text@ && container.title@ == (if self.invalid.0 {
                self.invalid.1@ + " ["@ + keycode(self.focus) + "]"@
            } else {
                command_label(self.focus)
            }) && container.color == (if self.invalid.0 { Color::Red } else { container_color(focused) })),
    {
        let code = match self.focus {
            InputFocus::Container => "ENTER",
            InputFocus::Textarea => "ESC",
        };
        let mut label = String::from_str("Command [");
        push_str(&mut label, code);
        push_str(&mut label, "]");
        if self.focus == InputFocus::Container && self.text.len() == 0 {
            return CommandView::Placeholder(render_container(label.as_str(), focused));
        }
        let (invalid, err) = (self.invalid.0, &self.invalid.1);
        let title = if invalid {
            let mut t = err.clone();
            push_str(&mut t, " [");
            push_str(&mut t, code);
            push_str(&mut t, "]");
            t
        } else {
            label
        };
        let mut text: Vec<char> = Vec::new();
        let mut i: usize = 0;
        while i < self.text.len()
            invariant
                i <= self.text@.len(),
                text@ == self.text@.take(i as int),
            decreases self.text@.len() - i,
        {
            text.push(self.text[i]);
            assert(text@ =~= self.text@.take(i as int + 1));
            i = i + 1;
        }
        assert(text@ =~= self.text@);
        let container = if invalid {
            Container { title, color: Color::Red }
        } else {
            render_container(title.as_str(), focused)
        };
        CommandView::Text { container, invalid, text }
    }
}

/// The effect of running the typed text on the command line (see `handle_command`).
pub open spec fn ran_commands(before: CommandComponent, after: CommandComponent) -> bool {
    let tokens = split_pieces(before.text@, ' ');
    let k = first_invalid(tokens);
    let n = before.commands@.len();
    &&& 0 <= k <= tokens.len()
    &&& after.commands@.len() == n + k
    &&& forall|i: int| 0 <= i < n ==> #[trigger] after.commands@[i] == before.commands@[i]
    &&& forall|j: int|
        0 <= j < k ==> (#[trigger] after.commands@[n + j]).token@ == "COLUMN"@
            && after.commands@[n + j].value@ == second_piece(tokens[j], '=')
    &&& after.invalid.0 == (k < tokens.len())
    &&& after.invalid.1@ == (if k < tokens.len() {
        command_error(tokens[k])
    } else {
        ""@
    })
    &&& after.config == before.config
    &&& after.text == before.text
    &&& after.focus == before.focus
}

/// The same command line with another focus.
pub open spec fn with_focus(c: CommandComponent, focus: InputFocus) -> CommandComponent {
    CommandComponent { focus, ..c }
}

/// How a key press changes a command line (see `CommandComponent::event`).
pub open spec fn command_event(
    before: CommandComponent,
    key: Key,
    after: CommandComponent,
    r: EventState,
) -> bool {
    let keys = before.config.key_config;
    match before.focus {
        InputFocus::Container => if key == keys.enter {
            after == with_focus(before, InputFocus::Textarea) && r == EventState::Consumed
        } else {
            after == before && r == EventState::NotConsumed
        },
        InputFocus::Textarea => if key == keys.escape {
            after == with_focus(before, InputFocus::Container) && r == EventState::Consumed
        } else if key == keys.enter {
            ran_commands(before, after) && r == EventState::Consumed
        } else if let Key::Char(v) = key {
            &&& after.text@ == before.text@.push(v)
            &&& after.config == before.config
            &&& after.focus == before.focus
            &&& after.invalid == before.invalid
            &&& after.commands == before.commands
            &&& r == EventState::Consumed
        } else if key == keys.backspace {
            &&& after.text@ == (if before.text@.len() == 0 {
                before.text@
            } else {
                before.text@.drop_last()
            })
            &&& after.config == before.config
            &&& after.focus == before.focus
            &&& after.invalid == before.invalid
            &&& after.commands == before.commands
            &&& r == EventState::Consumed
        } else {
            after == before && r == EventState::NotConsumed
        },
    }
}

/// `enter` on the command line and then `escape` bring it back to where it was: the typed
/// text, the error and the commands already read are kept. (The two keys must differ.)
pub proof fn lemma_command_enter_then_escape(
    o: CommandComponent,
    inside: CommandComponent,
    r1: EventState,
    back: CommandComponent,
    r2: EventState,
)
    requires
        o.focus == InputFocus::Container,
        o.config.key_config.enter != o.config.key_config.escape,
        command_event(o, o.config.key_config.enter, inside, r1),
        command_event(inside, o.config.key_config.escape, back, r2),
    ensures
        back == o,
        r1 == EventState::Consumed,
        r2 == EventState::Consumed,
{
}

} // verus!
