use vstd::prelude::*;

use crate::key::Key;

verus! {

/// How the input loop runs: the key that quits and the pause between two ticks, in
/// milliseconds.
#[derive(Clone, Copy, Debug)]
pub struct EventConfig {
    pub exit_key: Key,
    pub tick_rate: u64,
}

impl Default for EventConfig {
    /// `ctrl-c` quits; a tick every 250 ms.
    fn default() -> (r: EventConfig)
        ensures
            r.exit_key == Key::Ctrl('c'),
            r.tick_rate == 250,
    {
        EventConfig { exit_key: Key::Ctrl('c'), tick_rate: 250 }
    }
}

impl EventConfig {
    /// The default configuration with another tick rate.
    pub fn from_tick_rate(tick_rate: u64) -> (r: EventConfig)
        ensures
            r.exit_key == Key::Ctrl('c'),
            r.tick_rate == tick_rate,
    {
        EventConfig { tick_rate, ..EventConfig::default() }
    }
}

/// What the input loop delivers: a key press, or a tick when no key came in time.
#[derive(Clone, Copy, Debug)]
pub enum Event<I> {
    Input(I),
    Tick,
}

/// Whether a component handled a key press.
#[derive(Clone, Copy, Debug, PartialEq, Eq, Structural)]
pub enum EventState {
    Consumed,
    NotConsumed,
}

impl EventState {
    pub fn is_consumed(&self) -> (r: bool)
        ensures
            r == (*self == EventState::Consumed),
    {
        *self == EventState::Consumed
    }
}

} // verus!
