//! The status line under the editor.
use vstd::prelude::*;

use crate::config::Config;
use crate::constants::DEFAULT_STATUS_TEXT;

verus! {

/// One line of status text.
pub struct StatusComponent {
    pub config: Config,
    pub text: String,
}

impl StatusComponent {
    /// The status line with its default text.
    pub fn new(config: Config) -> (r: StatusComponent)
        ensures
            r.config == config,
            r.text@ == DEFAULT_STATUS_TEXT@,
    {
        StatusComponent { config, text: String::from_str(DEFAULT_STATUS_TEXT) }
    }

    pub fn set_text(&mut self, text: String)
        ensures
            final(self).text == text,
            final(self).config == old(self).config,
    {
        self.text = text;
    }

    /// Back to the default text.
    pub fn reset(&mut self)
        ensures
            final(self).text@ == DEFAULT_STATUS_TEXT@,
            final(self).config == old(self).config,
    {
        self.text = String::from_str(DEFAULT_STATUS_TEXT);
    }
}

} // verus!
