//! The list of templates of the layout tab.
use vstd::prelude::*;

use crate::components::database::preview::{template_entries, template_names};
use crate::components::navigation::{list_navigation, navigate, ListFocus};
use crate::config::Config;
use crate::events::EventState;
use crate::key::Key;
use crate::ui::list::StatefulList;

verus! {

/// The names of the configured templates.
pub struct TemplateExplorerComponent {
    pub config: Config,
    pub list: StatefulList,
    pub focus: ListFocus,
}

impl TemplateExplorerComponent {
    /// The template names, with nothing highlighted.
    pub fn new(config: Config) -> (r: TemplateExplorerComponent)
        ensures
            r.config == config,
            r.focus == ListFocus::Container,
            r.list.state.selected is None,
            template_entries(config@.templates, r.list.items@),
    {
        let items = template_names(&config.templates);
        let list = StatefulList::with_items(items, None);
        TemplateExplorerComponent { list, config, focus: ListFocus::Container }
    }

    /// `enter` moves into the list at its first entry; inside, `escape` leaves and the arrow
    /// keys move the highlight.
    pub fn event(&mut self, key: Key) -> (r: EventState)
        ensures
            final(self).config == old(self).config,
            list_navigation(old(self).focus, old(self).list, key, final(self).focus, final(self).list, r),
    {
        navigate(&mut self.focus, &mut self.list, key)
    }
}

} // verus!
