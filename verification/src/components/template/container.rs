//! The layout tab: the template list, the layout table of the chosen template and the editor.
use vstd::prelude::*;

use crate::components::database::preview::template_entries;
use crate::components::navigation::{list_navigation, ListFocus};
use crate::components::template::editor::{input_event, input_takes, CommandEditorComponent};
use crate::components::template::template_explorer::TemplateExplorerComponent;
use crate::components::rows::row_views;
use crate::components::template::template_layout::{
    layout_headers, layouts_table, opt_template_view, TemplateLayoutComponent,
};
use crate::config::Config;
use crate::events::EventState;
use crate::key::Key;
use crate::ui::selection::{in_range, lemma_moves_stay_in_range};

verus! {

/// Which part of the layout tab receives key presses.
#[derive(Clone, Copy, Debug, PartialEq, Eq, Structural)]
pub enum LayoutFocus {
    Explorer,
    Layout,
    Editor,
}

/// The layout tab.
pub struct LayoutTabComponent {
    pub config: Config,
    pub explorer: TemplateExplorerComponent,
    pub layout: TemplateLayoutComponent,
    pub editor: CommandEditorComponent,
    pub focus: LayoutFocus,
}

/// Whether the template list would highlight an entry after this key press: it is entered,
/// or the arrow keys move in it.
pub open spec fn explorer_highlights(focus: ListFocus, key: Key) -> bool {
    match focus {
        ListFocus::Container => key == Key::Enter,
        ListFocus::List => key == Key::Up || key == Key::Down,
    }
}

/// What a key does to the layout tab. On the template list the right arrow moves to the
/// editor, and a key the list takes shows the layouts of the highlighted template. On the
/// layout table the left arrow goes back to the list and the up arrow to the editor. In the
/// editor, keys go to it first; then the left arrow goes back to the list and the down
/// arrow to the layout table.
pub open spec fn layout_event(o: LayoutTabComponent, key: Key, n: LayoutTabComponent, r: EventState) -> bool {
    &&& n.config == o.config
    &&& o.focus == LayoutFocus::Explorer && key == Key::Right ==> n.focus == LayoutFocus::Editor
        && r == EventState::Consumed && n.explorer == o.explorer && n.layout == o.layout
        && n.editor == o.editor
    &&& o.focus == LayoutFocus::Explorer && key != Key::Right ==> {
        &&& n.focus == LayoutFocus::Explorer
        &&& n.editor == o.editor
        &&& n.explorer.config == o.explorer.config
        &&& list_navigation(o.explorer.focus, o.explorer.list, key, n.explorer.focus, n.explorer.list, r)
        &&& (r == EventState::Consumed && n.explorer.list.state.selected is Some) ==> opt_template_view(
            n.layout.layout,
        ) == Some(n.config@.templates[n.explorer.list.state.selected->0 as int])
        &&& r == EventState::Consumed ==> (n.explorer.list.state.selected matches Some(i) ==> (
            n.layout.table matches Some(t) && row_views(t.items@) == layouts_table(
            n.config@.templates[i as int].layout,
        ) && t.headers@ == layout_headers() && t.state.selected is None))
        &&& !(r == EventState::Consumed && n.explorer.list.state.selected is Some) ==> n.layout
            == o.layout
    }
    &&& o.focus == LayoutFocus::Layout ==> n.explorer == o.explorer && n.layout == o.layout
        && n.editor == o.editor && (if key == Key::Left {
        n.focus == LayoutFocus::Explorer && r == EventState::Consumed
    } else if key == Key::Up {
        n.focus == LayoutFocus::Editor && r == EventState::Consumed
    } else {
        n.focus == LayoutFocus::Layout && r == EventState::NotConsumed
    })
    &&& o.focus == LayoutFocus::Editor ==> {
        &&& n.explorer == o.explorer
        &&& n.layout == o.layout
        &&& if input_takes(o.editor, key) {
            input_event(o.editor, key, n.editor, EventState::Consumed) && n.focus
                == LayoutFocus::Editor && r == EventState::Consumed
        } else {
            &&& n.editor == o.editor
            &&& if key == Key::Left {
                n.focus == LayoutFocus::Explorer && r == EventState::Consumed
            } else if key == Key::Down {
                n.focus == LayoutFocus::Layout && r == EventState::Consumed
            } else {
                n.focus == LayoutFocus::Editor && r == EventState::NotConsumed
            }
        }
    }
}

impl LayoutTabComponent {
    /// The template list lists the configured templates.
    pub open spec fn wf(&self) -> bool {
        &&& template_entries(self.config@.templates, self.explorer.list.items@)
        &&& self.explorer.list.state.selected matches Some(i) ==> in_range(i, self.config@.templates.len())
    }

    /// A key press the tab can handle: highlighting a template needs at least one template.
    pub open spec fn accepts(&self, key: Key) -> bool {
        !(self.focus == LayoutFocus::Explorer && key != Key::Right && explorer_highlights(
            self.explorer.focus,
            key,
        ) && self.config@.templates.len() == 0)
    }

    /// Whether `accepts` holds: the key can be handled without a template configured.
    pub fn accepts_key(&self, key: Key) -> (r: bool)
        ensures
            r == self.accepts(key),
    {
        let highlights = match self.explorer.focus {
            ListFocus::Container => key == Key::Enter,
            ListFocus::List => key == Key::Up || key == Key::Down,
        };
        !(self.focus == LayoutFocus::Explorer && key != Key::Right && highlights
            && self.config.templates.len() == 0)
    }

    /// The tab with the focus on the template list.
    pub fn new(config: Config) -> (r: LayoutTabComponent)
        ensures
            r.wf(),
            r.config == config,
            r.focus == LayoutFocus::Explorer,
            r.explorer.focus == ListFocus::Container,
            r.explorer.list.state.selected is None,
            r.layout.layout is None,
    {
        let explorer = TemplateExplorerComponent::new(config.clone());
        let layout = TemplateLayoutComponent::new(config.clone());
        let editor = CommandEditorComponent::new(config.clone());
        LayoutTabComponent { explorer, layout, editor, config, focus: LayoutFocus::Explorer }
    }

    /// Handles a key press. On the template list the right arrow moves to the editor, and a
    /// key the list takes shows the layouts of the highlighted template. On the layout table
    /// the left arrow goes back to the list and the up arrow to the editor. In the editor,
    /// keys go to it first; then the left arrow goes back to the list and the down arrow to
    /// the layout table.
    pub fn event(&mut self, key: Key) -> (r: EventState)
        requires
            old(self).wf(),
            old(self).accepts(key),
        ensures
            final(self).wf(),
            layout_event(*old(self), key, *final(self), r),
    {
        match self.focus {
            LayoutFocus::Explorer => {
                if key == Key::Right {
                    self.focus = LayoutFocus::Editor;
                    return EventState::Consumed;
                }
                proof {
                    assert(self.config.templates@.len() == self.config@.templates.len());
                    assert(self.config.templates@.len() == self.config.templates.len());
                    lemma_moves_stay_in_range(self.explorer.list.state.selected, self.config@.templates.len());
                }
                if self.explorer.event(key).is_consumed() {
                    if let Some(selected) = self.explorer.list.state.selected() {
                        proof {
                            assert(self.explorer.list.items@.len() == self.config@.templates.len());
                            assert(self.config.templates@.len() == self.config@.templates.len());
                        }
                        let template = self.config.templates[selected].clone();
                        proof {
                            assert(template@ == self.config@.templates[selected as int]);
                        }
                        self.layout.set_layout(Some(template));
                    }
                    return EventState::Consumed;
                }
                EventState::NotConsumed
            },
            LayoutFocus::Layout => {
                if key == Key::Left {
                    self.focus = LayoutFocus::Explorer;
                    return EventState::Consumed;
                }
                if self.layout.event(key).is_consumed() {
                    return EventState::Consumed;
                }
                if key == Key::Up {
                    self.focus = LayoutFocus::Editor;
                    return EventState::Consumed;
                }
                EventState::NotConsumed
            },
            LayoutFocus::Editor => {
                if self.editor.event(key).is_consumed() {
                    return EventState::Consumed;
                }
                if key == Key::Left {
                    self.focus = LayoutFocus::Explorer;
                    return EventState::Consumed;
                }
                if key == Key::Down {
                    self.focus = LayoutFocus::Layout;
                    return EventState::Consumed;
                }
                EventState::NotConsumed
            },
        }
    }
}

} // verus!
