//! The database tree: one root entry that opens onto every configured database.
//!
//! The tree widget keeps its own highlight; the explorer keeps which database is chosen and
//! tells the widget how to move.
use vstd::prelude::*;

use crate::config::{config_paths, Config};
use crate::events::EventState;
use crate::key::Key;
use crate::terminal::editor::db_spec;
use crate::text::{push_decimal, push_str};
use crate::text::decimal;
use crate::utils::file::{absolutized, before_char, get_db_absolute_path, is_absolute, second_piece};

verus! {

/// Where the keys go: the tree, or the pane around it.
#[derive(Clone, Copy, Debug, PartialEq, Eq, Structural)]
pub enum TreeFocus {
    TreeView,
    Container,
}

/// A move of the tree widget's highlight.
#[derive(Clone, Copy, Debug, PartialEq, Eq, Structural)]
pub enum TreeMove {
    First,
    Last,
    Up,
    Down,
    /// Open or close the entry under the highlight.
    Toggle,
    /// Back to the widget's initial state.
    Reset,
}

/// The specs `kind:path` of the databases of one kind.
pub open spec fn kind_specs(name: Seq<char>, paths: Seq<Seq<char>>) -> Seq<Seq<char>> {
    paths.map_values(|p: Seq<char>| db_spec(name, p))
}

/// The specs `kind:path` of every configured database, kind after kind.
pub open spec fn database_specs(groups: Seq<(Seq<char>, Seq<Seq<char>>)>) -> Seq<Seq<char>>
    decreases groups.len(),
{
    if groups.len() == 0 {
        Seq::empty()
    } else {
        database_specs(groups.drop_last()) + kind_specs(groups.last().0, groups.last().1)
    }
}

/// The label of the tree's root entry.
pub open spec fn root_label(n: nat) -> Seq<char> {
    "RocksDB ("@ + decimal(n) + " databases)"@
}

/// The database a spec names: its kind, and its path made absolute.
pub open spec fn spec_database(spec: Seq<char>, cwd: Seq<char>) -> (Seq<char>, Seq<char>) {
    (before_char(spec, ':'), absolutized(second_piece(spec, ':'), cwd))
}

/// The database chosen at tree position `index`: none on the root, else the one below it.
pub open spec fn chosen_at(specs: Seq<Seq<char>>, index: int, cwd: Seq<char>) -> Option<
    (Seq<char>, Seq<char>),
> {
    if index == 0 {
        None
    } else {
        Some(spec_database(specs[index - 1], cwd))
    }
}

pub open spec fn opt_pair_view(p: Option<(String, String)>) -> Option<(Seq<char>, Seq<char>)> {
    match p {
        Some(d) => Some((d.0@, d.1@)),
        None => None,
    }
}

/// The tree explorer of the configured databases.
pub struct DatabaseExplorerComponent {
    pub config: Config,
    /// The databases listed, as specs `kind:path`.
    pub specs: Vec<String>,
    /// The label of the root entry.
    pub title: String,
    /// The labels of the entries below the root: the databases' absolute paths.
    pub children: Vec<String>,
    pub focus: TreeFocus,
    /// 0 on the root, `i + 1` on the `i`-th database.
    pub selected_index: usize,
    pub selected_database: Option<(String, String)>,
    pub is_toggled: bool,
}

/// The specs of every database of the configuration.
fn collect_specs(config: &Config) -> (r: Vec<String>)
    ensures
        r@.map_values(|s: String| s@) == database_specs(config.databases@),
        forall|k: int| 0 <= k < r@.len() ==> (#[trigger] r@[k])@.contains(':'),
{
    let mut specs: Vec<String> = Vec::new();
    let n = config.databases.len();
    let mut i: usize = 0;
    while i < n
        invariant
            n == config.databases@.len(),
            i <= n,
            specs@.map_values(|s: String| s@) == database_specs(config.databases@.take(i as int)),
            forall|k: int| 0 <= k < specs@.len() ==> (#[trigger] specs@[k])@.contains(':'),
        decreases n - i,
    {
        let name = config.databases.kind_at(i);
        let configs = config.databases.configs_at(i);
        let ghost paths = config.databases@[i as int].1;
        let ghost before = specs@.map_values(|s: String| s@);
        let mut j: usize = 0;
        while j < configs.len()
            invariant
                i < n,
                n == config.databases@.len(),
                name@ == config.databases@[i as int].0,
                config_paths(configs@) == paths,
                paths == config.databases@[i as int].1,
                before == database_specs(config.databases@.take(i as int)),
                j <= configs@.len(),
                specs@.map_values(|s: String| s@) == before + kind_specs(name@, paths.take(j as int)),
                forall|k: int| 0 <= k < specs@.len() ==> (#[trigger] specs@[k])@.contains(':'),
            decreases configs@.len() - j,
        {
            let mut spec = name.clone();
            push_str(&mut spec, ":");
            push_str(&mut spec, configs[j].path.as_str());
            proof {
                reveal_strlit(":");
                assert(configs@[j as int].path@ == paths[j as int]);
                assert(spec@ == db_spec(name@, paths[j as int]));
                assert(spec@[name@.len() as int] == ':');
                assert(spec@.contains(':'));
            }
            let ghost old_specs = specs@;
            specs.push(spec);
            proof {
                assert(paths.take(j as int + 1) =~= paths.take(j as int).push(paths[j as int]));
                assert(kind_specs(name@, paths.take(j as int + 1)) =~= kind_specs(
                    name@,
                    paths.take(j as int),
                ).push(db_spec(name@, paths[j as int])));
                assert(specs@.map_values(|s: String| s@) =~= old_specs.map_values(|s: String| s@).push(
                    spec@,
                ));
                assert forall|k: int| 0 <= k < specs@.len() implies (#[trigger] specs@[k])@.contains(
                    ':',
                ) by {
                    if k < old_specs.len() {
                        assert(specs@[k] == old_specs[k]);
                    } else {
                        assert(specs@[k] == spec);
                    }
                }
            }
            j = j + 1;
        }
        proof {
            let groups = config.databases@;
            assert(paths.take(configs@.len() as int) =~= paths);
            assert(groups.take(i as int + 1).drop_last() =~= groups.take(i as int));
            assert(groups.take(i as int + 1).last() == groups[i as int]);
        }
        i = i + 1;
    }
    proof {
        assert(config.databases@.take(n as int) =~= config.databases@);
    }
    specs
}

/// What the explorer decides on: where the keys go, the tree position, the chosen database
/// and whether the root is open.
pub struct ExplorerState {
    pub focus: TreeFocus,
    pub index: int,
    pub chosen: Option<(Seq<char>, Seq<char>)>,
    pub toggled: bool,
}

/// What a key does to the explorer over the databases `specs`: its next state, whether the
/// key was used, and how the tree widget moves.
pub open spec fn explorer_step(v: ExplorerState, specs: Seq<Seq<char>>, cwd: Seq<char>, key: Key) -> (
    ExplorerState,
    EventState,
    Option<TreeMove>,
) {
    if v.focus == TreeFocus::Container {
        if key == Key::Enter {
            (
                ExplorerState { focus: TreeFocus::TreeView, index: v.index, chosen: v.chosen, toggled: v.toggled },
                EventState::Consumed,
                Some(TreeMove::First),
            )
        } else {
            (v, EventState::NotConsumed, None)
        }
    } else {
        match key {
            Key::Char(c) => if c == '\n' || c == ' ' {
                if v.index == 0 {
                    (
                        ExplorerState { focus: v.focus, index: v.index, chosen: v.chosen, toggled: !v.toggled },
                        EventState::Consumed,
                        Some(TreeMove::Toggle),
                    )
                } else {
                    (v, EventState::Consumed, None)
                }
            } else {
                (v, EventState::NotConsumed, None)
            },
            Key::Esc => (
                ExplorerState { focus: TreeFocus::Container, index: 0, chosen: None, toggled: false },
                EventState::Consumed,
                Some(TreeMove::Reset),
            ),
            Key::Down => {
                let i = if v.toggled {
                    if v.index + 1 <= specs.len() {
                        v.index + 1
                    } else {
                        specs.len() as int
                    }
                } else {
                    v.index
                };
                (
                    ExplorerState { focus: v.focus, index: i, chosen: chosen_at(specs, i, cwd), toggled: v.toggled },
                    EventState::Consumed,
                    Some(TreeMove::Down),
                )
            },
            Key::Up => {
                let i = if v.index > 0 {
                    v.index - 1
                } else {
                    0
                };
                (
                    ExplorerState { focus: v.focus, index: i, chosen: chosen_at(specs, i, cwd), toggled: v.toggled },
                    EventState::Consumed,
                    Some(TreeMove::Up),
                )
            },
            Key::Home => (
                ExplorerState { focus: v.focus, index: 0, chosen: v.chosen, toggled: v.toggled },
                EventState::Consumed,
                Some(TreeMove::First),
            ),
            Key::End => (
                ExplorerState { focus: v.focus, index: 0, chosen: v.chosen, toggled: v.toggled },
                EventState::Consumed,
                Some(TreeMove::Last),
            ),
            _ => (v, EventState::NotConsumed, None),
        }
    }
}

impl DatabaseExplorerComponent {
    pub open spec fn spec_views(&self) -> Seq<Seq<char>> {
        self.specs@.map_values(|s: String| s@)
    }

    pub open spec fn state(&self) -> ExplorerState {
        ExplorerState {
            focus: self.focus,
            index: self.selected_index as int,
            chosen: opt_pair_view(self.selected_database),
            toggled: self.is_toggled,
        }
    }

    /// The lists agree with the configuration and the position lies in the tree.
    pub open spec fn wf(&self) -> bool {
        &&& is_absolute(self.config.cwd@)
        &&& self.spec_views() == database_specs(self.config.databases@)
        &&& forall|k: int| 0 <= k < self.specs@.len() ==> (#[trigger] self.specs@[k])@.contains(':')
        &&& self.children@.len() == self.specs@.len()
        &&& forall|k: int|
            0 <= k < self.children@.len() ==> (#[trigger] self.children@[k])@ == spec_database(
                self.specs@[k]@,
                self.config.cwd@,
            ).1
        &&& self.title@ == root_label(self.specs@.len())
        &&& self.selected_index <= self.specs@.len()
    }

    /// The chosen database, if any.
    pub fn selected_file(&self) -> (r: Option<(String, String)>)
        ensures
            opt_pair_view(r) == opt_pair_view(self.selected_database),
    {
        match &self.selected_database {
            Some(d) => Some((d.0.clone(), d.1.clone())),
            None => None,
        }
    }

    /// Whether a database is chosen.
    pub fn is_selected(&self) -> (r: bool)
        ensures
            r == self.selected_database is Some,
    {
        self.selected_database.is_some()
    }

    /// The explorer of every database of `config`, closed, with the keys on the pane.
    pub fn new(config: Config) -> (r: DatabaseExplorerComponent)
        requires
            is_absolute(config.cwd@),
        ensures
            r.wf(),
            r.config == config,
            r.focus == TreeFocus::Container,
            r.selected_index == 0,
            r.selected_database is None,
            !r.is_toggled,
    {
        let specs = collect_specs(&config);
        let mut children: Vec<String> = Vec::new();
        let mut k: usize = 0;
        while k < specs.len()
            invariant
                k <= specs@.len(),
                is_absolute(config.cwd@),
                forall|m: int| 0 <= m < specs@.len() ==> (#[trigger] specs@[m])@.contains(':'),
                children@.len() == k,
                forall|m: int|
                    0 <= m < k ==> (#[trigger] children@[m])@ == spec_database(
                        specs@[m]@,
                        config.cwd@,
                    ).1,
            decreases specs@.len() - k,
        {
            let (_, path) = get_db_absolute_path(specs[k].as_str(), config.cwd.as_str());
            children.push(path);
            k = k + 1;
        }
        let mut title = String::from_str("RocksDB (");
        push_decimal(&mut title, specs.len() as u64);
        push_str(&mut title, " databases)");
        proof {
            reveal_strlit("RocksDB (");
            reveal_strlit(" databases)");
        }
        DatabaseExplorerComponent {
            config,
            specs,
            title,
            children,
            focus: TreeFocus::Container,
            selected_index: 0,
            selected_database: None,
            is_toggled: false,
        }
    }

    /// The database at the current position is chosen; on the root, nothing is.
    fn handle_select(&mut self)
        requires
            old(self).wf(),
        ensures
            final(self).wf(),
            final(self).config == old(self).config,
            final(self).specs == old(self).specs,
            final(self).children == old(self).children,
            final(self).title == old(self).title,
            final(self).focus == old(self).focus,
            final(self).is_toggled == old(self).is_toggled,
            final(self).selected_index == old(self).selected_index,
            opt_pair_view(final(self).selected_database) == chosen_at(
                old(self).spec_views(),
                old(self).selected_index as int,
                old(self).config.cwd@,
            ),
    {
        if self.selected_index != 0 {
            let index = self.selected_index - 1;
            let database = get_db_absolute_path(self.specs[index].as_str(), self.config.cwd.as_str());
            self.selected_database = Some(database);
        } else {
            self.selected_database = None;
            self.selected_index = 0;
        }
    }

    /// `enter` on the pane moves into the tree. In the tree, `enter` or space opens or closes
    /// the root, `escape` leaves and resets, the arrows move and choose, `home` and `end`
    /// jump. The tree has a single top-level entry, so `end` also lands on the root.
    pub fn event(&mut self, key: Key) -> (r: (EventState, Option<TreeMove>))
        requires
            old(self).wf(),
        ensures
            final(self).wf(),
            final(self).config == old(self).config,
            final(self).specs == old(self).specs,
            final(self).children == old(self).children,
            final(self).title == old(self).title,
            (final(self).state(), r.0, r.1) == explorer_step(
                old(self).state(),
                old(self).spec_views(),
                old(self).config.cwd@,
                key,
            ),
    {
        if self.focus == TreeFocus::Container {
            if key == Key::Enter {
                self.focus = TreeFocus::TreeView;
                return (EventState::Consumed, Some(TreeMove::First));
            }
            return (EventState::NotConsumed, None);
        }
        match key {
            Key::Char(c) => {
                if c == '\n' || c == ' ' {
                    if self.selected_index == 0 {
                        self.is_toggled = !self.is_toggled;
                        (EventState::Consumed, Some(TreeMove::Toggle))
                    } else {
                        (EventState::Consumed, None)
                    }
                } else {
                    (EventState::NotConsumed, None)
                }
            },
            Key::Esc => {
                self.focus = TreeFocus::Container;
                self.selected_index = 0;
                self.selected_database = None;
                self.is_toggled = false;
                (EventState::Consumed, Some(TreeMove::Reset))
            },
            Key::Down => {
                if self.is_toggled {
                    let next = self.selected_index.saturating_add(1);
                    self.selected_index = if next <= self.specs.len() {
                        next
                    } else {
                        self.specs.len()
                    };
                }
                self.handle_select();
                (EventState::Consumed, Some(TreeMove::Down))
            },
            Key::Up => {
                if self.selected_index != 0 {
                    self.selected_index = self.selected_index - 1;
                }
                self.handle_select();
                (EventState::Consumed, Some(TreeMove::Up))
            },
            Key::Home => {
                self.selected_index = 0;
                (EventState::Consumed, Some(TreeMove::First))
            },
            Key::End => {
                self.selected_index = 0;
                (EventState::Consumed, Some(TreeMove::Last))
            },
            _ => (EventState::NotConsumed, None),
        }
    }
}

/// `enter` on the pane and then `escape` leave the explorer closed, on the root, with the
/// keys on the pane and nothing chosen, whatever it held before.
pub proof fn lemma_explorer_enter_then_escape(v: ExplorerState, specs: Seq<Seq<char>>, cwd: Seq<char>)
    requires
        v.focus == TreeFocus::Container,
    ensures
        ({
            let (inside, r1, m1) = explorer_step(v, specs, cwd, Key::Enter);
            let (back, r2, m2) = explorer_step(inside, specs, cwd, Key::Esc);
            &&& back == (ExplorerState {
                focus: TreeFocus::Container,
                index: 0,
                chosen: None,
                toggled: false,
            })
            &&& r1 == EventState::Consumed && m1 == Some(TreeMove::First)
            &&& r2 == EventState::Consumed && m2 == Some(TreeMove::Reset)
        }),
{
}

} // verus!
