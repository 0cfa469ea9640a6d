//! The configuration: databases by kind, byte layout templates and key bindings.
use vstd::prelude::*;

use crate::key::Key;
use crate::text::push_str;
use crate::utils::byte::{
    clone_layouts, clone_templates, template_views, variant_name, ByteLayout, LayoutSpec,
    LayoutTemplate, LayoutVariant, TemplateSpec,
};
use crate::utils::file::{absolutized, get_absolute_path_buf, is_absolute, sanitize, second_piece};

verus! {

/// Where one database lives.
#[derive(Debug)]
pub struct DatabaseConfig {
    pub path: String,
}

impl Clone for DatabaseConfig {
    fn clone(&self) -> (r: DatabaseConfig)
        ensures
            r == *self,
    {
        DatabaseConfig { path: self.path.clone() }
    }
}

/// The databases of one kind (such as `rocksdb`), in the order they were listed.
pub struct DatabaseGroup {
    pub name: String,
    pub configs: Vec<DatabaseConfig>,
}

/// Database paths grouped by kind. Each kind occurs once; kinds keep the order in which
/// they were first listed.
pub struct DatabaseMap {
    groups: Vec<DatabaseGroup>,
}

/// The paths of a list of database configurations.
pub open spec fn config_paths(v: Seq<DatabaseConfig>) -> Seq<Seq<char>> {
    v.map_values(|c: DatabaseConfig| c.path@)
}

/// The abstract value of one group: its kind and its paths.
pub open spec fn group_view(g: DatabaseGroup) -> (Seq<char>, Seq<Seq<char>>) {
    (g.name@, config_paths(g.configs@))
}

/// No kind occurs twice.
pub open spec fn kinds_distinct(groups: Seq<(Seq<char>, Seq<Seq<char>>)>) -> bool {
    forall|i: int, j: int|
        0 <= i < groups.len() && 0 <= j < groups.len() && i != j ==> #[trigger] groups[i].0
            != #[trigger] groups[j].0
}

/// Every kind lists at least one path.
pub open spec fn kinds_nonempty(groups: Seq<(Seq<char>, Seq<Seq<char>>)>) -> bool {
    forall|i: int| 0 <= i < groups.len() ==> #[trigger] groups[i].1.len() > 0
}

/// The index of the group of kind `name`, if there is one.
pub open spec fn kind_index(groups: Seq<(Seq<char>, Seq<Seq<char>>)>, name: Seq<char>) -> Option<int> {
    if exists|i: int| 0 <= i < groups.len() && #[trigger] groups[i].0 == name {
        Some(choose|i: int| 0 <= i < groups.len() && #[trigger] groups[i].0 == name)
    } else {
        None
    }
}

/// The groups after adding `path` under kind `name`: appended to that kind's paths, or as a
/// new kind at the end.
pub open spec fn with_database(
    groups: Seq<(Seq<char>, Seq<Seq<char>>)>,
    name: Seq<char>,
    path: Seq<char>,
) -> Seq<(Seq<char>, Seq<Seq<char>>)> {
    match kind_index(groups, name) {
        Some(i) => groups.update(i, (name, groups[i].1.push(path))),
        None => groups.push((name, seq![path])),
    }
}

impl View for DatabaseMap {
    type V = Seq<(Seq<char>, Seq<Seq<char>>)>;

    closed spec fn view(&self) -> Seq<(Seq<char>, Seq<Seq<char>>)> {
        self.groups@.map_values(|g: DatabaseGroup| group_view(g))
    }
}

impl DatabaseMap {
    #[verifier::type_invariant]
    closed spec fn kinds_unique(self) -> bool {
        &&& kinds_distinct(self@)
        &&& kinds_nonempty(self@)
    }

    /// No databases.
    pub fn new() -> (r: DatabaseMap)
        ensures
            r@ == Seq::<(Seq<char>, Seq<Seq<char>>)>::empty(),
    {
        let r = DatabaseMap { groups: Vec::new() };
        assert(r@ =~= Seq::<(Seq<char>, Seq<Seq<char>>)>::empty());
        r
    }

    pub fn is_empty(&self) -> (r: bool)
        ensures
            r == (self@.len() == 0),
    {
        self.groups.len() == 0
    }

    /// The number of kinds.
    pub fn len(&self) -> (r: usize)
        ensures
            r == self@.len(),
            kinds_distinct(self@),
            kinds_nonempty(self@),
    {
        proof {
            use_type_invariant(self);
        }
        self.groups.len()
    }

    /// The kind at position `i`.
    pub fn kind_at(&self, i: usize) -> (r: String)
        requires
            i < self@.len(),
        ensures
            r@ == self@[i as int].0,
            kind_index(self@, r@) == Some(i as int),
    {
        proof {
            use_type_invariant(self);
            let k = choose|k: int| 0 <= k < self@.len() && #[trigger] self@[k].0 == self@[i as int].0;
            assert(k == i);
        }
        self.groups[i].name.clone()
    }

    /// The kinds, in order.
    pub fn keys(&self) -> (r: Vec<String>)
        ensures
            r@.len() == self@.len(),
            forall|i: int| 0 <= i < r@.len() ==> #[trigger] r@[i]@ == self@[i].0,
    {
        let mut r: Vec<String> = Vec::new();
        let mut i: usize = 0;
        while i < self.groups.len()
            invariant
                i <= self.groups@.len(),
                r@.len() == i,
                forall|j: int| 0 <= j < i ==> #[trigger] r@[j]@ == self@[j].0,
            decreases self.groups@.len() - i,
        {
            r.push(self.groups[i].name.clone());
            i = i + 1;
        }
        r
    }

    /// The position of kind `name`.
    pub fn position(&self, name: &String) -> (r: Option<usize>)
        ensures
            r matches Some(i) ==> i < self@.len() && self@[i as int].0 == name@,
            r is None <==> kind_index(self@, name@) is None,
            r matches Some(i) ==> kind_index(self@, name@) == Some(i as int),
            kinds_nonempty(self@),
    {
        proof {
            use_type_invariant(self);
        }
        let mut i: usize = 0;
        while i < self.groups.len()
            invariant
                i <= self.groups@.len(),
                self@.len() == self.groups@.len(),
                kinds_distinct(self@),
                kinds_nonempty(self@),
                forall|j: int| 0 <= j < i ==> #[trigger] self@[j].0 != name@,
            decreases self.groups@.len() - i,
        {
            if self.groups[i].name == *name {
                proof {
                    assert(self@[i as int].0 == name@);
                    let k = choose|k: int| 0 <= k < self@.len() && #[trigger] self@[k].0 == name@;
                    assert(k == i as int);
                }
                return Some(i);
            }
            i = i + 1;
        }
        None
    }

    /// The paths listed under kind `name`.
    pub fn get(&self, name: &String) -> (r: Option<&Vec<DatabaseConfig>>)
        ensures
            kinds_nonempty(self@),
            r is None <==> kind_index(self@, name@) is None,
            r matches Some(v) ==> config_paths(v@) == self@[kind_index(self@, name@)->0].1,
    {
        match self.position(name) {
            Some(i) => Some(&self.groups[i].configs),
            None => None,
        }
    }

    /// The paths listed under the kind at position `i`.
    pub fn configs_at(&self, i: usize) -> (r: &Vec<DatabaseConfig>)
        requires
            i < self@.len(),
        ensures
            config_paths(r@) == self@[i as int].1,
            r@.len() > 0,
    {
        proof {
            use_type_invariant(self);
            assert(config_paths(self.groups@[i as int].configs@).len() == self.groups@[i as int].configs@.len());
        }
        &self.groups[i].configs
    }

    /// Adds `path` under kind `name`, creating the kind when it is new.
    pub fn insert(&mut self, name: String, path: String)
        ensures
            final(self)@ == with_database(old(self)@, name@, path@),
    {
        proof {
            use_type_invariant(&*self);
        }
        let ghost old_view = self@;
        match self.position(&name) {
            Some(i) => {
                let mut groups: Vec<DatabaseGroup> = Vec::new();
                std::mem::swap(&mut groups, &mut self.groups);
                let ghost before = groups@;
                let mut g = groups.remove(i);
                g.configs.push(DatabaseConfig { path });
                groups.insert(i, g);
                proof {
                    assert(groups@ =~= before.update(i as int, g));
                    let nv = groups@.map_values(|g: DatabaseGroup| group_view(g));
                    assert(config_paths(g.configs@) =~= old_view[i as int].1.push(path@));
                    assert(nv =~= old_view.update(i as int, (name@, old_view[i as int].1.push(path@))));
                    assert forall|a: int, b: int|
                        0 <= a < nv.len() && 0 <= b < nv.len() && a != b implies #[trigger] nv[a].0
                        != #[trigger] nv[b].0 by {
                        assert(old_view[a].0 != old_view[b].0);
                    }
                }
                self.groups = groups;
            },
            None => {
                let mut configs: Vec<DatabaseConfig> = Vec::new();
                configs.push(DatabaseConfig { path });
                let g = DatabaseGroup { name, configs };
                let mut groups: Vec<DatabaseGroup> = Vec::new();
                std::mem::swap(&mut groups, &mut self.groups);
                let ghost before = groups@;
                groups.push(g);
                proof {
                    let nv = groups@.map_values(|g: DatabaseGroup| group_view(g));
                    assert(config_paths(g.configs@) =~= seq![path@]);
                    assert(nv =~= old_view.push((g.name@, seq![path@])));
                    assert forall|a: int, b: int|
                        0 <= a < nv.len() && 0 <= b < nv.len() && a != b implies #[trigger] nv[a].0
                        != #[trigger] nv[b].0 by {
                        if a < old_view.len() && b < old_view.len() {
                            assert(old_view[a].0 != old_view[b].0);
                        } else if a < old_view.len() {
                            assert(old_view[a].0 != g.name@);
                        } else {
                            assert(old_view[b].0 != g.name@);
                        }
                    }
                }
                self.groups = groups;
            },
        }
    }
}

impl Clone for DatabaseGroup {
    fn clone(&self) -> (r: DatabaseGroup)
        ensures
            group_view(r) == group_view(*self),
    {
        let mut configs: Vec<DatabaseConfig> = Vec::new();
        let mut i: usize = 0;
        while i < self.configs.len()
            invariant
                i <= self.configs@.len(),
                configs@ == self.configs@.take(i as int),
            decreases self.configs@.len() - i,
        {
            configs.push(self.configs[i].clone());
            assert(configs@ =~= self.configs@.take(i as int + 1));
            i = i + 1;
        }
        assert(self.configs@.take(self.configs@.len() as int) =~= self.configs@);
        DatabaseGroup { name: self.name.clone(), configs }
    }
}

impl Clone for DatabaseMap {
    fn clone(&self) -> (r: DatabaseMap)
        ensures
            r@ == self@,
    {
        proof {
            use_type_invariant(self);
        }
        let mut groups: Vec<DatabaseGroup> = Vec::new();
        let mut i: usize = 0;
        while i < self.groups.len()
            invariant
                i <= self.groups@.len(),
                groups@.len() == i,
                forall|j: int| 0 <= j < i ==> group_view(#[trigger] groups@[j]) == group_view(
                    self.groups@[j],
                ),
            decreases self.groups@.len() - i,
        {
            groups.push(self.groups[i].clone());
            i = i + 1;
        }
        assert(groups@.map_values(|g: DatabaseGroup| group_view(g)) =~= self@);
        DatabaseMap { groups }
    }
}

/// The keys bound to each action.
#[derive(Clone, Copy, Debug)]
pub struct KeyConfig {
    pub enter: Key,
    pub backspace: Key,
    pub escape: Key,
    pub up: Key,
    pub down: Key,
    pub left: Key,
    pub right: Key,
    pub key_layout_up: Key,
    pub key_layout_down: Key,
    pub value_layout_up: Key,
    pub value_layout_down: Key,
    pub database_select_up: Key,
    pub database_select_down: Key,
    pub home_tab: Key,
    pub database_tab: Key,
    pub layout_tab: Key,
    pub quit: Key,
}

/// The key bindings every configuration starts with.
pub open spec fn default_key_config() -> KeyConfig {
    KeyConfig {
        backspace: Key::Backspace,
        enter: Key::Enter,
        escape: Key::Esc,
        up: Key::Up,
        down: Key::Down,
        left: Key::Left,
        right: Key::Right,
        key_layout_up: Key::Char('h'),
        key_layout_down: Key::Char('j'),
        value_layout_up: Key::Char('k'),
        value_layout_down: Key::Char('l'),
        database_select_up: Key::Char('9'),
        database_select_down: Key::Char('0'),
        home_tab: Key::Char('h'),
        database_tab: Key::Char('d'),
        layout_tab: Key::Char('l'),
        quit: Key::Char('q'),
    }
}

/// The command line: where the configuration file is, and whether to create an example one.
#[derive(Debug)]
pub struct CliConfig {
    pub config_path: String,
    pub create_config: bool,
}

/// Everything the terminal front end is configured with.
pub struct Config {
    pub databases: DatabaseMap,
    pub templates: Vec<LayoutTemplate>,
    pub path: String,
    pub key_config: KeyConfig,
    /// The working directory at start-up, against which relative paths are made absolute.
    pub cwd: String,
}

/// The abstract value of a configuration.
pub struct ConfigSpec {
    pub databases: Seq<(Seq<char>, Seq<Seq<char>>)>,
    pub templates: Seq<TemplateSpec>,
    pub path: Seq<char>,
    pub key_config: KeyConfig,
    pub cwd: Seq<char>,
}

impl View for Config {
    type V = ConfigSpec;

    open spec fn view(&self) -> ConfigSpec {
        ConfigSpec {
            databases: self.databases@,
            templates: template_views(self.templates@),
            path: self.path@,
            key_config: self.key_config,
            cwd: self.cwd@,
        }
    }
}

impl Clone for Config {
    fn clone(&self) -> (r: Config)
        ensures
            r@ == self@,
    {
        Config {
            databases: self.databases.clone(),
            templates: clone_templates(&self.templates),
            path: self.path.clone(),
            key_config: self.key_config,
            cwd: self.cwd.clone(),
        }
    }
}

impl Config {
    /// A configuration with no databases and no templates, read from the configuration file
    /// at `config.config_path` made absolute against the working directory `cwd`.
    pub fn new(config: &CliConfig, cwd: &str) -> (r: Config)
        requires
            is_absolute(cwd@),
        ensures
            r.databases@.len() == 0,
            r.templates@.len() == 0,
            r.path@ == absolutized(config.config_path@, cwd@),
            r.key_config == default_key_config(),
            r.cwd@ == cwd@,
    {
        Config {
            cwd: String::from_str(cwd),
            databases: DatabaseMap::new(),
            path: get_absolute_path_buf(config.config_path.clone(), cwd),
            templates: Vec::new(),
            key_config: KeyConfig {
                backspace: Key::Backspace,
                enter: Key::Enter,
                escape: Key::Esc,
                up: Key::Up,
                down: Key::Down,
                left: Key::Left,
                right: Key::Right,
                key_layout_up: Key::Char('h'),
                key_layout_down: Key::Char('j'),
                value_layout_up: Key::Char('k'),
                value_layout_down: Key::Char('l'),
                database_select_up: Key::Char('9'),
                database_select_down: Key::Char('0'),
                home_tab: Key::Char('h'),
                database_tab: Key::Char('d'),
                layout_tab: Key::Char('l'),
                quit: Key::Char('q'),
            },
        }
    }

    pub fn set_databases(&mut self, databases: DatabaseMap)
        ensures
            final(self).databases == databases,
            final(self).templates == old(self).templates,
            final(self).path == old(self).path,
            final(self).key_config == old(self).key_config,
            final(self).cwd == old(self).cwd,
    {
        self.databases = databases;
    }

    pub fn set_layouts(&mut self, layouts: Vec<LayoutTemplate>)
        ensures
            final(self).templates == layouts,
            final(self).databases == old(self).databases,
            final(self).path == old(self).path,
            final(self).key_config == old(self).key_config,
            final(self).cwd == old(self).cwd,
    {
        self.templates = layouts;
    }
}

/// The single-layout template `SYSTEM:<name>` that reads every byte as `variant`.
pub open spec fn system_template(name: Seq<char>, variant: LayoutVariant) -> TemplateSpec {
    TemplateSpec {
        name: "SYSTEM:"@ + name,
        layout: seq![LayoutSpec { variant, name: "*"@, from: usize::MIN, to: usize::MAX }],
    }
}

fn build_template(name: &str, variant: LayoutVariant) -> (r: LayoutTemplate)
    ensures
        r@ == system_template(name@, variant),
{
    let mut full = String::from_str("SYSTEM:");
    push_str(&mut full, name);
    let mut layout = ByteLayout::default();
    let l = layout.with_variant(variant).build();
    let mut layouts: Vec<ByteLayout> = Vec::new();
    layouts.push(l);
    let r = LayoutTemplate::new(full.as_str(), layouts);
    assert(r@.layout =~= seq![LayoutSpec { variant, name: "*"@, from: usize::MIN, to: usize::MAX }]);
    r
}

/// One layout of a template as the configuration file gives it: the JSON text of its name
/// and variant (quotes included), and its bounds.
#[derive(Debug)]
pub struct RawLayout {
    pub name: String,
    pub variant: String,
    pub from: i64,
    pub to: i64,
}

/// One template as the configuration file gives it: the JSON text of its name and its layouts.
#[derive(Debug)]
pub struct RawTemplate {
    pub name: String,
    pub layouts: Vec<RawLayout>,
}

/// One database as the configuration file gives it: the JSON text of its kind and its path.
#[derive(Debug)]
pub struct RawDatabase {
    pub name: String,
    pub path: String,
}

/// The variant with the name `s`.
pub open spec fn variant_named(s: Seq<char>) -> LayoutVariant {
    choose|v: LayoutVariant| variant_name(v) == s
}

/// A raw layout that can be read: quoted name and variant, and a known variant.
pub open spec fn raw_layout_ok(l: RawLayout) -> bool {
    &&& l.name@.contains('"')
    &&& l.variant@.contains('"')
    &&& crate::utils::byte::is_variant_name(second_piece(l.variant@, '"'))
}

/// A raw template that can be read.
pub open spec fn raw_template_ok(t: RawTemplate) -> bool {
    &&& t.name@.contains('"')
    &&& forall|k: int| 0 <= k < t.layouts@.len() ==> raw_layout_ok(#[trigger] t.layouts@[k])
}

/// The layout a raw layout describes. The bounds are converted as `as usize` converts them.
pub open spec fn layout_from_raw(l: RawLayout) -> LayoutSpec {
    LayoutSpec {
        variant: variant_named(second_piece(l.variant@, '"')),
        name: second_piece(l.name@, '"'),
        from: l.from as usize,
        to: l.to as usize,
    }
}

/// The template a raw template describes.
pub open spec fn template_from_raw(t: RawTemplate) -> TemplateSpec {
    TemplateSpec {
        name: second_piece(t.name@, '"'),
        layout: t.layouts@.map_values(|l: RawLayout| layout_from_raw(l)),
    }
}

fn load_layout(l: &RawLayout) -> (r: ByteLayout)
    requires
        raw_layout_ok(*l),
    ensures
        r@ == layout_from_raw(*l),
{
    let mut layout = ByteLayout::default();
    let name = sanitize(l.name.as_str());
    let variant = sanitize(l.variant.as_str());
    let from = l.from as usize;
    let to = l.to as usize;
    let variant = LayoutVariant::from_string(variant.as_str());
    proof {
        crate::utils::byte::lemma_variant_names_distinct(
            variant,
            variant_named(second_piece(l.variant@, '"')),
        );
    }
    layout.with_name(name).with_variant(variant).with_range(from, to).build()
}

/// Whether a raw template can be read.
pub fn template_loadable(t: &RawTemplate) -> (r: bool)
    ensures
        r == raw_template_ok(*t),
{
    if !crate::utils::file::contains_char(t.name.as_str(), '"') {
        return false;
    }
    let mut k: usize = 0;
    while k < t.layouts.len()
        invariant
            k <= t.layouts@.len(),
            forall|j: int| 0 <= j < k ==> raw_layout_ok(#[trigger] t.layouts@[j]),
        decreases t.layouts@.len() - k,
    {
        let l = &t.layouts[k];
        if !crate::utils::file::contains_char(l.name.as_str(), '"') {
            return false;
        }
        if !crate::utils::file::contains_char(l.variant.as_str(), '"') {
            return false;
        }
        let v = sanitize(l.variant.as_str());
        if crate::utils::byte::variant_from_name(v.as_str()).is_none() {
            return false;
        }
        k = k + 1;
    }
    true
}

/// Whether every raw template can be read.
pub fn templates_loadable(ts: &Vec<RawTemplate>) -> (r: bool)
    ensures
        r == forall|k: int| 0 <= k < ts@.len() ==> raw_template_ok(#[trigger] ts@[k]),
{
    let mut k: usize = 0;
    while k < ts.len()
        invariant
            k <= ts@.len(),
            forall|j: int| 0 <= j < k ==> raw_template_ok(#[trigger] ts@[j]),
        decreases ts@.len() - k,
    {
        if !template_loadable(&ts[k]) {
            return false;
        }
        k = k + 1;
    }
    true
}

fn load_template(t: &RawTemplate) -> (r: LayoutTemplate)
    requires
        raw_template_ok(*t),
    ensures
        r@ == template_from_raw(*t),
{
    let mut r = LayoutTemplate::default();
    let name = sanitize(t.name.as_str());
    r.set_name(name.as_str());
    let mut k: usize = 0;
    while k < t.layouts.len()
        invariant
            k <= t.layouts@.len(),
            raw_template_ok(*t),
            r.name@ == second_piece(t.name@, '"'),
            crate::utils::byte::layout_views(r.layout@) == t.layouts@.take(k as int).map_values(
                |l: RawLayout| layout_from_raw(l),
            ),
        decreases t.layouts@.len() - k,
    {
        let l = load_layout(&t.layouts[k]);
        let ghost old_layout = r.layout@;
        r.push_layout(l);
        proof {
            assert(crate::utils::byte::layout_views(old_layout.push(l)) =~= crate::utils::byte::layout_views(old_layout).push(l@));
            let f = |l: RawLayout| layout_from_raw(l);
            assert(t.layouts@.take(k as int + 1) =~= t.layouts@.take(k as int).push(t.layouts@[k as int]));
            assert(t.layouts@.take(k as int).push(t.layouts@[k as int]).map_values(f) =~= t.layouts@.take(k as int).map_values(f).push(f(t.layouts@[k as int])));
        }
        assert(crate::utils::byte::layout_views(r.layout@) =~= t.layouts@.take(k as int + 1).map_values(
            |l: RawLayout| layout_from_raw(l),
        ));
        k = k + 1;
    }
    assert(t.layouts@.take(t.layouts@.len() as int) =~= t.layouts@);
    r
}

/// The templates the configuration file lists, in order.
pub fn load_templates(json_templates: &Vec<RawTemplate>) -> (r: Vec<LayoutTemplate>)
    requires
        forall|k: int|
            0 <= k < json_templates@.len() ==> raw_template_ok(#[trigger] json_templates@[k]),
    ensures
        template_views(r@) == json_templates@.map_values(|t: RawTemplate| template_from_raw(t)),
{
    let mut r: Vec<LayoutTemplate> = Vec::new();
    let mut k: usize = 0;
    while k < json_templates.len()
        invariant
            k <= json_templates@.len(),
            forall|j: int|
                0 <= j < json_templates@.len() ==> raw_template_ok(#[trigger] json_templates@[j]),
            template_views(r@) == json_templates@.take(k as int).map_values(
                |t: RawTemplate| template_from_raw(t),
            ),
        decreases json_templates@.len() - k,
    {
        let t = load_template(&json_templates[k]);
        let ghost old_r = r@;
        r.push(t);
        proof {
            assert(template_views(old_r.push(t)) =~= template_views(old_r).push(t@));
            let f = |t: RawTemplate| template_from_raw(t);
            let js = json_templates@;
            assert(js.take(k as int + 1) =~= js.take(k as int).push(js[k as int]));
            assert(js.take(k as int).push(js[k as int]).map_values(f) =~= js.take(k as int).map_values(f).push(f(js[k as int])));
        }
        assert(template_views(r@) =~= json_templates@.take(k as int + 1).map_values(
            |t: RawTemplate| template_from_raw(t),
        ));
        k = k + 1;
    }
    assert(json_templates@.take(json_templates@.len() as int) =~= json_templates@);
    r
}

/// A raw database entry that can be read.
pub open spec fn raw_database_ok(d: RawDatabase) -> bool {
    d.name@.contains('"') && d.path@.contains('"')
}

/// The database groups the raw entries describe, added one after another.
pub open spec fn databases_from_raw(raw: Seq<RawDatabase>) -> Seq<(Seq<char>, Seq<Seq<char>>)>
    decreases raw.len(),
{
    if raw.len() == 0 {
        Seq::empty()
    } else {
        with_database(
            databases_from_raw(raw.drop_last()),
            second_piece(raw.last().name@, '"'),
            second_piece(raw.last().path@, '"'),
        )
    }
}

/// Whether every raw database entry can be read.
pub fn databases_loadable(ds: &Vec<RawDatabase>) -> (r: bool)
    ensures
        r == forall|k: int| 0 <= k < ds@.len() ==> raw_database_ok(#[trigger] ds@[k]),
{
    let mut k: usize = 0;
    while k < ds.len()
        invariant
            k <= ds@.len(),
            forall|j: int| 0 <= j < k ==> raw_database_ok(#[trigger] ds@[j]),
        decreases ds@.len() - k,
    {
        if !crate::utils::file::contains_char(ds[k].name.as_str(), '"')
            || !crate::utils::file::contains_char(ds[k].path.as_str(), '"') {
            return false;
        }
        k = k + 1;
    }
    true
}

/// The databases the configuration file lists, grouped by kind.
pub fn load_databases(json_database: &Vec<RawDatabase>) -> (r: DatabaseMap)
    requires
        forall|k: int| 0 <= k < json_database@.len() ==> raw_database_ok(#[trigger] json_database@[k]),
    ensures
        r@ == databases_from_raw(json_database@),
{
    let mut r = DatabaseMap::new();
    let mut k: usize = 0;
    while k < json_database.len()
        invariant
            k <= json_database@.len(),
            forall|j: int|
                0 <= j < json_database@.len() ==> raw_database_ok(#[trigger] json_database@[j]),
            r@ == databases_from_raw(json_database@.take(k as int)),
        decreases json_database@.len() - k,
    {
        let path = sanitize(json_database[k].path.as_str());
        let name = sanitize(json_database[k].name.as_str());
        r.insert(name, path);
        proof {
            let t = json_database@.take(k as int + 1);
            assert(t.drop_last() =~= json_database@.take(k as int));
        }
        k = k + 1;
    }
    assert(json_database@.take(json_database@.len() as int) =~= json_database@);
    r
}

/// The names and variants of the built-in templates, in the order they are listed.
pub open spec fn system_templates() -> Seq<TemplateSpec> {
    seq![
        system_template("Bytes"@, LayoutVariant::Bytes),
        system_template("String"@, LayoutVariant::String),
        system_template("Int32"@, LayoutVariant::Int32),
        system_template("Int64"@, LayoutVariant::Int64),
        system_template("Float32"@, LayoutVariant::Float32),
        system_template("Float64"@, LayoutVariant::Float64),
        system_template("Boolean"@, LayoutVariant::Boolean),
    ]
}

fn build_system_templates() -> (r: Vec<LayoutTemplate>)
    ensures
        template_views(r@) == system_templates(),
{
    let mut r: Vec<LayoutTemplate> = Vec::new();
    r.push(build_template("Bytes", LayoutVariant::Bytes));
    r.push(build_template("String", LayoutVariant::String));
    r.push(build_template("Int32", LayoutVariant::Int32));
    r.push(build_template("Int64", LayoutVariant::Int64));
    r.push(build_template("Float32", LayoutVariant::Float32));
    r.push(build_template("Float64", LayoutVariant::Float64));
    r.push(build_template("Boolean", LayoutVariant::Boolean));
    assert(template_views(r@) =~= system_templates());
    r
}

/// The configuration built from the command line and the contents of the configuration
/// file: `databases` and `templates` are the file's `databases` and `templates` entries,
/// `None` where the file has no such entry. Where the file lists templates, the built-in
/// templates come first.
pub fn load_config(
    cli: &CliConfig,
    cwd: &str,
    databases: Option<Vec<RawDatabase>>,
    templates: Option<Vec<RawTemplate>>,
) -> (r: Config)
    requires
        is_absolute(cwd@),
        databases matches Some(d) ==> forall|k: int|
            0 <= k < d@.len() ==> raw_database_ok(#[trigger] d@[k]),
        templates matches Some(t) ==> forall|k: int|
            0 <= k < t@.len() ==> raw_template_ok(#[trigger] t@[k]),
    ensures
        r.path@ == absolutized(cli.config_path@, cwd@),
        r.key_config == default_key_config(),
        r.cwd@ == cwd@,
        r.databases@ == (match databases {
            Some(d) => databases_from_raw(d@),
            None => Seq::empty(),
        }),
        r@.templates == (match templates {
            Some(t) => system_templates() + t@.map_values(|t: RawTemplate| template_from_raw(t)),
            None => Seq::empty(),
        }),
{
    let mut config = Config::new(cli, cwd);
    if let Some(d) = databases {
        let databases = load_databases(&d);
        config.set_databases(databases);
    }
    if let Some(t) = templates {
        let mut all = build_system_templates();
        let mut loaded = load_templates(&t);
        let ghost sys = all@;
        let ghost lv = loaded@;
        all.append(&mut loaded);
        assert(all@ == sys + lv);
        assert(template_views(all@) =~= system_templates() + t@.map_values(
            |t: RawTemplate| template_from_raw(t),
        ));
        config.set_layouts(all);
    }
    assert(config.templates@.len() == 0 ==> template_views(config.templates@) =~= Seq::empty());
    config
}

/// What serde_json makes of a text: the compact JSON text of the value it parses, or
/// nothing when the text is not JSON.
pub uninterp spec fn json_parsed(text: Seq<char>) -> Option<Seq<char>>;

/// The compact JSON text of the member `key` of the object that `json` holds; nothing when
/// `json` does not parse, holds no object, or the object has no such member.
pub uninterp spec fn json_field(json: Seq<char>, key: Seq<char>) -> Option<Seq<char>>;

/// The compact JSON texts of the elements of the array that `json` holds, in order; nothing
/// when `json` does not parse or holds no array.
pub uninterp spec fn json_elements(json: Seq<char>) -> Option<Seq<Seq<char>>>;

/// The integer that `json` holds when it is a number that fits an `i64`; nothing otherwise.
pub uninterp spec fn json_i64(json: Seq<char>) -> Option<i64>;

pub open spec fn opt_text(o: Option<String>) -> Option<Seq<char>> {
    match o {
        Some(s) => Some(s@),
        None => None,
    }
}

pub open spec fn opt_texts(o: Option<Vec<String>>) -> Option<Seq<Seq<char>>> {
    match o {
        Some(v) => Some(v@.map_values(|s: String| s@)),
        None => None,
    }
}

/// `serde_json::from_str::<serde_json::Value>(text)`, the value written back with
/// `to_string` (serde_json's compact form). What the text is, is left to the name.
#[verifier::external_body]
fn parse_json(text: &str) -> (r: Option<String>)
    ensures
        opt_text(r) == json_parsed(text@),
{
    match serde_json::from_str::<serde_json::Value>(text) {
        Ok(v) => Some(v.to_string()),
        Err(_) => None,
    }
}

/// `serde_json::Value::get(key)` on the value that `json` holds (read with `from_str`),
/// the member written back with `to_string`.
#[verifier::external_body]
fn json_field_text(json: &str, key: &str) -> (r: Option<String>)
    ensures
        opt_text(r) == json_field(json@, key@),
{
    match serde_json::from_str::<serde_json::Value>(json) {
        Ok(v) => match v.get(key) {
            Some(member) => Some(member.to_string()),
            None => None,
        },
        Err(_) => None,
    }
}

/// `serde_json::Value::as_array` on the value that `json` holds (read with `from_str`),
/// each element written back with `to_string`.
#[verifier::external_body]
fn json_elements_text(json: &str) -> (r: Option<Vec<String>>)
    ensures
        opt_texts(r) == json_elements(json@),
{
    match serde_json::from_str::<serde_json::Value>(json) {
        Ok(v) => match v.as_array() {
            Some(items) => {
                let mut texts: Vec<String> = Vec::new();
                for item in items {
                    texts.push(item.to_string());
                }
                Some(texts)
            },
            None => None,
        },
        Err(_) => None,
    }
}

/// `serde_json::Value::as_i64` on the value that `json` holds (read with `from_str`).
#[verifier::external_body]
fn json_int(json: &str) -> (r: Option<i64>)
    ensures
        r == json_i64(json@),
{
    match serde_json::from_str::<serde_json::Value>(json) {
        Ok(v) => v.as_i64(),
        Err(_) => None,
    }
}

/// A database entry of the configuration text: the JSON texts of its name and path.
pub type DbEntry = (Seq<char>, Seq<char>);

/// A layout entry: the JSON texts of its name and variant, and its bounds.
pub type LayoutEntry = (Seq<char>, Seq<char>, i64, i64);

/// A template entry: the JSON text of its name, and its layouts.
pub type TemplateEntry = (Seq<char>, Seq<LayoutEntry>);

/// The database entry an element describes, when it has a name and a path.
pub open spec fn db_entry(j: Seq<char>) -> Option<DbEntry> {
    match (json_field(j, "name"@), json_field(j, "path"@)) {
        (Some(n), Some(p)) => Some((n, p)),
        _ => None,
    }
}

/// The database entries of the elements, when every element describes one.
pub open spec fn db_entries(items: Seq<Seq<char>>) -> Option<Seq<DbEntry>>
    decreases items.len(),
{
    if items.len() == 0 {
        Some(Seq::empty())
    } else {
        match (db_entries(items.drop_last()), db_entry(items.last())) {
            (Some(es), Some(e)) => Some(es.push(e)),
            _ => None,
        }
    }
}

/// The bound stored under `key`, when it is an integer.
pub open spec fn int_field(j: Seq<char>, key: Seq<char>) -> Option<i64> {
    match json_field(j, key) {
        Some(f) => json_i64(f),
        None => None,
    }
}

/// The layout entry an element describes, when it has a name, a variant and integer bounds.
pub open spec fn layout_entry(j: Seq<char>) -> Option<LayoutEntry> {
    match (json_field(j, "name"@), json_field(j, "variant"@), int_field(j, "from"@), int_field(
        j,
        "to"@,
    )) {
        (Some(n), Some(v), Some(f), Some(t)) => Some((n, v, f, t)),
        _ => None,
    }
}

/// The layout entries of the elements, when every element describes one.
pub open spec fn layout_entries(items: Seq<Seq<char>>) -> Option<Seq<LayoutEntry>>
    decreases items.len(),
{
    if items.len() == 0 {
        Some(Seq::empty())
    } else {
        match (layout_entries(items.drop_last()), layout_entry(items.last())) {
            (Some(es), Some(e)) => Some(es.push(e)),
            _ => None,
        }
    }
}

/// The template entry an element describes, when it has a name and an array of layouts.
pub open spec fn template_entry(j: Seq<char>) -> Option<TemplateEntry> {
    match (json_field(j, "name"@), json_field(j, "layouts"@)) {
        (Some(n), Some(ls)) => match json_elements(ls) {
            Some(items) => match layout_entries(items) {
                Some(es) => Some((n, es)),
                None => None,
            },
            None => None,
        },
        _ => None,
    }
}

/// The template entries of the elements, when every element describes one.
pub open spec fn template_entries(items: Seq<Seq<char>>) -> Option<Seq<TemplateEntry>>
    decreases items.len(),
{
    if items.len() == 0 {
        Some(Seq::empty())
    } else {
        match (template_entries(items.drop_last()), template_entry(items.last())) {
            (Some(es), Some(e)) => Some(es.push(e)),
            _ => None,
        }
    }
}

/// The entries of a configuration text: its databases and its templates, each `None` where
/// the text lists none; nothing when the text is not JSON or an entry lacks a part.
pub open spec fn json_config(text: Seq<char>) -> Option<
    (Option<Seq<DbEntry>>, Option<Seq<TemplateEntry>>),
> {
    match json_parsed(text) {
        None => None,
        Some(root) => {
            let dbs = match json_field(root, "databases"@) {
                None => Some(None),
                Some(d) => match json_elements(d) {
                    Some(items) => match db_entries(items) {
                        Some(es) => Some(Some(es)),
                        None => None,
                    },
                    None => None,
                },
            };
            let tps = match json_field(root, "templates"@) {
                None => Some(None),
                Some(t) => match json_elements(t) {
                    Some(items) => match template_entries(items) {
                        Some(es) => Some(Some(es)),
                        None => None,
                    },
                    None => None,
                },
            };
            match (dbs, tps) {
                (Some(d), Some(t)) => Some((d, t)),
                _ => None,
            }
        },
    }
}

/// The texts of a list of strings.
pub open spec fn texts(v: Seq<String>) -> Seq<Seq<char>> {
    v.map_values(|s: String| s@)
}

/// The entry a raw database holds.
pub open spec fn db_view(d: RawDatabase) -> DbEntry {
    (d.name@, d.path@)
}

/// A database entry that can be read: quoted name and path.
pub open spec fn db_entry_ok(e: DbEntry) -> bool {
    e.0.contains('"') && e.1.contains('"')
}

/// The database groups the entries describe, added one after another.
pub open spec fn databases_from_entries(es: Seq<DbEntry>) -> Seq<(Seq<char>, Seq<Seq<char>>)>
    decreases es.len(),
{
    if es.len() == 0 {
        Seq::empty()
    } else {
        with_database(
            databases_from_entries(es.drop_last()),
            second_piece(es.last().0, '"'),
            second_piece(es.last().1, '"'),
        )
    }
}

/// The entry a raw layout holds.
pub open spec fn layout_view(l: RawLayout) -> LayoutEntry {
    (l.name@, l.variant@, l.from, l.to)
}

/// A layout entry that can be read: quoted name and variant, and a known variant.
pub open spec fn layout_entry_ok(e: LayoutEntry) -> bool {
    &&& e.0.contains('"')
    &&& e.1.contains('"')
    &&& crate::utils::byte::is_variant_name(second_piece(e.1, '"'))
}

/// The layout an entry describes. The bounds are converted as `as usize` converts them.
pub open spec fn layout_from_entry(e: LayoutEntry) -> LayoutSpec {
    LayoutSpec {
        variant: variant_named(second_piece(e.1, '"')),
        name: second_piece(e.0, '"'),
        from: e.2 as usize,
        to: e.3 as usize,
    }
}

/// The entry a raw template holds.
pub open spec fn template_view(t: RawTemplate) -> TemplateEntry {
    (t.name@, t.layouts@.map_values(|l: RawLayout| layout_view(l)))
}

/// A template entry that can be read.
pub open spec fn template_entry_ok(e: TemplateEntry) -> bool {
    &&& e.0.contains('"')
    &&& forall|k: int| 0 <= k < e.1.len() ==> layout_entry_ok(#[trigger] e.1[k])
}

/// The template an entry describes.
pub open spec fn template_from_entry(e: TemplateEntry) -> TemplateSpec {
    TemplateSpec {
        name: second_piece(e.0, '"'),
        layout: e.1.map_values(|l: LayoutEntry| layout_from_entry(l)),
    }
}

/// Every entry of a configuration text can be read.
pub open spec fn entries_ok(c: (Option<Seq<DbEntry>>, Option<Seq<TemplateEntry>>)) -> bool {
    &&& c.0 matches Some(d) ==> forall|k: int| 0 <= k < d.len() ==> db_entry_ok(#[trigger] d[k])
    &&& c.1 matches Some(t) ==> forall|k: int| 0 <= k < t.len() ==> template_entry_ok(#[trigger] t[k])
}

/// The configuration made from the entries of a configuration text, with the command line
/// `cli` and the working directory `cwd`. Where the text lists templates, the built-in
/// templates come first.
pub open spec fn config_from_entries(
    cli: CliConfig,
    cwd: Seq<char>,
    c: (Option<Seq<DbEntry>>, Option<Seq<TemplateEntry>>),
    r: Config,
) -> bool {
    &&& r.path@ == absolutized(cli.config_path@, cwd)
    &&& r.key_config == default_key_config()
    &&& r.cwd@ == cwd
    &&& r.databases@ == (match c.0 {
        Some(d) => databases_from_entries(d),
        None => Seq::empty(),
    })
    &&& r@.templates == (match c.1 {
        Some(t) => system_templates() + t.map_values(|e: TemplateEntry| template_from_entry(e)),
        None => Seq::empty(),
    })
}

/// Why a configuration text does not load.
#[derive(Clone, Copy, Debug, PartialEq, Eq, Structural)]
pub enum ConfigError {
    /// The text is not JSON.
    Parse,
    /// An entry lacks a part, or a part has the wrong kind.
    Shape,
    /// A name, path or variant is not a quoted text, or the variant is unknown.
    Entry,
}

proof fn lemma_databases_from_views(raw: Seq<RawDatabase>)
    ensures
        databases_from_raw(raw) == databases_from_entries(raw.map_values(|d: RawDatabase| db_view(d))),
    decreases raw.len(),
{
    if raw.len() > 0 {
        lemma_databases_from_views(raw.drop_last());
        assert(raw.drop_last().map_values(|d: RawDatabase| db_view(d)) =~= raw.map_values(
            |d: RawDatabase| db_view(d),
        ).drop_last());
    }
}

proof fn lemma_template_view(t: RawTemplate)
    ensures
        template_from_raw(t) == template_from_entry(template_view(t)),
        raw_template_ok(t) == template_entry_ok(template_view(t)),
{
    let ls = t.layouts@;
    let es = template_view(t).1;
    assert(template_from_raw(t).layout =~= template_from_entry(template_view(t)).layout);
    if raw_template_ok(t) {
        assert forall|k: int| 0 <= k < es.len() implies layout_entry_ok(#[trigger] es[k]) by {
            assert(raw_layout_ok(ls[k]));
        }
    }
    if template_entry_ok(template_view(t)) {
        assert forall|k: int| 0 <= k < ls.len() implies raw_layout_ok(#[trigger] ls[k]) by {
            assert(layout_entry_ok(es[k]));
        }
    }
}

proof fn lemma_db_entries_stay_none(s: Seq<Seq<char>>, i: int, j: int)
    requires
        0 <= i <= j <= s.len(),
        db_entries(s.take(i)) is None,
    ensures
        db_entries(s.take(j)) is None,
    decreases j - i,
{
    if i < j {
        lemma_db_entries_stay_none(s, i, j - 1);
        assert(s.take(j).drop_last() =~= s.take(j - 1));
    }
}

proof fn lemma_layout_entries_stay_none(s: Seq<Seq<char>>, i: int, j: int)
    requires
        0 <= i <= j <= s.len(),
        layout_entries(s.take(i)) is None,
    ensures
        layout_entries(s.take(j)) is None,
    decreases j - i,
{
    if i < j {
        lemma_layout_entries_stay_none(s, i, j - 1);
        assert(s.take(j).drop_last() =~= s.take(j - 1));
    }
}

proof fn lemma_template_entries_stay_none(s: Seq<Seq<char>>, i: int, j: int)
    requires
        0 <= i <= j <= s.len(),
        template_entries(s.take(i)) is None,
    ensures
        template_entries(s.take(j)) is None,
    decreases j - i,
{
    if i < j {
        lemma_template_entries_stay_none(s, i, j - 1);
        assert(s.take(j).drop_last() =~= s.take(j - 1));
    }
}

fn read_databases(items: &Vec<String>) -> (r: Option<Vec<RawDatabase>>)
    ensures
        r is Some <==> db_entries(texts(items@)) is Some,
        r matches Some(ds) ==> db_entries(texts(items@)) == Some(
            ds@.map_values(|d: RawDatabase| db_view(d)),
        ),
{
    let ghost s = texts(items@);
    let mut ds: Vec<RawDatabase> = Vec::new();
    let mut k: usize = 0;
    while k < items.len()
        invariant
            k <= items@.len(),
            s == texts(items@),
            db_entries(s.take(k as int)) == Some(ds@.map_values(|d: RawDatabase| db_view(d))),
        decreases items@.len() - k,
    {
        proof {
            assert(s.take(k as int + 1).drop_last() =~= s.take(k as int));
            assert(s.take(k as int + 1).last() == items@[k as int]@);
        }
        let name = json_field_text(items[k].as_str(), "name");
        let path = json_field_text(items[k].as_str(), "path");
        match (name, path) {
            (Some(n), Some(p)) => {
                let ghost before = ds@;
                let d = RawDatabase { name: n, path: p };
                ds.push(d);
                proof {
                    assert(ds@.map_values(|d: RawDatabase| db_view(d)) =~= before.map_values(
                        |d: RawDatabase| db_view(d),
                    ).push(db_view(d)));
                }
            },
            _ => {
                proof {
                    lemma_db_entries_stay_none(s, k as int + 1, s.len() as int);
                    assert(s.take(s.len() as int) =~= s);
                }
                return None;
            },
        }
        k = k + 1;
    }
    assert(s.take(s.len() as int) =~= s);
    Some(ds)
}

fn read_int(json: &str, key: &str) -> (r: Option<i64>)
    ensures
        r == int_field(json@, key@),
{
    match json_field_text(json, key) {
        Some(f) => json_int(f.as_str()),
        None => None,
    }
}

fn read_layouts(items: &Vec<String>) -> (r: Option<Vec<RawLayout>>)
    ensures
        r is Some <==> layout_entries(texts(items@)) is Some,
        r matches Some(ls) ==> layout_entries(texts(items@)) == Some(
            ls@.map_values(|l: RawLayout| layout_view(l)),
        ),
{
    let ghost s = texts(items@);
    let mut ls: Vec<RawLayout> = Vec::new();
    let mut k: usize = 0;
    while k < items.len()
        invariant
            k <= items@.len(),
            s == texts(items@),
            layout_entries(s.take(k as int)) == Some(ls@.map_values(|l: RawLayout| layout_view(l))),
        decreases items@.len() - k,
    {
        proof {
            assert(s.take(k as int + 1).drop_last() =~= s.take(k as int));
            assert(s.take(k as int + 1).last() == items@[k as int]@);
        }
        let name = json_field_text(items[k].as_str(), "name");
        let variant = json_field_text(items[k].as_str(), "variant");
        let from = read_int(items[k].as_str(), "from");
        let to = read_int(items[k].as_str(), "to");
        match (name, variant, from, to) {
            (Some(n), Some(v), Some(f), Some(t)) => {
                let ghost before = ls@;
                let l = RawLayout { name: n, variant: v, from: f, to: t };
                ls.push(l);
                proof {
                    assert(ls@.map_values(|l: RawLayout| layout_view(l)) =~= before.map_values(
                        |l: RawLayout| layout_view(l),
                    ).push(layout_view(l)));
                }
            },
            _ => {
                proof {
                    lemma_layout_entries_stay_none(s, k as int + 1, s.len() as int);
                    assert(s.take(s.len() as int) =~= s);
                }
                return None;
            },
        }
        k = k + 1;
    }
    assert(s.take(s.len() as int) =~= s);
    Some(ls)
}

fn read_template(json: &str) -> (r: Option<RawTemplate>)
    ensures
        r is Some <==> template_entry(json@) is Some,
        r matches Some(t) ==> template_entry(json@) == Some(template_view(t)),
{
    let name = json_field_text(json, "name");
    let layouts = json_field_text(json, "layouts");
    match (name, layouts) {
        (Some(n), Some(ls)) => match json_elements_text(ls.as_str()) {
            Some(items) => match read_layouts(&items) {
                Some(layouts) => Some(RawTemplate { name: n, layouts }),
                None => None,
            },
            None => None,
        },
        _ => None,
    }
}

fn read_templates(items: &Vec<String>) -> (r: Option<Vec<RawTemplate>>)
    ensures
        r is Some <==> template_entries(texts(items@)) is Some,
        r matches Some(ts) ==> template_entries(texts(items@)) == Some(
            ts@.map_values(|t: RawTemplate| template_view(t)),
        ),
{
    let ghost s = texts(items@);
    let mut ts: Vec<RawTemplate> = Vec::new();
    let mut k: usize = 0;
    while k < items.len()
        invariant
            k <= items@.len(),
            s == texts(items@),
            template_entries(s.take(k as int)) == Some(
                ts@.map_values(|t: RawTemplate| template_view(t)),
            ),
        decreases items@.len() - k,
    {
        proof {
            assert(s.take(k as int + 1).drop_last() =~= s.take(k as int));
            assert(s.take(k as int + 1).last() == items@[k as int]@);
        }
        match read_template(items[k].as_str()) {
            Some(t) => {
                let ghost before = ts@;
                let ghost tv = template_view(t);
                ts.push(t);
                proof {
                    assert(ts@.map_values(|t: RawTemplate| template_view(t)) =~= before.map_values(
                        |t: RawTemplate| template_view(t),
                    ).push(tv));
                }
            },
            None => {
                proof {
                    lemma_template_entries_stay_none(s, k as int + 1, s.len() as int);
                    assert(s.take(s.len() as int) =~= s);
                }
                return None;
            },
        }
        k = k + 1;
    }
    assert(s.take(s.len() as int) =~= s);
    Some(ts)
}

/// The configuration a configuration file's text gives, with the command line `cli` and the
/// working directory `cwd`: an error when the text is not JSON (`Parse`), when an entry
/// lacks a part (`Shape`), or when a name, path or variant cannot be read (`Entry`).
pub fn load_config_text(cli: &CliConfig, cwd: &str, text: &str) -> (r: Result<Config, ConfigError>)
    requires
        is_absolute(cwd@),
    ensures
        json_parsed(text@) is None ==> r == Err::<Config, ConfigError>(ConfigError::Parse),
        json_parsed(text@) is Some && json_config(text@) is None ==> r == Err::<
            Config,
            ConfigError,
        >(ConfigError::Shape),
        json_config(text@) matches Some(c) ==> {
            &&& r is Ok <==> entries_ok(c)
            &&& !entries_ok(c) ==> r == Err::<Config, ConfigError>(ConfigError::Entry)
            &&& r matches Ok(config) ==> config_from_entries(*cli, cwd@, c, config)
        },
{
    let root = match parse_json(text) {
        Some(root) => root,
        None => return Err(ConfigError::Parse),
    };
    let databases = match json_field_text(root.as_str(), "databases") {
        None => None,
        Some(d) => match json_elements_text(d.as_str()) {
            Some(items) => match read_databases(&items) {
                Some(ds) => Some(ds),
                None => return Err(ConfigError::Shape),
            },
            None => return Err(ConfigError::Shape),
        },
    };
    let templates = match json_field_text(root.as_str(), "templates") {
        None => None,
        Some(t) => match json_elements_text(t.as_str()) {
            Some(items) => match read_templates(&items) {
                Some(ts) => Some(ts),
                None => return Err(ConfigError::Shape),
            },
            None => return Err(ConfigError::Shape),
        },
    };
    let ghost c = json_config(text@)->0;
    proof {
        if databases is Some {
            let ds = databases->0;
            {
                assert(c.0 == Some(ds@.map_values(|d: RawDatabase| db_view(d))));
                lemma_databases_from_views(ds@);
            }
        }
        if templates is Some {
            let ts = templates->0;
            {
                let es = ts@.map_values(|t: RawTemplate| template_view(t));
                assert(c.1 == Some(es));
                assert forall|k: int| 0 <= k < ts@.len() implies #[trigger] template_from_raw(ts@[k])
                    == template_from_entry(es[k]) && raw_template_ok(ts@[k]) == template_entry_ok(
                    es[k],
                ) by {
                    lemma_template_view(ts@[k]);
                }
                assert(ts@.map_values(|t: RawTemplate| template_from_raw(t)) =~= es.map_values(
                    |e: TemplateEntry| template_from_entry(e),
                ));
            }
        }
    }
    if let Some(ds) = &databases {
        if !databases_loadable(ds) {
            proof {
                let k = choose|k: int| 0 <= k < ds@.len() && !raw_database_ok(#[trigger] ds@[k]);
                assert(!db_entry_ok(c.0->0[k]));
            }
            return Err(ConfigError::Entry);
        }
    }
    if let Some(ts) = &templates {
        if !templates_loadable(ts) {
            proof {
                let k = choose|k: int| 0 <= k < ts@.len() && !raw_template_ok(#[trigger] ts@[k]);
                lemma_template_view(ts@[k]);
                assert(!template_entry_ok(c.1->0[k]));
            }
            return Err(ConfigError::Entry);
        }
    }
    proof {
        if databases is Some {
            let ds = databases->0;
            {
                assert forall|k: int| 0 <= k < c.0->0.len() implies db_entry_ok(#[trigger] c.0->0[k]) by {
                    assert(raw_database_ok(ds@[k]));
                }
            }
        }
        if templates is Some {
            let ts = templates->0;
            {
                assert forall|k: int| 0 <= k < c.1->0.len() implies template_entry_ok(
                    #[trigger] c.1->0[k],
                ) by {
                    assert(raw_template_ok(ts@[k]));
                    lemma_template_view(ts@[k]);
                }
            }
        }
    }
    Ok(load_config(cli, cwd, databases, templates))
}

} // verus!

