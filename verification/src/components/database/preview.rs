//! The preview of a key-value pair read through the chosen byte layout templates.
use vstd::prelude::*;

use crate::config::Config;
use crate::events::EventState;
use crate::key::Key;
use crate::text::bytes_debug_string;
use crate::text::bytes_debug;
use crate::ui::list::{ListState, StatefulList};
use crate::ui::selection::{next_index, previous_index};
use crate::utils::byte::{
    decode_bytes, decode_layout, template_views, Decoded, DecodedValue, LayoutSpec,
    LayoutTemplate, TemplateSpec,
};

verus! {

/// A key and its value, as raw bytes.
pub type KeyValuePair = (Vec<u8>, Vec<u8>);

/// `min(a, b)`.
pub open spec fn min_usize(a: int, b: int) -> int {
    if a <= b {
        a
    } else {
        b
    }
}

/// The bytes a layout covers: from its start up to its end or the end of the data.
pub open spec fn field_slice(raw: Seq<u8>, l: LayoutSpec) -> Seq<u8> {
    raw.subrange(l.from as int, min_usize(l.to as int, raw.len() as int))
}

/// A layout can be applied: it starts within the bytes it covers, and a UUID field covers
/// at least sixteen bytes.
pub open spec fn layout_fits(raw: Seq<u8>, l: LayoutSpec) -> bool {
    &&& l.from <= min_usize(l.to as int, raw.len() as int)
    &&& (l.variant is UuidV4 ==> field_slice(raw, l).len() >= 16)
}

/// Every layout of a template can be applied.
pub open spec fn template_fits(raw: Seq<u8>, t: TemplateSpec) -> bool {
    forall|k: int| 0 <= k < t.layout.len() ==> layout_fits(raw, #[trigger] t.layout[k])
}

/// The named values a template reads from the bytes: one per layout, in order, each
/// decoded from the bytes it covers.
pub open spec fn read_fields(raw: Seq<u8>, t: TemplateSpec) -> Seq<(Seq<char>, Decoded)> {
    t.layout.map_values(|l: LayoutSpec| (l.name, decode_layout(field_slice(raw, l), l.variant)))
}

/// The abstract values of named fields.
pub open spec fn field_views(v: Seq<(String, DecodedValue)>) -> Seq<(Seq<char>, Decoded)> {
    v.map_values(|f: (String, DecodedValue)| (f.0@, f.1@))
}

fn copy_range(raw: &[u8], from: usize, to: usize) -> (r: Vec<u8>)
    requires
        from <= to <= raw@.len(),
    ensures
        r@ == raw@.subrange(from as int, to as int),
{
    let mut r: Vec<u8> = Vec::new();
    let mut i = from;
    while i < to
        invariant
            from <= i <= to,
            to <= raw@.len(),
            r@ == raw@.subrange(from as int, i as int),
        decreases to - i,
    {
        r.push(raw[i]);
        assert(r@ =~= raw@.subrange(from as int, i as int + 1));
        i = i + 1;
    }
    r
}

/// Whether every layout of `template` can be applied to `raw`.
pub fn template_fits_bytes(template: &LayoutTemplate, raw: &[u8]) -> (r: bool)
    ensures
        r == template_fits(raw@, template@),
{
    let mut k: usize = 0;
    while k < template.layout.len()
        invariant
            k <= template.layout@.len(),
            forall|j: int| 0 <= j < k ==> layout_fits(raw@, #[trigger] template@.layout[j]),
        decreases template.layout@.len() - k,
    {
        let l = &template.layout[k];
        proof {
            assert(template@.layout[k as int] == l@);
        }
        let end = if l.to <= raw.len() {
            l.to
        } else {
            raw.len()
        };
        if l.from > end {
            return false;
        }
        let is_uuid = match l.variant {
            crate::utils::byte::LayoutVariant::UuidV4 => true,
            _ => false,
        };
        if is_uuid && end - l.from < 16 {
            return false;
        }
        k = k + 1;
    }
    true
}

/// Reads the fields of `template` from `raw`.
pub fn apply_template(template: &LayoutTemplate, raw: &[u8]) -> (r: Vec<(String, DecodedValue)>)
    requires
        template_fits(raw@, template@),
    ensures
        field_views(r@) == read_fields(raw@, template@),
{
    let mut items: Vec<(String, DecodedValue)> = Vec::new();
    let mut k: usize = 0;
    while k < template.layout.len()
        invariant
            k <= template.layout@.len(),
            template_fits(raw@, template@),
            field_views(items@) == read_fields(raw@, template@).take(k as int),
        decreases template.layout@.len() - k,
    {
        let item = &template.layout[k];
        proof {
            assert(template@.layout[k as int] == item@);
            assert(layout_fits(raw@, template@.layout[k as int]));
        }
        let end = if item.to <= raw.len() {
            item.to
        } else {
            raw.len()
        };
        let slice = copy_range(raw, item.from, end);
        let converted = decode_bytes(slice.as_slice(), item.variant);
        let ghost old_items = items@;
        items.push((item.name.clone(), converted));
        proof {
            assert(field_views(old_items.push((item.name, converted))) =~= field_views(old_items).push((item.name@, converted@)));
            assert(read_fields(raw@, template@).take(k as int + 1) =~= read_fields(raw@, template@).take(k as int).push(read_fields(raw@, template@)[k as int]));
        }
        k = k + 1;
    }
    assert(read_fields(raw@, template@).take(template.layout@.len() as int) =~= read_fields(raw@, template@));
    items
}

/// The preview of the selected pair with the key and value templates to read it with.
pub struct PreviewComponent {
    pub config: Config,
    pub pair: Option<KeyValuePair>,
    pub key_layout: StatefulList,
    pub value_layout: StatefulList,
}

/// The entries of a template list: the template names, in order.
pub open spec fn template_entries(templates: Seq<TemplateSpec>, items: Seq<String>) -> bool {
    &&& items.len() == templates.len()
    &&& forall|i: int| 0 <= i < items.len() ==> #[trigger] items[i]@ == templates[i].name
}

/// The names of the templates, in order.
pub fn template_names(templates: &Vec<LayoutTemplate>) -> (r: Vec<String>)
    ensures
        template_entries(template_views(templates@), r@),
{
    let mut items: Vec<String> = Vec::new();
    let mut i: usize = 0;
    while i < templates.len()
        invariant
            i <= templates@.len(),
            items@.len() == i,
            forall|j: int| 0 <= j < i ==> #[trigger] items@[j]@ == templates@[j].name@,
        decreases templates@.len() - i,
    {
        items.push(templates[i].name.clone());
        i = i + 1;
    }
    items
}

fn build_list(config: &Config) -> (r: StatefulList)
    ensures
        template_entries(config@.templates, r.items@),
        r.state.selected == Some(0usize),
{
    let items = template_names(&config.templates);
    let mut list_state = ListState::default();
    list_state.select(Some(0));
    StatefulList::with_items(items, Some(list_state))
}

/// What a template list reads from the bytes: with a template chosen, its fields; with none,
/// a single field `*` showing all bytes.
pub open spec fn preview_fields(
    templates: Seq<TemplateSpec>,
    selected: Option<usize>,
    raw: Seq<u8>,
) -> Seq<(Seq<char>, Decoded)> {
    match selected {
        Some(i) => read_fields(raw, templates[i as int]),
        None => seq![("*"@, Decoded::Text(bytes_debug(raw)))],
    }
}

/// The chosen template (if any) exists and can be applied to the bytes.
pub open spec fn preview_ok(templates: Seq<TemplateSpec>, selected: Option<usize>, raw: Seq<u8>) -> bool {
    selected matches Some(i) ==> i < templates.len() && template_fits(raw, templates[i as int])
}

/// What a key does to the preview: `h`/`j` move the key template up/down, `k`/`l` the
/// value template, with wrap-around; every other key is left alone.
pub open spec fn preview_event(o: PreviewComponent, key: Key, n: PreviewComponent, r: EventState) -> bool {
    &&& n.config == o.config
    &&& n.pair == o.pair
    &&& n.key_layout.items == o.key_layout.items
    &&& n.value_layout.items == o.value_layout.items
    &&& key == Key::Char('h') ==> n.key_layout.state.selected == Some(
        previous_index(o.key_layout.state.selected, o.key_layout.items@.len()),
    ) && n.value_layout == o.value_layout && r == EventState::Consumed
    &&& key == Key::Char('j') ==> n.key_layout.state.selected == Some(
        next_index(o.key_layout.state.selected, o.key_layout.items@.len()),
    ) && n.value_layout == o.value_layout && r == EventState::Consumed
    &&& key == Key::Char('k') ==> n.value_layout.state.selected == Some(
        previous_index(o.value_layout.state.selected, o.value_layout.items@.len()),
    ) && n.key_layout == o.key_layout && r == EventState::Consumed
    &&& key == Key::Char('l') ==> n.value_layout.state.selected == Some(
        next_index(o.value_layout.state.selected, o.value_layout.items@.len()),
    ) && n.key_layout == o.key_layout && r == EventState::Consumed
    &&& !(key == Key::Char('h') || key == Key::Char('j') || key == Key::Char('k') || key
        == Key::Char('l')) ==> n == o && r == EventState::NotConsumed
}

impl PreviewComponent {
    /// No pair yet; both template lists on their first entry.
    pub fn new(config: Config) -> (r: PreviewComponent)
        ensures
            r.config == config,
            r.pair is None,
            template_entries(config@.templates, r.key_layout.items@),
            template_entries(config@.templates, r.value_layout.items@),
            r.key_layout.state.selected == Some(0usize),
            r.value_layout.state.selected == Some(0usize),
    {
        let key_layout = build_list(&config);
        let value_layout = build_list(&config);
        PreviewComponent { key_layout, value_layout, pair: None, config }
    }

    /// A copy of the previewed pair.
    pub fn pair(&self) -> (r: Option<KeyValuePair>)
        ensures
            r is Some <==> self.pair is Some,
            r matches Some(p) ==> p.0@ == self.pair.unwrap().0@ && p.1@ == self.pair.unwrap().1@,
    {
        match &self.pair {
            Some(p) => Some((p.0.clone(), p.1.clone())),
            None => None,
        }
    }

    pub fn set_pair(&mut self, pair: Option<KeyValuePair>)
        ensures
            final(self).pair == pair,
            final(self).config == old(self).config,
            final(self).key_layout == old(self).key_layout,
            final(self).value_layout == old(self).value_layout,
    {
        self.pair = pair;
    }

    /// Whether `preview_ok` holds: the template highlighted in `layout` exists and fits `raw`.
    pub fn preview_ready(&self, layout: &StatefulList, raw: &[u8]) -> (r: bool)
        ensures
            r == preview_ok(self.config@.templates, layout.state.selected, raw@),
    {
        match layout.state.selected() {
            Some(i) => {
                if i >= self.config.templates.len() {
                    return false;
                }
                proof {
                    assert(template_views(self.config.templates@)[i as int] == self.config.templates@[i as int]@);
                }
                template_fits_bytes(&self.config.templates[i], raw)
            },
            None => true,
        }
    }

    /// The fields of `raw` read with the template highlighted in `layout`.
    pub fn deserialize_key(&self, layout: &StatefulList, raw: Vec<u8>) -> (r: Vec<(String, DecodedValue)>)
        requires
            preview_ok(self.config@.templates, layout.state.selected, raw@),
        ensures
            field_views(r@) == preview_fields(self.config@.templates, layout.state.selected, raw@),
    {
        match layout.state.selected() {
            Some(index) => {
                let l = &self.config.templates[index];
                apply_template(l, raw.as_slice())
            },
            None => {
                let mut data: Vec<(String, DecodedValue)> = Vec::new();
                data.push((String::from_str("*"), DecodedValue::Text(bytes_debug_string(raw.as_slice()))));
                assert(field_views(data@) =~= seq![("*"@, Decoded::Text(bytes_debug(raw@)))]);
                data
            },
        }
    }

    /// `h`/`j` move the key template up/down, `k`/`l` the value template.
    pub fn event(&mut self, key: Key) -> (r: EventState)
        ensures
            preview_event(*old(self), key, *final(self), r),
    {
        if key == Key::Char('h') {
            self.key_layout.previous();
            return EventState::Consumed;
        }
        if key == Key::Char('j') {
            self.key_layout.next();
            return EventState::Consumed;
        }
        if key == Key::Char('k') {
            self.value_layout.previous();
            return EventState::Consumed;
        }
        if key == Key::Char('l') {
            self.value_layout.next();
            return EventState::Consumed;
        }
        EventState::NotConsumed
    }

    /// The fields of the pair's key, read with the highlighted key template.
    pub fn key_preview(&self) -> (r: Vec<(String, DecodedValue)>)
        requires
            self.pair is Some,
            preview_ok(self.config@.templates, self.key_layout.state.selected, self.pair.unwrap().0@),
        ensures
            field_views(r@) == preview_fields(self.config@.templates, self.key_layout.state.selected, self.pair.unwrap().0@),
    {
        match &self.pair {
            Some(p) => self.deserialize_key(&self.key_layout, p.0.clone()),
            None => Vec::new(),
        }
    }

    /// The fields of the pair's value, read with the highlighted value template.
    pub fn value_preview(&self) -> (r: Vec<(String, DecodedValue)>)
        requires
            self.pair is Some,
            preview_ok(self.config@.templates, self.value_layout.state.selected, self.pair.unwrap().1@),
        ensures
            field_views(r@) == preview_fields(self.config@.templates, self.value_layout.state.selected, self.pair.unwrap().1@),
    {
        match &self.pair {
            Some(p) => self.deserialize_key(&self.value_layout, p.1.clone()),
            None => Vec::new(),
        }
    }
}

/// `k` and then `l` bring the value template back to the one it was on, and neither key
/// touches the key template list.
pub proof fn lemma_value_template_keys(
    o: PreviewComponent,
    m: PreviewComponent,
    r1: EventState,
    n: PreviewComponent,
    r2: EventState,
    i: usize,
)
    requires
        o.value_layout.state.selected == Some(i),
        crate::ui::selection::in_range(i, o.value_layout.items@.len()),
        preview_event(o, Key::Char('k'), m, r1),
        preview_event(m, Key::Char('l'), n, r2),
    ensures
        n.value_layout.state.selected == Some(i),
        n.key_layout == o.key_layout,
        m.key_layout == o.key_layout,
        r1 == EventState::Consumed && r2 == EventState::Consumed,
{
    assert(o.value_layout.items@.len() == o.value_layout.items.len());
    crate::ui::selection::lemma_next_undoes_previous(i, o.value_layout.items@.len());
}

/// `h` and then `j` bring the key template back to the one it was on, and neither key
/// touches the value template list.
pub proof fn lemma_key_template_keys(
    o: PreviewComponent,
    m: PreviewComponent,
    r1: EventState,
    n: PreviewComponent,
    r2: EventState,
    i: usize,
)
    requires
        o.key_layout.state.selected == Some(i),
        crate::ui::selection::in_range(i, o.key_layout.items@.len()),
        preview_event(o, Key::Char('h'), m, r1),
        preview_event(m, Key::Char('j'), n, r2),
    ensures
        n.key_layout.state.selected == Some(i),
        n.value_layout == o.value_layout,
        m.value_layout == o.value_layout,
        r1 == EventState::Consumed && r2 == EventState::Consumed,
{
    assert(o.key_layout.items@.len() == o.key_layout.items.len());
    crate::ui::selection::lemma_next_undoes_previous(i, o.key_layout.items@.len());
}

} // verus!
