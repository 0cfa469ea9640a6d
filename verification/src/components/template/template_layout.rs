//! The table of the layouts of the chosen template.
use vstd::prelude::*;

use crate::components::rows::row_views;
use crate::config::Config;
use crate::events::EventState;
use crate::key::Key;
use crate::terminal::table::StatefulTable;
use crate::text::{decimal, decimal_string};
use crate::utils::byte::{layout_views, variant_name, ByteLayout, LayoutSpec, LayoutTemplate, TemplateSpec};

verus! {

/// The row of the layout at `index`: its position, name and variant, and its bounds with
/// `Start` for the first byte and `End` for the last.
pub open spec fn layout_row(index: nat, l: LayoutSpec) -> Seq<Seq<char>> {
    seq![
        decimal(index),
        l.name,
        variant_name(l.variant),
        if l.from == usize::MIN { "Start"@ } else { decimal(l.from as nat) },
        if l.to == usize::MAX { "End"@ } else { decimal(l.to as nat) },
    ]
}

/// The rows of a list of layouts, one per layout, in order.
pub open spec fn layouts_table(ls: Seq<LayoutSpec>) -> Seq<Seq<Seq<char>>> {
    Seq::new(ls.len(), |i: int| layout_row(i as nat, ls[i]))
}

/// The headers of the layout table.
pub open spec fn layout_headers() -> Seq<&'static str> {
    seq!["#", "Name", "Variant", "From", "To"]
}

fn layout_cells(index: usize, layout: &ByteLayout) -> (r: Vec<String>)
    ensures
        r@.map_values(|s: String| s@) == layout_row(index as nat, layout@),
{
    let mut row: Vec<String> = Vec::new();
    row.push(decimal_string(index as u64));
    row.push(layout.name.clone());
    row.push(layout.variant.to_string());
    row.push(if layout.from == usize::MIN {
        String::from_str("Start")
    } else {
        decimal_string(layout.from as u64)
    });
    row.push(if layout.to == usize::MAX {
        String::from_str("End")
    } else {
        decimal_string(layout.to as u64)
    });
    assert(row@.map_values(|s: String| s@) =~= layout_row(index as nat, layout@));
    row
}

/// The table of a template's layouts, with its headers and nothing highlighted.
pub fn build_table(layouts: &Vec<ByteLayout>) -> (r: StatefulTable)
    ensures
        row_views(r.items@) == layouts_table(layout_views(layouts@)),
        r.headers@ == layout_headers(),
        r.state.selected is None,
{
    let mut items: Vec<Vec<String>> = Vec::new();
    let mut i: usize = 0;
    while i < layouts.len()
        invariant
            i <= layouts@.len(),
            items@.len() == i,
            forall|j: int| 0 <= j < i ==> #[trigger] row_views(items@)[j] == layout_row(j as nat, layouts@[j]@),
        decreases layouts@.len() - i,
    {
        let row = layout_cells(i, &layouts[i]);
        let ghost old_items = items@;
        items.push(row);
        proof {
            assert forall|j: int| 0 <= j < i + 1 implies #[trigger] row_views(items@)[j] == layout_row(j as nat, layouts@[j]@) by {
                if j < i {
                    assert(row_views(old_items)[j] == layout_row(j as nat, layouts@[j]@));
                    assert(items@[j] == old_items[j]);
                }
            }
        }
        i = i + 1;
    }
    assert(row_views(items@) =~= layouts_table(layout_views(layouts@)));
    let mut headers: Vec<&'static str> = Vec::new();
    headers.push("#");
    headers.push("Name");
    headers.push("Variant");
    headers.push("From");
    headers.push("To");
    assert(headers@ =~= layout_headers());
    let mut t = StatefulTable::default();
    t.with_items(items).with_headers(headers).build()
}

/// The layouts of the chosen template.
pub struct TemplateLayoutComponent {
    pub config: Config,
    pub layout: Option<LayoutTemplate>,
    pub table: Option<StatefulTable>,
}

/// The abstract value of an optional template.
pub open spec fn opt_template_view(t: Option<LayoutTemplate>) -> Option<TemplateSpec> {
    match t {
        Some(t) => Some(t@),
        None => None,
    }
}

impl TemplateLayoutComponent {
    /// Shows `layout`; without a template the previous table stays.
    pub fn set_layout(&mut self, layout: Option<LayoutTemplate>)
        ensures
            opt_template_view(final(self).layout) == opt_template_view(layout),
            final(self).config == old(self).config,
            match layout {
                Some(l) => final(self).table matches Some(t) && row_views(t.items@) == layouts_table(l@.layout) && t.headers@ == layout_headers() && t.state.selected is None,
                None => final(self).table == old(self).table,
            },
    {
        self.layout = match &layout {
            Some(l) => Some(l.clone()),
            None => None,
        };
        if let Some(l) = layout {
            self.table = Some(build_table(&l.layout));
        }
    }

    /// No template chosen.
    pub fn new(config: Config) -> (r: TemplateLayoutComponent)
        ensures
            r.config == config,
            r.layout is None,
            r.table is None,
    {
        TemplateLayoutComponent { config, layout: None, table: None }
    }

    /// The table takes no keys.
    pub fn event(&mut self, key: Key) -> (r: EventState)
        ensures
            r == EventState::NotConsumed,
            *final(self) == *old(self),
    {
        EventState::NotConsumed
    }
}

/// The layout table shows each layout of the template on its own row, in order, under the
/// headers `#`, `Name`, `Variant`, `From`, `To`: its position, its name, its variant's name,
/// under `From` its first byte (`Start` for 0) and under `To` its end (`End` for the last
/// possible one).
pub proof fn lemma_layout_columns(ls: Seq<LayoutSpec>, i: int)
    requires
        0 <= i < ls.len(),
    ensures
        layout_headers().len() == 5,
        layout_headers()[3] == "From" && layout_headers()[4] == "To",
        layouts_table(ls).len() == ls.len(),
        layouts_table(ls)[i].len() == 5,
        layouts_table(ls)[i][0] == decimal(i as nat),
        layouts_table(ls)[i][1] == ls[i].name,
        layouts_table(ls)[i][2] == variant_name(ls[i].variant),
        layouts_table(ls)[i][3] == (if ls[i].from == 0 {
            "Start"@
        } else {
            decimal(ls[i].from as nat)
        }),
        layouts_table(ls)[i][4] == (if ls[i].to == usize::MAX {
            "End"@
        } else {
            decimal(ls[i].to as nat)
        }),
{
}

} // verus!
