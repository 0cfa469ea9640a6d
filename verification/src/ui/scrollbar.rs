//! A vertical scrollbar along the right edge of an area: where its track runs.
//!
//! The row of the thumb on the track is a floating-point ratio, which the drawing code
//! computes; everything else is decided here.
use vstd::prelude::*;

verus! {

/// A rectangle of terminal cells.
#[derive(Clone, Copy, Debug, PartialEq, Eq, Structural)]
pub struct Area {
    pub x: u16,
    pub y: u16,
    pub width: u16,
    pub height: u16,
}

/// `a` shrunk by `horizontal` cells on each side and `vertical` cells at top and bottom,
/// or the empty area at the origin when `a` is too small for that.
pub open spec fn shrunk(a: Area, horizontal: u16, vertical: u16) -> Area {
    if a.width < 2 * horizontal || a.height < 2 * vertical {
        Area { x: 0, y: 0, width: 0, height: 0 }
    } else {
        Area {
            x: (a.x + horizontal) as u16,
            y: (a.y + vertical) as u16,
            width: (a.width - 2 * horizontal) as u16,
            height: (a.height - 2 * vertical) as u16,
        }
    }
}

/// `tui::layout::Rect::inner` with a `Margin` of `horizontal` and `vertical` cells: the
/// contract says what its source does, `shrunk`. Its additions are plain `u16` additions,
/// which overflow where `requires` says they must not.
#[verifier::external_body]
fn inner_area(area: Area, horizontal: u16, vertical: u16) -> (r: Area)
    requires
        2 * horizontal <= u16::MAX,
        2 * vertical <= u16::MAX,
        area.x + horizontal <= u16::MAX,
        area.y + vertical <= u16::MAX,
    ensures
        r == shrunk(area, horizontal, vertical),
{
    let rect = tui::layout::Rect { x: area.x, y: area.y, width: area.width, height: area.height };
    let inner = rect.inner(&tui::layout::Margin { vertical, horizontal });
    Area { x: inner.x, y: inner.y, width: inner.width, height: inner.height }
}

/// `n` as a `u16`, or 0 where it does not fit.
pub open spec fn fit_u16(n: usize) -> u16 {
    if n <= u16::MAX {
        n as u16
    } else {
        0
    }
}

/// A scrollbar for position `pos` of `max`; `inside` puts it on the last column of the area
/// rather than just right of it, `border` keeps it off the first and last rows.
#[derive(Clone, Copy, Debug, PartialEq, Eq, Structural)]
pub struct Scrollbar {
    pub max: u16,
    pub pos: u16,
    pub inside: bool,
    pub border: bool,
}

/// The cells a scrollbar is drawn on: the column, and the first row and number of rows.
#[derive(Clone, Copy, Debug, PartialEq, Eq, Structural)]
pub struct ScrollbarTrack {
    pub column: u16,
    pub top: u16,
    pub height: u16,
}

pub open spec fn right_edge(a: Area) -> u16 {
    if a.x + a.width <= u16::MAX {
        (a.x + a.width) as u16
    } else {
        u16::MAX
    }
}

/// Where `bar` is drawn in `area`: nowhere when the area is at most two rows high, when
/// there is nothing to scroll, or when the column would not lie right of the area's left edge.
pub open spec fn track_of(bar: Scrollbar, area: Area) -> Option<ScrollbarTrack> {
    let column = if bar.inside && right_edge(area) > 0 {
        (right_edge(area) - 1) as u16
    } else if bar.inside {
        0u16
    } else {
        right_edge(area)
    };
    if area.height <= 2 || bar.max == 0 || column <= area.x {
        None
    } else {
        let inner = shrunk(area, 0, if bar.border { 1 } else { 0 });
        Some(ScrollbarTrack { column, top: inner.y, height: inner.height })
    }
}

impl Scrollbar {
    /// A scrollbar for position `pos` of `max`; a count past `u16::MAX` counts as 0.
    pub fn new(max: usize, pos: usize, border: bool, inside: bool) -> (r: Scrollbar)
        ensures
            r.max == fit_u16(max),
            r.pos == fit_u16(pos),
            r.border == border,
            r.inside == inside,
    {
        let max16: u16 = if max <= 65535 {
            max as u16
        } else {
            0
        };
        let pos16: u16 = if pos <= 65535 {
            pos as u16
        } else {
            0
        };
        Scrollbar { max: max16, pos: pos16, inside, border }
    }

    /// The track of the scrollbar in `area`. It runs within the rows of the area, on its
    /// last column or the one just right of it.
    pub fn track(&self, area: Area) -> (r: Option<ScrollbarTrack>)
        requires
            self.border ==> area.y < u16::MAX,
        ensures
            r == track_of(*self, area),
            r matches Some(t) ==> {
                &&& area.x < t.column <= right_edge(area)
                &&& area.y <= t.top
                &&& t.top + t.height <= area.y + area.height
                &&& t.height + 2 >= area.height
            },
    {
        let right_edge: u16 = area.x.saturating_add(area.width);
        let column: u16 = if self.inside {
            right_edge.saturating_sub(1)
        } else {
            right_edge
        };
        if area.height <= 2 || self.max == 0 || column <= area.x {
            return None;
        }
        let vertical: u16 = if self.border {
            1
        } else {
            0
        };
        let inner = inner_area(area, 0, vertical);
        Some(ScrollbarTrack { column, top: inner.y, height: inner.height })
    }
}

/// The row of the thumb, given the thumb's offset on the track counted from 1 (0 also
/// puts it on the first row).
pub fn thumb_row(track: ScrollbarTrack, offset: u16) -> (r: u16)
    requires
        offset > 0 ==> track.top + offset - 1 <= u16::MAX,
    ensures
        r == if offset > 0 {
            track.top + offset - 1
        } else {
            track.top as int
        },
{
    track.top + offset.saturating_sub(1)
}

/// What a scrollbar for position `pos` of `max` in `area` draws: the scrollbar, and its
/// track where it has one.
pub fn draw_scrollbar(area: Area, max: usize, pos: usize, border: bool, inside: bool) -> (r: (
    Scrollbar,
    Option<ScrollbarTrack>,
))
    requires
        border ==> area.y < u16::MAX,
    ensures
        r.0.max == fit_u16(max),
        r.0.pos == fit_u16(pos),
        r.0.border == border,
        r.0.inside == inside,
        r.1 == track_of(r.0, area),
{
    let bar = Scrollbar::new(max, pos, border, inside);
    let track = bar.track(area);
    (bar, track)
}

} // verus!
