//! The framed box every component is drawn in.
use vstd::prelude::*;

use crate::constants::{primary_color, Color};

verus! {

/// A framed box with all borders, rounded corners, a title and a border color.
#[derive(Debug)]
pub struct Container {
    pub title: String,
    pub color: Color,
}

/// The border color of a component's box: white when it has the focus.
pub open spec fn container_color(focused: bool) -> Color {
    if focused {
        Color::White
    } else {
        primary_color()
    }
}

/// The box of a component: white when the component has the focus, the primary color
/// otherwise.
pub fn render_container(title: &str, focused: bool) -> (r: Container)
    ensures
        r.title@ == title@,
        r.color == container_color(focused),
{
    Container {
        title: String::from_str(title),
        color: if focused {
            Color::White
        } else {
            Color::DarkGray
        },
    }
}

/// The box of the early menu and tab bodies: always in the primary color.
pub fn render_area(title: &str) -> (r: Container)
    ensures
        r.title@ == title@,
        r.color == primary_color(),
{
    Container { title: String::from_str(title), color: Color::DarkGray }
}

} // verus!
