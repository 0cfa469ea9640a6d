//! Names shared by the components.
use vstd::prelude::*;

verus! {

/// Which part of the screen receives key presses.
#[derive(Clone, Copy, Debug, PartialEq, Eq, Structural)]
pub enum Focus {
    MenuContainer,
    HomeTabBody,
    DatabaseTabBody,
    LayoutTabBody,
}

/// The colors the components choose between.
#[derive(Clone, Copy, Debug, PartialEq, Eq, Structural)]
pub enum Color {
    White,
    DarkGray,
    Yellow,
    Red,
    Black,
    Blue,
}

/// The border color of unfocused containers.
pub open spec fn primary_color() -> Color {
    Color::DarkGray
}

/// The status line shown when there is nothing to report.
pub const DEFAULT_STATUS_TEXT: &'static str = "No status displayed...";

} // verus!
