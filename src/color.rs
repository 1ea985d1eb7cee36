//! Badge colors, named as the badge renderer expects them.

use vstd::prelude::*;

verus! {

/// A badge color of the renderer's palette.
#[derive(Clone, Copy, Debug, PartialEq, Eq, Structural)]
pub enum Color {
    BrightGreen,
    Green,
    YellowGreen,
    Yellow,
    Orange,
    Red,
    LightGrey,
}

/// The renderer's name of a color.
pub open spec fn color_name(c: Color) -> Seq<char> {
    match c {
        Color::BrightGreen => "brightgreen"@,
        Color::Green => "green"@,
        Color::YellowGreen => "yellowgreen"@,
        Color::Yellow => "yellow"@,
        Color::Orange => "orange"@,
        Color::Red => "red"@,
        Color::LightGrey => "lightgrey"@,
    }
}

impl Color {
    pub fn as_str(&self) -> (r: &'static str)
        ensures
            r@ == color_name(*self),
    {
        match self {
            Color::BrightGreen => "brightgreen",
            Color::Green => "green",
            Color::YellowGreen => "yellowgreen",
            Color::Yellow => "yellow",
            Color::Orange => "orange",
            Color::Red => "red",
            Color::LightGrey => "lightgrey",
        }
    }
}

} // verus!
