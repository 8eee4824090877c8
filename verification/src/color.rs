//! Terminal colors as plain data, and the fixed accent-color ring.

use ratatui::style::Color as TC;
use std::str::FromStr;
use vstd::prelude::*;

verus! {

/// A terminal color, held as plain data so that contracts can speak of it.
/// The named variants mirror the classic ANSI palette; `Rgb` is a 24-bit
/// true color and `Indexed` an entry of the 256-color table.
#[derive(Clone, Copy, PartialEq, Eq, Structural, Debug)]
pub enum Color {
    Reset,
    Black,
    Red,
    Green,
    Yellow,
    Blue,
    Magenta,
    Cyan,
    Gray,
    DarkGray,
    LightRed,
    LightGreen,
    LightYellow,
    LightBlue,
    LightMagenta,
    LightCyan,
    White,
    Rgb(u8, u8, u8),
    Indexed(u8),
}

/// A style patch: each field, when present, overrides the corresponding
/// attribute of a cell; an absent field leaves the attribute as it was.
#[derive(Clone, Copy, PartialEq, Debug)]
pub struct Style {
    pub fg: Option<Color>,
    pub bg: Option<Color>,
}

/// Number of accent colors in the fixed cycling ring.
pub open spec fn ring_len() -> int {
    7
}

/// The accent-color ring, in cycling order.
pub open spec fn ring_color(i: int) -> Color {
    if i == 0 {
        Color::Green
    } else if i == 1 {
        Color::Yellow
    } else if i == 2 {
        Color::Red
    } else if i == 3 {
        Color::Blue
    } else if i == 4 {
        Color::Magenta
    } else if i == 5 {
        Color::Cyan
    } else {
        Color::Reset
    }
}

/// Position of a color in the accent ring, if it is one of its members.
pub open spec fn ring_index(c: Color) -> Option<u8> {
    match c {
        Color::Green => Some(0u8),
        Color::Yellow => Some(1u8),
        Color::Red => Some(2u8),
        Color::Blue => Some(3u8),
        Color::Magenta => Some(4u8),
        Color::Cyan => Some(5u8),
        Color::Reset => Some(6u8),
        _ => None,
    }
}

/// The ring member at a given position.
pub fn ring_color_at(i: u8) -> (c: Color)
    requires
        i < ring_len(),
    ensures
        c == ring_color(i as int),
{
    if i == 0 {
        Color::Green
    } else if i == 1 {
        Color::Yellow
    } else if i == 2 {
        Color::Red
    } else if i == 3 {
        Color::Blue
    } else if i == 4 {
        Color::Magenta
    } else if i == 5 {
        Color::Cyan
    } else {
        Color::Reset
    }
}

/// Position of a color in the accent ring, if any.
pub fn ring_position(c: Color) -> (r: Option<u8>)
    ensures
        r == ring_index(c),
{
    match c {
        Color::Green => Some(0u8),
        Color::Yellow => Some(1u8),
        Color::Red => Some(2u8),
        Color::Blue => Some(3u8),
        Color::Magenta => Some(4u8),
        Color::Cyan => Some(5u8),
        Color::Reset => Some(6u8),
        _ => None,
    }
}

/// What the terminal library's color parser makes of a string: `None` where
/// the string names no color. The result depends on the characters alone.
pub uninterp spec fn color_of(s: Seq<char>) -> Option<Color>;

/// Relies on ratatui's `Color::from_str`: it parses color names (with
/// normalization of case, spacing and a few aliases), `#rrggbb` hex triples
/// and `u8` table indices, and fails on everything else; the outcome depends
/// on the characters of the input alone.
#[verifier::external_body]
pub(crate) fn color_from_name(s: &str) -> (r: Option<Color>)
    ensures
        r == color_of(s@),
{
    let c = TC::from_str(s).ok()?;
    Some(match c {
        TC::Reset => Color::Reset, TC::Black => Color::Black, TC::Red => Color::Red,
        TC::Green => Color::Green, TC::Yellow => Color::Yellow, TC::Blue => Color::Blue,
        TC::Magenta => Color::Magenta, TC::Cyan => Color::Cyan, TC::Gray => Color::Gray,
        TC::DarkGray => Color::DarkGray, TC::LightRed => Color::LightRed,
        TC::LightGreen => Color::LightGreen, TC::LightYellow => Color::LightYellow,
        TC::LightBlue => Color::LightBlue, TC::LightMagenta => Color::LightMagenta,
        TC::LightCyan => Color::LightCyan, TC::White => Color::White,
        TC::Rgb(r, g, b) => Color::Rgb(r, g, b), TC::Indexed(i) => Color::Indexed(i),
    })
}

} // verus!
