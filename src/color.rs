use vstd::prelude::*;

verus! {

/// The symbolic colors in which the editor draws text.
#[derive(Clone, Copy, Debug, PartialEq, Eq, Structural)]
pub enum CharColor {
    Blue,
    Red,
    Black,
    Magenta,
    Green,
    Yellow,
    White,
    Cyan,
    Orange,
    Gray,
    DarkGray,
}

/// A color as a cell-based terminal backend takes it: one of the eight
/// base terminal colors, an index into the extended palette, or the
/// terminal's default color.
#[derive(Clone, Copy, Debug, PartialEq, Eq, Structural)]
pub enum NativeColor {
    Black,
    Red,
    Green,
    Yellow,
    Blue,
    Magenta,
    Cyan,
    White,
    Byte(u16),
    Default,
}

/// Palette index of `CharColor::Orange`.
pub const ORANGE_INDEX: u16 = 0x10;
/// Palette index of `CharColor::Gray`.
pub const GRAY_INDEX: u16 = 0x08;
/// Palette index of `CharColor::DarkGray`.
pub const DARK_GRAY_INDEX: u16 = 19;

/// The backend color that draws a symbolic color.
pub open spec fn color_of(c: CharColor) -> NativeColor {
    match c {
        CharColor::Blue => NativeColor::Blue,
        CharColor::Red => NativeColor::Red,
        CharColor::Black => NativeColor::Black,
        CharColor::Magenta => NativeColor::Magenta,
        CharColor::Green => NativeColor::Green,
        CharColor::Yellow => NativeColor::Yellow,
        CharColor::White => NativeColor::White,
        CharColor::Cyan => NativeColor::Cyan,
        CharColor::Orange => NativeColor::Byte(ORANGE_INDEX),
        CharColor::Gray => NativeColor::Byte(GRAY_INDEX),
        CharColor::DarkGray => NativeColor::Byte(DARK_GRAY_INDEX),
    }
}

/// Translates a symbolic color into the backend color that draws it.
pub fn get_color(c: CharColor) -> (r: NativeColor)
    ensures
        r == color_of(c),
{
    match c {
        CharColor::Blue => NativeColor::Blue,
        CharColor::Red => NativeColor::Red,
        CharColor::Black => NativeColor::Black,
        CharColor::Magenta => NativeColor::Magenta,
        CharColor::Green => NativeColor::Green,
        CharColor::Yellow => NativeColor::Yellow,
        CharColor::White => NativeColor::White,
        CharColor::Cyan => NativeColor::Cyan,
        CharColor::Orange => NativeColor::Byte(ORANGE_INDEX),
        CharColor::Gray => NativeColor::Byte(GRAY_INDEX),
        CharColor::DarkGray => NativeColor::Byte(DARK_GRAY_INDEX),
    }
}

/// Every symbolic color is drawn with a backend color of its own: no two
/// colors collapse to the same backend value.
pub proof fn lemma_colors_distinct(a: CharColor, b: CharColor)
    ensures
        color_of(a) == color_of(b) ==> a == b,
{
}

} // verus!
