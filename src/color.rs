use vstd::prelude::*;

verus! {

/// The sixteen text-mode colors, in the order of their hardware numbers.
#[derive(Debug, Clone, Copy, PartialEq, Eq)]
pub enum Color {
    Black,
    Blue,
    Green,
    Cyan,
    Red,
    Magenta,
    Brown,
    LightGray,
    DarkGray,
    LightBlue,
    LightGreen,
    LightCyan,
    LightRed,
    Pink,
    Yellow,
    White,
}

/// The hardware number of a color.
pub open spec fn color_number(c: Color) -> u8 {
    match c {
        Color::Black => 0,
        Color::Blue => 1,
        Color::Green => 2,
        Color::Cyan => 3,
        Color::Red => 4,
        Color::Magenta => 5,
        Color::Brown => 6,
        Color::LightGray => 7,
        Color::DarkGray => 8,
        Color::LightBlue => 9,
        Color::LightGreen => 10,
        Color::LightCyan => 11,
        Color::LightRed => 12,
        Color::Pink => 13,
        Color::Yellow => 14,
        Color::White => 15,
    }
}

impl Color {
    /// The hardware number of this color, in `0..16`.
    pub fn number(self) -> (r: u8)
        ensures
            r == color_number(self),
            r < 16,
    {
        match self {
            Color::Black => 0,
            Color::Blue => 1,
            Color::Green => 2,
            Color::Cyan => 3,
            Color::Red => 4,
            Color::Magenta => 5,
            Color::Brown => 6,
            Color::LightGray => 7,
            Color::DarkGray => 8,
            Color::LightBlue => 9,
            Color::LightGreen => 10,
            Color::LightCyan => 11,
            Color::LightRed => 12,
            Color::Pink => 13,
            Color::Yellow => 14,
            Color::White => 15,
        }
    }
}

/// A packed attribute byte: background in the high nibble, foreground in the low one.
#[derive(Debug, Clone, Copy, PartialEq, Eq, Structural)]
pub struct ColorCode(pub u8);

/// The attribute byte for a foreground and a background color.
pub open spec fn color_code_of(foreground: Color, background: Color) -> u8 {
    (color_number(background) * 16 + color_number(foreground)) as u8
}

impl ColorCode {
    /// The attribute for a foreground on a background.
    pub fn new(foreground: Color, background: Color) -> (r: ColorCode)
        ensures
            r.0 == color_code_of(foreground, background),
            r.0 as int == color_number(background) * 16 + color_number(foreground),
    {
        let fg = foreground.number();
        let bg = background.number();
        ColorCode(bg * 16 + fg)
    }
}

} // verus!
