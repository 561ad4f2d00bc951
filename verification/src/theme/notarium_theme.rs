//! The fixed night and day palettes of the editor chrome.

use vstd::prelude::*;

verus! {

#[derive(Clone, Copy, Debug, PartialEq, Eq, Structural)]
pub struct Color {
    pub r: u8,
    pub g: u8,
    pub b: u8,
    pub a: u8,
}

impl Color {
    pub fn from_rgb(r: u8, g: u8, b: u8) -> (color: Color)
        ensures
            color == (Color { r, g, b, a: 255 }),
    {
        Color { r, g, b, a: 255 }
    }
}

#[derive(Clone, Copy, Debug, PartialEq, Eq, Structural)]
pub struct NotariumTheme {
    pub background: Color,
    pub panel: Color,
    pub accent: Color,
    pub highlight: Color,
    pub text_primary: Color,
}

impl NotariumTheme {
    /// The night palette.
    pub fn noturno() -> (theme: NotariumTheme)
        ensures
            theme == (NotariumTheme {
                background: Color { r: 0x1a, g: 0x00, b: 0x00, a: 255 },
                panel: Color { r: 0x5a, g: 0x00, b: 0x00, a: 255 },
                accent: Color { r: 0xcc, g: 0x00, b: 0x00, a: 255 },
                highlight: Color { r: 0xff, g: 0x33, b: 0x33, a: 255 },
                text_primary: Color { r: 0xf2, g: 0xea, b: 0xea, a: 255 },
            }),
    {
        NotariumTheme {
            background: Color::from_rgb(0x1a, 0x00, 0x00),
            panel: Color::from_rgb(0x5a, 0x00, 0x00),
            accent: Color::from_rgb(0xcc, 0x00, 0x00),
            highlight: Color::from_rgb(0xff, 0x33, 0x33),
            text_primary: Color::from_rgb(0xf2, 0xea, 0xea),
        }
    }

    /// The day palette.
    pub fn claro() -> (theme: NotariumTheme)
        ensures
            theme == (NotariumTheme {
                background: Color { r: 0xf8, g: 0xf8, b: 0xf8, a: 255 },
                panel: Color { r: 0xea, g: 0xea, b: 0xea, a: 255 },
                accent: Color { r: 0x88, g: 0x00, b: 0x00, a: 255 },
                highlight: Color { r: 0xcc, g: 0x22, b: 0x22, a: 255 },
                text_primary: Color { r: 0x1c, g: 0x12, b: 0x12, a: 255 },
            }),
    {
        NotariumTheme {
            background: Color::from_rgb(0xf8, 0xf8, 0xf8),
            panel: Color::from_rgb(0xea, 0xea, 0xea),
            accent: Color::from_rgb(0x88, 0x00, 0x00),
            highlight: Color::from_rgb(0xcc, 0x22, 0x22),
            text_primary: Color::from_rgb(0x1c, 0x12, 0x12),
        }
    }
}

} // verus!
