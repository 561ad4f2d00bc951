//! The official Notarium theme, selectable in a dark and a light
//! mode.

use vstd::prelude::*;

verus! {

/// An RGBA color in 8-bit sRGB space.
#[derive(Clone, Copy, Debug, PartialEq, Eq, Structural)]
pub struct Color {
    pub r: u8,
    pub g: u8,
    pub b: u8,
    pub a: u8,
}

impl Color {
    pub fn rgba(r: u8, g: u8, b: u8, a: u8) -> (color: Color)
        ensures
            color == (Color { r, g, b, a }),
    {
        Color { r, g, b, a }
    }

    pub fn rgb(r: u8, g: u8, b: u8) -> (color: Color)
        ensures
            color == (Color { r, g, b, a: 255 }),
    {
        Color { r, g, b, a: 255 }
    }
}

#[derive(Clone, Copy, Debug, PartialEq, Eq, Structural)]
pub enum ThemeMode {
    DarkRed,
    Light,
}

/// The official visual theme.
#[derive(Clone, Debug, PartialEq, Eq, Structural)]
pub struct NotariumTheme {
    pub background: Color,
    pub panel: Color,
    pub accent: Color,
    pub highlight: Color,
    pub text_primary: Color,
}

/// The palette of each theme mode.
pub open spec fn spec_theme_palette(mode: ThemeMode) -> NotariumTheme {
    match mode {
        ThemeMode::DarkRed => NotariumTheme {
            background: Color { r: 0x1a, g: 0x00, b: 0x00, a: 255 },
            panel: Color { r: 0x5a, g: 0x00, b: 0x00, a: 255 },
            accent: Color { r: 0x8a, g: 0x00, b: 0x00, a: 255 },
            highlight: Color { r: 0xcc, g: 0x00, b: 0x00, a: 255 },
            text_primary: Color { r: 0xf2, g: 0xea, b: 0xea, a: 255 },
        },
        ThemeMode::Light => NotariumTheme {
            background: Color { r: 0xf6, g: 0xf2, b: 0xf2, a: 255 },
            panel: Color { r: 0xe6, g: 0xd6, b: 0xd6, a: 255 },
            accent: Color { r: 0x9e, g: 0x66, b: 0x66, a: 255 },
            highlight: Color { r: 0xcc, g: 0x00, b: 0x00, a: 255 },
            text_primary: Color { r: 0x1e, g: 0x10, b: 0x10, a: 255 },
        },
    }
}

impl NotariumTheme {
    /// The palette for the chosen mode.
    pub fn new(mode: ThemeMode) -> (theme: NotariumTheme)
        ensures
            theme == spec_theme_palette(mode),
    {
        match mode {
            ThemeMode::DarkRed => NotariumTheme {
                background: Color::rgb(0x1a, 0x00, 0x00),
                panel: Color::rgb(0x5a, 0x00, 0x00),
                accent: Color::rgb(0x8a, 0x00, 0x00),
                highlight: Color::rgb(0xcc, 0x00, 0x00),
                text_primary: Color::rgb(0xf2, 0xea, 0xea),
            },
            ThemeMode::Light => NotariumTheme {
                background: Color::rgb(0xf6, 0xf2, 0xf2),
                panel: Color::rgb(0xe6, 0xd6, 0xd6),
                accent: Color::rgb(0x9e, 0x66, 0x66),
                highlight: Color::rgb(0xcc, 0x00, 0x00),
                text_primary: Color::rgb(0x1e, 0x10, 0x10),
            },
        }
    }
}

} // verus!
