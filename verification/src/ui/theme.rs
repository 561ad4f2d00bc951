//! The palette the interface chrome draws with.

use vstd::prelude::*;

verus! {

#[derive(Clone, Copy, Debug, PartialEq, Eq, Structural)]
pub struct Color32 {
    pub r: u8,
    pub g: u8,
    pub b: u8,
    pub a: u8,
}

impl Color32 {
    pub fn from_rgb(r: u8, g: u8, b: u8) -> (color: Color32)
        ensures
            color == (Color32 { r, g, b, a: 255 }),
    {
        Color32 { r, g, b, a: 255 }
    }
}

#[derive(Clone, Copy, Debug, PartialEq, Eq, Structural)]
pub struct NotariumTheme {
    pub background: Color32,
    pub panel: Color32,
    pub button: Color32,
    pub button_hover: Color32,
    pub accent: Color32,
    pub text: Color32,
}

impl NotariumTheme {
    /// The night-red chrome palette.
    pub fn noturno_vermelho() -> (theme: NotariumTheme)
        ensures
            theme == (NotariumTheme {
                background: Color32 { r: 0x1a, g: 0x00, b: 0x00, a: 255 },
                panel: Color32 { r: 0x24, g: 0x00, b: 0x00, a: 255 },
                button: Color32 { r: 0x5a, g: 0x00, b: 0x00, a: 255 },
                button_hover: Color32 { r: 0x7a, g: 0x00, b: 0x00, a: 255 },
                accent: Color32 { r: 0xcc, g: 0x00, b: 0x00, a: 255 },
                text: Color32 { r: 0xf2, g: 0xea, b: 0xea, a: 255 },
            }),
    {
        NotariumTheme {
            background: Color32::from_rgb(0x1a, 0x00, 0x00),
            panel: Color32::from_rgb(0x24, 0x00, 0x00),
            button: Color32::from_rgb(0x5a, 0x00, 0x00),
            button_hover: Color32::from_rgb(0x7a, 0x00, 0x00),
            accent: Color32::from_rgb(0xcc, 0x00, 0x00),
            text: Color32::from_rgb(0xf2, 0xea, 0xea),
        }
    }
}

} // verus!
