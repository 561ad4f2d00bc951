//! Visual themes.

pub mod notarium;
pub mod notarium_theme;
