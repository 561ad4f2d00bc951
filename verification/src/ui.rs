//! State carried by the application's screens.

pub mod app;
pub mod components;
pub mod editor_screen;
pub mod home_screen;
pub mod new_score_screen;
pub mod start_screen;
pub mod theme;
