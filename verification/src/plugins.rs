//! External plugin hosting interfaces.

pub mod vst3;
