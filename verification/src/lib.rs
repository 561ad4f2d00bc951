//! Notarium core library: score model, playback planning and the
//! supporting registries of a small music-notation application.

use vstd::prelude::*;

pub mod audio;
pub mod common;
pub mod editor;
pub mod engraving;
pub mod export;
pub mod input;
pub mod instruments;
pub mod music;
pub mod notation;
pub mod playback;
pub mod plugins;
pub mod project;
pub mod render;
pub mod text;
pub mod theme;
pub mod ui;

verus! {

/// Number of beat units that make up one beat.
///
/// All rhythmic lengths in this crate are counted in fixed units of
/// 1/64 of a beat, so that dotted notes (3/2 of the plain length) and
/// every symbolic duration down to a sixty-fourth note have an exact
/// integer size.
pub const BEAT_UNITS_PER_BEAT: u64 = 64;

} // verus!
