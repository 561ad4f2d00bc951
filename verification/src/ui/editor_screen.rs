//! The editor screen's score summary.

use vstd::prelude::*;

use crate::instruments::registry::Instrument;
use crate::project::{KeySignature, TimeSignature};

verus! {

/// The score the editor screen works on.
#[derive(Debug)]
pub struct Score {
    pub title: String,
    pub instruments: Vec<Instrument>,
    pub tempo_bpm: u32,
    pub key_signature: KeySignature,
    pub time_signature: TimeSignature,
}

} // verus!
