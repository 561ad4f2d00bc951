//! The instrument model used by the local repository.

use vstd::prelude::*;

use crate::common::id::Id;

verus! {

#[derive(Clone, Copy, Debug, PartialEq, Eq, Hash, Structural)]
pub enum Clef {
    Treble,
    Bass,
    Alto,
    Tenor,
    Percussion,
}

#[derive(Clone, Copy, Debug, PartialEq, Eq, Hash, Structural)]
pub struct Pitch {
    pub midi_note: u8,
}

impl Pitch {
    pub fn new(midi_note: u8) -> (pitch: Pitch)
        ensures
            pitch.midi_note == midi_note,
    {
        Pitch { midi_note }
    }
}

#[derive(Clone, Copy, Debug, PartialEq, Eq, Hash, Structural)]
pub enum InstrumentFamily {
    Orchestral,
    Baroque,
    Medieval,
    Ethnic,
    Electronic,
    VoiceSatb,
    GlobalPercussion,
}

#[derive(Debug)]
pub struct Instrument {
    pub id: Id,
    pub name: String,
    pub family: InstrumentFamily,
    pub range_low: Pitch,
    pub range_high: Pitch,
    pub transposition: i8,
    pub clef: Clef,
    pub midi_program: u8,
}

impl Instrument {
    /// Field-for-field agreement, comparing the name by content.
    pub open spec fn spec_matches(self, other: Instrument) -> bool {
        &&& self.id == other.id
        &&& self.name@ == other.name@
        &&& self.family == other.family
        &&& self.range_low == other.range_low
        &&& self.range_high == other.range_high
        &&& self.transposition == other.transposition
        &&& self.clef == other.clef
        &&& self.midi_program == other.midi_program
    }
}

impl Clone for Instrument {
    fn clone(&self) -> (res: Self)
        ensures
            res.spec_matches(*self),
    {
        Instrument {
            id: self.id,
            name: self.name.clone(),
            family: self.family,
            range_low: self.range_low,
            range_high: self.range_high,
            transposition: self.transposition,
            clef: self.clef,
            midi_program: self.midi_program,
        }
    }
}

} // verus!
