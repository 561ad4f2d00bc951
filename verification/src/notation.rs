//! Notation-page helpers: note placement, the keyboard tool, and the
//! small lookups the page drawer uses.

use vstd::prelude::*;

use crate::music::{Accidental, Instrument, NoteDuration, Pitch, PitchClass};

verus! {

/// A click resolved to a note insertion.
#[derive(Clone, Copy, Debug)]
pub struct NotePlacement {
    pub instrument: Instrument,
    pub insert_index: usize,
    pub pitch: Pitch,
}

#[derive(Clone, Copy, Debug, PartialEq, Eq, Structural)]
pub enum KeyboardTool {
    Inactive,
    Insert,
}

/// Whether a notehead carries a stem: every duration but the whole
/// note does.
pub fn needs_stem(duration: NoteDuration) -> (stem: bool)
    ensures
        stem == (duration != NoteDuration::Whole),
{
    match duration {
        NoteDuration::Half
        | NoteDuration::Quarter
        | NoteDuration::Eighth
        | NoteDuration::Sixteenth
        | NoteDuration::ThirtySecond
        | NoteDuration::SixtyFourth => true,
        NoteDuration::Whole => false,
    }
}

/// The letter class a MIDI semitone maps to when spelled without
/// accidentals: sharps collapse onto the natural below.
pub open spec fn spec_class_for_semitone(semitone: int) -> PitchClass {
    if semitone == 0 || semitone == 1 {
        PitchClass::C
    } else if semitone == 2 || semitone == 3 {
        PitchClass::D
    } else if semitone == 4 {
        PitchClass::E
    } else if semitone == 5 || semitone == 6 {
        PitchClass::F
    } else if semitone == 7 || semitone == 8 {
        PitchClass::G
    } else if semitone == 9 || semitone == 10 {
        PitchClass::A
    } else {
        PitchClass::B
    }
}

/// Spells a MIDI number as an unmarked pitch: the octave holds twelve
/// semitones with C of octave -1 at MIDI 0, and the letter class is
/// the natural at or below the semitone.
pub fn midi_to_pitch(midi: u8) -> (pitch: Pitch)
    requires
        midi <= 127,
    ensures
        pitch.class == spec_class_for_semitone(midi as int % 12),
        pitch.octave == midi as int / 12 - 1,
        pitch.accidental == Accidental::Unmarked,
{
    let semitone = midi % 12;
    let octave = (midi / 12) as i8 - 1;
    let class = if semitone == 0 || semitone == 1 {
        PitchClass::C
    } else if semitone == 2 || semitone == 3 {
        PitchClass::D
    } else if semitone == 4 {
        PitchClass::E
    } else if semitone == 5 || semitone == 6 {
        PitchClass::F
    } else if semitone == 7 || semitone == 8 {
        PitchClass::G
    } else if semitone == 9 || semitone == 10 {
        PitchClass::A
    } else {
        PitchClass::B
    };
    Pitch { class, octave, accidental: Accidental::Unmarked }
}

impl Instrument {
    pub open spec fn spec_short_name(self) -> Seq<char> {
        match self {
            Instrument::Violin => "Vln."@,
            Instrument::Viola => "Vla."@,
            Instrument::Cello => "Vcl."@,
            Instrument::Flute => "Fl."@,
            Instrument::Clarinet => "Cl."@,
            Instrument::Trumpet => "Tpt."@,
            Instrument::Horn => "Hn."@,
            Instrument::Timpani => "Tmp."@,
            Instrument::Piano => "Pno."@,
        }
    }
}

/// The abbreviated instrument name shown at the staff margin.
pub fn instrument_short_name(instrument: Instrument) -> (name: &'static str)
    ensures
        name@ == instrument.spec_short_name(),
{
    match instrument {
        Instrument::Violin => "Vln.",
        Instrument::Viola => "Vla.",
        Instrument::Cello => "Vcl.",
        Instrument::Flute => "Fl.",
        Instrument::Clarinet => "Cl.",
        Instrument::Trumpet => "Tpt.",
        Instrument::Horn => "Hn.",
        Instrument::Timpani => "Tmp.",
        Instrument::Piano => "Pno.",
    }
}

} // verus!
