//! Pitches, accidentals and note events.

use vstd::prelude::*;

use crate::music::duration::NoteDuration;
use crate::music::Instrument;
use crate::text::{dec_rep, u64_to_dec_string};

verus! {

pub type NoteId = u64;

#[derive(Clone, Copy, Debug, PartialEq, Eq, Structural)]
pub enum StemDirection {
    Up,
    Down,
}

#[derive(Clone, Copy, Debug, PartialEq, Eq, Structural)]
pub enum Accidental {
    Sharp,
    Flat,
    Natural,
    Unmarked,
}

impl Accidental {
    /// How many semitones the accidental shifts the written pitch.
    pub open spec fn spec_semitone(self) -> int {
        match self {
            Accidental::Sharp => 1,
            Accidental::Flat => -1,
            Accidental::Natural | Accidental::Unmarked => 0,
        }
    }

    pub fn semitone(self) -> (shift: i32)
        ensures
            shift == self.spec_semitone(),
    {
        match self {
            Accidental::Sharp => 1,
            Accidental::Flat => -1,
            Accidental::Natural | Accidental::Unmarked => 0,
        }
    }

    pub open spec fn spec_symbol(self) -> Seq<char> {
        match self {
            Accidental::Sharp => "♯"@,
            Accidental::Flat => "♭"@,
            Accidental::Natural => "♮"@,
            Accidental::Unmarked => ""@,
        }
    }

    pub fn symbol(self) -> (sym: &'static str)
        ensures
            sym@ == self.spec_symbol(),
    {
        match self {
            Accidental::Sharp => "♯",
            Accidental::Flat => "♭",
            Accidental::Natural => "♮",
            Accidental::Unmarked => "",
        }
    }

    pub open spec fn spec_label(self) -> Seq<char> {
        match self {
            Accidental::Sharp => "Sustenido"@,
            Accidental::Flat => "Bemol"@,
            Accidental::Natural => "Bequadro"@,
            Accidental::Unmarked => "Sem acidente"@,
        }
    }

    pub fn label(self) -> (name: &'static str)
        ensures
            name@ == self.spec_label(),
    {
        match self {
            Accidental::Sharp => "Sustenido",
            Accidental::Flat => "Bemol",
            Accidental::Natural => "Bequadro",
            Accidental::Unmarked => "Sem acidente",
        }
    }
}

#[derive(Clone, Copy, Debug, PartialEq, Eq, Structural)]
pub enum PitchClass {
    C,
    D,
    E,
    F,
    G,
    A,
    B,
}

impl PitchClass {
    /// Semitone offset of the letter class above C.
    pub open spec fn spec_semitone_offset(self) -> int {
        match self {
            PitchClass::C => 0,
            PitchClass::D => 2,
            PitchClass::E => 4,
            PitchClass::F => 5,
            PitchClass::G => 7,
            PitchClass::A => 9,
            PitchClass::B => 11,
        }
    }

    pub fn semitone_offset(self) -> (offset: i32)
        ensures
            offset == self.spec_semitone_offset(),
            0 <= offset <= 11,
    {
        match self {
            PitchClass::C => 0,
            PitchClass::D => 2,
            PitchClass::E => 4,
            PitchClass::F => 5,
            PitchClass::G => 7,
            PitchClass::A => 9,
            PitchClass::B => 11,
        }
    }

    pub open spec fn spec_label(self) -> Seq<char> {
        match self {
            PitchClass::C => "C"@,
            PitchClass::D => "D"@,
            PitchClass::E => "E"@,
            PitchClass::F => "F"@,
            PitchClass::G => "G"@,
            PitchClass::A => "A"@,
            PitchClass::B => "B"@,
        }
    }

    pub fn label(self) -> (name: &'static str)
        ensures
            name@ == self.spec_label(),
    {
        match self {
            PitchClass::C => "C",
            PitchClass::D => "D",
            PitchClass::E => "E",
            PitchClass::F => "F",
            PitchClass::G => "G",
            PitchClass::A => "A",
            PitchClass::B => "B",
        }
    }
}

#[derive(Clone, Copy, Debug, PartialEq, Eq, Structural)]
pub struct Pitch {
    pub class: PitchClass,
    pub octave: i8,
    pub accidental: Accidental,
}

impl Pitch {
    /// MIDI number of the pitch: octaves count twelve semitones each
    /// and C of octave -1 is MIDI 0, so A of octave 4 is MIDI 69.
    pub open spec fn spec_midi_number(self) -> int {
        (self.octave as i32 + 1) * 12 + self.class.spec_semitone_offset()
            + self.accidental.spec_semitone()
    }

    pub fn midi_number(self) -> (midi: i32)
        ensures
            midi == self.spec_midi_number(),
            -1525 <= midi <= 1548,
    {
        (self.octave as i32 + 1) * 12 + self.class.semitone_offset() + self.accidental.semitone()
    }

    /// Printable name of the pitch: letter class, accidental symbol,
    /// octave number (a leading minus sign for negative octaves).
    pub open spec fn spec_display(self) -> Seq<char> {
        self.class.spec_label() + self.accidental.spec_symbol() + (if self.octave < 0 {
            "-"@ + dec_rep((-(self.octave as int)) as nat)
        } else {
            dec_rep(self.octave as nat)
        })
    }

    pub fn label(self) -> (name: String)
        ensures
            name@ == self.spec_display(),
    {
        let mut name = self.class.label().to_owned();
        name.append(self.accidental.symbol());
        if self.octave < 0 {
            name.append("-");
            let magnitude: u64 = (-(self.octave as i64)) as u64;
            let digits = u64_to_dec_string(magnitude);
            name.append(digits.as_str());
        } else {
            let digits = u64_to_dec_string(self.octave as u64);
            name.append(digits.as_str());
        }
        name
    }
}

#[derive(Clone, Debug)]
pub struct NoteEvent {
    pub pitch: Pitch,
    pub duration: NoteDuration,
    pub instrument: Instrument,
    pub dotted: bool,
    pub tie_start: bool,
    pub tie_end: bool,
    pub velocity: u8,
}

impl NoteEvent {
    pub fn new(pitch: Pitch, duration: NoteDuration, instrument: Instrument) -> (event: NoteEvent)
        ensures
            event.pitch == pitch,
            event.duration == duration,
            event.instrument == instrument,
            !event.dotted,
            !event.tie_start,
            !event.tie_end,
            event.velocity == 100,
    {
        NoteEvent {
            pitch,
            duration,
            instrument,
            dotted: false,
            tie_start: false,
            tie_end: false,
            velocity: 100,
        }
    }

    /// Sounding length in beat units: the plain duration, half as much
    /// again when the note is dotted.
    pub open spec fn spec_effective_beat_units(self) -> u64 {
        if self.dotted {
            (self.duration.spec_beat_units() * 3 / 2) as u64
        } else {
            self.duration.spec_beat_units()
        }
    }

    pub fn effective_beat_units(&self) -> (units: u64)
        ensures
            units == self.spec_effective_beat_units(),
            4 <= units <= 384,
    {
        let base = self.duration.beat_units();
        if self.dotted {
            base * 3 / 2
        } else {
            base
        }
    }
}

/// The sounding length of a dotted note is exactly one and a half
/// times the sounding length of the same note without the dot.
pub proof fn lemma_dotted_is_one_and_a_half(dotted: NoteEvent, plain: NoteEvent)
    requires
        dotted.duration == plain.duration,
        dotted.dotted,
        !plain.dotted,
    ensures
        2 * dotted.spec_effective_beat_units() == 3 * plain.spec_effective_beat_units(),
{
}

} // verus!
