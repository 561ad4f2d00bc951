//! Symbolic note durations.
//!
//! Every duration is measured in beat units of 1/64 beat (see
//! [`crate::BEAT_UNITS_PER_BEAT`]), so a quarter note is 64 units and a
//! sixty-fourth note is 4 units.  The unit is fine enough that dotting a
//! note (3/2 of the plain length) stays exact for every variant.

use vstd::prelude::*;

verus! {

#[derive(Clone, Copy, Debug, PartialEq, Eq, Structural)]
pub enum NoteDuration {
    Whole,
    Half,
    Quarter,
    Eighth,
    Sixteenth,
    ThirtySecond,
    SixtyFourth,
}

impl NoteDuration {
    /// Length of this duration in beat units (1/64 of a beat).
    pub open spec fn spec_beat_units(self) -> u64 {
        match self {
            NoteDuration::Whole => 256,
            NoteDuration::Half => 128,
            NoteDuration::Quarter => 64,
            NoteDuration::Eighth => 32,
            NoteDuration::Sixteenth => 16,
            NoteDuration::ThirtySecond => 8,
            NoteDuration::SixtyFourth => 4,
        }
    }

    pub fn beat_units(self) -> (units: u64)
        ensures
            units == self.spec_beat_units(),
            4 <= units <= 256,
            units % 4 == 0,
    {
        match self {
            NoteDuration::Whole => 256,
            NoteDuration::Half => 128,
            NoteDuration::Quarter => 64,
            NoteDuration::Eighth => 32,
            NoteDuration::Sixteenth => 16,
            NoteDuration::ThirtySecond => 8,
            NoteDuration::SixtyFourth => 4,
        }
    }

    pub open spec fn spec_label(self) -> Seq<char> {
        match self {
            NoteDuration::Whole => "Semibreve"@,
            NoteDuration::Half => "Mínima"@,
            NoteDuration::Quarter => "Semínima"@,
            NoteDuration::Eighth => "Colcheia"@,
            NoteDuration::Sixteenth => "Semicolcheia"@,
            NoteDuration::ThirtySecond => "Fusa"@,
            NoteDuration::SixtyFourth => "Semifusa"@,
        }
    }

    pub fn label(self) -> (name: &'static str)
        ensures
            name@ == self.spec_label(),
    {
        match self {
            NoteDuration::Whole => "Semibreve",
            NoteDuration::Half => "Mínima",
            NoteDuration::Quarter => "Semínima",
            NoteDuration::Eighth => "Colcheia",
            NoteDuration::Sixteenth => "Semicolcheia",
            NoteDuration::ThirtySecond => "Fusa",
            NoteDuration::SixtyFourth => "Semifusa",
        }
    }

    /// How many flags (or beams) the note head carries.
    pub open spec fn spec_flag_count(self) -> usize {
        match self {
            NoteDuration::Whole | NoteDuration::Half | NoteDuration::Quarter => 0,
            NoteDuration::Eighth => 1,
            NoteDuration::Sixteenth => 2,
            NoteDuration::ThirtySecond => 3,
            NoteDuration::SixtyFourth => 4,
        }
    }

    pub fn flag_count(self) -> (count: usize)
        ensures
            count == self.spec_flag_count(),
    {
        match self {
            NoteDuration::Whole | NoteDuration::Half | NoteDuration::Quarter => 0,
            NoteDuration::Eighth => 1,
            NoteDuration::Sixteenth => 2,
            NoteDuration::ThirtySecond => 3,
            NoteDuration::SixtyFourth => 4,
        }
    }

    /// The widest duration that fits the given number of beat units,
    /// with the same generous thresholds the editor uses when it reads
    /// a rhythmic length back from beat counts.
    pub open spec fn spec_from_beat_units(units: u64) -> NoteDuration {
        if units >= 224 {
            NoteDuration::Whole
        } else if units >= 96 {
            NoteDuration::Half
        } else if units >= 48 {
            NoteDuration::Quarter
        } else if units >= 24 {
            NoteDuration::Eighth
        } else if units >= 12 {
            NoteDuration::Sixteenth
        } else if units >= 6 {
            NoteDuration::ThirtySecond
        } else {
            NoteDuration::SixtyFourth
        }
    }

    pub fn from_beat_units(units: u64) -> (duration: NoteDuration)
        ensures
            duration == NoteDuration::spec_from_beat_units(units),
    {
        if units >= 224 {
            NoteDuration::Whole
        } else if units >= 96 {
            NoteDuration::Half
        } else if units >= 48 {
            NoteDuration::Quarter
        } else if units >= 24 {
            NoteDuration::Eighth
        } else if units >= 12 {
            NoteDuration::Sixteenth
        } else if units >= 6 {
            NoteDuration::ThirtySecond
        } else {
            NoteDuration::SixtyFourth
        }
    }
}

} // verus!
