//! Time signatures and measures.

use vstd::prelude::*;

use crate::music::duration::NoteDuration;

verus! {

#[derive(Clone, Copy, Debug, PartialEq, Eq, Structural)]
pub enum TimeSignature {
    FourFour,
    ThreeFour,
    TwoFour,
    SixEight,
}

impl TimeSignature {
    pub open spec fn spec_label(self) -> Seq<char> {
        match self {
            TimeSignature::FourFour => "4/4"@,
            TimeSignature::ThreeFour => "3/4"@,
            TimeSignature::TwoFour => "2/4"@,
            TimeSignature::SixEight => "6/8"@,
        }
    }

    pub fn label(self) -> (name: &'static str)
        ensures
            name@ == self.spec_label(),
    {
        match self {
            TimeSignature::FourFour => "4/4",
            TimeSignature::ThreeFour => "3/4",
            TimeSignature::TwoFour => "2/4",
            TimeSignature::SixEight => "6/8",
        }
    }

    /// Length of one measure in beat units (compound six-eight counts
    /// three quarter-note beats, as the editor does).
    pub open spec fn spec_beats_per_measure_units(self) -> u64 {
        match self {
            TimeSignature::FourFour => 256,
            TimeSignature::ThreeFour => 192,
            TimeSignature::TwoFour => 128,
            TimeSignature::SixEight => 192,
        }
    }

    pub fn beats_per_measure_units(self) -> (units: u64)
        ensures
            units == self.spec_beats_per_measure_units(),
            128 <= units <= 256,
    {
        match self {
            TimeSignature::FourFour => 256,
            TimeSignature::ThreeFour => 192,
            TimeSignature::TwoFour => 128,
            TimeSignature::SixEight => 192,
        }
    }

    /// Which symbolic duration carries the beat.
    pub open spec fn spec_beat_unit(self) -> NoteDuration {
        match self {
            TimeSignature::SixEight => NoteDuration::Eighth,
            _ => NoteDuration::Quarter,
        }
    }

    pub fn beat_unit(self) -> (duration: NoteDuration)
        ensures
            duration == self.spec_beat_unit(),
    {
        match self {
            TimeSignature::SixEight => NoteDuration::Eighth,
            _ => NoteDuration::Quarter,
        }
    }
}

/// One measure of a staff, located by its starting beat.  Lengths are
/// held exactly: the start in beat units, the engraved width in
/// thousandths of a staff-space unit.
#[derive(Clone, Copy, Debug, PartialEq, Eq, Structural)]
pub struct Measure {
    pub index: usize,
    pub start_beat_units: u64,
    pub width_ssu_milli: u64,
}

impl Measure {
    pub fn new(index: usize, start_beat_units: u64, width_ssu_milli: u64) -> (measure: Measure)
        ensures
            measure.index == index,
            measure.start_beat_units == start_beat_units,
            measure.width_ssu_milli == width_ssu_milli,
    {
        Measure { index, start_beat_units, width_ssu_milli }
    }
}

} // verus!
