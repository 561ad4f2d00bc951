//! Clefs, key signatures and the staff layout model.

use vstd::prelude::*;

use crate::music::measure::{Measure, TimeSignature};

verus! {

#[derive(Clone, Copy, Debug, PartialEq, Eq, Structural)]
pub enum Clef {
    Treble,
    Bass,
    Alto,
    Tenor,
}

impl Clef {
    pub open spec fn spec_label(self) -> Seq<char> {
        match self {
            Clef::Treble => "Clave de Sol"@,
            Clef::Bass => "Clave de Fá"@,
            Clef::Alto => "Clave de Dó (Alto)"@,
            Clef::Tenor => "Clave de Dó (Tenor)"@,
        }
    }

    pub fn label(self) -> (name: &'static str)
        ensures
            name@ == self.spec_label(),
    {
        match self {
            Clef::Treble => "Clave de Sol",
            Clef::Bass => "Clave de Fá",
            Clef::Alto => "Clave de Dó (Alto)",
            Clef::Tenor => "Clave de Dó (Tenor)",
        }
    }

    pub open spec fn spec_symbol(self) -> Seq<char> {
        match self {
            Clef::Treble => "𝄞"@,
            Clef::Bass => "𝄢"@,
            Clef::Alto => "𝄡"@,
            Clef::Tenor => "𝄡"@,
        }
    }

    pub fn symbol(self) -> (sym: &'static str)
        ensures
            sym@ == self.spec_symbol(),
    {
        match self {
            Clef::Treble => "𝄞",
            Clef::Bass => "𝄢",
            Clef::Alto => "𝄡",
            Clef::Tenor => "𝄡",
        }
    }
}

#[derive(Clone, Copy, Debug, PartialEq, Eq, Structural)]
pub enum KeySignature {
    C,
    G,
    D,
    A,
    E,
    F,
    Bb,
    Eb,
    Ab,
}

impl KeySignature {
    pub open spec fn spec_label(self) -> Seq<char> {
        match self {
            KeySignature::C => "Dó maior / Lá menor"@,
            KeySignature::G => "Sol maior / Mi menor"@,
            KeySignature::D => "Ré maior / Si menor"@,
            KeySignature::A => "Lá maior / Fá# menor"@,
            KeySignature::E => "Mi maior / Dó# menor"@,
            KeySignature::F => "Fá maior / Ré menor"@,
            KeySignature::Bb => "Si♭ maior / Sol menor"@,
            KeySignature::Eb => "Mi♭ maior / Dó menor"@,
            KeySignature::Ab => "Lá♭ maior / Fá menor"@,
        }
    }

    pub fn label(self) -> (name: &'static str)
        ensures
            name@ == self.spec_label(),
    {
        match self {
            KeySignature::C => "Dó maior / Lá menor",
            KeySignature::G => "Sol maior / Mi menor",
            KeySignature::D => "Ré maior / Si menor",
            KeySignature::A => "Lá maior / Fá# menor",
            KeySignature::E => "Mi maior / Dó# menor",
            KeySignature::F => "Fá maior / Ré menor",
            KeySignature::Bb => "Si♭ maior / Sol menor",
            KeySignature::Eb => "Mi♭ maior / Dó menor",
            KeySignature::Ab => "Lá♭ maior / Fá menor",
        }
    }

    /// Sharps in the signature, negated for flats.
    pub open spec fn spec_accidental_count(self) -> int {
        match self {
            KeySignature::C => 0,
            KeySignature::G => 1,
            KeySignature::D => 2,
            KeySignature::A => 3,
            KeySignature::E => 4,
            KeySignature::F => -1,
            KeySignature::Bb => -2,
            KeySignature::Eb => -3,
            KeySignature::Ab => -4,
        }
    }

    pub fn accidental_count(self) -> (count: i8)
        ensures
            count == self.spec_accidental_count(),
    {
        match self {
            KeySignature::C => 0,
            KeySignature::G => 1,
            KeySignature::D => 2,
            KeySignature::A => 3,
            KeySignature::E => 4,
            KeySignature::F => -1,
            KeySignature::Bb => -2,
            KeySignature::Eb => -3,
            KeySignature::Ab => -4,
        }
    }
}

/// What a freshly engraved measure of index `idx` looks like on a
/// staff with the given measure length.
pub open spec fn spec_fresh_measure(idx: int, per_measure_units: u64) -> Measure {
    Measure {
        index: idx as usize,
        start_beat_units: (idx * per_measure_units) as u64,
        width_ssu_milli: (per_measure_units * 125 / 2) as u64,
    }
}

/// How many measures a staff needs to hold `total_beat_units`: the
/// count of full or partial measures, and at least one.
pub open spec fn spec_needed_measures(total_beat_units: u64, per_measure_units: u64) -> int
    recommends
        per_measure_units > 0,
{
    let full = (total_beat_units + per_measure_units - 1) as int / per_measure_units as int;
    if full < 1 {
        1
    } else {
        full
    }
}

#[derive(Clone, Debug)]
pub struct Staff {
    pub index: usize,
    pub line_count: u8,
    pub line_spacing_ssu_milli: u32,
    pub clef: Clef,
    pub key_signature: KeySignature,
    pub time_signature: TimeSignature,
    pub measures: Vec<Measure>,
}

impl Staff {
    pub fn new(index: usize, clef: Clef, key_signature: KeySignature, time_signature: TimeSignature)
        -> (staff: Staff)
        ensures
            staff.index == index,
            staff.line_count == 5,
            staff.line_spacing_ssu_milli == 1000,
            staff.clef == clef,
            staff.key_signature == key_signature,
            staff.time_signature == time_signature,
            staff.measures@.len() == 0,
    {
        Staff {
            index,
            line_count: 5,
            line_spacing_ssu_milli: 1000,
            clef,
            key_signature,
            time_signature,
            measures: Vec::new(),
        }
    }

    /// Appends measures until the staff can hold `total_beat_units`
    /// of music.  Existing measures are never touched; each appended
    /// measure starts where its index says and has the standard
    /// engraved width of four staff-space units per beat.
    pub fn ensure_measure_count(&mut self, total_beat_units: u64)
        requires
            total_beat_units <= 0x0FFF_FFFF,
        ensures
            final(self).index == old(self).index,
            final(self).line_count == old(self).line_count,
            final(self).line_spacing_ssu_milli == old(self).line_spacing_ssu_milli,
            final(self).clef == old(self).clef,
            final(self).key_signature == old(self).key_signature,
            final(self).time_signature == old(self).time_signature,
            final(self).measures@.len() == if old(self).measures@.len() >= spec_needed_measures(
                total_beat_units,
                old(self).time_signature.spec_beats_per_measure_units(),
            ) {
                old(self).measures@.len() as int
            } else {
                spec_needed_measures(
                    total_beat_units,
                    old(self).time_signature.spec_beats_per_measure_units(),
                )
            },
            forall|j: int|
                0 <= j < old(self).measures@.len() ==> final(self).measures@[j] == old(self).measures@[j],
            forall|j: int|
                old(self).measures@.len() <= j < final(self).measures@.len() ==> final(self).measures@[j] == spec_fresh_measure(
                    j,
                    old(self).time_signature.spec_beats_per_measure_units(),
                ),
    {
        let per_measure = self.time_signature.beats_per_measure_units();
        let full: u64 = (total_beat_units + per_measure - 1) / per_measure;
        let needed: usize = if full < 1 {
            1
        } else {
            full as usize
        };

        if self.measures.len() >= needed {
            return ;
        }

        let start = self.measures.len();
        let width = per_measure * 125 / 2;
        for idx in start..needed
            invariant
                per_measure == self.time_signature.spec_beats_per_measure_units(),
                width == per_measure * 125 / 2,
                needed == spec_needed_measures(total_beat_units, per_measure),
                needed <= 0x0040_0000,
                start <= idx <= needed,
                self.index == old(self).index,
                self.line_count == old(self).line_count,
                self.line_spacing_ssu_milli == old(self).line_spacing_ssu_milli,
                self.clef == old(self).clef,
                self.key_signature == old(self).key_signature,
                self.time_signature == old(self).time_signature,
                self.measures@.len() == idx,
                forall|j: int|
                    0 <= j < start ==> self.measures@[j] == old(self).measures@[j],
                forall|j: int|
                    start <= j < idx ==> self.measures@[j] == spec_fresh_measure(j, per_measure),
        {
            self.measures.push(Measure::new(idx, (idx as u64) * per_measure, width));
        }
    }
}

#[derive(Clone, Debug)]
pub struct StaffSystem {
    pub staffs: Vec<Staff>,
}

impl Default for StaffSystem {
    fn default() -> (system: Self)
        ensures
            system.staffs@.len() == 0,
    {
        StaffSystem { staffs: Vec::new() }
    }
}

impl StaffSystem {
    /// The standard grand-staff pair: a treble staff over a bass
    /// staff, both carrying the given signatures.
    pub fn with_standard_pair(key_signature: KeySignature, time_signature: TimeSignature) -> (system:
        StaffSystem)
        ensures
            system.staffs@.len() == 2,
            system.staffs@[0].clef == Clef::Treble,
            system.staffs@[1].clef == Clef::Bass,
            forall|i: int|
                0 <= i < 2 ==> {
                    &&& (#[trigger] system.staffs@[i]).index == i
                    &&& system.staffs@[i].key_signature == key_signature
                    &&& system.staffs@[i].time_signature == time_signature
                    &&& system.staffs@[i].measures@.len() == 0
                },
    {
        let mut staffs: Vec<Staff> = Vec::new();
        staffs.push(Staff::new(0, Clef::Treble, key_signature, time_signature));
        staffs.push(Staff::new(1, Clef::Bass, key_signature, time_signature));
        StaffSystem { staffs }
    }

    /// Extends every staff so that it can hold `total_beat_units` of
    /// music, as [`Staff::ensure_measure_count`] does.
    pub fn ensure_layout_for_beats(&mut self, total_beat_units: u64)
        requires
            total_beat_units <= 0x0FFF_FFFF,
        ensures
            final(self).staffs@.len() == old(self).staffs@.len(),
            forall|i: int|
                0 <= i < old(self).staffs@.len() ==> {
                    let per = (#[trigger] old(self).staffs@[i]).time_signature
                        .spec_beats_per_measure_units();
                    let needed = spec_needed_measures(total_beat_units, per);
                    &&& final(self).staffs@[i].index == old(self).staffs@[i].index
                    &&& final(self).staffs@[i].clef == old(self).staffs@[i].clef
                    &&& final(self).staffs@[i].key_signature == old(self).staffs@[i].key_signature
                    &&& final(self).staffs@[i].time_signature == old(self).staffs@[i].time_signature
                    &&& final(self).staffs@[i].measures@.len() == if old(self).staffs@[i].measures@.len() >= needed {
                        old(self).staffs@[i].measures@.len() as int
                    } else {
                        needed
                    }
                    &&& forall|j: int|
                        0 <= j < old(self).staffs@[i].measures@.len() ==> final(self).staffs@[i].measures@[j] == old(self).staffs@[i].measures@[j]
                    &&& forall|j: int|
                        old(self).staffs@[i].measures@.len() <= j < final(self).staffs@[i].measures@.len() ==> final(self).staffs@[i].measures@[j]
                            == spec_fresh_measure(j, per)
                },
    {
        let staff_count = self.staffs.len();
        for i in 0..staff_count
            invariant
                staff_count == self.staffs@.len() == old(self).staffs@.len(),
                total_beat_units <= 0x0FFF_FFFF,
                forall|k: int| i <= k < staff_count ==> self.staffs@[k] == old(self).staffs@[k],
                forall|k: int|
                    0 <= k < i ==> {
                        let per = (#[trigger] old(self).staffs@[k]).time_signature
                            .spec_beats_per_measure_units();
                        let needed = spec_needed_measures(total_beat_units, per);
                        &&& self.staffs@[k].index == old(self).staffs@[k].index
                        &&& self.staffs@[k].clef == old(self).staffs@[k].clef
                        &&& self.staffs@[k].key_signature == old(self).staffs@[k].key_signature
                        &&& self.staffs@[k].time_signature == old(self).staffs@[k].time_signature
                        &&& self.staffs@[k].measures@.len() == if old(self).staffs@[k].measures@.len() >= needed {
                            old(self).staffs@[k].measures@.len() as int
                        } else {
                            needed
                        }
                        &&& forall|j: int|
                            0 <= j < old(self).staffs@[k].measures@.len() ==> self
                                .staffs@[k].measures@[j] == old(self).staffs@[k].measures@[j]
                        &&& forall|j: int|
                            old(self).staffs@[k].measures@.len() <= j < self
                                .staffs@[k].measures@.len() ==> self.staffs@[k].measures@[j]
                                == spec_fresh_measure(j, per)
                    },
        {
            self.staffs[i].ensure_measure_count(total_beat_units);
        }
    }
}

} // verus!
